pub mod pool;
pub mod user;
