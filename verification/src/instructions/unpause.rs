use crate::error::StakingError;
use crate::instructions::pause::{check_pause_accounts, pause_accounts_error};
use crate::key::Pubkey;
use crate::states::pool::Pool;
use vstd::prelude::*;

verus! {

/// What the unpause instruction reads: the signer and the pool.
///
/// Its account checks are those of pausing: a pool that is paused is refused
/// with `AlreadyPaused`.
#[derive(Clone, Copy, Debug, PartialEq, Eq)]
pub struct Unpause {
    pub signer: Pubkey,
    pub pool: Pool,
}

impl Unpause {
    /// The first account check that fails, if any.
    pub open spec fn accounts_error(self) -> Option<StakingError> {
        pause_accounts_error(self.signer, self.pool)
    }

    /// Checks the signer's authority and that the pool is not paused.
    pub fn validate(&self) -> (r: Result<(), StakingError>)
        ensures
            r is Ok <==> self.accounts_error() is None,
            r matches Err(e) ==> self.accounts_error() == Some(e),
    {
        check_pause_accounts(&self.signer, &self.pool)
    }
}

/// Result and accounts after unpausing: the pool is marked not paused.
pub open spec fn unpause_outcome(ctx: Unpause) -> (Result<(), StakingError>, Unpause) {
    if ctx.accounts_error() is Some {
        (Err(ctx.accounts_error()->0), ctx)
    } else {
        (Ok(()), Unpause { pool: Pool { is_paused: false, ..ctx.pool }, ..ctx })
    }
}

/// Clears the pool's paused flag; on `Err` the accounts are left as they were.
pub fn handle_unpause(ctx: &mut Unpause) -> (r: Result<(), StakingError>)
    ensures
        (r, *final(ctx)) == unpause_outcome(*old(ctx)),
        r is Err ==> *final(ctx) == *old(ctx),
{
    match ctx.validate() {
        Err(e) => {
            return Err(e);
        },
        Ok(()) => {},
    }
    ctx.pool.is_paused = false;
    Ok(())
}

} // verus!
