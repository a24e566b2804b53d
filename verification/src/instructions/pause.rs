use crate::error::StakingError;
use crate::key::Pubkey;
use crate::states::pool::Pool;
use vstd::prelude::*;

verus! {

/// The first failing check shared by pausing and unpausing: the signer must
/// be the pool's authority, and the pool must not be paused.
pub open spec fn pause_accounts_error(signer: Pubkey, pool: Pool) -> Option<StakingError> {
    if pool.authority@ != signer@ {
        Some(StakingError::Unauthorized)
    } else if pool.is_paused {
        Some(StakingError::AlreadyPaused)
    } else {
        None
    }
}

/// Checks that the signer is the pool's authority and that the pool is not paused.
pub(crate) fn check_pause_accounts(signer: &Pubkey, pool: &Pool) -> (r: Result<(), StakingError>)
    ensures
        r is Ok <==> pause_accounts_error(*signer, *pool) is None,
        r matches Err(e) ==> pause_accounts_error(*signer, *pool) == Some(e),
{
    if !pool.authority.matches(signer) {
        return Err(StakingError::Unauthorized);
    }
    if pool.is_paused {
        return Err(StakingError::AlreadyPaused);
    }
    Ok(())
}

/// What the pause instruction reads: the signer and the pool.
#[derive(Clone, Copy, Debug, PartialEq, Eq)]
pub struct Pause {
    pub signer: Pubkey,
    pub pool: Pool,
}

impl Pause {
    /// The first account check that fails, if any.
    pub open spec fn accounts_error(self) -> Option<StakingError> {
        pause_accounts_error(self.signer, self.pool)
    }

    /// Checks the signer's authority and that the pool is not paused yet.
    pub fn validate(&self) -> (r: Result<(), StakingError>)
        ensures
            r is Ok <==> self.accounts_error() is None,
            r matches Err(e) ==> self.accounts_error() == Some(e),
    {
        check_pause_accounts(&self.signer, &self.pool)
    }
}

/// Result and accounts after pausing: the pool is marked paused.
pub open spec fn pause_outcome(ctx: Pause) -> (Result<(), StakingError>, Pause) {
    if ctx.accounts_error() is Some {
        (Err(ctx.accounts_error()->0), ctx)
    } else {
        (Ok(()), Pause { pool: Pool { is_paused: true, ..ctx.pool }, ..ctx })
    }
}

/// Pauses the pool; on `Err` the accounts are left as they were.
pub fn handle_pause(ctx: &mut Pause) -> (r: Result<(), StakingError>)
    ensures
        (r, *final(ctx)) == pause_outcome(*old(ctx)),
        r is Err ==> *final(ctx) == *old(ctx),
{
    match ctx.validate() {
        Err(e) => {
            return Err(e);
        },
        Ok(()) => {},
    }
    ctx.pool.is_paused = true;
    Ok(())
}

} // verus!
