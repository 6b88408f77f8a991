//! Locking and unlocking a pool.
use vstd::prelude::*;

use crate::amm::{LPErrors, Pool};
use crate::ledger::{Account, Pubkey};

verus! {

/// Accounts of the lock toggle.
#[derive(Clone, Copy, Debug)]
pub struct Update {
    pub user: Pubkey,
    pub pool_account: Account<Pool>,
}

/// What `update_lock` answers for a pool and a caller.
pub open spec fn update_lock_result(pool: Pool, user: Pubkey) -> Result<(), LPErrors> {
    match pool.authority {
        Some(admin) => if admin == user {
            Ok(())
        } else {
            Err(LPErrors::InvalidAdmin)
        },
        None => Err(LPErrors::NoAdmin),
    }
}

/// The pool after `update_lock`: the lock flipped when the caller is the
/// admin, unchanged otherwise.
pub open spec fn update_lock_pool(pool: Pool, user: Pubkey) -> Pool {
    if update_lock_result(pool, user) is Ok {
        Pool { locked: !pool.locked, ..pool }
    } else {
        pool
    }
}

impl Update {
    /// Flips the pool's lock. Only the pool's admin may do it: a pool without
    /// admin answers `NoAdmin`, another caller `InvalidAdmin`, and then
    /// nothing changes.
    pub fn update_lock(&mut self) -> (r: Result<(), LPErrors>)
        ensures
            r == update_lock_result(old(self).pool_account.data, old(self).user),
            final(self).pool_account.data == update_lock_pool(old(self).pool_account.data, old(self).user),
            final(self).pool_account.key == old(self).pool_account.key,
            final(self).user == old(self).user,
    {
        match self.pool_account.data.authority {
            Some(admin_pubkey) => {
                if !admin_pubkey.equals(&self.user) {
                    return Err(LPErrors::InvalidAdmin);
                }
            },
            None => {
                return Err(LPErrors::NoAdmin);
            },
        }
        self.pool_account.data.locked = !self.pool_account.data.locked;
        Ok(())
    }
}

/// Flipping the lock twice gives the pool back, and the second call answers
/// as the first did.
pub proof fn lemma_update_lock_twice(pool: Pool, user: Pubkey)
    ensures
        update_lock_result(update_lock_pool(pool, user), user) == update_lock_result(pool, user),
        update_lock_pool(update_lock_pool(pool, user), user) == pool,
{
}

/// Only the pool's admin changes the lock, and the lock is all that a call
/// can change.
pub proof fn lemma_update_lock_only_admin(pool: Pool, user: Pubkey)
    ensures
        update_lock_pool(pool, user).locked != pool.locked <==> pool.authority == Some(user),
        update_lock_pool(pool, user) == (Pool { locked: update_lock_pool(pool, user).locked, ..pool }),
{
}

} // verus!
