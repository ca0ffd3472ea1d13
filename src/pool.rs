use vstd::prelude::*;

verus! {

/// The persistent record of a pool: the sum of the amounts staked into it.
#[derive(Clone, Copy, Debug, PartialEq, Eq, Structural)]
pub struct Pool {
    pub total_staked: u64,
}

/// A record holding a bare counter; no operation reads or writes it.
#[derive(Clone, Copy, Debug, PartialEq, Eq, Structural)]
pub struct BaseAccount {
    pub count: u64,
}

/// Why initializing a pool record failed.
#[derive(Debug, PartialEq, Eq)]
pub enum InitError<E> {
    /// A record already stands at the target address.
    AlreadyInitialized,
    /// The host could not allocate the record (for instance, the payer could
    /// not cover its cost); the host's error is kept as it was.
    Allocation(E),
}

/// Why a stake operation failed.
#[derive(Debug, PartialEq, Eq)]
pub enum StakeError<E> {
    /// The token transfer into the pool failed; its error is kept as it was.
    Transfer(E),
    /// Adding the amount would take the pool's total past `u64::MAX`.
    Overflow,
}

impl Pool {
    /// The record that the initializer creates.
    pub open spec fn initial() -> Pool {
        Pool { total_staked: 0 }
    }

    /// The record after `amount` more has been staked into it, or `None`
    /// where the total would no longer fit in a `u64`.
    pub open spec fn staked(self, amount: u64) -> Option<Pool> {
        if self.total_staked + amount <= u64::MAX {
            Some(Pool { total_staked: (self.total_staked + amount) as u64 })
        } else {
            None
        }
    }

    /// A fresh pool record, with nothing staked.
    pub fn new() -> (r: Pool)
        ensures
            r == Pool::initial(),
    {
        Pool { total_staked: 0 }
    }

    /// The amount staked into the pool so far.
    pub fn total_staked(&self) -> (r: u64)
        ensures
            r == self.total_staked,
    {
        self.total_staked
    }
}

/// Creates the pool record in `record`, the slot at the pool's address, with
/// nothing staked. `allocation` is the outcome of the host's allocation of
/// the record's storage.
///
/// Fails, leaving the slot as it was, when a record already stands there or
/// when the allocation failed.
pub fn initialize_pool<E>(record: &mut Option<Pool>, allocation: Result<(), E>) -> (r: Result<(), InitError<E>>)
    ensures
        old(record).is_some() ==> r == Err::<(), InitError<E>>(InitError::AlreadyInitialized)
            && *final(record) == *old(record),
        old(record).is_none() ==> match allocation {
            Ok(_) => r is Ok && *final(record) == Some(Pool::initial()),
            Err(e) => r == Err::<(), InitError<E>>(InitError::Allocation(e))
                && *final(record) == *old(record),
        },
{
    if record.is_some() {
        return Err(InitError::AlreadyInitialized);
    }
    match allocation {
        Ok(()) => {
            *record = Some(Pool::new());
            Ok(())
        },
        Err(e) => Err(InitError::Allocation(e)),
    }
}

/// Records a stake of `amount` into `pool`. `transfer` is the outcome of the
/// token transfer of `amount` from the staker's token account to the pool's,
/// which comes first.
///
/// When the transfer failed its error is returned and the pool is left as it
/// was. Otherwise `amount` is added to the total; where the sum would not fit
/// in a `u64` the call fails with `Overflow` instead and the pool is left as
/// it was.
/// A failed operation is undone as a whole by the host, transfer included.
pub fn stake_token<E>(pool: &mut Pool, amount: u64, transfer: Result<(), E>) -> (r: Result<(), StakeError<E>>)
    ensures
        match transfer {
            Err(e) => r == Err::<(), StakeError<E>>(StakeError::Transfer(e))
                && *final(pool) == *old(pool),
            Ok(_) => match old(pool).staked(amount) {
                Some(p) => r is Ok && *final(pool) == p,
                None => r == Err::<(), StakeError<E>>(StakeError::Overflow)
                    && *final(pool) == *old(pool),
            },
        },
{
    match transfer {
        Err(e) => Err(StakeError::Transfer(e)),
        Ok(()) => match pool.total_staked.checked_add(amount) {
            Some(t) => {
                pool.total_staked = t;
                Ok(())
            },
            None => Err(StakeError::Overflow),
        },
    }
}

} // verus!
