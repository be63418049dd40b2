//! The permit pool: a counting semaphore that bounds how many fetches are in
//! flight across the whole process.
//!
//! The pool only counts. Whoever drives it waits, by whatever means it has,
//! when `try_acquire` hands out nothing.

use vstd::prelude::*;
use crate::indexer::error::ConfigError;

verus! {

/// The default capacity of a pool.
pub const DEFAULT_MAX_CONCURRENCY: u32 = 100;

/// The right to run one fetch. It is handed out by `PermitPool::try_acquire`
/// and given back to `PermitPool::release`; it cannot be copied or made up.
#[derive(Debug)]
pub struct Permit {
    token: (),
}

/// An operation on a pool.
pub enum PermitOp {
    Acquire,
    Release,
}

/// The number of permits that are out after `op`, in a pool of `capacity`
/// permits of which `outstanding` were out before.
pub open spec fn outstanding_after(capacity: nat, outstanding: nat, op: PermitOp) -> nat {
    match op {
        PermitOp::Acquire => if outstanding < capacity {
            outstanding + 1
        } else {
            outstanding
        },
        PermitOp::Release => if outstanding > 0 {
            (outstanding - 1) as nat
        } else {
            0
        },
    }
}

/// The number of permits that are out after all of `ops`, in order.
pub open spec fn outstanding_after_all(capacity: nat, outstanding: nat, ops: Seq<PermitOp>) -> nat
    decreases ops.len(),
{
    if ops.len() == 0 {
        outstanding
    } else {
        outstanding_after(
            capacity,
            outstanding_after_all(capacity, outstanding, ops.drop_last()),
            ops.last(),
        )
    }
}

/// A counting semaphore.
#[derive(Debug)]
pub struct PermitPool {
    capacity: u32,
    outstanding: u32,
}

impl PermitPool {
    #[verifier::type_invariant]
    spec fn within_capacity(self) -> bool {
        1 <= self.capacity && self.outstanding <= self.capacity
    }

    /// How many permits the pool holds in all.
    pub closed spec fn capacity(self) -> nat {
        self.capacity as nat
    }

    /// How many permits are out at the moment.
    pub closed spec fn outstanding(self) -> nat {
        self.outstanding as nat
    }

    /// A pool of `max_concurrency` permits, none of them out. A pool without
    /// permits is refused.
    pub fn new(max_concurrency: u32) -> (pool: Result<PermitPool, ConfigError>)
        ensures
            max_concurrency == 0 ==> pool == Err::<PermitPool, ConfigError>(
                ConfigError::ZeroConcurrency,
            ),
            max_concurrency > 0 ==> pool is Ok && pool->Ok_0.capacity() == max_concurrency
                && pool->Ok_0.outstanding() == 0,
    {
        if max_concurrency == 0 {
            Err(ConfigError::ZeroConcurrency)
        } else {
            Ok(PermitPool { capacity: max_concurrency, outstanding: 0 })
        }
    }

    /// Takes a permit if one is free.
    pub fn try_acquire(&mut self) -> (permit: Option<Permit>)
        ensures
            permit is Some <==> old(self).outstanding() < old(self).capacity(),
            final(self).capacity() == old(self).capacity(),
            final(self).outstanding() == outstanding_after(
                old(self).capacity(),
                old(self).outstanding(),
                PermitOp::Acquire,
            ),
            final(self).outstanding() <= final(self).capacity(),
    {
        proof {
            use_type_invariant(&*self);
        }
        if self.outstanding < self.capacity {
            self.outstanding = self.outstanding + 1;
            Some(Permit { token: () })
        } else {
            None
        }
    }

    /// Gives a permit back.
    pub fn release(&mut self, permit: Permit)
        ensures
            final(self).capacity() == old(self).capacity(),
            final(self).outstanding() == outstanding_after(
                old(self).capacity(),
                old(self).outstanding(),
                PermitOp::Release,
            ),
            final(self).outstanding() <= final(self).capacity(),
    {
        proof {
            use_type_invariant(&*self);
        }
        if self.outstanding > 0 {
            self.outstanding = self.outstanding - 1;
        }
    }

    /// The number of permits that are out.
    pub fn in_use(&self) -> (n: u32)
        ensures
            n == self.outstanding(),
            n <= self.capacity(),
    {
        proof {
            use_type_invariant(self);
        }
        self.outstanding
    }

    /// The number of permits that are free.
    pub fn available(&self) -> (n: u32)
        ensures
            n == self.capacity() - self.outstanding(),
    {
        proof {
            use_type_invariant(self);
        }
        self.capacity - self.outstanding
    }

    /// The number of permits in all.
    pub fn max_concurrency(&self) -> (n: u32)
        ensures
            n == self.capacity(),
            n >= 1,
    {
        proof {
            use_type_invariant(self);
        }
        self.capacity
    }
}

/// Permit bound: whatever is acquired and released, in whatever order, the
/// number of permits that are out never exceeds the capacity.
pub proof fn lemma_permit_bound(capacity: nat, outstanding: nat, ops: Seq<PermitOp>)
    requires
        outstanding <= capacity,
    ensures
        outstanding_after_all(capacity, outstanding, ops) <= capacity,
    decreases ops.len(),
{
    if ops.len() > 0 {
        lemma_permit_bound(capacity, outstanding, ops.drop_last());
    }
}

} // verus!
