//! Admission control: a fixed number of connection slots, handed out as
//! owned permits and taken back when a permit is released.
//!
//! The slots live in a `tokio::sync::Semaphore` that the accept loop, every
//! connection task and the handle share. `PoolState` is the same pool as
//! plain numbers; it is what the laws of the connection lifecycle speak of.

use std::sync::Arc;
use tokio::sync::OwnedSemaphorePermit;
use tokio::sync::Semaphore;
use tokio::sync::TryAcquireError;
use vstd::prelude::*;

use crate::stats::Stats;

verus! {

/// `tokio::sync::Semaphore`, carried through as an opaque value.
#[verifier::external_type_specification]
#[verifier::external_body]
pub struct ExSemaphore(Semaphore);

/// `tokio::sync::OwnedSemaphorePermit`, carried through as an opaque value.
#[verifier::external_type_specification]
#[verifier::external_body]
pub struct ExOwnedSemaphorePermit(OwnedSemaphorePermit);

/// `tokio::sync::TryAcquireError`, carried through as an opaque value.
#[verifier::external_type_specification]
#[verifier::external_body]
pub struct ExTryAcquireError(TryAcquireError);

/// The largest number of slots a pool can be created with.
pub open spec fn max_capacity() -> int {
    usize::MAX as int / 8
}

/// `tokio::sync::Semaphore::MAX_PERMITS`, which tokio defines as
/// `usize::MAX >> 3`.
#[verifier::external_body]
fn semaphore_max_permits() -> (limit: usize)
    ensures
        limit as int == max_capacity(),
{
    Semaphore::MAX_PERMITS
}

/// `tokio::sync::Semaphore::new`, which panics when asked for more than
/// `MAX_PERMITS` permits. Nothing is claimed of the semaphore it returns.
#[verifier::external_body]
fn semaphore_new(permits: usize) -> (semaphore: Semaphore)
    requires
        permits as int <= max_capacity(),
{
    Semaphore::new(permits)
}

/// `Arc::clone`: a second handle to the same semaphore.
#[verifier::external_body]
fn semaphore_share(semaphore: &Arc<Semaphore>) -> (shared: Arc<Semaphore>)
    ensures
        shared == *semaphore,
{
    Arc::clone(semaphore)
}

/// `tokio::sync::Semaphore::try_acquire_owned`. Other tasks take and return
/// permits at any time, so nothing is claimed of which way the attempt goes.
#[verifier::external_body]
fn semaphore_try_acquire_owned(semaphore: Arc<Semaphore>) -> (outcome: Result<
    OwnedSemaphorePermit,
    TryAcquireError,
>) {
    semaphore.try_acquire_owned()
}

/// `tokio::sync::Semaphore::available_permits`: a reading of a counter that
/// other tasks change at any time, so nothing is claimed of its value.
#[verifier::external_body]
fn semaphore_available_permits(semaphore: &Arc<Semaphore>) -> (available: usize) {
    semaphore.available_permits()
}

/// `drop` of a `tokio::sync::OwnedSemaphorePermit`, which hands the permit
/// back to its semaphore.
#[verifier::external_body]
fn semaphore_permit_drop(permit: OwnedSemaphorePermit) {
    drop(permit)
}

/// The pool as plain numbers: how many slots exist and how many are free.
pub struct PoolState {
    pub capacity: nat,
    pub available: nat,
}

impl PoolState {
    /// A pool never has more free slots than slots.
    pub open spec fn wf(self) -> bool {
        self.available <= self.capacity
    }

    /// A pool with every slot free.
    pub open spec fn fresh(capacity: nat) -> PoolState {
        PoolState { capacity, available: capacity }
    }

    /// The number of permits that are out.
    pub open spec fn in_use(self) -> int {
        self.capacity - self.available
    }

    /// Whether an attempt to take a permit succeeds.
    pub open spec fn grants(self) -> bool {
        self.available > 0
    }

    /// The pool after an attempt to take a permit: one slot fewer is free
    /// when the attempt succeeds, nothing changes when it does not.
    pub open spec fn try_acquire(self) -> PoolState {
        if self.grants() {
            PoolState { available: (self.available - 1) as nat, ..self }
        } else {
            self
        }
    }

    /// The pool after one permit came back. Without a permit out there is
    /// nothing to give back, and the pool stays as it is.
    pub open spec fn release(self) -> PoolState {
        if self.in_use() > 0 {
            PoolState { available: self.available + 1, ..self }
        } else {
            self
        }
    }

    /// Whether `n` permits are free at once.
    pub open spec fn drained(self, n: nat) -> bool {
        self.available >= n
    }
}

/// An owned token that authorizes one active connection slot. It is made by
/// a successful `AdmissionPool::try_acquire` and by nothing else, and it
/// cannot be duplicated; the slot returns to the pool when the token is
/// released or dropped.
#[derive(Debug)]
pub struct Permit {
    inner: OwnedSemaphorePermit,
}

/// The receipt for a permit that went back to its pool. Only
/// `Permit::release` makes one.
pub struct Released {
    permit: Ghost<Permit>,
}

impl Released {
    /// The permit that was released.
    pub closed spec fn permit(&self) -> Permit {
        self.permit@
    }
}

impl Permit {
    pub closed spec fn inner(&self) -> OwnedSemaphorePermit {
        self.inner
    }

    /// The permit that an attempt on the semaphore came to: one for every
    /// attempt that succeeded, none for an attempt that failed, whether for
    /// want of a free slot or because the semaphore is closed.
    fn granted(outcome: Result<OwnedSemaphorePermit, TryAcquireError>) -> (permit: Option<Permit>)
        ensures
            outcome is Ok <==> permit is Some,
            permit matches Some(granted) ==> outcome == Ok::<
                OwnedSemaphorePermit,
                TryAcquireError,
            >(granted.inner()),
    {
        match outcome {
            Ok(inner) => Some(Permit { inner }),
            Err(_) => None,
        }
    }

    /// Hands the slot back to the pool.
    pub fn release(self) -> (receipt: Released)
        ensures
            receipt.permit() == self,
    {
        let receipt = Released { permit: Ghost(self) };
        semaphore_permit_drop(self.inner);
        receipt
    }
}

/// A fixed-capacity pool of connection slots.
#[derive(Debug)]
pub struct AdmissionPool {
    capacity: usize,
    semaphore: Arc<Semaphore>,
}

impl AdmissionPool {
    /// The number of slots the pool was created with.
    pub closed spec fn spec_capacity(&self) -> usize {
        self.capacity
    }

    /// The largest capacity `new` accepts.
    pub fn max_capacity() -> (limit: usize)
        ensures
            limit as int == max_capacity(),
    {
        semaphore_max_permits()
    }

    /// A pool of `capacity` slots, all of them free.
    pub fn new(capacity: usize) -> (pool: AdmissionPool)
        requires
            capacity as int <= max_capacity(),
        ensures
            pool.spec_capacity() == capacity,
    {
        AdmissionPool { capacity, semaphore: Arc::new(semaphore_new(capacity)) }
    }

    #[verifier::when_used_as_spec(spec_capacity)]
    pub fn capacity(&self) -> (capacity: usize)
        ensures
            capacity == self.spec_capacity(),
    {
        self.capacity
    }

    /// Another handle to the same pool.
    pub fn share(&self) -> (pool: AdmissionPool)
        ensures
            pool == *self,
    {
        AdmissionPool { capacity: self.capacity, semaphore: semaphore_share(&self.semaphore) }
    }

    /// The semaphore that holds the slots, for a caller that has to wait on
    /// it.
    pub fn semaphore(&self) -> (semaphore: Arc<Semaphore>)
        ensures
            semaphore == self.spec_semaphore(),
    {
        semaphore_share(&self.semaphore)
    }

    pub closed spec fn spec_semaphore(&self) -> Arc<Semaphore> {
        self.semaphore
    }

    /// Takes a slot without waiting. Whether one is free is decided by the
    /// semaphore at the instant of the call.
    pub fn try_acquire(&self) -> (permit: Option<Permit>) {
        Permit::granted(semaphore_try_acquire_owned(semaphore_share(&self.semaphore)))
    }

    /// The number of free slots at the instant of the call.
    pub fn available(&self) -> (available: usize) {
        semaphore_available_permits(&self.semaphore)
    }

    /// The utilization at the instant of the call.
    pub fn stats(&self) -> (stats: Stats)
        ensures
            stats.max_conns == self.capacity(),
            stats.curr_conns <= stats.max_conns,
    {
        Stats::observe(self.capacity, self.available())
    }

    /// How many permits to wait for at once while draining: the whole
    /// capacity, or as many as one request can carry.
    pub fn drain_request(&self) -> (permits: u32)
        ensures
            permits as int == if self.capacity() <= u32::MAX {
                self.capacity() as int
            } else {
                u32::MAX as int
            },
    {
        if self.capacity <= u32::MAX as usize {
            self.capacity as u32
        } else {
            u32::MAX
        }
    }
}

} // verus!
