//! Utilization of the admission pool, as reported to the embedding
//! application.

use vstd::prelude::*;

use crate::pool::PoolState;

verus! {

/// A reading of how many connection slots are in use, out of how many.
#[derive(Clone, Copy, Debug, PartialEq, Eq, Structural)]
pub struct Stats {
    pub curr_conns: usize,
    pub max_conns: usize,
}

impl Stats {
    /// The pool that a reading shows.
    pub open spec fn pool(self) -> PoolState {
        PoolState {
            capacity: self.max_conns as nat,
            available: (self.max_conns - self.curr_conns) as nat,
        }
    }

    /// The reading for a pool of `max_conns` slots of which `available` were
    /// free. The count of connections is what is not free; a reading that
    /// shows more free slots than there are counts as none in use.
    pub fn observe(max_conns: usize, available: usize) -> (stats: Stats)
        ensures
            stats.max_conns == max_conns,
            stats.curr_conns == if available <= max_conns {
                max_conns - available
            } else {
                0
            },
            stats.curr_conns <= stats.max_conns,
            stats.pool().wf(),
            stats.pool().in_use() == stats.curr_conns,
            available <= max_conns ==> stats.pool() == (PoolState {
                capacity: max_conns as nat,
                available: available as nat,
            }),
    {
        let curr_conns: usize = if available <= max_conns {
            max_conns - available
        } else {
            0
        };
        Stats { curr_conns, max_conns }
    }

    /// Whether no connection holds a slot.
    pub open spec fn spec_is_idle(&self) -> bool {
        self.curr_conns == 0
    }

    /// Whether no connection holds a slot.
    #[verifier::when_used_as_spec(spec_is_idle)]
    pub fn is_idle(&self) -> (idle: bool)
        ensures
            idle == self.spec_is_idle(),
    {
        self.curr_conns == 0
    }
}

/// A reading shows no connection exactly if the pool it shows has every
/// slot free, which is what the accept loop waits for while it drains.
pub proof fn law_idle_reading_is_a_drained_pool(stats: Stats)
    requires
        stats.curr_conns <= stats.max_conns,
    ensures
        stats.is_idle() <==> stats.pool().drained(stats.pool().capacity),
        stats.pool().in_use() == stats.curr_conns,
        stats.pool().wf(),
{
}

} // verus!
