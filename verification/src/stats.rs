//! Counters of one connection pool.

use vstd::prelude::*;

verus! {

/// What the counters of a pool hold, as mathematical integers.
pub struct StatsView {
    /// Connections ever created.
    pub total: int,
    /// Connections created and not yet terminated.
    pub alive: int,
}

impl StatsView {
    /// The counters after one connection was created. Both counters are machine
    /// words and wrap around at their upper end.
    pub open spec fn after_add(self) -> StatsView {
        StatsView {
            total: if self.total == u64::MAX { 0 } else { self.total + 1 },
            alive: if self.alive == isize::MAX { isize::MIN as int } else { self.alive + 1 },
        }
    }

    /// The counters after one connection terminated: the total stays, the alive
    /// counter goes down by one and wraps around at its lower end.
    pub open spec fn after_del(self) -> StatsView {
        StatsView {
            total: self.total,
            alive: if self.alive == isize::MIN { isize::MAX as int } else { self.alive - 1 },
        }
    }

    /// The number of alive connections as callers read it: never negative.
    pub open spec fn alive_count(self) -> int {
        if self.alive > 0 { self.alive } else { 0 }
    }

    /// The counters after `n` connections were created one after the other.
    pub open spec fn after_adds(self, n: nat) -> StatsView
        decreases n,
    {
        if n == 0 {
            self
        } else {
            self.after_adds((n - 1) as nat).after_add()
        }
    }

    /// Far from the ends of the machine words, creating `n` connections adds
    /// `n` to both counters.
    pub proof fn lemma_after_adds(self, n: nat)
        ensures
            0 <= self.total && self.total + n <= u64::MAX ==> self.after_adds(n).total
                == self.total + n,
            isize::MIN <= self.alive && self.alive + n <= isize::MAX ==> self.after_adds(n).alive
                == self.alive + n,
        decreases n,
    {
        if n > 0 {
            self.lemma_after_adds((n - 1) as nat);
        }
    }
}

/// The counters of a pool: how many connections it ever created, and how many
/// of them are alive.
#[derive(Debug)]
pub struct PoolStats {
    total_connection: u64,
    alive_connection: isize,
}

impl View for PoolStats {
    type V = StatsView;

    closed spec fn view(&self) -> StatsView {
        StatsView { total: self.total_connection as int, alive: self.alive_connection as int }
    }
}

impl Default for PoolStats {
    fn default() -> (stats: PoolStats)
        ensures
            stats@ == (StatsView { total: 0, alive: 0 }),
    {
        PoolStats { total_connection: 0, alive_connection: 0 }
    }
}

impl PoolStats {
    /// The counters always fit their machine words.
    pub proof fn lemma_view_bounds(&self)
        ensures
            0 <= self@.total <= u64::MAX,
            isize::MIN <= self@.alive <= isize::MAX,
    {
    }

    /// Counts one more connection as created and alive.
    pub fn add_connection(&mut self)
        ensures
            final(self)@ == old(self)@.after_add(),
    {
        self.total_connection = self.total_connection.wrapping_add(1);
        self.alive_connection = self.alive_connection.wrapping_add(1);
    }

    /// Counts one connection as terminated. The total is left as it is.
    pub fn del_connection(&mut self)
        ensures
            final(self)@ == old(self)@.after_del(),
    {
        self.alive_connection = self.alive_connection.wrapping_sub(1);
    }

    /// The number of alive connections, zero where the counter is negative.
    pub fn alive_count(&self) -> (alive: usize)
        ensures
            alive == self@.alive_count(),
    {
        if self.alive_connection > 0 {
            self.alive_connection as usize
        } else {
            0
        }
    }

    /// The number of connections ever created.
    pub fn total_count(&self) -> (total: u64)
        ensures
            total == self@.total,
    {
        self.total_connection
    }
}

} // verus!
