//! Connection accounting: how many connections are open, and the most that
//! were open at once since the peak was last reported.

use vstd::prelude::*;

verus! {

/// The seconds between two reports of the peak.
pub const REPORT_SECONDS: u64 = 60;

/// The two connection counters.
#[derive(Clone, Copy, Debug, PartialEq, Eq, Structural)]
pub struct ConnectionCounters {
    /// The number of connections that are open.
    pub active: usize,
    /// The most connections that were open at once since the last report.
    pub peak: usize,
}

/// The claim of one open connection on the counters. It is handed out when
/// the connection opens and handed back, once, when the connection's
/// resources are released: a lease cannot be copied, and handing it back
/// consumes it.
#[derive(Debug)]
pub struct ConnectionLease {
    /// The number of connections that were open once this one was counted.
    pub opened_as: usize,
}

/// `n + 1` as a counter holds it: it wraps to zero past the largest value.
pub open spec fn succ(n: usize) -> usize {
    if n == usize::MAX {
        0
    } else {
        (n + 1) as usize
    }
}

/// `n - 1` as a counter holds it: it wraps to the largest value below zero.
pub open spec fn pred(n: usize) -> usize {
    if n == 0 {
        usize::MAX
    } else {
        (n - 1) as usize
    }
}

impl ConnectionCounters {
    /// The counters after one more connection was opened: `active` is one
    /// higher and `peak` is at least the new `active`.
    pub open spec fn opened(self) -> ConnectionCounters {
        ConnectionCounters {
            active: succ(self.active),
            peak: if self.peak >= succ(self.active) {
                self.peak
            } else {
                succ(self.active)
            },
        }
    }

    /// The counters after one connection was closed. `peak` stays.
    pub open spec fn closed(self) -> ConnectionCounters {
        ConnectionCounters { active: pred(self.active), peak: self.peak }
    }

    /// The counters after the peak was reported. `active` stays.
    pub open spec fn drained(self) -> ConnectionCounters {
        ConnectionCounters { active: self.active, peak: 0 }
    }

    /// The counters after `n` connections were opened in a row.
    pub open spec fn opened_times(self, n: nat) -> ConnectionCounters
        decreases n,
    {
        if n == 0 {
            self
        } else {
            self.opened_times((n - 1) as nat).opened()
        }
    }

    /// The counters after `n` connections were closed in a row.
    pub open spec fn closed_times(self, n: nat) -> ConnectionCounters
        decreases n,
    {
        if n == 0 {
            self
        } else {
            self.closed_times((n - 1) as nat).closed()
        }
    }

    /// Counters with no connection open and none seen.
    pub fn new() -> (c: ConnectionCounters)
        ensures
            c == (ConnectionCounters { active: 0, peak: 0 }),
    {
        ConnectionCounters { active: 0, peak: 0 }
    }

    /// Records that a connection was opened and returns the number that are
    /// now open.
    pub fn open(&mut self) -> (now: usize)
        ensures
            *final(self) == old(self).opened(),
            now == final(self).active,
    {
        let now: usize = if self.active == usize::MAX {
            0
        } else {
            self.active + 1
        };
        self.active = now;
        if now > self.peak {
            self.peak = now;
        }
        now
    }

    /// Records that a connection was closed.
    pub fn close(&mut self)
        ensures
            *final(self) == old(self).closed(),
    {
        self.active = if self.active == 0 {
            usize::MAX
        } else {
            self.active - 1
        };
    }

    /// Counts a connection that opens and hands out its lease.
    pub fn acquire(&mut self) -> (lease: ConnectionLease)
        ensures
            *final(self) == old(self).opened(),
            lease.opened_as == final(self).active,
    {
        ConnectionLease { opened_as: self.open() }
    }

    /// Takes a lease back and counts its connection as closed.
    pub fn release(&mut self, lease: ConnectionLease)
        ensures
            *final(self) == old(self).closed(),
    {
        self.close();
    }

    /// Reads the peak and resets it to zero.
    pub fn take_peak(&mut self) -> (peak: usize)
        ensures
            peak == old(self).peak,
            *final(self) == old(self).drained(),
    {
        let peak = self.peak;
        self.peak = 0;
        peak
    }
}

/// After `n` connections were opened on fresh counters and none was closed,
/// `n` are active and the peak is `n`.
pub proof fn law_peak_counts_open_connections(n: nat)
    requires
        n <= usize::MAX,
    ensures
        (ConnectionCounters { active: 0, peak: 0 }).opened_times(n) == (ConnectionCounters {
            active: n as usize,
            peak: n as usize,
        }),
    decreases n,
{
    if n > 0 {
        law_peak_counts_open_connections((n - 1) as nat);
    }
}

/// Closing `n` of at least `n` active connections leaves the rest active and
/// the peak as it was.
pub proof fn lemma_closed_times(c: ConnectionCounters, n: nat)
    requires
        n <= c.active,
    ensures
        c.closed_times(n) == (ConnectionCounters {
            active: (c.active - n) as usize,
            peak: c.peak,
        }),
    decreases n,
{
    if n > 0 {
        lemma_closed_times(c, (n - 1) as nat);
    }
}

/// A peak lasts one reporting window: once `n` connections were opened, the
/// report reads `n`; when all of them have closed and one more opens, the
/// next report reads 1.
pub proof fn law_peak_resets_with_each_report(n: nat)
    requires
        n <= usize::MAX,
    ensures
        ({
            let full = (ConnectionCounters { active: 0, peak: 0 }).opened_times(n);
            let later = full.drained().closed_times(n).opened();
            &&& full.peak == n
            &&& later.active == 1
            &&& later.peak == 1
            &&& later.drained().peak == 0
        }),
{
    law_peak_counts_open_connections(n);
    let full = (ConnectionCounters { active: 0, peak: 0 }).opened_times(n);
    lemma_closed_times(full.drained(), n);
}

/// The peak never falls below the number of active connections through an
/// opening, and only a report lowers it.
pub proof fn law_peak_is_a_high_water_mark(c: ConnectionCounters)
    ensures
        c.opened().peak >= c.peak,
        c.opened().peak >= c.opened().active,
        c.closed().peak == c.peak,
{
}

} // verus!
