//! How far a download has come, as a whole number of percent.

use vstd::prelude::*;

verus! {

/// The percentage of `total` that `received` makes up, rounded down, and
/// never more than 100. A download of nothing is complete from the start.
pub open spec fn percent(received: nat, total: nat) -> nat {
    if total == 0 {
        100
    } else if received >= total {
        100
    } else {
        received * 100 / total
    }
}

/// A percentage lies between 0 and 100, and is 100 exactly when all of
/// `total` was received.
pub proof fn lemma_percent_range(received: nat, total: nat)
    ensures
        percent(received, total) <= 100,
        percent(received, total) == 100 <==> received >= total,
{
    if total > 0 && received < total {
        assert(received * 100 / total < 100) by (nonlinear_arith)
            requires
                received < total,
                total > 0,
        ;
    }
}

/// The percentage never falls when more was received.
pub proof fn lemma_percent_monotonic(a: nat, b: nat, total: nat)
    requires
        a <= b,
    ensures
        percent(a, total) <= percent(b, total),
{
    lemma_percent_range(a, total);
    lemma_percent_range(b, total);
    if total > 0 && b < total {
        assert(a * 100 / total <= b * 100 / total) by (nonlinear_arith)
            requires
                a <= b,
                total > 0,
        ;
    }
}

/// The percentage of `total` that `received` makes up.
pub fn percent_done(received: u64, total: u64) -> (r: u8)
    ensures
        r == percent(received as nat, total as nat),
{
    if total == 0 || received >= total {
        return 100;
    }
    let scaled: u128 = (received as u128) * 100;
    let q: u128 = scaled / (total as u128);
    proof {
        lemma_percent_range(received as nat, total as nat);
    }
    q as u8
}

/// The count of a download in flight: how many bytes are expected and how
/// many have come.
#[derive(Clone, Copy, Debug, PartialEq, Eq, Structural)]
pub struct Transfer {
    pub total: u64,
    pub received: u64,
}

impl Transfer {
    /// Nothing received is more than what is expected.
    pub open spec fn wf(self) -> bool {
        self.received <= self.total
    }

    /// The percentage that the count stands at.
    pub open spec fn percent(self) -> nat {
        percent(self.received as nat, self.total as nat)
    }

    /// The count once `len` more bytes have come: the bytes received grow by
    /// `len`, but not beyond what is expected.
    pub open spec fn after(self, len: u64) -> Transfer {
        Transfer {
            total: self.total,
            received: if self.received + len >= self.total {
                self.total
            } else {
                (self.received + len) as u64
            },
        }
    }

    /// Whether all that is expected has come.
    pub open spec fn complete(self) -> bool {
        self.received >= self.total
    }

    /// The count of a download of `total` bytes of which none has come yet.
    pub fn start(total: u64) -> (r: Transfer)
        ensures
            r == (Transfer { total, received: 0 }),
            r.wf(),
    {
        Transfer { total, received: 0 }
    }

    /// Counts a chunk of `len` bytes and returns the percentage that the
    /// download now stands at. The percentage never falls, and it is 100
    /// exactly when all that is expected has come.
    pub fn record(&mut self, len: u64) -> (r: u8)
        ensures
            *final(self) == old(self).after(len),
            final(self).wf(),
            r == final(self).percent(),
            r >= old(self).percent(),
            r <= 100,
            r == 100 <==> final(self).complete(),
    {
        if self.received >= self.total || len >= self.total - self.received {
            self.received = self.total;
        } else {
            self.received = self.received + len;
        }
        proof {
            lemma_percent_range(old(self).received as nat, self.total as nat);
            lemma_percent_range(self.received as nat, self.total as nat);
            if old(self).received < self.total {
                lemma_percent_monotonic(
                    old(self).received as nat,
                    self.received as nat,
                    self.total as nat,
                );
            }
        }
        percent_done(self.received, self.total)
    }

    /// The percentage that the count stands at.
    pub fn progress(&self) -> (r: u8)
        ensures
            r == self.percent(),
            r <= 100,
    {
        proof {
            lemma_percent_range(self.received as nat, self.total as nat);
        }
        percent_done(self.received, self.total)
    }

    /// Whether all that is expected has come.
    pub fn is_complete(&self) -> (r: bool)
        ensures
            r == self.complete(),
    {
        self.received >= self.total
    }
}

} // verus!
