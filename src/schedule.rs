use vstd::prelude::*;

verus! {

/// A fixed-period series of ticks: tick `k` is due `start + k * period`
/// seconds after the reference instant. Each tick fires once, in order, and
/// the series never moves: when a tick is late (a run overran), it fires as
/// soon as it is asked for, and the ticks after it keep their times.
pub struct Schedule {
    start: u64,
    period: u64,
    fired: u64,
    next_due: u64,
}

/// The instant at which tick `k` of a series is due.
pub open spec fn due_at(start: nat, period: nat, k: nat) -> nat {
    start + k * period
}

/// Seconds to wait at `now` before an instant `due`: none once it is reached.
pub open spec fn wait_spec(due: nat, now: nat) -> nat {
    if due > now {
        (due - now) as nat
    } else {
        0
    }
}

impl Schedule {
    #[verifier::type_invariant]
    spec fn consistent(self) -> bool {
        &&& self.period > 0
        &&& self.next_due == due_at(self.start as nat, self.period as nat, self.fired as nat)
    }

    /// The instant of the first tick.
    pub closed spec fn spec_start(self) -> nat {
        self.start as nat
    }

    /// The fixed distance between ticks.
    pub closed spec fn spec_period(self) -> nat {
        self.period as nat
    }

    /// How many ticks have fired.
    pub closed spec fn spec_fired(self) -> nat {
        self.fired as nat
    }

    /// The instant at which the next tick is due.
    pub open spec fn spec_next_due(self) -> nat {
        due_at(self.spec_start(), self.spec_period(), self.spec_fired())
    }

    /// A series whose first tick is due at `start` and whose later ticks
    /// follow every `period` seconds; the period is never zero.
    pub fn new(start: u64, period: u64) -> (r: Schedule)
        requires
            period > 0,
        ensures
            r.spec_start() == start,
            r.spec_period() == period,
            r.spec_fired() == 0,
    {
        proof {
            assert(0 * (period as nat) == 0) by (nonlinear_arith);
        }
        Schedule { start, period, fired: 0, next_due: start }
    }

    /// The instant at which the next tick is due.
    pub fn next_due(&self) -> (r: u64)
        ensures
            r == self.spec_next_due(),
    {
        proof {
            use_type_invariant(self);
        }
        self.next_due
    }

    /// Seconds to wait at instant `now` before the next tick fires: the time
    /// left until it is due, or none where it is already due or late.
    pub fn wait(&self, now: u64) -> (r: u64)
        ensures
            r == wait_spec(self.spec_next_due(), now as nat),
    {
        proof {
            use_type_invariant(self);
        }
        if self.next_due > now {
            self.next_due - now
        } else {
            0
        }
    }

    /// Records that the next tick has fired, so that the one after it is
    /// due next. Returns `false`, and changes nothing, where the instant of
    /// the tick after it would not fit in 64 bits.
    pub fn fire(&mut self) -> (r: bool)
        ensures
            final(self).spec_start() == old(self).spec_start(),
            final(self).spec_period() == old(self).spec_period(),
            r == (old(self).spec_next_due() + old(self).spec_period() <= u64::MAX),
            r ==> final(self).spec_fired() == old(self).spec_fired() + 1,
            !r ==> final(self).spec_fired() == old(self).spec_fired(),
    {
        proof {
            use_type_invariant(&*self);
        }
        match self.next_due.checked_add(self.period) {
            Some(due) => {
                proof {
                    let (s, p, k) = (self.start as nat, self.period as nat, self.fired as nat);
                    assert(s + (k + 1) * p == s + k * p + p) by (nonlinear_arith);
                    assert(k * p >= k) by (nonlinear_arith)
                        requires p > 0;
                }
                *self = Schedule {
                    start: self.start,
                    period: self.period,
                    fired: self.fired + 1,
                    next_due: due,
                };
                true
            },
            None => false,
        }
    }
}

/// Ticks are measured from the start of the series, not from the end of a
/// run: however long the run that tick `k` started took, tick `k + 1` stays
/// due exactly one period after tick `k` was due.
pub proof fn lemma_no_drift(s: Schedule)
    requires
        s.spec_fired() >= 1,
    ensures
        s.spec_next_due() == due_at(s.spec_start(), s.spec_period(), (s.spec_fired() - 1) as nat)
            + s.spec_period(),
{
    let (st, p, k) = (s.spec_start(), s.spec_period(), s.spec_fired());
    assert(st + k * p == st + (k - 1) * p + p) by (nonlinear_arith)
        requires k >= 1;
}

/// A run that takes longer than the period does not lose a tick: when it
/// completes, the next tick is already due, so it fires at once, and it is
/// the very next tick of the series, neither skipped nor fired twice.
pub proof fn lemma_overrun_fires_immediately(s: Schedule, began: nat, now: nat)
    requires
        s.spec_fired() >= 1,
        began >= due_at(s.spec_start(), s.spec_period(), (s.spec_fired() - 1) as nat),
        now > began + s.spec_period(),
    ensures
        wait_spec(s.spec_next_due(), now) == 0,
        s.spec_next_due() == due_at(s.spec_start(), s.spec_period(), s.spec_fired()),
{
    lemma_no_drift(s);
}

} // verus!
