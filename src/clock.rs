use chrono::format::ParseError;
use chrono::{NaiveTime, Timelike};
use std::str::FromStr;
use vstd::prelude::*;

verus! {

/// Seconds in one day: the period of the schedule and the modulus of the clock.
pub const SECONDS_PER_DAY: u32 = 86400;

#[verifier::external_type_specification]
#[verifier::external_body]
pub struct ExNaiveTime(NaiveTime);

#[verifier::external_type_specification]
#[verifier::external_body]
pub struct ExParseError(ParseError);

/// Relies on chrono's `FromStr for NaiveTime`, which reads `HH:MM` or
/// `HH:MM:SS` with an optional fraction.
#[verifier::external_body]
fn parse_naive_time(text: &str) -> (r: Result<NaiveTime, ParseError>) {
    NaiveTime::from_str(text)
}

/// Relies on chrono's `Timelike::num_seconds_from_midnight` for `NaiveTime`,
/// which returns the whole seconds of the time, always below one day (a leap
/// second counts as the second before it).
#[verifier::external_body]
fn seconds_from_midnight(t: &NaiveTime) -> (r: u32)
    ensures
        r < SECONDS_PER_DAY,
{
    t.num_seconds_from_midnight()
}

/// A wall-clock time of day, held as whole seconds since midnight.
#[derive(Clone, Copy, Debug, PartialEq, Eq, Structural)]
pub struct TimeOfDay {
    secs: u32,
}

impl TimeOfDay {
    #[verifier::type_invariant]
    spec fn within_day(self) -> bool {
        self.secs < SECONDS_PER_DAY
    }

    /// The seconds since midnight that this time of day stands for.
    pub closed spec fn spec_secs(self) -> nat {
        self.secs as nat
    }

    /// Builds a time of day from hour, minute and second; `None` unless
    /// `hour < 24`, `minute < 60` and `second < 60`.
    pub fn from_hms(hour: u32, minute: u32, second: u32) -> (r: Option<TimeOfDay>)
        ensures
            match r {
                Some(t) => {
                    &&& hour < 24 && minute < 60 && second < 60
                    &&& t.spec_secs() == hour * 3600 + minute * 60 + second
                    &&& t.spec_secs() < SECONDS_PER_DAY
                },
                None => !(hour < 24 && minute < 60 && second < 60),
            },
    {
        if hour < 24 && minute < 60 && second < 60 {
            Some(TimeOfDay { secs: hour * 3600 + minute * 60 + second })
        } else {
            None
        }
    }

    /// Builds a time of day from seconds since midnight; `None` unless the
    /// count is below one day.
    pub fn from_seconds(secs: u32) -> (r: Option<TimeOfDay>)
        ensures
            match r {
                Some(t) => secs < SECONDS_PER_DAY && t.spec_secs() == secs,
                None => secs >= SECONDS_PER_DAY,
            },
    {
        if secs < SECONDS_PER_DAY {
            Some(TimeOfDay { secs })
        } else {
            None
        }
    }

    /// The whole seconds of a chrono time of day.
    pub fn from_naive(t: &NaiveTime) -> (r: TimeOfDay)
        ensures
            r.spec_secs() < SECONDS_PER_DAY,
    {
        TimeOfDay { secs: seconds_from_midnight(t) }
    }

    /// Reads a configured time of day such as `22:30:00`; `None` where the
    /// text is not a time of day.
    pub fn parse(text: &str) -> (r: Option<TimeOfDay>)
        ensures
            r matches Some(t) ==> t.spec_secs() < SECONDS_PER_DAY,
    {
        match parse_naive_time(text) {
            Ok(t) => Some(TimeOfDay::from_naive(&t)),
            Err(_) => None,
        }
    }

    /// Seconds since midnight.
    pub fn seconds(&self) -> (r: u32)
        ensures
            r == self.spec_secs(),
            r < SECONDS_PER_DAY,
    {
        proof {
            use_type_invariant(self);
        }
        self.secs
    }
}

/// Seconds to wait from `now` until the clock next shows `target`, on a
/// clock that wraps around after one day.
pub open spec fn offset_spec(now: nat, target: nat) -> nat {
    if now == target {
        0
    } else if now < target {
        (target - now) as nat
    } else {
        (SECONDS_PER_DAY - (now - target)) as nat
    }
}

/// Seconds from `now` until the next time the clock shows `schedule_time`:
/// zero when they are equal, the difference when `now` is earlier, and one
/// day less the difference when `now` is later. The wait is below one day,
/// and waiting it brings the clock to `schedule_time`.
pub fn get_initial_offset(now: TimeOfDay, schedule_time: TimeOfDay) -> (r: u64)
    ensures
        now.spec_secs() < SECONDS_PER_DAY,
        schedule_time.spec_secs() < SECONDS_PER_DAY,
        r == offset_spec(now.spec_secs(), schedule_time.spec_secs()),
        r < SECONDS_PER_DAY,
        (now.spec_secs() + r as nat) % (SECONDS_PER_DAY as nat) == schedule_time.spec_secs(),
{
    proof {
        use_type_invariant(now);
        use_type_invariant(schedule_time);
        lemma_offset_within_day(now.spec_secs(), schedule_time.spec_secs());
    }
    let n = now.secs;
    let t = schedule_time.secs;
    if n == t {
        0
    } else if n < t {
        (t - n) as u64
    } else {
        (SECONDS_PER_DAY - (n - t)) as u64
    }
}

/// The wait until the scheduled time is always less than one day, and
/// waiting it brings the clock exactly to the scheduled time.
pub proof fn lemma_offset_within_day(now: nat, target: nat)
    requires
        now < SECONDS_PER_DAY,
        target < SECONDS_PER_DAY,
    ensures
        0 <= offset_spec(now, target) < SECONDS_PER_DAY,
        (now + offset_spec(now, target)) % (SECONDS_PER_DAY as nat) == target,
{
    let d = SECONDS_PER_DAY as int;
    if now > target {
        assert((now + (d - (now - target))) % d == target) by {
            vstd::arithmetic::div_mod::lemma_mod_add_multiples_vanish(target as int, d);
            vstd::arithmetic::div_mod::lemma_small_mod(target, d as nat);
        }
    } else {
        vstd::arithmetic::div_mod::lemma_small_mod((now + offset_spec(now, target)) as nat, d as nat);
    }
}

} // verus!
