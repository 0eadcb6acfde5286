//! Choosing, by name, how a duration is counted.

use crate::duration::{Duration, NANOS_PER_MICRO, NANOS_PER_MILLI, NANOS_PER_SEC};
use vstd::prelude::*;
use vstd::string::StrSliceExecFns;

verus! {

/// The units a duration can be counted in.
#[derive(Clone, Copy, Debug, PartialEq, Eq, Structural)]
pub enum TimeUnit {
    Nanos,
    Micros,
    Millis,
    Secs,
}

/// The unit that `name` spells, if it spells one.
pub open spec fn unit_named(name: Seq<char>) -> Option<TimeUnit> {
    if name == "nanos"@ {
        Some(TimeUnit::Nanos)
    } else if name == "micros"@ {
        Some(TimeUnit::Micros)
    } else if name == "millis"@ {
        Some(TimeUnit::Millis)
    } else if name == "secs"@ {
        Some(TimeUnit::Secs)
    } else {
        None
    }
}

/// How many whole `unit`s fit in a span of `nanos` nanoseconds.
pub open spec fn count_in(unit: TimeUnit, nanos: nat) -> nat {
    match unit {
        TimeUnit::Nanos => nanos,
        TimeUnit::Micros => nanos / NANOS_PER_MICRO as nat,
        TimeUnit::Millis => nanos / NANOS_PER_MILLI as nat,
        TimeUnit::Secs => nanos / NANOS_PER_SEC as nat,
    }
}

/// Whether two strings hold the same characters.
fn same_text(a: &str, b: &str) -> (r: bool)
    ensures
        r == (a@ == b@),
{
    let n = a.unicode_len();
    if n != b.unicode_len() {
        return false;
    }
    let mut i: usize = 0;
    while i < n
        invariant
            n == a@.len(),
            n == b@.len(),
            i <= n,
            a@.subrange(0, i as int) == b@.subrange(0, i as int),
        decreases n - i,
    {
        if a.get_char(i) != b.get_char(i) {
            assert(a@[i as int] != b@[i as int]);
            return false;
        }
        assert(a@.subrange(0, i + 1) == a@.subrange(0, i as int).push(a@[i as int]));
        assert(b@.subrange(0, i + 1) == b@.subrange(0, i as int).push(b@[i as int]));
        i += 1;
    }
    assert(a@ == a@.subrange(0, n as int));
    assert(b@ == b@.subrange(0, n as int));
    true
}

impl TimeUnit {
    /// The unit that `name` spells, exactly and case-sensitively: one of
    /// `"nanos"`, `"micros"`, `"millis"`, `"secs"`; `None` for any other.
    pub fn parse(name: &str) -> (r: Option<TimeUnit>)
        ensures
            r == unit_named(name@),
    {
        if same_text(name, "nanos") {
            Some(TimeUnit::Nanos)
        } else if same_text(name, "micros") {
            Some(TimeUnit::Micros)
        } else if same_text(name, "millis") {
            Some(TimeUnit::Millis)
        } else if same_text(name, "secs") {
            Some(TimeUnit::Secs)
        } else {
            None
        }
    }

    /// How many whole units of this kind fit in `d`; any remainder is dropped.
    pub fn count(self, d: Duration) -> (r: u128)
        ensures
            r == count_in(self, d@),
    {
        match self {
            TimeUnit::Nanos => d.as_nanos(),
            TimeUnit::Micros => d.as_micros(),
            TimeUnit::Millis => d.as_millis(),
            TimeUnit::Secs => d.as_secs() as u128,
        }
    }
}

/// The function that counts a duration in the unit named `u`
/// (`"nanos"`, `"micros"`, `"millis"` or `"secs"`), truncating.
pub fn time_conversion(u: &str) -> (f: impl FnOnce(Duration) -> u128)
    requires
        unit_named(u@) is Some,
    ensures
        forall|d: Duration| f.requires((d,)),
        forall|d: Duration, r: u128| f.ensures((d,), r) ==> r == count_in(unit_named(u@)->0, d@),
{
    let unit = TimeUnit::parse(u).unwrap();
    move |d: Duration| -> (r: u128)
        ensures
            r == count_in(unit, d@),
        { unit.count(d) }
}

/// The same function as `time_conversion(&u)`, paired with `u` itself so
/// that the caller keeps the unit's name beside it.
pub fn time_conversion_with_unit(u: String) -> (r: (impl FnOnce(Duration) -> u128, String))
    requires
        unit_named(u@) is Some,
    ensures
        r.1 == u,
        forall|d: Duration| r.0.requires((d,)),
        forall|d: Duration, n: u128| r.0.ensures((d,), n) ==> n == count_in(unit_named(u@)->0, d@),
{
    let f = time_conversion(u.as_str());
    (f, u)
}

} // verus!
