//! A span of time held as whole seconds and a sub-second nanosecond part.

use vstd::arithmetic::div_mod::lemma_fundamental_div_mod_converse;
use vstd::prelude::*;

verus! {

/// Nanoseconds in one second.
pub const NANOS_PER_SEC: u32 = 1_000_000_000;

/// Nanoseconds in one millisecond.
pub const NANOS_PER_MILLI: u32 = 1_000_000;

/// Nanoseconds in one microsecond.
pub const NANOS_PER_MICRO: u32 = 1_000;

/// A span of time: `secs` whole seconds and `nanos` more nanoseconds,
/// where `nanos` is always below one second.
#[derive(Clone, Copy, Debug, PartialEq, Eq, Structural)]
pub struct Duration {
    secs: u64,
    nanos: u32,
}

impl View for Duration {
    type V = nat;

    /// The span as a whole number of nanoseconds.
    open spec fn view(&self) -> nat {
        self.spec_secs() as nat * NANOS_PER_SEC as nat + self.spec_nanos() as nat
    }
}

impl Duration {
    /// The whole seconds of the span.
    pub closed spec fn spec_secs(self) -> u64 {
        self.secs
    }

    /// The nanoseconds past the whole seconds.
    pub closed spec fn spec_nanos(self) -> u32 {
        self.nanos
    }

    #[verifier::type_invariant]
    closed spec fn inv(self) -> bool {
        self.nanos < NANOS_PER_SEC
    }

    /// The span of `secs` seconds and `nanos` nanoseconds; nanoseconds beyond
    /// one second carry into the seconds.
    pub fn new(secs: u64, nanos: u32) -> (r: Duration)
        requires
            secs + nanos / NANOS_PER_SEC <= u64::MAX,
        ensures
            r@ == secs as nat * NANOS_PER_SEC as nat + nanos as nat,
    {
        let carry: u64 = (nanos / NANOS_PER_SEC) as u64;
        let rest: u32 = nanos % NANOS_PER_SEC;
        let r = Duration { secs: secs + carry, nanos: rest };
        assert(nanos as nat == carry as nat * NANOS_PER_SEC as nat + rest as nat);
        assert(r@ == secs as nat * NANOS_PER_SEC as nat + nanos as nat) by (nonlinear_arith)
            requires
                r@ == (secs + carry) as nat * NANOS_PER_SEC as nat + rest as nat,
                nanos as nat == carry as nat * NANOS_PER_SEC as nat + rest as nat,
        ;
        r
    }

    /// The span of `secs` whole seconds.
    pub fn from_secs(secs: u64) -> (r: Duration)
        ensures
            r@ == secs as nat * NANOS_PER_SEC as nat,
    {
        Duration { secs, nanos: 0 }
    }

    /// The span of `millis` milliseconds.
    pub fn from_millis(millis: u64) -> (r: Duration)
        ensures
            r@ == millis as nat * NANOS_PER_MILLI as nat,
    {
        let secs: u64 = millis / 1_000;
        let nanos: u32 = ((millis % 1_000) as u32) * NANOS_PER_MILLI;
        Duration { secs, nanos }
    }

    /// The span of `micros` microseconds.
    pub fn from_micros(micros: u64) -> (r: Duration)
        ensures
            r@ == micros as nat * NANOS_PER_MICRO as nat,
    {
        let secs: u64 = micros / 1_000_000;
        let nanos: u32 = ((micros % 1_000_000) as u32) * NANOS_PER_MICRO;
        Duration { secs, nanos }
    }

    /// The span of `nanos` nanoseconds.
    pub fn from_nanos(nanos: u64) -> (r: Duration)
        ensures
            r@ == nanos as nat,
    {
        let secs: u64 = nanos / 1_000_000_000;
        let rest: u32 = (nanos % 1_000_000_000) as u32;
        Duration { secs, nanos: rest }
    }

    /// The whole seconds in the span, the fraction dropped.
    pub fn as_secs(&self) -> (r: u64)
        ensures
            r == self@ / NANOS_PER_SEC as nat,
    {
        proof {
            use_type_invariant(self);
            lemma_fundamental_div_mod_converse(
                self@ as int,
                NANOS_PER_SEC as int,
                self.secs as int,
                self.nanos as int,
            );
        }
        self.secs
    }

    /// The nanoseconds past the last whole second.
    pub fn subsec_nanos(&self) -> (r: u32)
        ensures
            r == self@ % NANOS_PER_SEC as nat,
            r < NANOS_PER_SEC,
    {
        proof {
            use_type_invariant(self);
            lemma_fundamental_div_mod_converse(
                self@ as int,
                NANOS_PER_SEC as int,
                self.secs as int,
                self.nanos as int,
            );
        }
        self.nanos
    }

    /// The whole span in nanoseconds.
    pub fn as_nanos(&self) -> (r: u128)
        ensures
            r == self@,
    {
        assert(self.secs as u128 * NANOS_PER_SEC as u128 <= u64::MAX as u128 * 1_000_000_000)
            by (nonlinear_arith);
        self.secs as u128 * NANOS_PER_SEC as u128 + self.nanos as u128
    }

    /// The whole microseconds in the span, the remainder dropped.
    pub fn as_micros(&self) -> (r: u128)
        ensures
            r == self@ / NANOS_PER_MICRO as nat,
    {
        let q: u32 = self.nanos / NANOS_PER_MICRO;
        proof {
            use_type_invariant(self);
            lemma_fundamental_div_mod_converse(
                self@ as int,
                NANOS_PER_MICRO as int,
                self.secs as int * 1_000_000 + q as int,
                (self.nanos % NANOS_PER_MICRO) as int,
            );
        }
        self.secs as u128 * 1_000_000 + q as u128
    }

    /// The whole milliseconds in the span, the remainder dropped.
    pub fn as_millis(&self) -> (r: u128)
        ensures
            r == self@ / NANOS_PER_MILLI as nat,
    {
        let q: u32 = self.nanos / NANOS_PER_MILLI;
        proof {
            use_type_invariant(self);
            lemma_fundamental_div_mod_converse(
                self@ as int,
                NANOS_PER_MILLI as int,
                self.secs as int * 1_000 + q as int,
                (self.nanos % NANOS_PER_MILLI) as int,
            );
        }
        self.secs as u128 * 1_000 + q as u128
    }
}

} // verus!
