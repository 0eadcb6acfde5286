//! Exchanging two values: by moving them, or in place through XOR.

use vstd::prelude::*;

verus! {

/// Values that can have another value of their type XOR-ed into them, bit
/// for bit.
pub trait XorAssign: Copy + Sized {
    /// The bitwise exclusive or of `self` and `other`.
    spec fn spec_xor(self, other: Self) -> Self;

    /// XOR-ing the same value twice undoes it, and the order of the two
    /// operands does not matter.
    proof fn lemma_xor_laws(a: Self, b: Self)
        ensures
            a.spec_xor(b).spec_xor(b) == a,
            a.spec_xor(b) == b.spec_xor(a),
    ;

    /// Replaces `self` by `self ^ other`.
    fn xor_assign(&mut self, other: Self)
        ensures
            *final(self) == old(self).spec_xor(other),
    ;
}

impl XorAssign for u8 {
    open spec fn spec_xor(self, other: u8) -> u8 {
        self ^ other
    }

    proof fn lemma_xor_laws(a: u8, b: u8) {
        assert((a ^ b) ^ b == a && a ^ b == b ^ a) by (bit_vector);
    }

    fn xor_assign(&mut self, other: u8) {
        *self = *self ^ other;
    }
}

impl XorAssign for u16 {
    open spec fn spec_xor(self, other: u16) -> u16 {
        self ^ other
    }

    proof fn lemma_xor_laws(a: u16, b: u16) {
        assert((a ^ b) ^ b == a && a ^ b == b ^ a) by (bit_vector);
    }

    fn xor_assign(&mut self, other: u16) {
        *self = *self ^ other;
    }
}

impl XorAssign for u32 {
    open spec fn spec_xor(self, other: u32) -> u32 {
        self ^ other
    }

    proof fn lemma_xor_laws(a: u32, b: u32) {
        assert((a ^ b) ^ b == a && a ^ b == b ^ a) by (bit_vector);
    }

    fn xor_assign(&mut self, other: u32) {
        *self = *self ^ other;
    }
}

impl XorAssign for u64 {
    open spec fn spec_xor(self, other: u64) -> u64 {
        self ^ other
    }

    proof fn lemma_xor_laws(a: u64, b: u64) {
        assert((a ^ b) ^ b == a && a ^ b == b ^ a) by (bit_vector);
    }

    fn xor_assign(&mut self, other: u64) {
        *self = *self ^ other;
    }
}

impl XorAssign for u128 {
    open spec fn spec_xor(self, other: u128) -> u128 {
        self ^ other
    }

    proof fn lemma_xor_laws(a: u128, b: u128) {
        assert((a ^ b) ^ b == a && a ^ b == b ^ a) by (bit_vector);
    }

    fn xor_assign(&mut self, other: u128) {
        *self = *self ^ other;
    }
}

impl XorAssign for usize {
    open spec fn spec_xor(self, other: usize) -> usize {
        self ^ other
    }

    proof fn lemma_xor_laws(a: usize, b: usize) {
        assert((a ^ b) ^ b == a && a ^ b == b ^ a) by (bit_vector);
    }

    fn xor_assign(&mut self, other: usize) {
        *self = *self ^ other;
    }
}

impl XorAssign for i8 {
    open spec fn spec_xor(self, other: i8) -> i8 {
        self ^ other
    }

    proof fn lemma_xor_laws(a: i8, b: i8) {
        assert((a ^ b) ^ b == a && a ^ b == b ^ a) by (bit_vector);
    }

    fn xor_assign(&mut self, other: i8) {
        *self = *self ^ other;
    }
}

impl XorAssign for i16 {
    open spec fn spec_xor(self, other: i16) -> i16 {
        self ^ other
    }

    proof fn lemma_xor_laws(a: i16, b: i16) {
        assert((a ^ b) ^ b == a && a ^ b == b ^ a) by (bit_vector);
    }

    fn xor_assign(&mut self, other: i16) {
        *self = *self ^ other;
    }
}

impl XorAssign for i32 {
    open spec fn spec_xor(self, other: i32) -> i32 {
        self ^ other
    }

    proof fn lemma_xor_laws(a: i32, b: i32) {
        assert((a ^ b) ^ b == a && a ^ b == b ^ a) by (bit_vector);
    }

    fn xor_assign(&mut self, other: i32) {
        *self = *self ^ other;
    }
}

impl XorAssign for i64 {
    open spec fn spec_xor(self, other: i64) -> i64 {
        self ^ other
    }

    proof fn lemma_xor_laws(a: i64, b: i64) {
        assert((a ^ b) ^ b == a && a ^ b == b ^ a) by (bit_vector);
    }

    fn xor_assign(&mut self, other: i64) {
        *self = *self ^ other;
    }
}

impl XorAssign for i128 {
    open spec fn spec_xor(self, other: i128) -> i128 {
        self ^ other
    }

    proof fn lemma_xor_laws(a: i128, b: i128) {
        assert((a ^ b) ^ b == a && a ^ b == b ^ a) by (bit_vector);
    }

    fn xor_assign(&mut self, other: i128) {
        *self = *self ^ other;
    }
}

impl XorAssign for isize {
    open spec fn spec_xor(self, other: isize) -> isize {
        self ^ other
    }

    proof fn lemma_xor_laws(a: isize, b: isize) {
        assert((a ^ b) ^ b == a && a ^ b == b ^ a) by (bit_vector);
    }

    fn xor_assign(&mut self, other: isize) {
        *self = *self ^ other;
    }
}

/// Exchanges the values behind `a` and `b` with three XOR steps and no
/// temporary. The two references are distinct by construction, so the
/// values are swapped, never zeroed.
pub fn swap_xor<T: XorAssign>(a: &mut T, b: &mut T)
    ensures
        *final(a) == *old(b),
        *final(b) == *old(a),
{
    let ghost (x, y) = (*a, *b);
    a.xor_assign(*b);
    b.xor_assign(*a);
    a.xor_assign(*b);
    proof {
        T::lemma_xor_laws(x, y);
        T::lemma_xor_laws(y, x.spec_xor(y));
        T::lemma_xor_laws(x.spec_xor(y), x);
        T::lemma_xor_laws(y, x);
    }
}

/// The two values in exchanged places: `let (a, b) = swap(a, b);` rebinds
/// each name to the other's old value.
pub fn swap<A, B>(a: A, b: B) -> (r: (B, A))
    ensures
        r.0 == b,
        r.1 == a,
{
    (b, a)
}

} // verus!
