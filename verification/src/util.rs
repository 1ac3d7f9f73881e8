//! Rational numbers as FFmpeg writes them.
use vstd::prelude::*;

verus! {

/// A fraction `num / den`, as FFmpeg's `AVRational` holds it.  Neither part
/// is constrained: FFmpeg uses `0/1` and `1/0` as markers, among others.
#[derive(Debug, Clone, Copy, PartialEq, Eq, Structural)]
pub struct AvRational {
    pub num: i32,
    pub den: i32,
}

impl AvRational {
    /// The fraction with numerator and denominator swapped.
    pub open spec fn inverted(self) -> AvRational {
        AvRational { num: self.den, den: self.num }
    }

    /// The fraction turned upside down: numerator and denominator swapped.
    pub fn inverse(&self) -> (r: AvRational)
        ensures
            r == self.inverted(),
    {
        AvRational { num: self.den, den: self.num }
    }
}

/// Turning a fraction upside down twice gives it back.
pub proof fn lemma_inverse_involutive(r: AvRational)
    ensures
        r.inverted().inverted() == r,
{
}

/// Each operand of a bitwise or is covered by the result.
pub proof fn lemma_union_covers(a: u32, b: u32)
    ensures
        (a | b) & a == a,
        (a | b) & b == b,
{
    assert((a | b) & a == a) by (bit_vector);
    assert((a | b) & b == b) by (bit_vector);
}

/// Clearing the bits of `b` leaves none of them, and keeps only bits of `a`.
pub proof fn lemma_difference_excludes(a: u32, b: u32)
    ensures
        (a & !b) & b == 0,
        (a & !b) & a == a & !b,
{
    assert((a & !b) & b == 0) by (bit_vector);
    assert((a & !b) & a == a & !b) by (bit_vector);
}

/// The common bits of `a` and `b` are bits of each.
pub proof fn lemma_intersection_within(a: u32, b: u32)
    ensures
        a & (a & b) == a & b,
        b & (a & b) == a & b,
{
    assert(a & (a & b) == a & b) by (bit_vector);
    assert(b & (a & b) == a & b) by (bit_vector);
}

} // verus!
