//! Strictly positive machine-sized counts.

use vstd::prelude::*;

verus! {

/// A count that is at least one.
///
/// The only way to make one is [`PositiveNumber::new`], which refuses zero,
/// so every value that executable code holds is positive.
#[derive(Clone, Copy, Debug, PartialEq, Eq, Hash, Structural)]
pub struct PositiveNumber {
    value: usize,
}

impl View for PositiveNumber {
    type V = nat;

    closed spec fn view(&self) -> nat {
        self.value as nat
    }
}

impl PositiveNumber {
    #[verifier::type_invariant]
    spec fn positive(self) -> bool {
        self.value >= 1
    }

    /// Makes a positive number of `value`, or nothing when `value` is zero.
    pub fn new(value: usize) -> (made: Option<PositiveNumber>)
        ensures
            made.is_some() <==> value >= 1,
            made matches Some(p) ==> p@ == value,
    {
        if value >= 1 {
            Some(PositiveNumber { value })
        } else {
            None
        }
    }

    /// The number as a machine-sized unsigned integer.
    pub fn to_usize(&self) -> (n: usize)
        ensures
            n == self@,
            n >= 1,
    {
        proof {
            use_type_invariant(self);
        }
        self.value
    }
}

/// A positive number is what it counts and nothing more: two of them are
/// equal exactly when they count the same.
pub proof fn lemma_equal_iff_same_count(a: PositiveNumber, b: PositiveNumber)
    ensures
        (a == b) <==> (a@ == b@),
{
}

/// What a positive number counts fits a machine-sized unsigned integer.
pub proof fn lemma_count_fits(a: PositiveNumber)
    ensures
        a@ <= usize::MAX,
{
}

} // verus!
