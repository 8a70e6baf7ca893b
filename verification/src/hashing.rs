//! Hashing by shape: the hash of a type is computed from the words that the
//! type is written as, so that equal types hash equally.

use core::hash::{Hash, Hasher};

use vstd::prelude::*;

use crate::array::{lemma_equal_iff_same_shape, ArrayType};
use crate::encoding::{lemma_array_head, lemma_type_head, ARRAY, INTEGER};
use crate::types::Type;

verus! {

/// The state that hashing starts from.
pub const SEED: u64 = 0xcbf2_9ce4_8422_2325;

/// The factor by which the state is multiplied before a word is added.
pub const FACTOR: u64 = 0x0000_0100_0000_01b3;

/// The state after one more word: the state times [`FACTOR`] plus the word,
/// both in wrapping arithmetic.
#[verifier::allow_in_spec]
pub fn mix(state: u64, word: u64) -> u64
    returns
        state.wrapping_mul(FACTOR).wrapping_add(word),
{
    state.wrapping_mul(FACTOR).wrapping_add(word)
}

/// The state after all of `words`, taken from the first to the last,
/// starting from `state`.
pub open spec fn mixed(words: Seq<u64>, state: u64) -> u64
    decreases words.len(),
{
    if words.len() == 0 {
        state
    } else {
        mixed(words.skip(1), mix(state, words[0]))
    }
}

/// Hands one word to a hasher, by `core::hash::Hasher::write_u64`. Nothing
/// is claimed of what the hasher makes of it.
#[verifier::external_body]
fn feed<H: Hasher>(state: &mut H, word: u64) {
    state.write_u64(word)
}

impl Type {
    /// The hash of the type: the words that it is written as, mixed one
    /// after the other into [`SEED`].
    pub open spec fn hashed(self) -> u64 {
        mixed(self.encoding(), SEED)
    }

    /// Mixes the words that the type is written as into `state`.
    fn hash_onto(&self, state: u64) -> (after: u64)
        ensures
            after == mixed(self.encoding(), state),
        decreases self.depth(), 1nat,
    {
        proof {
            lemma_type_head(*self);
            reveal_with_fuel(mixed, 3);
        }
        match self {
            Type::Integer(integer) => mix(mix(state, INTEGER), integer.to_code()),
            Type::Array(array) => array.hash_onto(mix(state, ARRAY)),
            scalar => mix(state, scalar.to_tag()),
        }
    }

    /// Returns the hash of the type.
    pub fn hash_code(&self) -> (code: u64)
        ensures
            code == self.hashed(),
    {
        self.hash_onto(SEED)
    }
}

impl ArrayType {
    /// The hash of the array type: the words that it is written as, mixed
    /// one after the other into [`SEED`].
    pub open spec fn hashed(self) -> u64 {
        mixed(self.encoding(), SEED)
    }

    /// Mixes the words that the array type is written as into `state`.
    fn hash_onto(&self, state: u64) -> (after: u64)
        ensures
            after == mixed(self.encoding(), state),
        decreases self.depth(), 0nat,
    {
        proof {
            lemma_array_head(*self);
        }
        self.element_type().hash_onto(mix(state, self.length() as u64))
    }

    /// Returns the hash of the array type.
    pub fn hash_code(&self) -> (code: u64)
        ensures
            code == self.hashed(),
    {
        self.hash_onto(SEED)
    }
}

impl Hash for Type {
    /// Hands the hash of the type to the hasher.
    fn hash<H: Hasher>(&self, state: &mut H) {
        feed(state, self.hash_code())
    }
}

impl Hash for ArrayType {
    /// Hands the hash of the array type to the hasher.
    fn hash<H: Hasher>(&self, state: &mut H) {
        feed(state, self.hash_code())
    }
}

/// Equal array types have equal hashes.
pub proof fn lemma_equal_arrays_hash_equally(a: ArrayType, b: ArrayType)
    requires
        a == b,
    ensures
        a.hashed() == b.hashed(),
{
}

/// The hash of an array type depends on its element type and its length
/// alone.
pub proof fn lemma_hash_depends_on_shape_alone(a: ArrayType, b: ArrayType)
    requires
        a@.element == b@.element,
        a@.length == b@.length,
    ensures
        a.hashed() == b.hashed(),
{
    lemma_equal_iff_same_shape(a, b);
}

} // verus!
