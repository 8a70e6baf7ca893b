//! Array types as plain data: a sequence of words that any carrier of
//! integers can hold, and from which the array type can be had back.
//!
//! A type is written as the word that names its variant, followed by what
//! the variant holds: an integer type by the word that names its width, an
//! array by its length and then its element type. Nothing else is written,
//! so a type can be read back from the front of a sequence without knowing
//! where it ends.

use vstd::prelude::*;

use crate::array::{lemma_equal_iff_same_shape, lemma_length_fits, ArrayType};
use crate::positive_number::PositiveNumber;
use crate::types::{IntegerType, Type};

verus! {

/// The word that names `Type::Address`.
pub const ADDRESS: u64 = 0;

/// The word that names `Type::Boolean`.
pub const BOOLEAN: u64 = 1;

/// The word that names `Type::Field`.
pub const FIELD: u64 = 2;

/// The word that names `Type::Group`.
pub const GROUP: u64 = 3;

/// The word that names `Type::Integer`.
pub const INTEGER: u64 = 4;

/// The word that names `Type::Scalar`.
pub const SCALAR: u64 = 5;

/// The word that names `Type::Signature`.
pub const SIGNATURE: u64 = 6;

/// The word that names `Type::Unit`.
pub const UNIT: u64 = 7;

/// The word that names `Type::Array`.
pub const ARRAY: u64 = 8;

impl IntegerType {
    /// The word that names the integer type.
    pub open spec fn code(self) -> u64 {
        match self {
            IntegerType::U8 => 0,
            IntegerType::U16 => 1,
            IntegerType::U32 => 2,
            IntegerType::U64 => 3,
            IntegerType::U128 => 4,
            IntegerType::I8 => 5,
            IntegerType::I16 => 6,
            IntegerType::I32 => 7,
            IntegerType::I64 => 8,
            IntegerType::I128 => 9,
        }
    }

    /// Returns the word that names the integer type.
    pub fn to_code(&self) -> (code: u64)
        ensures
            code == self.code(),
    {
        match self {
            IntegerType::U8 => 0,
            IntegerType::U16 => 1,
            IntegerType::U32 => 2,
            IntegerType::U64 => 3,
            IntegerType::U128 => 4,
            IntegerType::I8 => 5,
            IntegerType::I16 => 6,
            IntegerType::I32 => 7,
            IntegerType::I64 => 8,
            IntegerType::I128 => 9,
        }
    }

    /// Returns the integer type that `code` names, if it names one.
    pub fn from_code(code: u64) -> (integer: Option<IntegerType>)
        ensures
            match integer {
                Some(found) => found.code() == code,
                None => forall|other: IntegerType| #[trigger] other.code() != code,
            },
    {
        if code == 0 {
            Some(IntegerType::U8)
        } else if code == 1 {
            Some(IntegerType::U16)
        } else if code == 2 {
            Some(IntegerType::U32)
        } else if code == 3 {
            Some(IntegerType::U64)
        } else if code == 4 {
            Some(IntegerType::U128)
        } else if code == 5 {
            Some(IntegerType::I8)
        } else if code == 6 {
            Some(IntegerType::I16)
        } else if code == 7 {
            Some(IntegerType::I32)
        } else if code == 8 {
            Some(IntegerType::I64)
        } else if code == 9 {
            Some(IntegerType::I128)
        } else {
            None
        }
    }
}

impl Type {
    /// The word that names the variant of the type.
    pub open spec fn tag(self) -> u64 {
        match self {
            Type::Address => ADDRESS,
            Type::Boolean => BOOLEAN,
            Type::Field => FIELD,
            Type::Group => GROUP,
            Type::Integer(_) => INTEGER,
            Type::Scalar => SCALAR,
            Type::Signature => SIGNATURE,
            Type::Unit => UNIT,
            Type::Array(_) => ARRAY,
        }
    }

    /// Returns the word that names the variant of the type.
    pub fn to_tag(&self) -> (tag: u64)
        ensures
            tag == self.tag(),
    {
        match self {
            Type::Address => ADDRESS,
            Type::Boolean => BOOLEAN,
            Type::Field => FIELD,
            Type::Group => GROUP,
            Type::Integer(_) => INTEGER,
            Type::Scalar => SCALAR,
            Type::Signature => SIGNATURE,
            Type::Unit => UNIT,
            Type::Array(_) => ARRAY,
        }
    }

    /// The words that the type is written as.
    pub open spec fn encoding(self) -> Seq<u64>
        decreases self.depth(), 1nat,
    {
        match self {
            Type::Integer(integer) => seq![INTEGER, integer.code()],
            Type::Array(array) => seq![ARRAY] + array.encoding(),
            scalar => seq![scalar.tag()],
        }
    }

    /// Appends the words that the type is written as to `out`.
    fn encode_into(&self, out: &mut Vec<u64>)
        ensures
            final(out)@ == old(out)@ + self.encoding(),
            self.valid(),
        decreases self.depth(), 1nat,
    {
        match self {
            Type::Integer(integer) => {
                out.push(INTEGER);
                out.push(integer.to_code());
            },
            Type::Array(array) => {
                out.push(ARRAY);
                array.encode_into(out);
            },
            scalar => out.push(scalar.to_tag()),
        }
    }
}

impl ArrayType {
    /// The words that the array type is written as: its length, then its
    /// element type.
    pub open spec fn encoding(self) -> Seq<u64>
        decreases self.depth(), 0nat,
    {
        seq![self@.length as u64] + self@.element.encoding()
    }

    /// Appends the words that the array type is written as to `out`.
    fn encode_into(&self, out: &mut Vec<u64>)
        ensures
            final(out)@ == old(out)@ + self.encoding(),
            self.valid(),
        decreases self.depth(), 0nat,
    {
        out.push(self.length() as u64);
        self.element_type().encode_into(out);
    }
}

/// What a sequence of words is read back as: the valid array type that is
/// written as exactly these words, if there is one.
pub open spec fn decoding(words: Seq<u64>) -> Option<ArrayType> {
    if exists|array: ArrayType| array.valid() && #[trigger] array.encoding() == words {
        Some(choose|array: ArrayType| array.valid() && #[trigger] array.encoding() == words)
    } else {
        None
    }
}

/// A sequence that begins another agrees with it word for word, and what
/// is left of it after some words begins what is left of the other.
proof fn lemma_prefix(part: Seq<u64>, whole: Seq<u64>, n: int)
    requires
        part.is_prefix_of(whole),
        0 <= n <= part.len(),
    ensures
        part.skip(n).is_prefix_of(whole.skip(n)),
        forall|i: int| 0 <= i < part.len() ==> part[i] == whole[i],
{
    assert forall|i: int| 0 <= i < part.len() implies part[i] == whole[i] by {
        assert(part[i] == whole.subrange(0, part.len() as int)[i]);
    }
}

/// What a type is written as begins with the word that names its variant.
pub proof fn lemma_type_head(t: Type)
    ensures
        t.encoding().len() >= 1,
        t.encoding()[0] == t.tag(),
        t matches Type::Integer(integer) ==> t.encoding().len() == 2 && t.encoding()[1]
            == integer.code(),
        t matches Type::Array(array) ==> t.encoding().skip(1) == array.encoding(),
        !(t is Integer) && !(t is Array) ==> t.encoding().len() == 1,
{
}

/// What an array type is written as begins with its length, and goes on
/// with its element type.
pub proof fn lemma_array_head(a: ArrayType)
    ensures
        a.encoding().len() >= 2,
        a.encoding()[0] == a@.length,
        a.encoding().skip(1) == a@.element.encoding(),
{
    lemma_length_fits(a);
}

/// No type is written as the beginning of what another type is written as:
/// two types whose words both begin one sequence are the same type.
pub proof fn lemma_type_prefix_free(a: Type, b: Type, words: Seq<u64>)
    requires
        a.encoding().is_prefix_of(words),
        b.encoding().is_prefix_of(words),
    ensures
        a == b,
    decreases a.depth(), 1nat,
{
    lemma_type_head(a);
    lemma_type_head(b);
    lemma_prefix(a.encoding(), words, 1);
    lemma_prefix(b.encoding(), words, 1);
    if let Type::Array(mine) = a {
        lemma_array_prefix_free(mine, b->Array_0, words.skip(1));
    }
}

/// No array type is written as the beginning of what another array type is
/// written as.
pub proof fn lemma_array_prefix_free(a: ArrayType, b: ArrayType, words: Seq<u64>)
    requires
        a.encoding().is_prefix_of(words),
        b.encoding().is_prefix_of(words),
    ensures
        a == b,
    decreases a.depth(), 0nat,
{
    lemma_array_head(a);
    lemma_array_head(b);
    lemma_prefix(a.encoding(), words, 1);
    lemma_prefix(b.encoding(), words, 1);
    lemma_type_prefix_free(a@.element, b@.element, words.skip(1));
    lemma_equal_iff_same_shape(a, b);
}

/// Reading back what a valid array type is written as gives that array
/// type.
pub proof fn lemma_decoding_inverts_encoding(array: ArrayType)
    requires
        array.valid(),
    ensures
        decoding(array.encoding()) == Some(array),
{
    let words = array.encoding();
    let found = choose|other: ArrayType| other.valid() && #[trigger] other.encoding() == words;
    lemma_array_prefix_free(found, array, words);
}

/// What is read back from a sequence of words is valid and is written as
/// exactly these words.
pub proof fn lemma_encoding_inverts_decoding(words: Seq<u64>)
    ensures
        decoding(words) matches Some(array) ==> array.valid() && array.encoding() == words,
{
}

/// A word followed by the beginning of what follows it in a sequence is
/// the beginning of that sequence.
proof fn lemma_prefix_after_head(head: u64, part: Seq<u64>, whole: Seq<u64>)
    requires
        whole.len() >= 1,
        whole[0] == head,
        part.is_prefix_of(whole.skip(1)),
    ensures
        (seq![head] + part).is_prefix_of(whole),
{
    let joined = seq![head] + part;
    assert forall|i: int| 1 <= i < joined.len() implies joined[i] == whole[i] by {
        lemma_prefix(part, whole.skip(1), 0);
        assert(joined[i] == part[i - 1]);
    }
}

impl Type {
    /// Reads one type from the front of what `words` holds from `start` on,
    /// and says where it ends.
    fn decode_from(words: &[u64], start: usize) -> (read: Option<(Type, usize)>)
        requires
            start <= words.len(),
        ensures
            match read {
                Some((found, end)) => {
                    &&& found.valid()
                    &&& found.encoding().is_prefix_of(words@.skip(start as int))
                    &&& end == start + found.encoding().len()
                },
                None => forall|other: Type|
                    other.valid() ==> !(#[trigger] other.encoding()).is_prefix_of(
                        words@.skip(start as int),
                    ),
            },
        decreases words.len() - start,
    {
        let ghost rest = words@.skip(start as int);
        if start >= words.len() {
            proof {
                assert forall|other: Type| other.valid() implies !(
                #[trigger] other.encoding()).is_prefix_of(rest) by {
                    lemma_type_head(other);
                }
            }
            return None;
        }
        let tag = words[start];
        let read = if tag == ADDRESS {
            Some((Type::Address, start + 1))
        } else if tag == BOOLEAN {
            Some((Type::Boolean, start + 1))
        } else if tag == FIELD {
            Some((Type::Field, start + 1))
        } else if tag == GROUP {
            Some((Type::Group, start + 1))
        } else if tag == SCALAR {
            Some((Type::Scalar, start + 1))
        } else if tag == SIGNATURE {
            Some((Type::Signature, start + 1))
        } else if tag == UNIT {
            Some((Type::Unit, start + 1))
        } else if tag == INTEGER {
            if start + 1 < words.len() {
                match IntegerType::from_code(words[start + 1]) {
                    Some(integer) => Some((Type::Integer(integer), start + 2)),
                    None => None,
                }
            } else {
                None
            }
        } else if tag == ARRAY {
            assert(rest.skip(1) =~= words@.skip(start + 1));
            match ArrayType::decode_from(words, start + 1) {
                Some((array, end)) => {
                    proof {
                        lemma_prefix_after_head(ARRAY, array.encoding(), rest);
                    }
                    Some((Type::Array(array), end))
                },
                None => None,
            }
        } else {
            None
        };
        proof {
            if read.is_none() {
                assert forall|other: Type| other.valid() implies !(
                #[trigger] other.encoding()).is_prefix_of(rest) by {
                    lemma_type_head(other);
                    if other.encoding().is_prefix_of(rest) {
                        lemma_prefix(other.encoding(), rest, 1);
                    }
                }
            }
        }
        read
    }
}

impl ArrayType {
    /// Reads one array type from the front of what `words` holds from
    /// `start` on, and says where it ends.
    fn decode_from(words: &[u64], start: usize) -> (read: Option<(ArrayType, usize)>)
        requires
            start <= words.len(),
        ensures
            match read {
                Some((found, end)) => {
                    &&& found.valid()
                    &&& found.encoding().is_prefix_of(words@.skip(start as int))
                    &&& end == start + found.encoding().len()
                },
                None => forall|other: ArrayType|
                    other.valid() ==> !(#[trigger] other.encoding()).is_prefix_of(
                        words@.skip(start as int),
                    ),
            },
        decreases words.len() - start,
    {
        let ghost rest = words@.skip(start as int);
        if start >= words.len() {
            proof {
                assert forall|other: ArrayType| other.valid() implies !(
                #[trigger] other.encoding()).is_prefix_of(rest) by {
                    lemma_array_head(other);
                }
            }
            return None;
        }
        let count = words[start];
        assert(rest.skip(1) =~= words@.skip(start + 1));
        let read = if count <= usize::MAX as u64 {
            match PositiveNumber::new(count as usize) {
                Some(length) => match Type::decode_from(words, start + 1) {
                    Some((element, end)) => {
                        let found = ArrayType::new(element, length);
                        proof {
                            lemma_prefix_after_head(count, element.encoding(), rest);
                        }
                        Some((found, end))
                    },
                    None => None,
                },
                None => None,
            }
        } else {
            None
        };
        proof {
            if read.is_none() {
                assert forall|other: ArrayType| other.valid() implies !(
                #[trigger] other.encoding()).is_prefix_of(rest) by {
                    lemma_array_head(other);
                    lemma_length_fits(other);
                    if other.encoding().is_prefix_of(rest) {
                        lemma_prefix(other.encoding(), rest, 1);
                    }
                }
            }
        }
        read
    }

    /// Returns the words that the array type is written as.
    ///
    /// Reading them back with [`ArrayType::decode`] gives an array type
    /// equal to this one.
    pub fn encode(&self) -> (words: Vec<u64>)
        ensures
            words@ == self.encoding(),
            decoding(words@) == Some(*self),
    {
        let mut words = Vec::new();
        self.encode_into(&mut words);
        proof {
            lemma_decoding_inverts_encoding(*self);
        }
        words
    }

    /// Reads an array type back from the words that it was written as.
    ///
    /// Returns nothing when no array type is written as exactly these
    /// words: when they end too early, go on after the end of the type, name
    /// a variant or an integer type that does not exist, or give a length
    /// that is zero or too large for this machine.
    pub fn decode(words: &[u64]) -> (array: Option<ArrayType>)
        ensures
            array == decoding(words@),
    {
        match ArrayType::decode_from(words, 0) {
            Some((found, end)) => {
                proof {
                    if exists|other: ArrayType|
                        other.valid() && #[trigger] other.encoding() == words@ {
                        let other = choose|other: ArrayType|
                            other.valid() && #[trigger] other.encoding() == words@;
                        lemma_array_prefix_free(found, other, words@);
                    }
                    if end == words.len() {
                        assert(found.encoding() =~= words@);
                    }
                }
                if end == words.len() {
                    Some(found)
                } else {
                    None
                }
            },
            None => None,
        }
    }
}

} // verus!
