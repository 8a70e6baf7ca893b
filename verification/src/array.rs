//! The array type: an element type and how many elements there are.

use vstd::prelude::*;
use vstd::std_specs::cmp::PartialEqSpecImpl;
use vstd::string::StringExecFns;

use crate::decimal::{decimal, push_decimal};
use crate::positive_number::{lemma_count_fits, lemma_equal_iff_same_count, PositiveNumber};
use crate::types::Type;

verus! {

/// The type `[element; length]`.
#[derive(Debug, Eq)]
pub struct ArrayType {
    element_type: Box<Type>,
    length: PositiveNumber,
}

/// What an array type is made of.
pub struct ArrayShape {
    /// The type of each element, which may itself be an array.
    pub element: Type,
    /// The number of elements.
    pub length: nat,
}

impl View for ArrayType {
    type V = ArrayShape;

    closed spec fn view(&self) -> ArrayShape {
        ArrayShape { element: *self.element_type, length: self.length@ }
    }
}

impl PartialEq for ArrayType {
    fn eq(&self, other: &Self) -> (same: bool) {
        self.equals(other)
    }
}

impl PartialEqSpecImpl for ArrayType {
    open spec fn obeys_eq_spec() -> bool {
        true
    }

    open spec fn eq_spec(&self, other: &Self) -> bool {
        *self == *other
    }
}

impl Clone for ArrayType {
    fn clone(&self) -> (copy: Self)
        ensures
            copy == *self,
        decreases self,
    {
        let element: &Type = &self.element_type;
        ArrayType { element_type: Box::new(element.clone()), length: self.length }
    }
}

impl ArrayType {
    /// How many levels of array there are: one for an array of scalars.
    pub open spec fn depth(self) -> nat
        decreases self,
    {
        1 + self@.element.depth()
    }

    /// Whether the array, and every array nested in it, has at least one
    /// element.
    pub open spec fn valid(self) -> bool
        decreases self,
    {
        &&& self@.length >= 1
        &&& self@.element.valid()
    }

    /// The innermost element type: what is left when every level of
    /// nesting has been taken off.
    pub open spec fn base(self) -> Type
        decreases self,
    {
        match self@.element {
            Type::Array(inner) => inner.base(),
            other => other,
        }
    }

    /// Whether two array types are nested alike around the same innermost
    /// type, so that they differ at most in their lengths.
    pub open spec fn same_nesting(self, other: ArrayType) -> bool
        decreases self,
    {
        match self@.element {
            Type::Array(inner) => other@.element is Array && inner.same_nesting(
                other@.element->Array_0,
            ),
            scalar => other@.element == scalar,
        }
    }

    /// The array type as it is written in source text: the element type and
    /// the decimal length, separated by a semicolon and a space, in square
    /// brackets.
    pub open spec fn render(self) -> Seq<char>
        decreases self,
    {
        "["@ + self@.element.render() + "; "@ + decimal(self@.length) + "]"@
    }

    /// The array type of the given element type and length.
    pub closed spec fn spec_new(element: Type, length: PositiveNumber) -> ArrayType {
        ArrayType { element_type: Box::new(element), length }
    }

    /// Creates a new array type.
    #[verifier::when_used_as_spec(spec_new)]
    pub fn new(element: Type, length: PositiveNumber) -> (array: Self)
        ensures
            array == ArrayType::new(element, length),
            array@.element == element,
            array@.length == length@,
    {
        Self { element_type: Box::new(element), length }
    }

    /// Returns the element type of the array.
    pub fn element_type(&self) -> (element: &Type)
        ensures
            *element == self@.element,
    {
        &self.element_type
    }

    /// Returns the length of the array.
    pub fn length(&self) -> (length: usize)
        ensures
            length == self@.length,
            length >= 1,
    {
        self.length.to_usize()
    }

    /// Returns the base element type of the array.
    pub fn base_element_type(&self) -> (base: &Type)
        ensures
            *base == self.base(),
            !(*base is Array),
        decreases self,
    {
        let element: &Type = &self.element_type;
        match element {
            Type::Array(inner) => inner.base_element_type(),
            other => other,
        }
    }

    /// Whether two array types have equal lengths and, level by level,
    /// equal element types. This is what `==` computes.
    pub fn equals(&self, other: &ArrayType) -> (same: bool)
        ensures
            same == (*self == *other),
        decreases self,
    {
        let mine: &Type = &self.element_type;
        let theirs: &Type = &other.element_type;
        self.length == other.length && mine.equals(theirs)
    }

    /// Appends the array type, as it is written in source text, to `out`.
    pub fn write_to(&self, out: &mut String)
        ensures
            final(out)@ == old(out)@ + self.render(),
        decreases self,
    {
        let element: &Type = &self.element_type;
        out.append("[");
        element.write_to(out);
        out.append("; ");
        push_decimal(out, self.length.to_usize());
        out.append("]");
    }

    /// Returns the array type as it is written in source text.
    pub fn to_string(&self) -> (text: String)
        ensures
            text@ == self.render(),
    {
        let mut text = String::new();
        self.write_to(&mut text);
        text
    }
}

/// A new array type has the element type and the length that it was made
/// with.
pub proof fn lemma_new_keeps_parts(element: Type, length: PositiveNumber)
    ensures
        ArrayType::new(element, length)@.element == element,
        ArrayType::new(element, length)@.length == length@,
{
}

/// Two array types are equal exactly when their element types are equal
/// and their lengths are equal: an array type has no identity beyond its
/// shape.
pub proof fn lemma_equal_iff_same_shape(a: ArrayType, b: ArrayType)
    ensures
        (a == b) <==> (a@.element == b@.element && a@.length == b@.length),
{
    lemma_equal_iff_same_count(a.length, b.length);
}

/// Two array types of one element type are equal exactly when their lengths
/// are equal.
pub proof fn lemma_same_element_equal_iff_same_length(
    element: Type,
    n1: PositiveNumber,
    n2: PositiveNumber,
)
    ensures
        (ArrayType::new(element, n1) == ArrayType::new(element, n2)) <==> n1 == n2,
{
}

/// Two array types of one length and of different element types are
/// different.
pub proof fn lemma_different_elements_differ(e1: Type, e2: Type, n: PositiveNumber)
    requires
        e1 != e2,
    ensures
        ArrayType::new(e1, n) != ArrayType::new(e2, n),
{
}

/// The length of an array type fits a machine-sized unsigned integer.
pub proof fn lemma_length_fits(a: ArrayType)
    ensures
        a@.length <= usize::MAX,
{
    lemma_count_fits(a.length);
}

/// The base element type is never an array.
pub proof fn lemma_base_is_no_array(a: ArrayType)
    ensures
        !(a.base() is Array),
    decreases a,
{
    if let Type::Array(inner) = a@.element {
        lemma_base_is_no_array(inner);
    }
}

/// The base element type of an array whose elements are no arrays is its
/// element type.
pub proof fn lemma_base_of_flat_array(a: ArrayType)
    requires
        !(a@.element is Array),
    ensures
        a.base() == a@.element,
{
}

/// The base element type of an array of arrays is that of the inner array,
/// whatever the outer length is.
pub proof fn lemma_base_of_nested_array(a: ArrayType, inner: ArrayType)
    requires
        a@.element == Type::Array(inner),
    ensures
        a.base() == inner.base(),
{
}

/// The base element type does not depend on any length: two array types
/// that differ only in their lengths, at any level, have the same base.
pub proof fn lemma_base_ignores_lengths(a: ArrayType, b: ArrayType)
    requires
        a.same_nesting(b),
    ensures
        a.base() == b.base(),
    decreases a,
{
    if let Type::Array(inner) = a@.element {
        lemma_base_ignores_lengths(inner, b@.element->Array_0);
    }
}

} // verus!
