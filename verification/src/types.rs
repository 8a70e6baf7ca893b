//! The types that an array can hold.

use vstd::prelude::*;
use vstd::std_specs::cmp::PartialEqSpecImpl;
use vstd::string::StringExecFns;

use crate::array::ArrayType;

verus! {

/// The fixed-width integer types: unsigned and signed, of 8 to 128 bits.
#[derive(Clone, Copy, Debug, PartialEq, Eq, Hash, Structural)]
pub enum IntegerType {
    U8,
    U16,
    U32,
    U64,
    U128,
    I8,
    I16,
    I32,
    I64,
    I128,
}

impl IntegerType {
    /// The name of the integer type as it is written in source text.
    pub open spec fn render(self) -> Seq<char> {
        match self {
            IntegerType::U8 => "u8"@,
            IntegerType::U16 => "u16"@,
            IntegerType::U32 => "u32"@,
            IntegerType::U64 => "u64"@,
            IntegerType::U128 => "u128"@,
            IntegerType::I8 => "i8"@,
            IntegerType::I16 => "i16"@,
            IntegerType::I32 => "i32"@,
            IntegerType::I64 => "i64"@,
            IntegerType::I128 => "i128"@,
        }
    }

    /// Returns the name of the integer type.
    pub fn name(&self) -> (text: &'static str)
        ensures
            text@ == self.render(),
    {
        match self {
            IntegerType::U8 => "u8",
            IntegerType::U16 => "u16",
            IntegerType::U32 => "u32",
            IntegerType::U64 => "u64",
            IntegerType::U128 => "u128",
            IntegerType::I8 => "i8",
            IntegerType::I16 => "i16",
            IntegerType::I32 => "i32",
            IntegerType::I64 => "i64",
            IntegerType::I128 => "i128",
        }
    }
}

/// A type of the language: one of the types without parts, or an array of
/// some type.
///
/// A type is plain data: two types are equal exactly when they are the same
/// variant and hold equal contents.
#[derive(Debug, Eq)]
pub enum Type {
    /// An account address.
    Address,
    /// A truth value.
    Boolean,
    /// An element of the base field.
    Field,
    /// A point of the group.
    Group,
    /// An integer of a fixed width.
    Integer(IntegerType),
    /// An element of the scalar field.
    Scalar,
    /// A signature.
    Signature,
    /// The type with one value.
    Unit,
    /// A fixed-size array.
    Array(ArrayType),
}

impl PartialEq for Type {
    fn eq(&self, other: &Self) -> (same: bool) {
        self.equals(other)
    }
}

impl PartialEqSpecImpl for Type {
    open spec fn obeys_eq_spec() -> bool {
        true
    }

    open spec fn eq_spec(&self, other: &Self) -> bool {
        *self == *other
    }
}

impl Clone for Type {
    fn clone(&self) -> (copy: Self)
        ensures
            copy == *self,
        decreases self,
    {
        match self {
            Type::Address => Type::Address,
            Type::Boolean => Type::Boolean,
            Type::Field => Type::Field,
            Type::Group => Type::Group,
            Type::Integer(integer) => Type::Integer(*integer),
            Type::Scalar => Type::Scalar,
            Type::Signature => Type::Signature,
            Type::Unit => Type::Unit,
            Type::Array(array) => Type::Array(array.clone()),
        }
    }
}

impl Type {
    /// How many levels of array there are around the innermost type: zero
    /// for a type that is no array.
    pub open spec fn depth(self) -> nat
        decreases self,
    {
        match self {
            Type::Array(array) => array.depth(),
            _ => 0,
        }
    }

    /// Whether every array in the type has at least one element.
    pub open spec fn valid(self) -> bool
        decreases self,
    {
        match self {
            Type::Array(array) => array.valid(),
            _ => true,
        }
    }

    /// The type as it is written in source text.
    pub open spec fn render(self) -> Seq<char>
        decreases self,
    {
        match self {
            Type::Address => "address"@,
            Type::Boolean => "bool"@,
            Type::Field => "field"@,
            Type::Group => "group"@,
            Type::Integer(integer) => integer.render(),
            Type::Scalar => "scalar"@,
            Type::Signature => "signature"@,
            Type::Unit => "()"@,
            Type::Array(array) => array.render(),
        }
    }

    /// Whether two types are the same variant with, level by level, equal
    /// contents. This is what `==` computes.
    pub fn equals(&self, other: &Type) -> (same: bool)
        ensures
            same == (*self == *other),
        decreases self,
    {
        match (self, other) {
            (Type::Address, Type::Address) => true,
            (Type::Boolean, Type::Boolean) => true,
            (Type::Field, Type::Field) => true,
            (Type::Group, Type::Group) => true,
            (Type::Integer(mine), Type::Integer(theirs)) => *mine == *theirs,
            (Type::Scalar, Type::Scalar) => true,
            (Type::Signature, Type::Signature) => true,
            (Type::Unit, Type::Unit) => true,
            (Type::Array(mine), Type::Array(theirs)) => mine.equals(theirs),
            _ => false,
        }
    }

    /// Appends the type, as it is written in source text, to `out`.
    pub fn write_to(&self, out: &mut String)
        ensures
            final(out)@ == old(out)@ + self.render(),
        decreases self,
    {
        match self {
            Type::Address => out.append("address"),
            Type::Boolean => out.append("bool"),
            Type::Field => out.append("field"),
            Type::Group => out.append("group"),
            Type::Integer(integer) => out.append(integer.name()),
            Type::Scalar => out.append("scalar"),
            Type::Signature => out.append("signature"),
            Type::Unit => out.append("()"),
            Type::Array(array) => array.write_to(out),
        }
    }

    /// Returns the type as it is written in source text.
    pub fn to_string(&self) -> (text: String)
        ensures
            text@ == self.render(),
    {
        let mut text = String::new();
        self.write_to(&mut text);
        text
    }
}

} // verus!
