//! The scalar descriptors and the type tags of the foreign layout.

use vstd::prelude::*;

verus! {

/// The tag stored in a descriptor's `type_` field.
#[derive(Clone, Copy, Debug, PartialEq, Eq, Structural)]
pub enum TypeTag {
    Void,
    Int,
    Float,
    Double,
    LongDouble,
    UInt8,
    SInt8,
    UInt16,
    SInt16,
    UInt32,
    SInt32,
    UInt64,
    SInt64,
    Struct,
    Pointer,
    Complex,
}

/// One of the immutable, process-wide scalar descriptors. A value of this
/// type stands for the descriptor's identity: two handles of the same kind
/// refer to the same descriptor.
#[derive(Clone, Copy, Debug, PartialEq, Eq, Structural)]
pub enum ScalarKind {
    Void,
    UInt8,
    SInt8,
    UInt16,
    SInt16,
    UInt32,
    SInt32,
    UInt64,
    SInt64,
    Float,
    Double,
    Pointer,
    LongDouble,
    ComplexFloat,
    ComplexDouble,
    ComplexLongDouble,
}

impl TypeTag {
    /// The number by which the foreign layout encodes this tag.
    pub open spec fn spec_code(self) -> u16 {
        match self {
            TypeTag::Void => 0,
            TypeTag::Int => 1,
            TypeTag::Float => 2,
            TypeTag::Double => 3,
            TypeTag::LongDouble => 4,
            TypeTag::UInt8 => 5,
            TypeTag::SInt8 => 6,
            TypeTag::UInt16 => 7,
            TypeTag::SInt16 => 8,
            TypeTag::UInt32 => 9,
            TypeTag::SInt32 => 10,
            TypeTag::UInt64 => 11,
            TypeTag::SInt64 => 12,
            TypeTag::Struct => 13,
            TypeTag::Pointer => 14,
            TypeTag::Complex => 15,
        }
    }

    /// The number by which the foreign layout encodes this tag.
    pub fn code(self) -> (c: u16)
        ensures
            c == self.spec_code(),
    {
        match self {
            TypeTag::Void => 0,
            TypeTag::Int => 1,
            TypeTag::Float => 2,
            TypeTag::Double => 3,
            TypeTag::LongDouble => 4,
            TypeTag::UInt8 => 5,
            TypeTag::SInt8 => 6,
            TypeTag::UInt16 => 7,
            TypeTag::SInt16 => 8,
            TypeTag::UInt32 => 9,
            TypeTag::SInt32 => 10,
            TypeTag::UInt64 => 11,
            TypeTag::SInt64 => 12,
            TypeTag::Struct => 13,
            TypeTag::Pointer => 14,
            TypeTag::Complex => 15,
        }
    }
}

impl ScalarKind {
    /// The tag that the scalar descriptor of this kind carries.
    pub open spec fn spec_tag(self) -> TypeTag {
        match self {
            ScalarKind::Void => TypeTag::Void,
            ScalarKind::UInt8 => TypeTag::UInt8,
            ScalarKind::SInt8 => TypeTag::SInt8,
            ScalarKind::UInt16 => TypeTag::UInt16,
            ScalarKind::SInt16 => TypeTag::SInt16,
            ScalarKind::UInt32 => TypeTag::UInt32,
            ScalarKind::SInt32 => TypeTag::SInt32,
            ScalarKind::UInt64 => TypeTag::UInt64,
            ScalarKind::SInt64 => TypeTag::SInt64,
            ScalarKind::Float => TypeTag::Float,
            ScalarKind::Double => TypeTag::Double,
            ScalarKind::Pointer => TypeTag::Pointer,
            ScalarKind::LongDouble => TypeTag::LongDouble,
            ScalarKind::ComplexFloat => TypeTag::Complex,
            ScalarKind::ComplexDouble => TypeTag::Complex,
            ScalarKind::ComplexLongDouble => TypeTag::Complex,
        }
    }

    /// The tag that the scalar descriptor of this kind carries. It is never
    /// the structure tag.
    pub fn tag(self) -> (t: TypeTag)
        ensures
            t == self.spec_tag(),
            t != TypeTag::Struct,
    {
        match self {
            ScalarKind::Void => TypeTag::Void,
            ScalarKind::UInt8 => TypeTag::UInt8,
            ScalarKind::SInt8 => TypeTag::SInt8,
            ScalarKind::UInt16 => TypeTag::UInt16,
            ScalarKind::SInt16 => TypeTag::SInt16,
            ScalarKind::UInt32 => TypeTag::UInt32,
            ScalarKind::SInt32 => TypeTag::SInt32,
            ScalarKind::UInt64 => TypeTag::UInt64,
            ScalarKind::SInt64 => TypeTag::SInt64,
            ScalarKind::Float => TypeTag::Float,
            ScalarKind::Double => TypeTag::Double,
            ScalarKind::Pointer => TypeTag::Pointer,
            ScalarKind::LongDouble => TypeTag::LongDouble,
            ScalarKind::ComplexFloat => TypeTag::Complex,
            ScalarKind::ComplexDouble => TypeTag::Complex,
            ScalarKind::ComplexLongDouble => TypeTag::Complex,
        }
    }

    /// The unsigned integer kind of a pointer-sized value that takes `bytes`
    /// bytes.
    pub open spec fn pointer_sized_unsigned(bytes: nat) -> ScalarKind {
        if bytes == 2 {
            ScalarKind::UInt16
        } else if bytes == 4 {
            ScalarKind::UInt32
        } else {
            ScalarKind::UInt64
        }
    }

    /// The signed integer kind of a pointer-sized value that takes `bytes`
    /// bytes.
    pub open spec fn pointer_sized_signed(bytes: nat) -> ScalarKind {
        if bytes == 2 {
            ScalarKind::SInt16
        } else if bytes == 4 {
            ScalarKind::SInt32
        } else {
            ScalarKind::SInt64
        }
    }
}

} // verus!
