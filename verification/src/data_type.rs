//! The classification of native values.

use vstd::prelude::*;

verus! {

/// The type of a value as the toolchain classifies it.
#[derive(Debug, Clone, Copy, PartialEq, Eq, Hash, Structural)]
pub enum DataType {
    I8,
    U8,
    I16,
    U16,
    I32,
    U32,
    I64,
    U64,
    Float,
    Double,
    /// Machine-dependent: an IEEE double, an x86 80-bit value or an IEEE
    /// quad-precision value.
    LongDouble,
    Pointer,
    Block,
    /// Return block data, only usable for function arguments.
    RBlock,
}

impl DataType {
    /// The number by which the native library knows this type.
    pub open spec fn spec_code(self) -> u32 {
        match self {
            DataType::I8 => 0,
            DataType::U8 => 1,
            DataType::I16 => 2,
            DataType::U16 => 3,
            DataType::I32 => 4,
            DataType::U32 => 5,
            DataType::I64 => 6,
            DataType::U64 => 7,
            DataType::Float => 8,
            DataType::Double => 9,
            DataType::LongDouble => 10,
            DataType::Pointer => 11,
            DataType::Block => 12,
            DataType::RBlock => 17,
        }
    }

    /// The fixed-width integers of either sign, and the pointer.
    pub open spec fn spec_is_integer(self) -> bool {
        self.spec_code() <= 7 || self == DataType::Pointer
    }

    /// The three floating-point precisions.
    pub open spec fn spec_is_float(self) -> bool {
        8 <= self.spec_code() <= 10
    }

    /// The two block aggregates.
    pub open spec fn spec_is_block(self) -> bool {
        self == DataType::Block || self == DataType::RBlock
    }

    /// The number by which the native library knows this type.
    #[must_use]
    pub fn code(self) -> (code: u32)
        ensures
            code == self.spec_code(),
    {
        match self {
            DataType::I8 => 0,
            DataType::U8 => 1,
            DataType::I16 => 2,
            DataType::U16 => 3,
            DataType::I32 => 4,
            DataType::U32 => 5,
            DataType::I64 => 6,
            DataType::U64 => 7,
            DataType::Float => 8,
            DataType::Double => 9,
            DataType::LongDouble => 10,
            DataType::Pointer => 11,
            DataType::Block => 12,
            DataType::RBlock => 17,
        }
    }

    /// Note that this returns `true` for [`DataType::Pointer`].
    #[must_use]
    pub fn is_integer(self) -> (yes: bool)
        ensures
            yes == self.spec_is_integer(),
    {
        match self {
            DataType::I8
            | DataType::U8
            | DataType::I16
            | DataType::U16
            | DataType::I32
            | DataType::U32
            | DataType::I64
            | DataType::U64
            | DataType::Pointer => true,
            _ => false,
        }
    }

    /// Checks if this is one of the following:
    /// - [`DataType::Float`]
    /// - [`DataType::Double`]
    /// - [`DataType::LongDouble`]
    #[must_use]
    pub fn is_float(self) -> (yes: bool)
        ensures
            yes == self.spec_is_float(),
    {
        match self {
            DataType::Float | DataType::Double | DataType::LongDouble => true,
            _ => false,
        }
    }

    /// Every type is of exactly one class: integer-like, float-like or
    /// block.
    pub proof fn lemma_one_class(self)
        ensures
            self.spec_is_integer() || self.spec_is_float() || self.spec_is_block(),
            !(self.spec_is_integer() && self.spec_is_float()),
            !(self.spec_is_integer() && self.spec_is_block()),
            !(self.spec_is_float() && self.spec_is_block()),
    {
    }

    /// No two types share a number.
    pub proof fn lemma_code_injective(self, other: DataType)
        ensures
            self.spec_code() == other.spec_code() <==> self == other,
    {
    }
}

} // verus!
