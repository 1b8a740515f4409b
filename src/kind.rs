use vstd::prelude::*;

verus! {

/// The closed set of primitive kinds a type descriptor can have.
///
/// On the wire each kind travels as a small integer, see [`Self::code`].
#[derive(Debug, Clone, Copy, PartialEq, Eq, Structural)]
pub enum PrimitiveMetacallProtocolTypes {
    Bool,
    Char,
    Short,
    Int,
    Long,
    Float,
    Double,
    String,
    Buffer,
    Array,
    Mapping,
    Pointer,
    Future,
    Function,
    Null,
    Class,
    Object,
}

/// The fixed integer encoding of each kind, in declaration order from zero.
pub open spec fn kind_code(k: PrimitiveMetacallProtocolTypes) -> int {
    match k {
        PrimitiveMetacallProtocolTypes::Bool => 0,
        PrimitiveMetacallProtocolTypes::Char => 1,
        PrimitiveMetacallProtocolTypes::Short => 2,
        PrimitiveMetacallProtocolTypes::Int => 3,
        PrimitiveMetacallProtocolTypes::Long => 4,
        PrimitiveMetacallProtocolTypes::Float => 5,
        PrimitiveMetacallProtocolTypes::Double => 6,
        PrimitiveMetacallProtocolTypes::String => 7,
        PrimitiveMetacallProtocolTypes::Buffer => 8,
        PrimitiveMetacallProtocolTypes::Array => 9,
        PrimitiveMetacallProtocolTypes::Mapping => 10,
        PrimitiveMetacallProtocolTypes::Pointer => 11,
        PrimitiveMetacallProtocolTypes::Future => 12,
        PrimitiveMetacallProtocolTypes::Function => 13,
        PrimitiveMetacallProtocolTypes::Null => 14,
        PrimitiveMetacallProtocolTypes::Class => 15,
        PrimitiveMetacallProtocolTypes::Object => 16,
    }
}

/// The number of primitive kinds; valid codes are `0..KIND_COUNT`.
pub const KIND_COUNT: i32 = 17;

impl PrimitiveMetacallProtocolTypes {
    /// The wire code of this kind.
    pub fn code(&self) -> (r: i32)
        ensures
            r as int == kind_code(*self),
            0 <= r < KIND_COUNT,
    {
        match self {
            PrimitiveMetacallProtocolTypes::Bool => 0,
            PrimitiveMetacallProtocolTypes::Char => 1,
            PrimitiveMetacallProtocolTypes::Short => 2,
            PrimitiveMetacallProtocolTypes::Int => 3,
            PrimitiveMetacallProtocolTypes::Long => 4,
            PrimitiveMetacallProtocolTypes::Float => 5,
            PrimitiveMetacallProtocolTypes::Double => 6,
            PrimitiveMetacallProtocolTypes::String => 7,
            PrimitiveMetacallProtocolTypes::Buffer => 8,
            PrimitiveMetacallProtocolTypes::Array => 9,
            PrimitiveMetacallProtocolTypes::Mapping => 10,
            PrimitiveMetacallProtocolTypes::Pointer => 11,
            PrimitiveMetacallProtocolTypes::Future => 12,
            PrimitiveMetacallProtocolTypes::Function => 13,
            PrimitiveMetacallProtocolTypes::Null => 14,
            PrimitiveMetacallProtocolTypes::Class => 15,
            PrimitiveMetacallProtocolTypes::Object => 16,
        }
    }

    /// The kind with the given wire code; `None` for a code outside the
    /// enumeration.
    pub fn from_code(code: i32) -> (r: Option<PrimitiveMetacallProtocolTypes>)
        ensures
            r is None <==> !(0 <= code < KIND_COUNT),
            r matches Some(k) ==> kind_code(k) == code as int,
    {
        match code {
            0 => Some(PrimitiveMetacallProtocolTypes::Bool),
            1 => Some(PrimitiveMetacallProtocolTypes::Char),
            2 => Some(PrimitiveMetacallProtocolTypes::Short),
            3 => Some(PrimitiveMetacallProtocolTypes::Int),
            4 => Some(PrimitiveMetacallProtocolTypes::Long),
            5 => Some(PrimitiveMetacallProtocolTypes::Float),
            6 => Some(PrimitiveMetacallProtocolTypes::Double),
            7 => Some(PrimitiveMetacallProtocolTypes::String),
            8 => Some(PrimitiveMetacallProtocolTypes::Buffer),
            9 => Some(PrimitiveMetacallProtocolTypes::Array),
            10 => Some(PrimitiveMetacallProtocolTypes::Mapping),
            11 => Some(PrimitiveMetacallProtocolTypes::Pointer),
            12 => Some(PrimitiveMetacallProtocolTypes::Future),
            13 => Some(PrimitiveMetacallProtocolTypes::Function),
            14 => Some(PrimitiveMetacallProtocolTypes::Null),
            15 => Some(PrimitiveMetacallProtocolTypes::Class),
            16 => Some(PrimitiveMetacallProtocolTypes::Object),
            _ => None,
        }
    }
}

} // verus!
