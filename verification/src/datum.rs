//! Kinds of values a column can hold.

use vstd::prelude::*;

verus! {

/// Logical kind of the values stored in a column.
#[derive(Clone, Copy, Debug, PartialEq, Eq, Structural, Hash)]
pub enum DatumKind {
    Null,
    Timestamp,
    Double,
    Float,
    Varbinary,
    String,
    UInt64,
    UInt32,
    UInt16,
    UInt8,
    Int64,
    Int32,
    Int16,
    Int8,
    Boolean,
}

impl DatumKind {
    /// Kinds that are totally ordered and may therefore take part in a key.
    pub open spec fn spec_is_key_kind(&self) -> bool {
        !(self is Null || self is Double || self is Float)
    }

    /// Width in bytes of the fixed slot a value of this kind takes in a
    /// contiguous row. Variable-length kinds store a four byte offset into
    /// the string buffer.
    pub open spec fn spec_byte_size(&self) -> nat {
        match *self {
            DatumKind::Null => 1,
            DatumKind::Timestamp => 8,
            DatumKind::Double => 8,
            DatumKind::Float => 4,
            DatumKind::Varbinary => 4,
            DatumKind::String => 4,
            DatumKind::UInt64 => 8,
            DatumKind::UInt32 => 4,
            DatumKind::UInt16 => 2,
            DatumKind::UInt8 => 1,
            DatumKind::Int64 => 8,
            DatumKind::Int32 => 4,
            DatumKind::Int16 => 2,
            DatumKind::Int8 => 1,
            DatumKind::Boolean => 1,
        }
    }

    /// Returns true for the timestamp kind.
    pub fn is_timestamp(&self) -> (r: bool)
        ensures
            r == (*self is Timestamp),
    {
        match self {
            DatumKind::Timestamp => true,
            _ => false,
        }
    }

    /// Can a column of this kind be used as a key column.
    #[verifier::when_used_as_spec(spec_is_key_kind)]
    pub fn is_key_kind(&self) -> (r: bool)
        ensures
            r == self.spec_is_key_kind(),
    {
        match self {
            DatumKind::Null | DatumKind::Double | DatumKind::Float => false,
            _ => true,
        }
    }

    /// Fixed width of a value of this kind in a contiguous row.
    pub fn byte_size(&self) -> (r: usize)
        ensures
            r == self.spec_byte_size(),
            1 <= r <= 8,
    {
        match self {
            DatumKind::Null | DatumKind::UInt8 | DatumKind::Int8 | DatumKind::Boolean => 1,
            DatumKind::UInt16 | DatumKind::Int16 => 2,
            DatumKind::Float
            | DatumKind::Varbinary
            | DatumKind::String
            | DatumKind::UInt32
            | DatumKind::Int32 => 4,
            DatumKind::Timestamp | DatumKind::Double | DatumKind::UInt64 | DatumKind::Int64 => 8,
        }
    }
}

} // verus!
