//! PostgreSQL type codes and the conversion rule that each one selects.

use vstd::prelude::*;

verus! {

pub const BOOL_OID: u32 = 16;

pub const CHAR_OID: u32 = 18;

pub const NAME_OID: u32 = 19;

pub const INT8_OID: u32 = 20;

pub const INT2_OID: u32 = 21;

pub const INT4_OID: u32 = 23;

pub const TEXT_OID: u32 = 25;

pub const OID_OID: u32 = 26;

pub const FLOAT4_OID: u32 = 700;

pub const FLOAT8_OID: u32 = 701;

pub const UNKNOWN_OID: u32 = 705;

pub const BOOL_ARRAY_OID: u32 = 1000;

pub const NAME_ARRAY_OID: u32 = 1003;

pub const INT2_ARRAY_OID: u32 = 1005;

pub const INT4_ARRAY_OID: u32 = 1007;

pub const TEXT_ARRAY_OID: u32 = 1009;

pub const VARCHAR_ARRAY_OID: u32 = 1015;

pub const INT8_ARRAY_OID: u32 = 1016;

pub const FLOAT4_ARRAY_OID: u32 = 1021;

pub const FLOAT8_ARRAY_OID: u32 = 1022;

pub const BPCHAR_OID: u32 = 1042;

pub const VARCHAR_OID: u32 = 1043;

pub const TIMESTAMP_OID: u32 = 1114;

pub const TIMESTAMP_ARRAY_OID: u32 = 1115;

pub const NUMERIC_ARRAY_OID: u32 = 1231;

pub const NUMERIC_OID: u32 = 1700;

pub const VOID_OID: u32 = 2278;

pub const UUID_OID: u32 = 2950;

/// How the bytes of one value are read.
#[derive(Debug, Clone, Copy, PartialEq, Eq, Structural)]
pub enum Scalar {
    Bool,
    Int2,
    Int4,
    Int8,
    Oid,
    Char,
    Float4,
    Float8,
    Numeric,
    Timestamp,
    Uuid,
    /// `TEXT`, `NAME`, `VARCHAR`, `BPCHAR` and `UNKNOWN`: UTF-8 text.
    Text,
}

/// The conversion rule of a column.
#[derive(Debug, Clone, Copy, PartialEq, Eq, Structural)]
pub enum PgType {
    /// `VOID`: there is no value to read.
    Void,
    /// One value.
    Scalar(Scalar),
    /// A one-dimensional array of values.
    Array(Scalar),
    /// A type without a rule: only SQL `NULL` of it can be converted.
    Other,
}

/// The rule that a type code selects. The text types are told by their
/// codes; a type that an extension defines has no fixed code, so it has no
/// rule here, whatever its values look like.
pub open spec fn classify_spec(oid: u32) -> PgType {
    if oid == VOID_OID {
        PgType::Void
    } else if oid == BOOL_OID {
        PgType::Scalar(Scalar::Bool)
    } else if oid == INT2_OID {
        PgType::Scalar(Scalar::Int2)
    } else if oid == INT4_OID {
        PgType::Scalar(Scalar::Int4)
    } else if oid == INT8_OID {
        PgType::Scalar(Scalar::Int8)
    } else if oid == OID_OID {
        PgType::Scalar(Scalar::Oid)
    } else if oid == CHAR_OID {
        PgType::Scalar(Scalar::Char)
    } else if oid == FLOAT4_OID {
        PgType::Scalar(Scalar::Float4)
    } else if oid == FLOAT8_OID {
        PgType::Scalar(Scalar::Float8)
    } else if oid == NUMERIC_OID {
        PgType::Scalar(Scalar::Numeric)
    } else if oid == TIMESTAMP_OID {
        PgType::Scalar(Scalar::Timestamp)
    } else if oid == UUID_OID {
        PgType::Scalar(Scalar::Uuid)
    } else if oid == BOOL_ARRAY_OID {
        PgType::Array(Scalar::Bool)
    } else if oid == INT2_ARRAY_OID {
        PgType::Array(Scalar::Int2)
    } else if oid == INT4_ARRAY_OID {
        PgType::Array(Scalar::Int4)
    } else if oid == INT8_ARRAY_OID {
        PgType::Array(Scalar::Int8)
    } else if oid == FLOAT4_ARRAY_OID {
        PgType::Array(Scalar::Float4)
    } else if oid == FLOAT8_ARRAY_OID {
        PgType::Array(Scalar::Float8)
    } else if oid == NUMERIC_ARRAY_OID {
        PgType::Array(Scalar::Numeric)
    } else if oid == TIMESTAMP_ARRAY_OID {
        PgType::Array(Scalar::Timestamp)
    } else if oid == TEXT_ARRAY_OID || oid == NAME_ARRAY_OID || oid == VARCHAR_ARRAY_OID {
        PgType::Array(Scalar::Text)
    } else if oid == TEXT_OID || oid == NAME_OID || oid == VARCHAR_OID || oid == BPCHAR_OID || oid
        == UNKNOWN_OID {
        PgType::Scalar(Scalar::Text)
    } else {
        PgType::Other
    }
}

/// The rule that a type code selects.
pub fn classify(oid: u32) -> (rule: PgType)
    ensures
        rule == classify_spec(oid),
{
    match oid {
        VOID_OID => PgType::Void,
        BOOL_OID => PgType::Scalar(Scalar::Bool),
        INT2_OID => PgType::Scalar(Scalar::Int2),
        INT4_OID => PgType::Scalar(Scalar::Int4),
        INT8_OID => PgType::Scalar(Scalar::Int8),
        OID_OID => PgType::Scalar(Scalar::Oid),
        CHAR_OID => PgType::Scalar(Scalar::Char),
        FLOAT4_OID => PgType::Scalar(Scalar::Float4),
        FLOAT8_OID => PgType::Scalar(Scalar::Float8),
        NUMERIC_OID => PgType::Scalar(Scalar::Numeric),
        TIMESTAMP_OID => PgType::Scalar(Scalar::Timestamp),
        UUID_OID => PgType::Scalar(Scalar::Uuid),
        BOOL_ARRAY_OID => PgType::Array(Scalar::Bool),
        INT2_ARRAY_OID => PgType::Array(Scalar::Int2),
        INT4_ARRAY_OID => PgType::Array(Scalar::Int4),
        INT8_ARRAY_OID => PgType::Array(Scalar::Int8),
        FLOAT4_ARRAY_OID => PgType::Array(Scalar::Float4),
        FLOAT8_ARRAY_OID => PgType::Array(Scalar::Float8),
        NUMERIC_ARRAY_OID => PgType::Array(Scalar::Numeric),
        TIMESTAMP_ARRAY_OID => PgType::Array(Scalar::Timestamp),
        TEXT_ARRAY_OID | NAME_ARRAY_OID | VARCHAR_ARRAY_OID => PgType::Array(Scalar::Text),
        TEXT_OID | NAME_OID | VARCHAR_OID | BPCHAR_OID | UNKNOWN_OID => PgType::Scalar(
            Scalar::Text,
        ),
        _ => PgType::Other,
    }
}

} // verus!
