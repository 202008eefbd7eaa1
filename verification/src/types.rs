use vstd::prelude::*;
use vstd::string::*;

verus! {

/// Unit of a time or timestamp type.
#[derive(Debug, Clone, Copy, PartialEq, Eq, Structural)]
pub enum TimeUnit {
    Second,
    Millisecond,
    Microsecond,
    Nanosecond,
}

/// An Arrow column type.
#[derive(Debug, Clone, PartialEq, Eq)]
pub enum ArrowType {
    Null,
    Boolean,
    Int8,
    Int16,
    Int32,
    Int64,
    UInt8,
    UInt16,
    UInt32,
    UInt64,
    Float16,
    Float32,
    Float64,
    Utf8,
    LargeUtf8,
    Binary,
    LargeBinary,
    Date32,
    Date64,
    Time32(TimeUnit),
    Time64(TimeUnit),
    /// A timestamp, with its time zone if it has one.
    Timestamp(TimeUnit, Option<String>),
    /// Precision and scale.
    Decimal128(u8, i8),
    /// Any other Arrow type, by its name.
    Other(String),
}

/// A PostgreSQL type, identified by its OID.
#[derive(Debug, Clone, Copy, PartialEq, Eq, Structural)]
pub struct PgType {
    pub oid: u32,
}

/// Why a type has no counterpart on the other side.
#[derive(Debug, Clone, Copy, PartialEq, Eq, Structural)]
pub enum TypeMapError {
    /// A PostgreSQL type, by OID, that has no Arrow counterpart.
    UnsupportedPgType(u32),
    /// An Arrow type that has no PostgreSQL counterpart.
    UnsupportedArrowType,
}

/// The Arrow type that PostgreSQL values of a type are read as. Dates, times,
/// timestamps, numerics, UUIDs and JSON are read as text.
pub open spec fn pg_oid_arrow(oid: u32) -> Option<ArrowType> {
    if oid == 21 {
        Some(ArrowType::Int16)
    } else if oid == 23 {
        Some(ArrowType::Int32)
    } else if oid == 20 {
        Some(ArrowType::Int64)
    } else if oid == 700 {
        Some(ArrowType::Float32)
    } else if oid == 701 {
        Some(ArrowType::Float64)
    } else if oid == 16 {
        Some(ArrowType::Boolean)
    } else if oid == 17 {
        Some(ArrowType::LargeBinary)
    } else if oid == 25 || oid == 1043 || oid == 1082 || oid == 1083 || oid == 1114 || oid == 1184
        || oid == 1700 || oid == 2950 || oid == 114 || oid == 3802 {
        Some(ArrowType::LargeUtf8)
    } else {
        None
    }
}

/// The PostgreSQL column type that an Arrow type is stored as.
pub open spec fn arrow_pg_name(t: ArrowType) -> Option<Seq<char>> {
    match t {
        ArrowType::Int16 => Some("INT2"@),
        ArrowType::Int32 => Some("INT4"@),
        ArrowType::Int64 => Some("INT8"@),
        ArrowType::Float32 => Some("FLOAT4"@),
        ArrowType::Float64 => Some("FLOAT8"@),
        ArrowType::Boolean => Some("BOOL"@),
        ArrowType::Utf8 | ArrowType::LargeUtf8 => Some("TEXT"@),
        ArrowType::Binary | ArrowType::LargeBinary => Some("BYTEA"@),
        ArrowType::Date32 => Some("DATE"@),
        ArrowType::Time64(_) => Some("TIME"@),
        ArrowType::Timestamp(_, tz) => match tz {
            None => Some("TIMESTAMP"@),
            Some(_) => Some("TIMESTAMPTZ"@),
        },
        ArrowType::Decimal128(_, _) => Some("NUMERIC"@),
        _ => None,
    }
}

/// Whether `postgres_types::Type::from_oid` knows `oid` as a built-in type.
pub uninterp spec fn pg_builtin_oid(oid: u32) -> bool;

/// Calls `postgres_types::Type::from_oid` and tells whether it found a type.
/// Claimed: the answer is `pg_builtin_oid(oid)`, and it is yes for the OIDs
/// that `pg_oid_arrow` maps (all of them are in that crate's table of
/// built-in types).
#[verifier::external_body]
fn pg_type_is_builtin(oid: u32) -> (r: bool)
    ensures
        r == pg_builtin_oid(oid),
        pg_oid_arrow(oid) is Some ==> r,
{
    postgres_types::Type::from_oid(oid).is_some()
}

/// The Arrow type that values of a PostgreSQL type are read as.
pub fn pg_type_enum_to_arrow(pg_type: &PgType) -> (r: Result<ArrowType, TypeMapError>)
    ensures
        r == match pg_oid_arrow(pg_type.oid) {
            Some(t) => Ok(t),
            None => Err(TypeMapError::UnsupportedPgType(pg_type.oid)),
        },
{
    let oid = pg_type.oid;
    if oid == 21 {
        Ok(ArrowType::Int16)
    } else if oid == 23 {
        Ok(ArrowType::Int32)
    } else if oid == 20 {
        Ok(ArrowType::Int64)
    } else if oid == 700 {
        Ok(ArrowType::Float32)
    } else if oid == 701 {
        Ok(ArrowType::Float64)
    } else if oid == 16 {
        Ok(ArrowType::Boolean)
    } else if oid == 17 {
        Ok(ArrowType::LargeBinary)
    } else if oid == 25 || oid == 1043 || oid == 1082 || oid == 1083 || oid == 1114 || oid == 1184
        || oid == 1700 || oid == 2950 || oid == 114 || oid == 3802 {
        Ok(ArrowType::LargeUtf8)
    } else {
        Err(TypeMapError::UnsupportedPgType(oid))
    }
}

/// The Arrow type for a PostgreSQL type given by OID; an OID that is not a
/// built-in type, or has no Arrow counterpart, is an error.
pub fn pg_type_to_arrow(oid: u32) -> (r: Result<ArrowType, TypeMapError>)
    ensures
        r == match pg_oid_arrow(oid) {
            Some(t) => Ok(t),
            None => Err(TypeMapError::UnsupportedPgType(oid)),
        },
{
    if !pg_type_is_builtin(oid) {
        return Err(TypeMapError::UnsupportedPgType(oid));
    }
    pg_type_enum_to_arrow(&PgType { oid })
}

/// The same as `pg_type_to_arrow`.
pub fn pg_oid_to_arrow(oid: u32) -> (r: Result<ArrowType, TypeMapError>)
    ensures
        r == match pg_oid_arrow(oid) {
            Some(t) => Ok(t),
            None => Err(TypeMapError::UnsupportedPgType(oid)),
        },
{
    pg_type_to_arrow(oid)
}

/// The PostgreSQL column type that an Arrow type is stored as.
pub fn arrow_to_pg_type(dt: &ArrowType) -> (r: Result<String, TypeMapError>)
    ensures
        match arrow_pg_name(*dt) {
            Some(name) => r matches Ok(s) && s@ == name,
            None => r == Err::<String, TypeMapError>(TypeMapError::UnsupportedArrowType),
        },
{
    match dt {
        ArrowType::Int16 => Ok(String::from_str("INT2")),
        ArrowType::Int32 => Ok(String::from_str("INT4")),
        ArrowType::Int64 => Ok(String::from_str("INT8")),
        ArrowType::Float32 => Ok(String::from_str("FLOAT4")),
        ArrowType::Float64 => Ok(String::from_str("FLOAT8")),
        ArrowType::Boolean => Ok(String::from_str("BOOL")),
        ArrowType::Utf8 | ArrowType::LargeUtf8 => Ok(String::from_str("TEXT")),
        ArrowType::Binary | ArrowType::LargeBinary => Ok(String::from_str("BYTEA")),
        ArrowType::Date32 => Ok(String::from_str("DATE")),
        ArrowType::Time64(_) => Ok(String::from_str("TIME")),
        ArrowType::Timestamp(_, tz) => match tz {
            None => Ok(String::from_str("TIMESTAMP")),
            Some(_) => Ok(String::from_str("TIMESTAMPTZ")),
        },
        ArrowType::Decimal128(_, _) => Ok(String::from_str("NUMERIC")),
        _ => Err(TypeMapError::UnsupportedArrowType),
    }
}

/// The PostgreSQL type a column of a given OID comes back as after an export
/// to Arrow and an import: the numeric, boolean and binary types keep their
/// type, every other readable type comes back as `TEXT`.
pub open spec fn round_trip_pg_name(oid: u32) -> Seq<char> {
    if oid == 21 {
        "INT2"@
    } else if oid == 23 {
        "INT4"@
    } else if oid == 20 {
        "INT8"@
    } else if oid == 700 {
        "FLOAT4"@
    } else if oid == 701 {
        "FLOAT8"@
    } else if oid == 16 {
        "BOOL"@
    } else if oid == 17 {
        "BYTEA"@
    } else {
        "TEXT"@
    }
}

/// Every PostgreSQL column that can be exported to Arrow can be created again
/// on import, with the type `round_trip_pg_name` gives.
pub proof fn lemma_exported_columns_recreatable(oid: u32)
    requires
        pg_oid_arrow(oid) is Some,
    ensures
        arrow_pg_name(pg_oid_arrow(oid)->Some_0) == Some(round_trip_pg_name(oid)),
{
}

} // verus!
