use postg::types::{
    arrow_to_pg_type, pg_oid_to_arrow, pg_type_enum_to_arrow, pg_type_to_arrow, ArrowType, PgType,
    TimeUnit, TypeMapError,
};
use postgres_types::Type;

fn pg(t: &Type) -> PgType {
    PgType { oid: t.oid() }
}

#[test]
fn test_pg_type_enum_to_arrow_primitives() {
    assert_eq!(pg_type_enum_to_arrow(&pg(&Type::INT2)).unwrap(), ArrowType::Int16);
    assert_eq!(pg_type_enum_to_arrow(&pg(&Type::INT4)).unwrap(), ArrowType::Int32);
    assert_eq!(pg_type_enum_to_arrow(&pg(&Type::INT8)).unwrap(), ArrowType::Int64);
    assert_eq!(pg_type_enum_to_arrow(&pg(&Type::FLOAT4)).unwrap(), ArrowType::Float32);
    assert_eq!(pg_type_enum_to_arrow(&pg(&Type::FLOAT8)).unwrap(), ArrowType::Float64);
    assert_eq!(pg_type_enum_to_arrow(&pg(&Type::BOOL)).unwrap(), ArrowType::Boolean);
}

#[test]
fn test_pg_type_enum_to_arrow_strings_and_binary() {
    assert_eq!(pg_type_enum_to_arrow(&pg(&Type::TEXT)).unwrap(), ArrowType::LargeUtf8);
    assert_eq!(pg_type_enum_to_arrow(&pg(&Type::VARCHAR)).unwrap(), ArrowType::LargeUtf8);
    assert_eq!(pg_type_enum_to_arrow(&pg(&Type::BYTEA)).unwrap(), ArrowType::LargeBinary);
}

#[test]
fn test_pg_type_enum_to_arrow_temporal_and_complex() {
    assert_eq!(pg_type_enum_to_arrow(&pg(&Type::DATE)).unwrap(), ArrowType::LargeUtf8);
    assert_eq!(pg_type_enum_to_arrow(&pg(&Type::TIME)).unwrap(), ArrowType::LargeUtf8);
    assert_eq!(pg_type_enum_to_arrow(&pg(&Type::TIMESTAMP)).unwrap(), ArrowType::LargeUtf8);
    assert_eq!(pg_type_enum_to_arrow(&pg(&Type::TIMESTAMPTZ)).unwrap(), ArrowType::LargeUtf8);
    assert_eq!(pg_type_enum_to_arrow(&pg(&Type::NUMERIC)).unwrap(), ArrowType::LargeUtf8);
    assert_eq!(pg_type_enum_to_arrow(&pg(&Type::UUID)).unwrap(), ArrowType::LargeUtf8);
    assert_eq!(pg_type_enum_to_arrow(&pg(&Type::JSON)).unwrap(), ArrowType::LargeUtf8);
    assert_eq!(pg_type_enum_to_arrow(&pg(&Type::JSONB)).unwrap(), ArrowType::LargeUtf8);
}

#[test]
fn test_pg_type_enum_to_arrow_unsupported() {
    assert!(pg_type_enum_to_arrow(&pg(&Type::POINT)).is_err());
    assert!(pg_type_enum_to_arrow(&pg(&Type::MONEY)).is_err());
}

#[test]
fn test_pg_type_to_arrow_and_oid_alias() {
    assert_eq!(pg_type_to_arrow(23).unwrap(), ArrowType::Int32); // INT4 OID is 23
    assert_eq!(pg_oid_to_arrow(23).unwrap(), ArrowType::Int32);
    assert!(pg_type_to_arrow(999999).is_err());
    assert!(pg_oid_to_arrow(999999).is_err());
}

#[test]
fn test_arrow_to_pg_type_primitives() {
    assert_eq!(arrow_to_pg_type(&ArrowType::Int16).unwrap(), "INT2");
    assert_eq!(arrow_to_pg_type(&ArrowType::Int32).unwrap(), "INT4");
    assert_eq!(arrow_to_pg_type(&ArrowType::Int64).unwrap(), "INT8");
    assert_eq!(arrow_to_pg_type(&ArrowType::Float32).unwrap(), "FLOAT4");
    assert_eq!(arrow_to_pg_type(&ArrowType::Float64).unwrap(), "FLOAT8");
    assert_eq!(arrow_to_pg_type(&ArrowType::Boolean).unwrap(), "BOOL");
}

#[test]
fn test_arrow_to_pg_type_strings_and_binary() {
    assert_eq!(arrow_to_pg_type(&ArrowType::Utf8).unwrap(), "TEXT");
    assert_eq!(arrow_to_pg_type(&ArrowType::LargeUtf8).unwrap(), "TEXT");
    assert_eq!(arrow_to_pg_type(&ArrowType::Binary).unwrap(), "BYTEA");
    assert_eq!(arrow_to_pg_type(&ArrowType::LargeBinary).unwrap(), "BYTEA");
}

#[test]
fn test_arrow_to_pg_type_temporal_and_complex() {
    assert_eq!(arrow_to_pg_type(&ArrowType::Date32).unwrap(), "DATE");
    assert_eq!(
        arrow_to_pg_type(&ArrowType::Time64(TimeUnit::Microsecond)).unwrap(),
        "TIME"
    );
    assert_eq!(
        arrow_to_pg_type(&ArrowType::Timestamp(TimeUnit::Microsecond, None)).unwrap(),
        "TIMESTAMP"
    );
    assert_eq!(
        arrow_to_pg_type(&ArrowType::Timestamp(TimeUnit::Microsecond, Some("UTC".into()))).unwrap(),
        "TIMESTAMPTZ"
    );
    assert_eq!(
        arrow_to_pg_type(&ArrowType::Decimal128(38, 9)).unwrap(),
        "NUMERIC"
    );
}

#[test]
fn test_arrow_to_pg_type_unsupported() {
    assert!(arrow_to_pg_type(&ArrowType::Null).is_err());
    assert!(arrow_to_pg_type(&ArrowType::Float16).is_err());
    assert!(arrow_to_pg_type(&ArrowType::UInt32).is_err());
}

#[test]
fn unsupported_pg_oid_error_names_the_oid() {
    assert_eq!(pg_type_to_arrow(600), Err(TypeMapError::UnsupportedPgType(600)));
    assert_eq!(pg_type_to_arrow(999999), Err(TypeMapError::UnsupportedPgType(999999)));
    assert_eq!(
        pg_type_enum_to_arrow(&PgType { oid: 790 }),
        Err(TypeMapError::UnsupportedPgType(790))
    );
    assert_eq!(arrow_to_pg_type(&ArrowType::Date64), Err(TypeMapError::UnsupportedArrowType));
}

#[test]
fn exported_columns_come_back_with_round_trip_types() {
    let cases: [(u32, &str); 17] = [
        (21, "INT2"),
        (23, "INT4"),
        (20, "INT8"),
        (700, "FLOAT4"),
        (701, "FLOAT8"),
        (16, "BOOL"),
        (17, "BYTEA"),
        (25, "TEXT"),
        (1043, "TEXT"),
        (1082, "TEXT"),
        (1083, "TEXT"),
        (1114, "TEXT"),
        (1184, "TEXT"),
        (1700, "TEXT"),
        (2950, "TEXT"),
        (114, "TEXT"),
        (3802, "TEXT"),
    ];
    for (oid, name) in cases {
        let arrow = pg_type_to_arrow(oid).unwrap();
        assert_eq!(arrow_to_pg_type(&arrow).unwrap(), name);
    }
}
