use postg::import::{
    copy_header, copy_in_statement, copy_trailer, encode_copy_row, generate_create_table_ddl, CopyStream,
    CopyCell, CopyError, Field, Import, ImportEffect, ImportError, ImportEvent, Schema,
};
use postg::types::{ArrowType, TimeUnit, TypeMapError};

fn field(name: &str, data_type: ArrowType, nullable: bool) -> Field {
    Field { name: name.to_string(), data_type, nullable }
}

#[test]
fn test_generate_create_table_ddl_basic() {
    let fields = vec![
        field("id", ArrowType::Int32, false),
        field("name", ArrowType::Utf8, true),
        field("score", ArrowType::Float64, true),
        field("active", ArrowType::Boolean, false),
    ];
    let schema = Schema { fields };
    let ddl = generate_create_table_ddl("users", &schema).unwrap();
    assert_eq!(
        ddl,
        "CREATE TABLE \"users\" (\"id\" INT4 NOT NULL, \"name\" TEXT, \"score\" FLOAT8, \"active\" BOOL NOT NULL);"
    );
}

#[test]
fn test_generate_create_table_ddl_all_types() {
    let fields = vec![
        field("col_i16", ArrowType::Int16, false),
        field("col_i32", ArrowType::Int32, false),
        field("col_i64", ArrowType::Int64, false),
        field("col_f32", ArrowType::Float32, true),
        field("col_f64", ArrowType::Float64, true),
        field("col_bool", ArrowType::Boolean, false),
        field("col_utf8", ArrowType::Utf8, true),
        field("col_large_utf8", ArrowType::LargeUtf8, true),
        field("col_bin", ArrowType::Binary, true),
        field("col_large_bin", ArrowType::LargeBinary, true),
        field("col_date", ArrowType::Date32, true),
        field("col_time", ArrowType::Time64(TimeUnit::Microsecond), true),
        field("col_ts", ArrowType::Timestamp(TimeUnit::Microsecond, None), true),
        field(
            "col_tstz",
            ArrowType::Timestamp(TimeUnit::Microsecond, Some("UTC".into())),
            true,
        ),
        field("col_decimal", ArrowType::Decimal128(38, 9), true),
    ];
    let schema = Schema { fields };
    let ddl = generate_create_table_ddl("all_types", &schema).unwrap();
    assert_eq!(
        ddl,
        "CREATE TABLE \"all_types\" (\
         \"col_i16\" INT2 NOT NULL, \
         \"col_i32\" INT4 NOT NULL, \
         \"col_i64\" INT8 NOT NULL, \
         \"col_f32\" FLOAT4, \
         \"col_f64\" FLOAT8, \
         \"col_bool\" BOOL NOT NULL, \
         \"col_utf8\" TEXT, \
         \"col_large_utf8\" TEXT, \
         \"col_bin\" BYTEA, \
         \"col_large_bin\" BYTEA, \
         \"col_date\" DATE, \
         \"col_time\" TIME, \
         \"col_ts\" TIMESTAMP, \
         \"col_tstz\" TIMESTAMPTZ, \
         \"col_decimal\" NUMERIC);"
    );
}

#[test]
fn test_generate_create_table_ddl_unsupported_type() {
    let fields = vec![field("invalid_col", ArrowType::Null, true)];
    let schema = Schema { fields };
    let err = generate_create_table_ddl("invalid_table", &schema);
    assert!(err.is_err());
}

#[test]
fn ddl_error_when_any_later_field_is_unsupported() {
    let schema = Schema {
        fields: vec![field("a", ArrowType::Int32, false), field("b", ArrowType::UInt64, true)],
    };
    assert_eq!(
        generate_create_table_ddl("t", &schema),
        Err(TypeMapError::UnsupportedArrowType)
    );
}

#[test]
fn ddl_of_a_table_without_columns() {
    let schema = Schema { fields: vec![] };
    assert_eq!(generate_create_table_ddl("empty", &schema).unwrap(), "CREATE TABLE \"empty\" ();");
}

#[test]
fn copy_header_and_trailer_bytes() {
    assert_eq!(
        copy_header(),
        b"PGCOPY\n\xff\r\n\0\0\0\0\0\0\0\0\0".to_vec()
    );
    assert_eq!(copy_trailer(), vec![0xff, 0xff]);
}

#[test]
fn copy_row_with_int_text_and_null() {
    let types = vec![ArrowType::Int32, ArrowType::LargeUtf8, ArrowType::Utf8, ArrowType::Float64];
    let cells = vec![
        CopyCell::Int32(-2),
        CopyCell::Text(b"hi".to_vec()),
        CopyCell::Null,
        CopyCell::Null,
    ];
    let bytes = encode_copy_row(&types, &cells).unwrap();
    let mut expected: Vec<u8> = vec![0, 4];
    expected.extend_from_slice(&[0, 0, 0, 4, 0xff, 0xff, 0xff, 0xfe]);
    expected.extend_from_slice(&[0, 0, 0, 2, b'h', b'i']);
    expected.extend_from_slice(&[0xff, 0xff, 0xff, 0xff]);
    expected.extend_from_slice(&[0xff, 0xff, 0xff, 0xff]);
    assert_eq!(bytes, expected);
}

#[test]
fn copy_row_refuses_values_of_other_types() {
    let types = vec![ArrowType::Int32, ArrowType::Date32, ArrowType::Date32];
    let cells = vec![CopyCell::Int32(1), CopyCell::Null, CopyCell::Other];
    assert_eq!(
        encode_copy_row(&types, &cells),
        Err(CopyError::UnsupportedType { column: 2 })
    );
}

#[test]
fn copy_statement_quotes_the_table() {
    assert_eq!(
        copy_in_statement("test_parquet"),
        "COPY \"test_parquet\" FROM STDIN WITH (FORMAT binary)"
    );
}

#[test]
fn copy_row_with_every_sendable_type() {
    let types = vec![
        ArrowType::Int16,
        ArrowType::Int64,
        ArrowType::Boolean,
        ArrowType::Boolean,
        ArrowType::Float32,
        ArrowType::Float64,
        ArrowType::LargeBinary,
        ArrowType::Binary,
    ];
    let cells = vec![
        CopyCell::Int16(-2),
        CopyCell::Int64(0x0102_0304_0506_0708),
        CopyCell::Bool(true),
        CopyCell::Bool(false),
        CopyCell::Float32Bits(1.5f32.to_bits()),
        CopyCell::Float64Bits((-2.0f64).to_bits()),
        CopyCell::Binary(vec![0xde, 0xad]),
        CopyCell::Binary(Vec::new()),
    ];
    let bytes = encode_copy_row(&types, &cells).unwrap();
    let mut expected: Vec<u8> = vec![0, 8];
    expected.extend_from_slice(&[0, 0, 0, 2, 0xff, 0xfe]);
    expected.extend_from_slice(&[0, 0, 0, 8, 1, 2, 3, 4, 5, 6, 7, 8]);
    expected.extend_from_slice(&[0, 0, 0, 1, 1]);
    expected.extend_from_slice(&[0, 0, 0, 1, 0]);
    expected.extend_from_slice(&[0, 0, 0, 4, 0x3f, 0xc0, 0, 0]);
    expected.extend_from_slice(&[0, 0, 0, 8, 0xc0, 0, 0, 0, 0, 0, 0, 0]);
    expected.extend_from_slice(&[0, 0, 0, 2, 0xde, 0xad]);
    expected.extend_from_slice(&[0, 0, 0, 0]);
    assert_eq!(bytes, expected);
}

#[test]
fn copy_row_of_negative_int64() {
    let bytes = encode_copy_row(&vec![ArrowType::Int64], &vec![CopyCell::Int64(-1)]).unwrap();
    assert_eq!(bytes, vec![0, 1, 0, 0, 0, 8, 0xff, 0xff, 0xff, 0xff, 0xff, 0xff, 0xff, 0xff]);
}

#[test]
fn copy_stream_flushes_past_the_limit_and_ends_with_the_trailer() {
    let (mut stream, header) = CopyStream::new();
    assert_eq!(header, copy_header());
    let types = vec![ArrowType::LargeUtf8];
    let big = vec![CopyCell::Text(vec![b'x'; 5000])];
    let small = vec![CopyCell::Text(b"ab".to_vec())];
    let row_big = encode_copy_row(&types, &big).unwrap();
    let row_small = encode_copy_row(&types, &small).unwrap();
    assert_eq!(stream.push_row(&types, &big), Ok(None));
    let chunk = stream.push_row(&types, &big).unwrap().unwrap();
    assert_eq!(chunk, [row_big.clone(), row_big.clone()].concat());
    assert_eq!(stream.push_row(&types, &small), Ok(None));
    assert_eq!(
        stream.push_row(&vec![ArrowType::Date32], &vec![CopyCell::Other]),
        Err(CopyError::UnsupportedType { column: 0 })
    );
    assert_eq!(stream.finish(), [row_small, copy_trailer()].concat());
}

fn event_row(cells: Vec<CopyCell>) -> ImportEvent {
    ImportEvent::Row(cells)
}

#[test]
fn import_creates_the_table_then_copies_the_rows() {
    let schema = Schema { fields: vec![field("id", ArrowType::Int32, false)] };
    let (mut import, first) = Import::new("t", true, &schema);
    assert_eq!(
        first,
        ImportEffect::Execute("CREATE TABLE \"t\" (\"id\" INT4 NOT NULL);".to_string())
    );
    assert_eq!(
        import.step(&ImportEvent::Done),
        ImportEffect::BeginCopy("COPY \"t\" FROM STDIN WITH (FORMAT binary)".to_string())
    );
    assert_eq!(import.step(&ImportEvent::Done), ImportEffect::Send(copy_header()));
    assert_eq!(import.step(&ImportEvent::Done), ImportEffect::NextRow);
    assert_eq!(import.step(&event_row(vec![CopyCell::Int32(7)])), ImportEffect::NextRow);
    let row = encode_copy_row(&vec![ArrowType::Int32], &vec![CopyCell::Int32(7)]).unwrap();
    assert_eq!(
        import.step(&ImportEvent::EndOfRows),
        ImportEffect::Send([row, copy_trailer()].concat())
    );
    assert_eq!(import.step(&ImportEvent::Done), ImportEffect::FinishCopy);
    assert_eq!(import.step(&ImportEvent::Done), ImportEffect::Finish(Ok(())));
}

#[test]
fn import_stops_at_the_first_failure() {
    let schema = Schema { fields: vec![field("d", ArrowType::Date64, true)] };
    let (_, first) = Import::new("t", true, &schema);
    assert_eq!(
        first,
        ImportEffect::Finish(Err(ImportError::Ddl(TypeMapError::UnsupportedArrowType)))
    );
    let (mut import, first) = Import::new("t", false, &schema);
    assert_eq!(
        first,
        ImportEffect::BeginCopy("COPY \"t\" FROM STDIN WITH (FORMAT binary)".to_string())
    );
    import.step(&ImportEvent::Done);
    import.step(&ImportEvent::Done);
    assert_eq!(import.step(&event_row(vec![CopyCell::Null])), ImportEffect::NextRow);
    assert_eq!(
        import.step(&event_row(vec![CopyCell::Other])),
        ImportEffect::Finish(Err(ImportError::UnsupportedType { column: 0 }))
    );
    let (mut import, _) = Import::new("t", true, &Schema { fields: vec![] });
    assert_eq!(
        import.step(&ImportEvent::Failed("exists".to_string())),
        ImportEffect::Finish(Err(ImportError::Failed("exists".to_string())))
    );
}
