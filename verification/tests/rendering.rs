//! Tests of the renderer: the exact tagged-value shapes, key order,
//! determinism, and the explicit null marker for absent options.

use parquet_reader::bridge::{
    BasicTypeInfo, ColumnChunkMetaData, Compression, FileMetaData, LogicalType, ParquetType,
    PhysicalType, Repetition, RowGroupMetaData, SchemaDescriptor, TimeUnit, UnsupportedKind,
};
use parquet_reader::render::{
    render_column, render_compression, render_file, render_logical, render_node,
    render_physical, render_repetition, render_row_group, render_time_unit,
};
use parquet_reader::value::Value;

fn get<'a>(v: &'a Value, key: &str) -> &'a Value {
    match v {
        Value::Obj(entries) => {
            for (k, val) in entries {
                if k == key {
                    return val;
                }
            }
            panic!("missing key {}", key);
        }
        _ => panic!("not a record"),
    }
}

fn text(s: &str) -> Value {
    Value::Str(s.to_string())
}

fn sample_column() -> ColumnChunkMetaData {
    ColumnChunkMetaData {
        file_offset: 64,
        num_values: 9,
        compressed_size: 40,
        uncompressed_size: 100,
        byte_range: (64, 104),
        physical_type: PhysicalType::Int32,
        compression: Compression::Snappy,
    }
}

fn sample_file() -> FileMetaData {
    FileMetaData {
        version: 2,
        num_rows: 9,
        created_by: Some("writer v1".to_string()),
        schema_descr: SchemaDescriptor {
            fields: vec![ParquetType::PrimitiveType {
                basic_info: BasicTypeInfo {
                    name: "a".to_string(),
                    repetition: Repetition::Required,
                },
                logical_type: None,
                physical_type: PhysicalType::Int32,
            }],
        },
        row_groups: vec![RowGroupMetaData {
            columns: vec![sample_column()],
            num_rows: 9,
            total_byte_size: 100,
        }],
    }
}

#[test]
fn rendering_is_deterministic() {
    let first = render_file(&sample_file());
    let second = render_file(&sample_file());
    assert_eq!(first, second);
}

#[test]
fn verified_equality_agrees_on_rendered_trees() {
    let first = render_file(&sample_file());
    let second = render_file(&sample_file());
    assert!(parquet_reader::value::value_eq(&first, &second));
    let mut other = sample_file();
    other.version = 3;
    let third = render_file(&other);
    assert!(!parquet_reader::value::value_eq(&first, &third));
}

#[test]
fn verified_equality_identifies_signed_and_unsigned_integers() {
    assert!(parquet_reader::value::value_eq(
        &Value::I64(5),
        &Value::U64(5)
    ));
    assert!(!parquet_reader::value::value_eq(
        &Value::I64(-5),
        &Value::U64(5)
    ));
}

#[test]
fn repetition_tags() {
    assert_eq!(render_repetition(Repetition::Required), text("required"));
    assert_eq!(render_repetition(Repetition::Optional), text("optional"));
    assert_eq!(render_repetition(Repetition::Repeated), text("repeated"));
}

#[test]
fn time_unit_tags() {
    assert_eq!(render_time_unit(TimeUnit::Milliseconds), text("millis"));
    assert_eq!(render_time_unit(TimeUnit::Microseconds), text("micros"));
    assert_eq!(render_time_unit(TimeUnit::Nanoseconds), text("nanos"));
}

#[test]
fn physical_type_tags() {
    assert_eq!(render_physical(PhysicalType::Boolean), text("boolean"));
    assert_eq!(render_physical(PhysicalType::Int32), text("int32"));
    assert_eq!(render_physical(PhysicalType::Int64), text("int64"));
    assert_eq!(render_physical(PhysicalType::Int96), text("int96"));
    assert_eq!(render_physical(PhysicalType::Float), text("float"));
    assert_eq!(render_physical(PhysicalType::Double), text("double"));
    assert_eq!(render_physical(PhysicalType::ByteArray), text("byte_array"));
    assert_eq!(
        render_physical(PhysicalType::FixedLenByteArray(16)),
        Value::Obj(vec![("fixed_len_byte_array".to_string(), Value::U64(16))])
    );
}

#[test]
fn compression_tags() {
    assert_eq!(
        render_compression(Compression::Uncompressed),
        text("uncompressed")
    );
    assert_eq!(render_compression(Compression::Snappy), text("snappy"));
    assert_eq!(render_compression(Compression::Gzip), text("gzip"));
    assert_eq!(render_compression(Compression::Lzo), text("lzo"));
    assert_eq!(render_compression(Compression::Brotli), text("brotli"));
    assert_eq!(render_compression(Compression::Lz4), text("lz4"));
    assert_eq!(render_compression(Compression::Zstd), text("zstd"));
}

#[test]
fn decimal_renders_scale_then_precision() {
    let rendered = render_logical(LogicalType::Decimal {
        scale: 2,
        precision: 10,
    });
    assert_eq!(
        rendered,
        Value::Obj(vec![(
            "decimal".to_string(),
            Value::Obj(vec![
                ("scale".to_string(), Value::U64(2)),
                ("precision".to_string(), Value::U64(10)),
            ]),
        )])
    );
}

#[test]
fn unsupported_markers_carry_the_variant_name() {
    for (kind, name) in [
        (UnsupportedKind::MapType, "map"),
        (UnsupportedKind::List, "list"),
        (UnsupportedKind::Enum, "enum"),
        (UnsupportedKind::Unknown, "unknown"),
        (UnsupportedKind::Json, "json"),
        (UnsupportedKind::Bson, "bson"),
        (UnsupportedKind::Uuid, "uuid"),
    ] {
        let rendered = render_logical(LogicalType::Unsupported(kind));
        assert_eq!(
            rendered,
            Value::Obj(vec![("unsupported".to_string(), text(name))])
        );
    }
}

#[test]
fn integer_and_timestamp_shapes() {
    assert_eq!(
        render_logical(LogicalType::Integer {
            is_signed: true,
            bits: 32,
        }),
        Value::Obj(vec![(
            "integer".to_string(),
            Value::Obj(vec![
                ("is_signed".to_string(), Value::Bool(true)),
                ("bits".to_string(), Value::U64(32)),
            ]),
        )])
    );
    assert_eq!(
        render_logical(LogicalType::Timestamp {
            unit: TimeUnit::Microseconds,
            is_adjusted_to_utc: false,
        }),
        Value::Obj(vec![(
            "timestamp".to_string(),
            Value::Obj(vec![
                ("unit".to_string(), text("micros")),
                ("utc".to_string(), Value::Bool(false)),
            ]),
        )])
    );
}

#[test]
fn absent_created_by_renders_as_explicit_null() {
    let mut meta = sample_file();
    meta.created_by = None;
    let rendered = render_file(&meta);
    assert_eq!(get(&rendered, "created_by"), &Value::Null);
}

#[test]
fn present_created_by_renders_as_the_exact_string() {
    let rendered = render_file(&sample_file());
    assert_eq!(get(&rendered, "created_by"), &text("writer v1"));
}

#[test]
fn schema_node_depth_two_shape() {
    let tree = ParquetType::GroupType {
        basic_info: BasicTypeInfo {
            name: "root".to_string(),
            repetition: Repetition::Required,
        },
        logical_type: None,
        fields: vec![
            ParquetType::PrimitiveType {
                basic_info: BasicTypeInfo {
                    name: "a".to_string(),
                    repetition: Repetition::Required,
                },
                logical_type: None,
                physical_type: PhysicalType::Int32,
            },
            ParquetType::GroupType {
                basic_info: BasicTypeInfo {
                    name: "b".to_string(),
                    repetition: Repetition::Optional,
                },
                logical_type: None,
                fields: vec![ParquetType::PrimitiveType {
                    basic_info: BasicTypeInfo {
                        name: "c".to_string(),
                        repetition: Repetition::Optional,
                    },
                    logical_type: None,
                    physical_type: PhysicalType::ByteArray,
                }],
            },
        ],
    };
    let rendered = render_node(&tree);
    assert_eq!(get(&rendered, "kind"), &text("group"));
    let fields = match get(&rendered, "fields") {
        Value::Arr(items) => items,
        _ => panic!("fields must be an array"),
    };
    assert_eq!(fields.len(), 2);
    assert_eq!(get(&fields[0], "kind"), &text("primitive"));
    assert_eq!(get(&fields[0], "name"), &text("a"));
    assert_eq!(get(&fields[1], "kind"), &text("group"));
    let inner = match get(&fields[1], "fields") {
        Value::Arr(items) => items,
        _ => panic!("fields must be an array"),
    };
    assert_eq!(get(&inner[0], "name"), &text("c"));
    assert_eq!(get(&inner[0], "logical_type"), &Value::Null);
}

#[test]
fn column_renders_byte_range_as_start_end_pair() {
    let rendered = render_column(&sample_column());
    assert_eq!(
        get(&rendered, "byte_range"),
        &Value::Arr(vec![Value::U64(64), Value::U64(104)])
    );
    assert_eq!(get(&rendered, "file_offset"), &Value::I64(64));
    assert_eq!(get(&rendered, "num_values"), &Value::I64(9));
    assert_eq!(get(&rendered, "compressed_size"), &Value::I64(40));
    assert_eq!(get(&rendered, "uncompressed_size"), &Value::I64(100));
    assert_eq!(get(&rendered, "physical_type"), &text("int32"));
    assert_eq!(get(&rendered, "compression"), &text("snappy"));
}

#[test]
fn row_group_renders_columns_in_order() {
    let mut first = sample_column();
    first.file_offset = 10;
    let mut second = sample_column();
    second.file_offset = 20;
    let mut third = sample_column();
    third.file_offset = 30;
    let group = RowGroupMetaData {
        columns: vec![first, second, third],
        num_rows: 3,
        total_byte_size: 120,
    };
    let rendered = render_row_group(&group);
    let columns = match get(&rendered, "columns") {
        Value::Arr(items) => items,
        _ => panic!("columns must be an array"),
    };
    assert_eq!(columns.len(), 3);
    assert_eq!(get(&columns[0], "file_offset"), &Value::I64(10));
    assert_eq!(get(&columns[1], "file_offset"), &Value::I64(20));
    assert_eq!(get(&columns[2], "file_offset"), &Value::I64(30));
    assert_eq!(get(&rendered, "num_rows"), &Value::U64(3));
    assert_eq!(get(&rendered, "total_byte_size"), &Value::U64(120));
}

#[test]
fn file_renders_all_five_keys_in_order() {
    let rendered = render_file(&sample_file());
    match &rendered {
        Value::Obj(entries) => {
            let keys: Vec<&str> = entries.iter().map(|(k, _)| k.as_str()).collect();
            assert_eq!(
                keys,
                vec!["version", "num_rows", "created_by", "schema", "row_groups"]
            );
        }
        _ => panic!("the file must render as a record"),
    }
    assert_eq!(get(&rendered, "version"), &Value::I64(2));
    assert_eq!(get(&rendered, "num_rows"), &Value::U64(9));
}
