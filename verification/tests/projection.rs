//! Tests of the projection layer: enumeration mappings, schema trees,
//! column chunks and row groups.

use parquet_reader::bridge::{
    byte_range_from, compression_from_code, project_column, project_group_logical,
    project_logical, project_physical, project_repetition, project_row_group, project_time_unit,
    project_type, Compression, LogicalType, MetaError, ParquetType, PhysicalType, Repetition,
    TimeUnit, UnsupportedKind, MAX_SCHEMA_DEPTH,
};

use parquet2::metadata::{ColumnChunkMetaData, ColumnDescriptor, Descriptor, RowGroupMetaData};
use parquet2::schema::types::{
    FieldInfo, GroupLogicalType, IntegerType, ParquetType as SourceType,
    PhysicalType as SourcePhysical, PrimitiveLogicalType, PrimitiveType,
    TimeUnit as SourceTimeUnit,
};
use parquet2::schema::Repetition as SourceRepetition;
use parquet_format_safe::{ColumnChunk, ColumnMetaData, CompressionCodec, Type};

fn field_info(name: &str, repetition: SourceRepetition) -> FieldInfo {
    FieldInfo {
        name: name.to_string(),
        repetition,
        id: None,
    }
}

fn primitive(name: &str, physical: SourcePhysical, repetition: SourceRepetition) -> SourceType {
    SourceType::PrimitiveType(PrimitiveType {
        field_info: field_info(name, repetition),
        logical_type: None,
        converted_type: None,
        physical_type: physical,
    })
}

#[test]
fn repetition_exhaustive() {
    assert_eq!(
        project_repetition(SourceRepetition::Required),
        Repetition::Required
    );
    assert_eq!(
        project_repetition(SourceRepetition::Optional),
        Repetition::Optional
    );
    assert_eq!(
        project_repetition(SourceRepetition::Repeated),
        Repetition::Repeated
    );
}

#[test]
fn physical_type_exhaustive() {
    assert_eq!(
        project_physical(SourcePhysical::Boolean),
        PhysicalType::Boolean
    );
    assert_eq!(project_physical(SourcePhysical::Int32), PhysicalType::Int32);
    assert_eq!(project_physical(SourcePhysical::Int64), PhysicalType::Int64);
    assert_eq!(project_physical(SourcePhysical::Int96), PhysicalType::Int96);
    assert_eq!(project_physical(SourcePhysical::Float), PhysicalType::Float);
    assert_eq!(
        project_physical(SourcePhysical::Double),
        PhysicalType::Double
    );
    assert_eq!(
        project_physical(SourcePhysical::ByteArray),
        PhysicalType::ByteArray
    );
    assert_eq!(
        project_physical(SourcePhysical::FixedLenByteArray(16)),
        PhysicalType::FixedLenByteArray(16)
    );
}

#[test]
fn time_unit_exhaustive() {
    assert_eq!(
        project_time_unit(SourceTimeUnit::Milliseconds),
        TimeUnit::Milliseconds
    );
    assert_eq!(
        project_time_unit(SourceTimeUnit::Microseconds),
        TimeUnit::Microseconds
    );
    assert_eq!(
        project_time_unit(SourceTimeUnit::Nanoseconds),
        TimeUnit::Nanoseconds
    );
}

#[test]
fn compression_exhaustive() {
    assert_eq!(compression_from_code(0), Ok(Compression::Uncompressed));
    assert_eq!(compression_from_code(1), Ok(Compression::Snappy));
    assert_eq!(compression_from_code(2), Ok(Compression::Gzip));
    assert_eq!(compression_from_code(3), Ok(Compression::Lzo));
    assert_eq!(compression_from_code(4), Ok(Compression::Brotli));
    assert_eq!(compression_from_code(5), Ok(Compression::Lz4));
    assert_eq!(compression_from_code(6), Ok(Compression::Zstd));
}

#[test]
fn compression_unknown_code_is_an_error() {
    assert_eq!(
        compression_from_code(7),
        Err(MetaError::UnknownCompression(7))
    );
    assert_eq!(
        compression_from_code(-1),
        Err(MetaError::UnknownCompression(-1))
    );
}

#[test]
fn logical_known_variants() {
    assert_eq!(
        project_logical(PrimitiveLogicalType::String),
        LogicalType::String
    );
    assert_eq!(
        project_logical(PrimitiveLogicalType::Date),
        LogicalType::Date
    );
    assert_eq!(
        project_logical(PrimitiveLogicalType::Time {
            unit: SourceTimeUnit::Milliseconds,
            is_adjusted_to_utc: true,
        }),
        LogicalType::Time
    );
    assert_eq!(
        project_logical(PrimitiveLogicalType::Integer(IntegerType::UInt16)),
        LogicalType::Integer {
            is_signed: false,
            bits: 16,
        }
    );
    assert_eq!(
        project_logical(PrimitiveLogicalType::Timestamp {
            unit: SourceTimeUnit::Nanoseconds,
            is_adjusted_to_utc: true,
        }),
        LogicalType::Timestamp {
            unit: TimeUnit::Nanoseconds,
            is_adjusted_to_utc: true,
        }
    );
}

#[test]
fn decimal_projects_scale_and_precision_exactly() {
    // The source carries (precision, scale).
    assert_eq!(
        project_logical(PrimitiveLogicalType::Decimal(10, 2)),
        LogicalType::Decimal {
            scale: 2,
            precision: 10,
        }
    );
}

#[test]
fn decimal_precision_below_scale_passes_through_unmodified() {
    assert_eq!(
        project_logical(PrimitiveLogicalType::Decimal(2, 10)),
        LogicalType::Decimal {
            scale: 10,
            precision: 2,
        }
    );
}

#[test]
fn unsupported_logical_variants_become_markers() {
    assert_eq!(
        project_logical(PrimitiveLogicalType::Enum),
        LogicalType::Unsupported(UnsupportedKind::Enum)
    );
    assert_eq!(
        project_logical(PrimitiveLogicalType::Unknown),
        LogicalType::Unsupported(UnsupportedKind::Unknown)
    );
    assert_eq!(
        project_logical(PrimitiveLogicalType::Json),
        LogicalType::Unsupported(UnsupportedKind::Json)
    );
    assert_eq!(
        project_logical(PrimitiveLogicalType::Bson),
        LogicalType::Unsupported(UnsupportedKind::Bson)
    );
    assert_eq!(
        project_logical(PrimitiveLogicalType::Uuid),
        LogicalType::Unsupported(UnsupportedKind::Uuid)
    );
    assert_eq!(
        project_group_logical(GroupLogicalType::Map),
        LogicalType::Unsupported(UnsupportedKind::MapType)
    );
    assert_eq!(
        project_group_logical(GroupLogicalType::List),
        LogicalType::Unsupported(UnsupportedKind::List)
    );
}

#[test]
fn schema_tree_preserves_depth_and_order() {
    let tree = SourceType::GroupType {
        field_info: field_info("root", SourceRepetition::Required),
        logical_type: None,
        converted_type: None,
        fields: vec![
            primitive("a", SourcePhysical::Int32, SourceRepetition::Required),
            SourceType::GroupType {
                field_info: field_info("b", SourceRepetition::Optional),
                logical_type: None,
                converted_type: None,
                fields: vec![primitive(
                    "c",
                    SourcePhysical::ByteArray,
                    SourceRepetition::Optional,
                )],
            },
        ],
    };
    let out = project_type(&tree, MAX_SCHEMA_DEPTH).unwrap();
    match out {
        ParquetType::GroupType {
            basic_info, fields, ..
        } => {
            assert_eq!(basic_info.name, "root");
            assert_eq!(basic_info.repetition, Repetition::Required);
            assert_eq!(fields.len(), 2);
            match &fields[0] {
                ParquetType::PrimitiveType {
                    basic_info,
                    physical_type,
                    logical_type,
                } => {
                    assert_eq!(basic_info.name, "a");
                    assert_eq!(basic_info.repetition, Repetition::Required);
                    assert_eq!(*physical_type, PhysicalType::Int32);
                    assert_eq!(*logical_type, None);
                }
                _ => panic!("first child must stay primitive"),
            }
            match &fields[1] {
                ParquetType::GroupType {
                    basic_info, fields, ..
                } => {
                    assert_eq!(basic_info.name, "b");
                    assert_eq!(fields.len(), 1);
                    match &fields[0] {
                        ParquetType::PrimitiveType {
                            basic_info,
                            physical_type,
                            ..
                        } => {
                            assert_eq!(basic_info.name, "c");
                            assert_eq!(*physical_type, PhysicalType::ByteArray);
                        }
                        _ => panic!("grandchild must stay primitive"),
                    }
                }
                _ => panic!("second child must stay a group"),
            }
        }
        _ => panic!("a group must project to a group"),
    }
}

#[test]
fn schema_nested_past_the_limit_is_refused() {
    let mut tree = primitive("leaf", SourcePhysical::Int32, SourceRepetition::Required);
    for _ in 0..MAX_SCHEMA_DEPTH {
        tree = SourceType::GroupType {
            field_info: field_info("wrap", SourceRepetition::Required),
            logical_type: None,
            converted_type: None,
            fields: vec![tree],
        };
    }
    assert_eq!(
        project_type(&tree, MAX_SCHEMA_DEPTH),
        Err(MetaError::SchemaTooDeep)
    );
}

#[test]
fn byte_range_prefers_dictionary_page_start() {
    assert_eq!(byte_range_from(Some(5), 40, 2), Ok((5, 7)));
    assert_eq!(byte_range_from(None, 40, 2), Ok((40, 42)));
    assert_eq!(byte_range_from(None, 3, 0), Ok((3, 3)));
}

#[test]
fn byte_range_rejects_negative_parts() {
    assert_eq!(
        byte_range_from(Some(-1), 40, 2),
        Err(MetaError::InvalidByteRange)
    );
    assert_eq!(
        byte_range_from(None, -3, 2),
        Err(MetaError::InvalidByteRange)
    );
    assert_eq!(
        byte_range_from(None, 3, -2),
        Err(MetaError::InvalidByteRange)
    );
}

fn chunk(offset: i64, num_values: i64, codec: CompressionCodec) -> ColumnChunkMetaData {
    let meta = ColumnMetaData::new(
        Type::INT32,
        vec![],
        vec!["a".to_string()],
        codec,
        num_values,
        100,
        40,
        None,
        offset,
        None,
        None,
        None,
        None,
        None,
    );
    let thrift_chunk = ColumnChunk::new(None, offset, Some(meta), None, None, None, None, None, None);
    let descriptor = ColumnDescriptor::new(
        Descriptor {
            primitive_type: PrimitiveType::from_physical("a".to_string(), SourcePhysical::Int32),
            max_def_level: 0,
            max_rep_level: 0,
        },
        vec!["a".to_string()],
        primitive("a", SourcePhysical::Int32, SourceRepetition::Optional),
    );
    ColumnChunkMetaData::new(thrift_chunk, descriptor)
}

#[test]
fn column_chunk_fields_are_copied_verbatim() {
    let col = project_column(&chunk(64, 9, CompressionCodec::SNAPPY)).unwrap();
    assert_eq!(col.file_offset, 64);
    assert_eq!(col.num_values, 9);
    assert_eq!(col.compressed_size, 40);
    assert_eq!(col.uncompressed_size, 100);
    assert_eq!(col.byte_range, (64, 104));
    assert_eq!(col.physical_type, PhysicalType::Int32);
    assert_eq!(col.compression, Compression::Snappy);
}

#[test]
fn column_chunk_with_unknown_codec_is_refused() {
    let out = project_column(&chunk(64, 9, CompressionCodec::LZ4_RAW));
    assert_eq!(out, Err(MetaError::UnknownCompression(7)));
}

#[test]
fn column_chunk_without_thrift_metadata_is_refused() {
    let thrift_chunk = ColumnChunk::new(None, 0, None, None, None, None, None, None, None);
    let descriptor = ColumnDescriptor::new(
        Descriptor {
            primitive_type: PrimitiveType::from_physical("a".to_string(), SourcePhysical::Int32),
            max_def_level: 0,
            max_rep_level: 0,
        },
        vec!["a".to_string()],
        primitive("a", SourcePhysical::Int32, SourceRepetition::Optional),
    );
    let source = ColumnChunkMetaData::new(thrift_chunk, descriptor);
    assert_eq!(project_column(&source), Err(MetaError::MissingColumnMetaData));
}

#[test]
fn row_group_keeps_column_order() {
    let source = RowGroupMetaData::new(
        vec![
            chunk(10, 1, CompressionCodec::UNCOMPRESSED),
            chunk(20, 2, CompressionCodec::UNCOMPRESSED),
            chunk(30, 3, CompressionCodec::UNCOMPRESSED),
        ],
        6,
        300,
    );
    let group = project_row_group(&source).unwrap();
    assert_eq!(group.num_rows, 6);
    assert_eq!(group.total_byte_size, 300);
    assert_eq!(group.columns.len(), 3);
    assert_eq!(group.columns[0].file_offset, 10);
    assert_eq!(group.columns[1].file_offset, 20);
    assert_eq!(group.columns[2].file_offset, 30);
    assert_eq!(group.columns[0].num_values, 1);
    assert_eq!(group.columns[1].num_values, 2);
    assert_eq!(group.columns[2].num_values, 3);
}
