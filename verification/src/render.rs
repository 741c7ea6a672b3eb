//! Rendering of the projection into the tagged-value tree.
//!
//! The `spec_render_*` functions define, shape for shape and key for key, the
//! one value tree a given projection renders to; each executable renderer is
//! proved to produce exactly that tree. The shape is the stable cross-boundary
//! contract: changing a key or a variant's form here is a breaking change.

use vstd::prelude::*;

use crate::bridge::file_projection_ok;
use crate::bridge::file_projects_to;
use crate::bridge::file_wf;
use crate::bridge::node_projects_to;
use crate::bridge::read_parquet_metadata;
use crate::bridge::row_group_projects_to;
use crate::bridge::schema_projects_to;
use crate::bridge::spec_column;
use crate::trusted::chunk_of;
use crate::trusted::columns_of;
use crate::trusted::ptype_of;
use crate::trusted::fields_of;
use crate::trusted::parse_of;
use parquet2::metadata::FileMetaData as P2FileMetaData;
use parquet2::schema::types::ParquetType as P2ParquetType;
use crate::bridge::ColumnChunkMetaData;
use crate::bridge::Compression;
use crate::bridge::FileMetaData;
use crate::bridge::LogicalType;
use crate::bridge::MetaError;
use crate::bridge::ParquetType;
use crate::bridge::PhysicalType;
use crate::bridge::Repetition;
use crate::bridge::RowGroupMetaData;
use crate::bridge::SchemaDescriptor;
use crate::bridge::TimeUnit;
use crate::bridge::UnsupportedKind;
use crate::value::gview;
use crate::value::gview_entries;
use crate::value::gview_seq;
use crate::value::lemma_gview_entries;
use crate::value::lemma_gview_seq;
use crate::value::GValue;
use crate::value::Value;

verus! {

// ---------------------------------------------------------------------------
// The rendered shape, as specification functions.
// ---------------------------------------------------------------------------
pub open spec fn spec_render_repetition(r: Repetition) -> GValue {
    match r {
        Repetition::Required => GValue::Str("required"@),
        Repetition::Optional => GValue::Str("optional"@),
        Repetition::Repeated => GValue::Str("repeated"@),
    }
}

pub open spec fn spec_render_time_unit(u: TimeUnit) -> GValue {
    match u {
        TimeUnit::Milliseconds => GValue::Str("millis"@),
        TimeUnit::Microseconds => GValue::Str("micros"@),
        TimeUnit::Nanoseconds => GValue::Str("nanos"@),
    }
}

pub open spec fn spec_unsupported_name(k: UnsupportedKind) -> Seq<char> {
    match k {
        UnsupportedKind::MapType => "map"@,
        UnsupportedKind::List => "list"@,
        UnsupportedKind::Enum => "enum"@,
        UnsupportedKind::Unknown => "unknown"@,
        UnsupportedKind::Json => "json"@,
        UnsupportedKind::Bson => "bson"@,
        UnsupportedKind::Uuid => "uuid"@,
    }
}

pub open spec fn spec_render_physical(p: PhysicalType) -> GValue {
    match p {
        PhysicalType::Boolean => GValue::Str("boolean"@),
        PhysicalType::Int32 => GValue::Str("int32"@),
        PhysicalType::Int64 => GValue::Str("int64"@),
        PhysicalType::Int96 => GValue::Str("int96"@),
        PhysicalType::Float => GValue::Str("float"@),
        PhysicalType::Double => GValue::Str("double"@),
        PhysicalType::ByteArray => GValue::Str("byte_array"@),
        PhysicalType::FixedLenByteArray(n) => GValue::Obj(
            seq![("fixed_len_byte_array"@, GValue::Int(n as int))],
        ),
    }
}

pub open spec fn spec_render_compression(c: Compression) -> GValue {
    match c {
        Compression::Uncompressed => GValue::Str("uncompressed"@),
        Compression::Snappy => GValue::Str("snappy"@),
        Compression::Gzip => GValue::Str("gzip"@),
        Compression::Lzo => GValue::Str("lzo"@),
        Compression::Brotli => GValue::Str("brotli"@),
        Compression::Lz4 => GValue::Str("lz4"@),
        Compression::Zstd => GValue::Str("zstd"@),
    }
}

pub open spec fn spec_render_logical(l: LogicalType) -> GValue {
    match l {
        LogicalType::Date => GValue::Str("date"@),
        LogicalType::String => GValue::Str("string"@),
        LogicalType::Time => GValue::Str("time"@),
        LogicalType::Integer { is_signed, bits } => GValue::Obj(
            seq![
                (
                    "integer"@,
                    GValue::Obj(
                        seq![
                            ("is_signed"@, GValue::Bool(is_signed)),
                            ("bits"@, GValue::Int(bits as int)),
                        ],
                    ),
                ),
            ],
        ),
        LogicalType::Timestamp { unit, is_adjusted_to_utc } => GValue::Obj(
            seq![
                (
                    "timestamp"@,
                    GValue::Obj(
                        seq![
                            ("unit"@, spec_render_time_unit(unit)),
                            ("utc"@, GValue::Bool(is_adjusted_to_utc)),
                        ],
                    ),
                ),
            ],
        ),
        LogicalType::Decimal { scale, precision } => GValue::Obj(
            seq![
                (
                    "decimal"@,
                    GValue::Obj(
                        seq![
                            ("scale"@, GValue::Int(scale as int)),
                            ("precision"@, GValue::Int(precision as int)),
                        ],
                    ),
                ),
            ],
        ),
        LogicalType::Unsupported(k) => GValue::Obj(
            seq![("unsupported"@, GValue::Str(spec_unsupported_name(k)))],
        ),
    }
}

/// An absent logical type renders as the explicit null marker, never as an
/// omitted key.
pub open spec fn spec_render_opt_logical(o: Option<LogicalType>) -> GValue {
    match o {
        Option::None => GValue::Null,
        Option::Some(l) => spec_render_logical(l),
    }
}

/// A schema node renders as a record whose `kind` tag discriminates the two
/// shapes; a group's children render in order under `fields`.
pub open spec fn spec_render_node(t: ParquetType) -> GValue
    decreases t,
{
    match t {
        ParquetType::PrimitiveType { basic_info, logical_type, physical_type } => GValue::Obj(
            seq![
                ("kind"@, GValue::Str("primitive"@)),
                ("name"@, GValue::Str(basic_info.name@)),
                ("repetition"@, spec_render_repetition(basic_info.repetition)),
                ("logical_type"@, spec_render_opt_logical(logical_type)),
                ("physical_type"@, spec_render_physical(physical_type)),
            ],
        ),
        ParquetType::GroupType { basic_info, logical_type, fields } => GValue::Obj(
            seq![
                ("kind"@, GValue::Str("group"@)),
                ("name"@, GValue::Str(basic_info.name@)),
                ("repetition"@, spec_render_repetition(basic_info.repetition)),
                ("logical_type"@, spec_render_opt_logical(logical_type)),
                ("fields"@, GValue::Arr(spec_render_nodes(fields@))),
            ],
        ),
    }
}

pub open spec fn spec_render_nodes(s: Seq<ParquetType>) -> Seq<GValue>
    decreases s,
{
    if s.len() == 0 {
        Seq::empty()
    } else {
        spec_render_nodes(s.drop_last()).push(spec_render_node(s.last()))
    }
}

/// Node renderings line up element-wise with the nodes.
pub proof fn lemma_render_nodes(s: Seq<ParquetType>)
    ensures
        spec_render_nodes(s).len() == s.len(),
        forall|i: int|
            0 <= i < s.len() ==> spec_render_nodes(s)[i] == spec_render_node(#[trigger] s[i]),
    decreases s.len(),
{
    if s.len() > 0 {
        lemma_render_nodes(s.drop_last());
        assert forall|i: int| 0 <= i < s.len() implies spec_render_nodes(s)[i] == spec_render_node(
            #[trigger] s[i],
        ) by {
            if i < s.len() - 1 {
                assert(spec_render_nodes(s)[i] == spec_render_nodes(s.drop_last())[i]);
                assert(s.drop_last()[i] == s[i]);
            } else {
                assert(s.last() == s[i]);
            }
        }
    }
}

pub open spec fn spec_render_schema(sd: SchemaDescriptor) -> GValue {
    GValue::Obj(seq![("fields"@, GValue::Arr(spec_render_nodes(sd.fields@)))])
}

/// A column chunk renders as a record of its counts, its byte range as the
/// two-element `[start, end]` array, and its two enumeration tags.
pub open spec fn spec_render_column(c: ColumnChunkMetaData) -> GValue {
    GValue::Obj(
        seq![
            ("file_offset"@, GValue::Int(c.file_offset as int)),
            ("num_values"@, GValue::Int(c.num_values as int)),
            ("compressed_size"@, GValue::Int(c.compressed_size as int)),
            ("uncompressed_size"@, GValue::Int(c.uncompressed_size as int)),
            (
                "byte_range"@,
                GValue::Arr(
                    seq![
                        GValue::Int(c.byte_range.0 as int),
                        GValue::Int(c.byte_range.1 as int),
                    ],
                ),
            ),
            ("physical_type"@, spec_render_physical(c.physical_type)),
            ("compression"@, spec_render_compression(c.compression)),
        ],
    )
}

pub open spec fn spec_render_columns(s: Seq<ColumnChunkMetaData>) -> Seq<GValue> {
    Seq::new(s.len(), |i: int| spec_render_column(s[i]))
}

/// A row group renders with its columns in order: no reordering, no
/// deduplication.
pub open spec fn spec_render_row_group(g: RowGroupMetaData) -> GValue {
    GValue::Obj(
        seq![
            ("columns"@, GValue::Arr(spec_render_columns(g.columns@))),
            ("num_rows"@, GValue::Int(g.num_rows as int)),
            ("total_byte_size"@, GValue::Int(g.total_byte_size as int)),
        ],
    )
}

pub open spec fn spec_render_row_groups(s: Seq<RowGroupMetaData>) -> Seq<GValue> {
    Seq::new(s.len(), |i: int| spec_render_row_group(s[i]))
}

/// The whole projection: a record of five keys, always all present; an
/// absent writer renders as the explicit null marker.
pub open spec fn spec_render_file(m: FileMetaData) -> GValue {
    GValue::Obj(
        seq![
            ("version"@, GValue::Int(m.version as int)),
            ("num_rows"@, GValue::Int(m.num_rows as int)),
            (
                "created_by"@,
                match m.created_by {
                    Option::None => GValue::Null,
                    Option::Some(s) => GValue::Str(s@),
                },
            ),
            ("schema"@, spec_render_schema(m.schema_descr)),
            ("row_groups"@, GValue::Arr(spec_render_row_groups(m.row_groups@))),
        ],
    )
}

// ---------------------------------------------------------------------------
// The executable renderers.
// ---------------------------------------------------------------------------
pub fn render_repetition(r: Repetition) -> (v: Value)
    ensures
        v@ == spec_render_repetition(r),
{
    match r {
        Repetition::Required => Value::Str("required".to_owned()),
        Repetition::Optional => Value::Str("optional".to_owned()),
        Repetition::Repeated => Value::Str("repeated".to_owned()),
    }
}

pub fn render_time_unit(u: TimeUnit) -> (v: Value)
    ensures
        v@ == spec_render_time_unit(u),
{
    match u {
        TimeUnit::Milliseconds => Value::Str("millis".to_owned()),
        TimeUnit::Microseconds => Value::Str("micros".to_owned()),
        TimeUnit::Nanoseconds => Value::Str("nanos".to_owned()),
    }
}

pub fn render_physical(p: PhysicalType) -> (v: Value)
    ensures
        v@ == spec_render_physical(p),
{
    match p {
        PhysicalType::Boolean => Value::Str("boolean".to_owned()),
        PhysicalType::Int32 => Value::Str("int32".to_owned()),
        PhysicalType::Int64 => Value::Str("int64".to_owned()),
        PhysicalType::Int96 => Value::Str("int96".to_owned()),
        PhysicalType::Float => Value::Str("float".to_owned()),
        PhysicalType::Double => Value::Str("double".to_owned()),
        PhysicalType::ByteArray => Value::Str("byte_array".to_owned()),
        PhysicalType::FixedLenByteArray(n) => {
            let es: Vec<(String, Value)> = vec![
                ("fixed_len_byte_array".to_owned(), Value::U64(n)),
            ];
            proof {
                lemma_gview_entries(es@);
                assert(gview_entries(es@) =~= seq![
                    ("fixed_len_byte_array"@, GValue::Int(n as int)),
                ]);
            }
            Value::Obj(es)
        },
    }
}

pub fn render_compression(c: Compression) -> (v: Value)
    ensures
        v@ == spec_render_compression(c),
{
    match c {
        Compression::Uncompressed => Value::Str("uncompressed".to_owned()),
        Compression::Snappy => Value::Str("snappy".to_owned()),
        Compression::Gzip => Value::Str("gzip".to_owned()),
        Compression::Lzo => Value::Str("lzo".to_owned()),
        Compression::Brotli => Value::Str("brotli".to_owned()),
        Compression::Lz4 => Value::Str("lz4".to_owned()),
        Compression::Zstd => Value::Str("zstd".to_owned()),
    }
}

pub fn render_unsupported_name(k: UnsupportedKind) -> (s: String)
    ensures
        s@ == spec_unsupported_name(k),
{
    match k {
        UnsupportedKind::MapType => "map".to_owned(),
        UnsupportedKind::List => "list".to_owned(),
        UnsupportedKind::Enum => "enum".to_owned(),
        UnsupportedKind::Unknown => "unknown".to_owned(),
        UnsupportedKind::Json => "json".to_owned(),
        UnsupportedKind::Bson => "bson".to_owned(),
        UnsupportedKind::Uuid => "uuid".to_owned(),
    }
}

pub fn render_logical(l: LogicalType) -> (v: Value)
    ensures
        v@ == spec_render_logical(l),
{
    match l {
        LogicalType::Date => Value::Str("date".to_owned()),
        LogicalType::String => Value::Str("string".to_owned()),
        LogicalType::Time => Value::Str("time".to_owned()),
        LogicalType::Integer { is_signed, bits } => {
            let inner: Vec<(String, Value)> = vec![
                ("is_signed".to_owned(), Value::Bool(is_signed)),
                ("bits".to_owned(), Value::U64(bits as u64)),
            ];
            proof {
                lemma_gview_entries(inner@);
                assert(gview_entries(inner@) =~= seq![
                    ("is_signed"@, GValue::Bool(is_signed)),
                    ("bits"@, GValue::Int(bits as int)),
                ]);
            }
            let es: Vec<(String, Value)> = vec![("integer".to_owned(), Value::Obj(inner))];
            proof {
                lemma_gview_entries(es@);
                assert(gview_entries(es@) =~= seq![
                    (
                        "integer"@,
                        GValue::Obj(
                            seq![
                                ("is_signed"@, GValue::Bool(is_signed)),
                                ("bits"@, GValue::Int(bits as int)),
                            ],
                        ),
                    ),
                ]);
            }
            Value::Obj(es)
        },
        LogicalType::Timestamp { unit, is_adjusted_to_utc } => {
            let inner: Vec<(String, Value)> = vec![
                ("unit".to_owned(), render_time_unit(unit)),
                ("utc".to_owned(), Value::Bool(is_adjusted_to_utc)),
            ];
            proof {
                lemma_gview_entries(inner@);
                assert(gview_entries(inner@) =~= seq![
                    ("unit"@, spec_render_time_unit(unit)),
                    ("utc"@, GValue::Bool(is_adjusted_to_utc)),
                ]);
            }
            let es: Vec<(String, Value)> = vec![("timestamp".to_owned(), Value::Obj(inner))];
            proof {
                lemma_gview_entries(es@);
                assert(gview_entries(es@) =~= seq![
                    (
                        "timestamp"@,
                        GValue::Obj(
                            seq![
                                ("unit"@, spec_render_time_unit(unit)),
                                ("utc"@, GValue::Bool(is_adjusted_to_utc)),
                            ],
                        ),
                    ),
                ]);
            }
            Value::Obj(es)
        },
        LogicalType::Decimal { scale, precision } => {
            let inner: Vec<(String, Value)> = vec![
                ("scale".to_owned(), Value::U64(scale)),
                ("precision".to_owned(), Value::U64(precision)),
            ];
            proof {
                lemma_gview_entries(inner@);
                assert(gview_entries(inner@) =~= seq![
                    ("scale"@, GValue::Int(scale as int)),
                    ("precision"@, GValue::Int(precision as int)),
                ]);
            }
            let es: Vec<(String, Value)> = vec![("decimal".to_owned(), Value::Obj(inner))];
            proof {
                lemma_gview_entries(es@);
                assert(gview_entries(es@) =~= seq![
                    (
                        "decimal"@,
                        GValue::Obj(
                            seq![
                                ("scale"@, GValue::Int(scale as int)),
                                ("precision"@, GValue::Int(precision as int)),
                            ],
                        ),
                    ),
                ]);
            }
            Value::Obj(es)
        },
        LogicalType::Unsupported(k) => {
            let es: Vec<(String, Value)> = vec![
                ("unsupported".to_owned(), Value::Str(render_unsupported_name(k))),
            ];
            proof {
                lemma_gview_entries(es@);
                assert(gview_entries(es@) =~= seq![
                    ("unsupported"@, GValue::Str(spec_unsupported_name(k))),
                ]);
            }
            Value::Obj(es)
        },
    }
}

pub fn render_opt_logical(o: &Option<LogicalType>) -> (v: Value)
    ensures
        v@ == spec_render_opt_logical(*o),
{
    match o {
        Option::None => Value::Null,
        Option::Some(l) => render_logical(*l),
    }
}

/// Renders one schema node; children render in order, depth first.
#[verifier::loop_isolation(false)]
pub fn render_node(t: &ParquetType) -> (v: Value)
    ensures
        v@ == spec_render_node(*t),
    decreases *t,
{
    match t {
        ParquetType::PrimitiveType { basic_info, logical_type, physical_type } => {
            let es: Vec<(String, Value)> = vec![
                ("kind".to_owned(), Value::Str("primitive".to_owned())),
                ("name".to_owned(), Value::Str(basic_info.name.clone())),
                ("repetition".to_owned(), render_repetition(basic_info.repetition)),
                ("logical_type".to_owned(), render_opt_logical(logical_type)),
                ("physical_type".to_owned(), render_physical(*physical_type)),
            ];
            proof {
                lemma_gview_entries(es@);
                assert(gview_entries(es@) =~= seq![
                    ("kind"@, GValue::Str("primitive"@)),
                    ("name"@, GValue::Str(basic_info.name@)),
                    ("repetition"@, spec_render_repetition(basic_info.repetition)),
                    ("logical_type"@, spec_render_opt_logical(*logical_type)),
                    ("physical_type"@, spec_render_physical(*physical_type)),
                ]);
            }
            Value::Obj(es)
        },
        ParquetType::GroupType { basic_info, logical_type, fields } => {
            let mut children: Vec<Value> = Vec::new();
            let mut i: usize = 0;
            while i < fields.len()
                invariant
                    0 <= i <= fields@.len(),
                    children@.len() == i as int,
                    forall|j: int|
                        0 <= j < i as int ==> gview(#[trigger] children@[j]) == spec_render_node(
                            fields@[j],
                        ),
                decreases fields@.len() - i,
            {
                proof {
                    assert(decreases_to!(*t => fields@[i as int]));
                }
                let c = render_node(&fields[i]);
                children.push(c);
                i += 1;
            }
            proof {
                lemma_gview_seq(children@);
                lemma_render_nodes(fields@);
                assert forall|j: int| 0 <= j < fields@.len() implies gview_seq(children@)[j]
                    == spec_render_nodes(fields@)[j] by {
                    assert(gview(children@[j]) == spec_render_node(fields@[j]));
                }
                assert(gview_seq(children@) =~= spec_render_nodes(fields@));
            }
            let es: Vec<(String, Value)> = vec![
                ("kind".to_owned(), Value::Str("group".to_owned())),
                ("name".to_owned(), Value::Str(basic_info.name.clone())),
                ("repetition".to_owned(), render_repetition(basic_info.repetition)),
                ("logical_type".to_owned(), render_opt_logical(logical_type)),
                ("fields".to_owned(), Value::Arr(children)),
            ];
            proof {
                lemma_gview_entries(es@);
                assert(gview_entries(es@) =~= seq![
                    ("kind"@, GValue::Str("group"@)),
                    ("name"@, GValue::Str(basic_info.name@)),
                    ("repetition"@, spec_render_repetition(basic_info.repetition)),
                    ("logical_type"@, spec_render_opt_logical(*logical_type)),
                    ("fields"@, GValue::Arr(spec_render_nodes(fields@))),
                ]);
            }
            Value::Obj(es)
        },
    }
}

/// Renders the projected schema: its top-level fields in order.
#[verifier::loop_isolation(false)]
pub fn render_schema(sd: &SchemaDescriptor) -> (v: Value)
    ensures
        v@ == spec_render_schema(*sd),
{
    let mut out: Vec<Value> = Vec::new();
    let mut i: usize = 0;
    while i < sd.fields.len()
        invariant
            0 <= i <= sd.fields@.len(),
            out@.len() == i as int,
            forall|j: int|
                0 <= j < i as int ==> gview(#[trigger] out@[j]) == spec_render_node(sd.fields@[j]),
        decreases sd.fields@.len() - i,
    {
        let c = render_node(&sd.fields[i]);
        out.push(c);
        i += 1;
    }
    proof {
        lemma_gview_seq(out@);
        lemma_render_nodes(sd.fields@);
        assert forall|j: int| 0 <= j < sd.fields@.len() implies gview_seq(out@)[j]
            == spec_render_nodes(sd.fields@)[j] by {
            assert(gview(out@[j]) == spec_render_node(sd.fields@[j]));
        }
        assert(gview_seq(out@) =~= spec_render_nodes(sd.fields@));
    }
    let es: Vec<(String, Value)> = vec![("fields".to_owned(), Value::Arr(out))];
    proof {
        lemma_gview_entries(es@);
        assert(gview_entries(es@) =~= seq![
            ("fields"@, GValue::Arr(spec_render_nodes(sd.fields@))),
        ]);
    }
    Value::Obj(es)
}

/// Renders one column chunk summary.
pub fn render_column(c: &ColumnChunkMetaData) -> (v: Value)
    ensures
        v@ == spec_render_column(*c),
{
    let range: Vec<Value> = vec![Value::U64(c.byte_range.0), Value::U64(c.byte_range.1)];
    proof {
        lemma_gview_seq(range@);
        assert(gview_seq(range@) =~= seq![
            GValue::Int(c.byte_range.0 as int),
            GValue::Int(c.byte_range.1 as int),
        ]);
    }
    let es: Vec<(String, Value)> = vec![
        ("file_offset".to_owned(), Value::I64(c.file_offset)),
        ("num_values".to_owned(), Value::I64(c.num_values)),
        ("compressed_size".to_owned(), Value::I64(c.compressed_size)),
        ("uncompressed_size".to_owned(), Value::I64(c.uncompressed_size)),
        ("byte_range".to_owned(), Value::Arr(range)),
        ("physical_type".to_owned(), render_physical(c.physical_type)),
        ("compression".to_owned(), render_compression(c.compression)),
    ];
    proof {
        lemma_gview_entries(es@);
        assert(gview_entries(es@) =~= seq![
            ("file_offset"@, GValue::Int(c.file_offset as int)),
            ("num_values"@, GValue::Int(c.num_values as int)),
            ("compressed_size"@, GValue::Int(c.compressed_size as int)),
            ("uncompressed_size"@, GValue::Int(c.uncompressed_size as int)),
            (
                "byte_range"@,
                GValue::Arr(
                    seq![GValue::Int(c.byte_range.0 as int), GValue::Int(c.byte_range.1 as int)],
                ),
            ),
            ("physical_type"@, spec_render_physical(c.physical_type)),
            ("compression"@, spec_render_compression(c.compression)),
        ]);
    }
    Value::Obj(es)
}

/// Renders one row group: columns in order, counts verbatim.
#[verifier::loop_isolation(false)]
pub fn render_row_group(g: &RowGroupMetaData) -> (v: Value)
    ensures
        v@ == spec_render_row_group(*g),
{
    let mut cols: Vec<Value> = Vec::new();
    let mut i: usize = 0;
    while i < g.columns.len()
        invariant
            0 <= i <= g.columns@.len(),
            cols@.len() == i as int,
            forall|j: int|
                0 <= j < i as int ==> gview(#[trigger] cols@[j]) == spec_render_column(
                    g.columns@[j],
                ),
        decreases g.columns@.len() - i,
    {
        let c = render_column(&g.columns[i]);
        cols.push(c);
        i += 1;
    }
    proof {
        lemma_gview_seq(cols@);
        assert forall|j: int| 0 <= j < g.columns@.len() implies gview_seq(cols@)[j]
            == spec_render_columns(g.columns@)[j] by {
            assert(gview(cols@[j]) == spec_render_column(g.columns@[j]));
        }
        assert(gview_seq(cols@) =~= spec_render_columns(g.columns@));
    }
    let es: Vec<(String, Value)> = vec![
        ("columns".to_owned(), Value::Arr(cols)),
        ("num_rows".to_owned(), Value::U64(g.num_rows)),
        ("total_byte_size".to_owned(), Value::U64(g.total_byte_size)),
    ];
    proof {
        lemma_gview_entries(es@);
        assert(gview_entries(es@) =~= seq![
            ("columns"@, GValue::Arr(spec_render_columns(g.columns@))),
            ("num_rows"@, GValue::Int(g.num_rows as int)),
            ("total_byte_size"@, GValue::Int(g.total_byte_size as int)),
        ]);
    }
    Value::Obj(es)
}

/// Renders the whole projection to its one value tree.
#[verifier::loop_isolation(false)]
pub fn render_file(m: &FileMetaData) -> (v: Value)
    ensures
        v@ == spec_render_file(*m),
{
    let mut groups: Vec<Value> = Vec::new();
    let mut i: usize = 0;
    while i < m.row_groups.len()
        invariant
            0 <= i <= m.row_groups@.len(),
            groups@.len() == i as int,
            forall|j: int|
                0 <= j < i as int ==> gview(#[trigger] groups@[j]) == spec_render_row_group(
                    m.row_groups@[j],
                ),
        decreases m.row_groups@.len() - i,
    {
        let g = render_row_group(&m.row_groups[i]);
        groups.push(g);
        i += 1;
    }
    proof {
        lemma_gview_seq(groups@);
        assert forall|j: int| 0 <= j < m.row_groups@.len() implies gview_seq(groups@)[j]
            == spec_render_row_groups(m.row_groups@)[j] by {
            assert(gview(groups@[j]) == spec_render_row_group(m.row_groups@[j]));
        }
        assert(gview_seq(groups@) =~= spec_render_row_groups(m.row_groups@));
    }
    let created_by: Value = match &m.created_by {
        Option::None => Value::Null,
        Option::Some(s) => Value::Str(s.clone()),
    };
    let es: Vec<(String, Value)> = vec![
        ("version".to_owned(), Value::I64(m.version as i64)),
        ("num_rows".to_owned(), Value::U64(m.num_rows)),
        ("created_by".to_owned(), created_by),
        ("schema".to_owned(), render_schema(&m.schema_descr)),
        ("row_groups".to_owned(), Value::Arr(groups)),
    ];
    proof {
        lemma_gview_entries(es@);
        assert(gview_entries(es@) =~= seq![
            ("version"@, GValue::Int(m.version as int)),
            ("num_rows"@, GValue::Int(m.num_rows as int)),
            (
                "created_by"@,
                match m.created_by {
                    Option::None => GValue::Null,
                    Option::Some(s) => GValue::Str(s@),
                },
            ),
            ("schema"@, spec_render_schema(m.schema_descr)),
            ("row_groups"@, GValue::Arr(spec_render_row_groups(m.row_groups@))),
        ]);
    }
    Value::Obj(es)
}

/// Column order: a row group's columns render element-wise in their source
/// order, with no reordering and no deduplication.
pub proof fn lemma_column_order(s: Seq<ColumnChunkMetaData>)
    ensures
        spec_render_columns(s).len() == s.len(),
        forall|i: int|
            0 <= i < s.len() ==> spec_render_columns(s)[i] == spec_render_column(
                #[trigger] s[i],
            ),
{
}

/// Byte-range invariant: in a well-formed projection every column's byte
/// range ends no earlier than it starts.
pub proof fn lemma_byte_range_invariant(m: FileMetaData, i: int, j: int)
    requires
        file_wf(m),
        0 <= i < m.row_groups@.len(),
        0 <= j < m.row_groups@[i].columns@.len(),
    ensures
        m.row_groups@[i].columns@[j].byte_range.1 >= m.row_groups@[i].columns@[j].byte_range.0,
{
    assert(crate::bridge::row_group_wf(m.row_groups@[i]));
    assert(crate::bridge::column_wf(m.row_groups@[i].columns@[j]));
}

/// Determinism of the rendering: the rendered tree is a function of the
/// projection alone, so equal projections render to structurally identical
/// trees, on any two invocations.
pub proof fn lemma_render_deterministic(a: FileMetaData, b: FileMetaData)
    requires
        a == b,
    ensures
        spec_render_file(a) == spec_render_file(b),
{
}

/// Two projections of the same source schema node render to the same value:
/// `node_projects_to` pins everything the rendering reads.
pub proof fn lemma_node_render_unique(t: P2ParquetType, o1: ParquetType, o2: ParquetType)
    requires
        node_projects_to(t, o1),
        node_projects_to(t, o2),
    ensures
        spec_render_node(o1) == spec_render_node(o2),
    decreases t,
{
    match t {
        P2ParquetType::PrimitiveType(p) => {
        },
        P2ParquetType::GroupType { field_info, logical_type, converted_type, fields } => {
            match (o1, o2) {
                (
                    ParquetType::GroupType { fields: f1, .. },
                    ParquetType::GroupType { fields: f2, .. },
                ) => {
                    assert forall|i: int| 0 <= i < fields@.len() implies spec_render_node(
                        f1@[i],
                    ) == spec_render_node(#[trigger] f2@[i]) by {
                        lemma_node_render_unique(fields@[i], f1@[i], f2@[i]);
                    }
                    lemma_render_nodes(f1@);
                    lemma_render_nodes(f2@);
                    assert forall|i: int| 0 <= i < f1@.len() implies spec_render_nodes(f1@)[i]
                        == spec_render_nodes(f2@)[i] by {
                        assert(spec_render_nodes(f1@)[i] == spec_render_node(f1@[i]));
                        assert(spec_render_nodes(f2@)[i] == spec_render_node(f2@[i]));
                    }
                    assert(spec_render_nodes(f1@) =~= spec_render_nodes(f2@));
                },
                _ => {
                },
            }
        },
    }
}

/// End-to-end determinism: the rendered tree is a function of the parsed
/// footer alone. Any two projections of the same footer render to the same
/// tree, so together with `read_parquet`'s contract, two successful calls on
/// byte slices with the same contents yield structurally identical trees.
pub proof fn lemma_file_render_unique(m: P2FileMetaData, f1: FileMetaData, f2: FileMetaData)
    requires
        file_projects_to(m, f1),
        file_projects_to(m, f2),
    ensures
        spec_render_file(f1) == spec_render_file(f2),
{
    let src_fields = fields_of(m.schema_descr);
    assert forall|i: int| 0 <= i < src_fields.len() implies spec_render_node(
        f1.schema_descr.fields@[i],
    ) == spec_render_node(#[trigger] f2.schema_descr.fields@[i]) by {
        assert(node_projects_to(src_fields[i], f1.schema_descr.fields@[i]));
        assert(node_projects_to(src_fields[i], f2.schema_descr.fields@[i]));
        lemma_node_render_unique(src_fields[i], f1.schema_descr.fields@[i], f2.schema_descr.fields@[i]);
    }
    lemma_render_nodes(f1.schema_descr.fields@);
    lemma_render_nodes(f2.schema_descr.fields@);
    assert forall|i: int| 0 <= i < src_fields.len() implies spec_render_nodes(
        f1.schema_descr.fields@,
    )[i] == spec_render_nodes(f2.schema_descr.fields@)[i] by {
        assert(spec_render_nodes(f1.schema_descr.fields@)[i] == spec_render_node(
            f1.schema_descr.fields@[i],
        ));
        assert(spec_render_nodes(f2.schema_descr.fields@)[i] == spec_render_node(
            f2.schema_descr.fields@[i],
        ));
    }
    assert(spec_render_nodes(f1.schema_descr.fields@) =~= spec_render_nodes(
        f2.schema_descr.fields@,
    ));
    assert forall|i: int| 0 <= i < m.row_groups@.len() implies spec_render_row_group(
        f1.row_groups@[i],
    ) == spec_render_row_group(#[trigger] f2.row_groups@[i]) by {
        let rg = m.row_groups@[i];
        let g1 = f1.row_groups@[i];
        let g2 = f2.row_groups@[i];
        assert(row_group_projects_to(rg, g1));
        assert(row_group_projects_to(rg, g2));
        assert forall|j: int| 0 <= j < columns_of(rg).len() implies g1.columns@[j] == #[trigger] g2.columns@[j] by {
            let cj = columns_of(rg)[j];
            assert(Result::<ColumnChunkMetaData, MetaError>::Ok(g1.columns@[j]) == spec_column(
                chunk_of(cj),
                ptype_of(cj),
            ));
            assert(Result::<ColumnChunkMetaData, MetaError>::Ok(g2.columns@[j]) == spec_column(
                chunk_of(cj),
                ptype_of(cj),
            ));
        }
        assert(g1.columns@ =~= g2.columns@);
    }
    assert(spec_render_row_groups(f1.row_groups@) =~= spec_render_row_groups(f2.row_groups@));
    match m.created_by {
        Option::Some(s) => {
            assert(f1.created_by matches Option::Some(t1) && t1@ == s@);
            assert(f2.created_by matches Option::Some(t2) && t2@ == s@);
        },
        Option::None => {
        },
    }
    assert((match f1.created_by {
        Option::None => GValue::Null,
        Option::Some(t) => GValue::Str(t@),
    }) == (match f2.created_by {
        Option::None => GValue::Null,
        Option::Some(t) => GValue::Str(t@),
    }));
    assert(spec_render_schema(f1.schema_descr) == spec_render_schema(f2.schema_descr));
    assert(spec_render_row_groups(f1.row_groups@) == spec_render_row_groups(f2.row_groups@));
    let entries1 = seq![
        ("version"@, GValue::Int(f1.version as int)),
        ("num_rows"@, GValue::Int(f1.num_rows as int)),
        (
            "created_by"@,
            match f1.created_by {
                Option::None => GValue::Null,
                Option::Some(t) => GValue::Str(t@),
            },
        ),
        ("schema"@, spec_render_schema(f1.schema_descr)),
        ("row_groups"@, GValue::Arr(spec_render_row_groups(f1.row_groups@))),
    ];
    let entries2 = seq![
        ("version"@, GValue::Int(f2.version as int)),
        ("num_rows"@, GValue::Int(f2.num_rows as int)),
        (
            "created_by"@,
            match f2.created_by {
                Option::None => GValue::Null,
                Option::Some(t) => GValue::Str(t@),
            },
        ),
        ("schema"@, spec_render_schema(f2.schema_descr)),
        ("row_groups"@, GValue::Arr(spec_render_row_groups(f2.row_groups@))),
    ];
    assert(entries1 =~= entries2);
    assert(spec_render_file(f1) == GValue::Obj(entries1));
    assert(spec_render_file(f2) == GValue::Obj(entries2));
}

/// The single entry point: bytes in, tagged-value tree or error out.
/// Succeeds exactly when the bytes parse and the parsed footer projects; the
/// tree is then the exact rendering of that footer's projection. A parse
/// failure comes back as `UpstreamParse` with the parser's own message; a
/// projection failure keeps its own name.
pub fn read_parquet(data: &[u8]) -> (out: Result<Value, MetaError>)
    ensures
        out is Ok <==> (parse_of(data@) matches Ok(m) && file_projection_ok(m)),
        out matches Ok(v) ==> (parse_of(data@) matches Ok(m) && (exists|f: FileMetaData|
            (#[trigger] file_projects_to(m, f)) && file_wf(f) && v@ == spec_render_file(f))),
        out matches Err(e) ==> ((parse_of(data@) matches Err(t) && e matches
            MetaError::UpstreamParse(s) && s@ == t) || (parse_of(data@) matches Ok(m)
            && !file_projection_ok(m) && !(e matches MetaError::UpstreamParse(_)))),
{
    match read_parquet_metadata(data) {
        Err(e) => Err(e),
        Ok(meta) => {
            let v = render_file(&meta);
            proof {
                let m = parse_of(data@)->Ok_0;
                assert(file_projects_to(m, meta) && file_wf(meta) && v@ == spec_render_file(
                    meta,
                ));
            }
            Ok(v)
        },
    }
}

} // verus!

