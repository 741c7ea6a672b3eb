//! The projection data model, and its construction from the parser's
//! metadata tree.
//!
//! Every type here is a plain value type: the projection of one piece of the
//! source footer. The `project_*` functions walk the parser's tree and build
//! the corresponding projection, each verified against a relational
//! specification (`node_projects_to`, `column_projects_to`,
//! `row_group_projects_to`, `file_projects_to`) stated over the parser's
//! values and the named results of its accessors.

use vstd::prelude::*;

use crate::trusted::chunk_of;
use crate::trusted::columns_of;
use crate::trusted::fields_of;
use crate::trusted::num_rows_of;
use crate::trusted::parse_footer;
use crate::trusted::parse_of;
use crate::trusted::ptype_of;
use crate::trusted::total_byte_size_of;
use parquet2::metadata::ColumnChunkMetaData as P2ColumnChunkMetaData;
use parquet2::metadata::FileMetaData as P2FileMetaData;
use parquet2::metadata::RowGroupMetaData as P2RowGroupMetaData;
use parquet2::metadata::SchemaDescriptor as P2SchemaDescriptor;
use parquet2::schema::types::FieldInfo as P2FieldInfo;
use parquet2::schema::types::GroupLogicalType as P2GroupLogicalType;
use parquet2::schema::types::IntegerType as P2IntegerType;
use parquet2::schema::types::ParquetType as P2ParquetType;
use parquet2::schema::types::PhysicalType as P2PhysicalType;
use parquet2::schema::types::PrimitiveLogicalType as P2PrimitiveLogicalType;
use parquet2::schema::types::TimeUnit as P2TimeUnit;
use parquet2::schema::Repetition as P2Repetition;
use parquet_format_safe::ColumnChunk as PfColumnChunk;
use parquet_format_safe::ColumnMetaData as PfColumnMetaData;

verus! {

/// The deepest schema tree the projection accepts: the input is an untrusted
/// file, so recursion is bounded instead of trusting the tree's finiteness.
pub const MAX_SCHEMA_DEPTH: usize = 128;

/// How often a schema field may appear.
#[derive(Clone, Copy, PartialEq, Eq, Structural, Debug)]
pub enum Repetition {
    Repeated,
    Required,
    Optional,
}

/// Name and repetition: the part every schema node carries.
#[derive(Clone, PartialEq, Debug)]
pub struct BasicTypeInfo {
    pub name: String,
    pub repetition: Repetition,
}

/// The physical storage type of a primitive column.
#[derive(Clone, Copy, PartialEq, Eq, Structural, Debug)]
pub enum PhysicalType {
    Boolean,
    Int32,
    Int64,
    Int96,
    Float,
    Double,
    ByteArray,
    FixedLenByteArray(u64),
}

/// Resolution of a time or timestamp column.
#[derive(Clone, Copy, PartialEq, Eq, Structural, Debug)]
pub enum TimeUnit {
    Milliseconds,
    Microseconds,
    Nanoseconds,
}

/// A logical annotation the projection does not model: carried through as an
/// explicit marker, never coerced to a near neighbour.
#[derive(Clone, Copy, PartialEq, Eq, Structural, Debug)]
pub enum UnsupportedKind {
    MapType,
    List,
    Enum,
    Unknown,
    Json,
    Bson,
    Uuid,
}

/// The semantic interpretation layered on a storage type. The closed set the
/// projection models, plus the explicit residual marker.
#[derive(Clone, Copy, PartialEq, Eq, Structural, Debug)]
pub enum LogicalType {
    Date,
    String,
    Time,
    Integer { is_signed: bool, bits: u8 },
    Timestamp { unit: TimeUnit, is_adjusted_to_utc: bool },
    Decimal { scale: u64, precision: u64 },
    Unsupported(UnsupportedKind),
}

/// One node of the projected schema tree: a primitive leaf or a group with
/// ordered children (child order is column order).
#[derive(PartialEq, Debug)]
pub enum ParquetType {
    PrimitiveType {
        basic_info: BasicTypeInfo,
        logical_type: Option<LogicalType>,
        physical_type: PhysicalType,
    },
    GroupType {
        basic_info: BasicTypeInfo,
        logical_type: Option<LogicalType>,
        fields: Vec<ParquetType>,
    },
}

/// The projected schema: the ordered list of top-level fields, with no
/// synthetic root wrapper (the source's root is a bare field list, and the
/// projection keeps that shape).
#[derive(PartialEq, Debug)]
pub struct SchemaDescriptor {
    pub fields: Vec<ParquetType>,
}

/// The compression codec of a column chunk.
#[derive(Clone, Copy, PartialEq, Eq, Structural, Debug)]
pub enum Compression {
    Uncompressed,
    Snappy,
    Gzip,
    Lzo,
    Brotli,
    Lz4,
    Zstd,
}

/// Summary of one column chunk: offsets and sizes verbatim from the source,
/// `byte_range` as an absolute `(start, end)` pair.
#[derive(Clone, Copy, PartialEq, Eq, Debug)]
pub struct ColumnChunkMetaData {
    pub file_offset: i64,
    pub num_values: i64,
    pub compressed_size: i64,
    pub uncompressed_size: i64,
    pub byte_range: (u64, u64),
    pub physical_type: PhysicalType,
    pub compression: Compression,
}

/// Summary of one row group: its column chunks in column order, and its row
/// and byte counts verbatim.
#[derive(PartialEq, Debug)]
pub struct RowGroupMetaData {
    pub columns: Vec<ColumnChunkMetaData>,
    pub num_rows: u64,
    pub total_byte_size: u64,
}

/// The aggregate projection of one file's footer.
#[derive(PartialEq, Debug)]
pub struct FileMetaData {
    pub version: i32,
    pub num_rows: u64,
    pub created_by: Option<String>,
    pub schema_descr: SchemaDescriptor,
    pub row_groups: Vec<RowGroupMetaData>,
}

/// Why a projection failed. Nothing is retried and no partial output is
/// returned: each variant names the first obstacle met.
#[derive(PartialEq, Debug)]
pub enum MetaError {
    /// The upstream parser rejected the bytes; its message, verbatim.
    UpstreamParse(String),
    /// The schema tree nests deeper than `MAX_SCHEMA_DEPTH`.
    SchemaTooDeep,
    /// A column chunk names a compression codec outside the modelled set.
    UnknownCompression(i32),
    /// A column chunk carries no thrift metadata record.
    MissingColumnMetaData,
    /// A column chunk's page offset or compressed size is negative, so no
    /// byte range can be formed.
    InvalidByteRange,
}

// ---------------------------------------------------------------------------
// Enumeration projections.
// ---------------------------------------------------------------------------
/// What the repetition projection returns.
pub open spec fn spec_repetition(r: P2Repetition) -> Repetition {
    match r {
        P2Repetition::Required => Repetition::Required,
        P2Repetition::Optional => Repetition::Optional,
        P2Repetition::Repeated => Repetition::Repeated,
    }
}

pub fn project_repetition(r: P2Repetition) -> (out: Repetition)
    ensures
        out == spec_repetition(r),
{
    match r {
        P2Repetition::Required => Repetition::Required,
        P2Repetition::Optional => Repetition::Optional,
        P2Repetition::Repeated => Repetition::Repeated,
    }
}

/// What the physical-type projection returns: the order-preserving mapping,
/// carrying the fixed length through.
pub open spec fn spec_physical(p: P2PhysicalType) -> PhysicalType {
    match p {
        P2PhysicalType::Boolean => PhysicalType::Boolean,
        P2PhysicalType::Int32 => PhysicalType::Int32,
        P2PhysicalType::Int64 => PhysicalType::Int64,
        P2PhysicalType::Int96 => PhysicalType::Int96,
        P2PhysicalType::Float => PhysicalType::Float,
        P2PhysicalType::Double => PhysicalType::Double,
        P2PhysicalType::ByteArray => PhysicalType::ByteArray,
        P2PhysicalType::FixedLenByteArray(n) => PhysicalType::FixedLenByteArray(n as u64),
    }
}

pub fn project_physical(p: P2PhysicalType) -> (out: PhysicalType)
    ensures
        out == spec_physical(p),
{
    match p {
        P2PhysicalType::Boolean => PhysicalType::Boolean,
        P2PhysicalType::Int32 => PhysicalType::Int32,
        P2PhysicalType::Int64 => PhysicalType::Int64,
        P2PhysicalType::Int96 => PhysicalType::Int96,
        P2PhysicalType::Float => PhysicalType::Float,
        P2PhysicalType::Double => PhysicalType::Double,
        P2PhysicalType::ByteArray => PhysicalType::ByteArray,
        P2PhysicalType::FixedLenByteArray(n) => PhysicalType::FixedLenByteArray(n as u64),
    }
}

/// What the time-unit projection returns.
pub open spec fn spec_time_unit(u: P2TimeUnit) -> TimeUnit {
    match u {
        P2TimeUnit::Milliseconds => TimeUnit::Milliseconds,
        P2TimeUnit::Microseconds => TimeUnit::Microseconds,
        P2TimeUnit::Nanoseconds => TimeUnit::Nanoseconds,
    }
}

pub fn project_time_unit(u: P2TimeUnit) -> (out: TimeUnit)
    ensures
        out == spec_time_unit(u),
{
    match u {
        P2TimeUnit::Milliseconds => TimeUnit::Milliseconds,
        P2TimeUnit::Microseconds => TimeUnit::Microseconds,
        P2TimeUnit::Nanoseconds => TimeUnit::Nanoseconds,
    }
}

/// Bit width and signedness of a logical integer annotation.
pub open spec fn spec_integer(t: P2IntegerType) -> (bool, u8) {
    match t {
        P2IntegerType::Int8 => (true, 8u8),
        P2IntegerType::Int16 => (true, 16u8),
        P2IntegerType::Int32 => (true, 32u8),
        P2IntegerType::Int64 => (true, 64u8),
        P2IntegerType::UInt8 => (false, 8u8),
        P2IntegerType::UInt16 => (false, 16u8),
        P2IntegerType::UInt32 => (false, 32u8),
        P2IntegerType::UInt64 => (false, 64u8),
    }
}

/// What the logical-type projection returns for a primitive node. Every
/// variant outside the modelled set maps to its own explicit marker.
pub open spec fn spec_logical(l: P2PrimitiveLogicalType) -> LogicalType {
    match l {
        P2PrimitiveLogicalType::String => LogicalType::String,
        P2PrimitiveLogicalType::Date => LogicalType::Date,
        P2PrimitiveLogicalType::Time { unit, is_adjusted_to_utc } => LogicalType::Time,
        P2PrimitiveLogicalType::Integer(t) => LogicalType::Integer {
            is_signed: spec_integer(t).0,
            bits: spec_integer(t).1,
        },
        P2PrimitiveLogicalType::Timestamp { unit, is_adjusted_to_utc } => LogicalType::Timestamp {
            unit: spec_time_unit(unit),
            is_adjusted_to_utc: is_adjusted_to_utc,
        },
        P2PrimitiveLogicalType::Decimal(precision, scale) => LogicalType::Decimal {
            scale: scale as u64,
            precision: precision as u64,
        },
        P2PrimitiveLogicalType::Enum => LogicalType::Unsupported(UnsupportedKind::Enum),
        P2PrimitiveLogicalType::Unknown => LogicalType::Unsupported(UnsupportedKind::Unknown),
        P2PrimitiveLogicalType::Json => LogicalType::Unsupported(UnsupportedKind::Json),
        P2PrimitiveLogicalType::Bson => LogicalType::Unsupported(UnsupportedKind::Bson),
        P2PrimitiveLogicalType::Uuid => LogicalType::Unsupported(UnsupportedKind::Uuid),
    }
}

pub fn project_logical(l: P2PrimitiveLogicalType) -> (out: LogicalType)
    ensures
        out == spec_logical(l),
{
    match l {
        P2PrimitiveLogicalType::String => LogicalType::String,
        P2PrimitiveLogicalType::Date => LogicalType::Date,
        P2PrimitiveLogicalType::Time { unit: _, is_adjusted_to_utc: _ } => LogicalType::Time,
        P2PrimitiveLogicalType::Integer(t) => {
            let (is_signed, bits): (bool, u8) = match t {
                P2IntegerType::Int8 => (true, 8u8),
                P2IntegerType::Int16 => (true, 16u8),
                P2IntegerType::Int32 => (true, 32u8),
                P2IntegerType::Int64 => (true, 64u8),
                P2IntegerType::UInt8 => (false, 8u8),
                P2IntegerType::UInt16 => (false, 16u8),
                P2IntegerType::UInt32 => (false, 32u8),
                P2IntegerType::UInt64 => (false, 64u8),
            };
            LogicalType::Integer { is_signed, bits }
        },
        P2PrimitiveLogicalType::Timestamp { unit, is_adjusted_to_utc } => LogicalType::Timestamp {
            unit: project_time_unit(unit),
            is_adjusted_to_utc,
        },
        P2PrimitiveLogicalType::Decimal(precision, scale) => LogicalType::Decimal {
            scale: scale as u64,
            precision: precision as u64,
        },
        P2PrimitiveLogicalType::Enum => LogicalType::Unsupported(UnsupportedKind::Enum),
        P2PrimitiveLogicalType::Unknown => LogicalType::Unsupported(UnsupportedKind::Unknown),
        P2PrimitiveLogicalType::Json => LogicalType::Unsupported(UnsupportedKind::Json),
        P2PrimitiveLogicalType::Bson => LogicalType::Unsupported(UnsupportedKind::Bson),
        P2PrimitiveLogicalType::Uuid => LogicalType::Unsupported(UnsupportedKind::Uuid),
    }
}

/// What the logical-type projection returns for a group node: list and map
/// annotations are outside the modelled set, so both become markers.
pub open spec fn spec_group_logical(l: P2GroupLogicalType) -> LogicalType {
    match l {
        P2GroupLogicalType::Map => LogicalType::Unsupported(UnsupportedKind::MapType),
        P2GroupLogicalType::List => LogicalType::Unsupported(UnsupportedKind::List),
    }
}

pub fn project_group_logical(l: P2GroupLogicalType) -> (out: LogicalType)
    ensures
        out == spec_group_logical(l),
{
    match l {
        P2GroupLogicalType::Map => LogicalType::Unsupported(UnsupportedKind::MapType),
        P2GroupLogicalType::List => LogicalType::Unsupported(UnsupportedKind::List),
    }
}

/// No silent substitution: the logical-type projection tags exactly the
/// residual variants as unsupported; every modelled variant keeps its own
/// meaning and is never folded into a neighbour.
pub proof fn lemma_no_silent_substitution(l: P2PrimitiveLogicalType)
    ensures
        (spec_logical(l) matches LogicalType::Unsupported(_)) <==> (l
            == P2PrimitiveLogicalType::Enum || l == P2PrimitiveLogicalType::Unknown || l
            == P2PrimitiveLogicalType::Json || l == P2PrimitiveLogicalType::Bson || l
            == P2PrimitiveLogicalType::Uuid),
{
}

pub open spec fn spec_opt_logical(o: Option<P2PrimitiveLogicalType>) -> Option<LogicalType> {
    match o {
        Option::None => Option::None,
        Option::Some(l) => Option::Some(spec_logical(l)),
    }
}

pub open spec fn spec_opt_group_logical(o: Option<P2GroupLogicalType>) -> Option<LogicalType> {
    match o {
        Option::None => Option::None,
        Option::Some(l) => Option::Some(spec_group_logical(l)),
    }
}

/// Projects a node's common part: the name verbatim, the repetition by the
/// enumeration mapping.
pub fn project_basic(f: &P2FieldInfo) -> (out: BasicTypeInfo)
    ensures
        out.name@ == f.name@,
        out.repetition == spec_repetition(f.repetition),
{
    BasicTypeInfo { name: f.name.clone(), repetition: project_repetition(f.repetition) }
}

// ---------------------------------------------------------------------------
// Schema tree projection.
// ---------------------------------------------------------------------------
/// Depth of a source schema node: 1 for a leaf, 1 past the deepest child for
/// a group.
pub open spec fn node_depth(t: P2ParquetType) -> nat
    decreases t,
{
    match t {
        P2ParquetType::PrimitiveType(p) => 1nat,
        P2ParquetType::GroupType { field_info, logical_type, converted_type, fields } => 1
            + fields_depth(fields@),
    }
}

/// Depth of the deepest node in a field list (0 when empty).
pub open spec fn fields_depth(s: Seq<P2ParquetType>) -> nat
    decreases s,
{
    if s.len() == 0 {
        0nat
    } else {
        let d0 = node_depth(s[0]);
        let dr = fields_depth(s.drop_first());
        if d0 >= dr {
            d0
        } else {
            dr
        }
    }
}

/// A list is no deeper than `d` exactly when none of its nodes is.
pub proof fn lemma_fields_depth(s: Seq<P2ParquetType>, d: nat)
    ensures
        fields_depth(s) <= d <==> (forall|i: int|
            0 <= i < s.len() ==> node_depth(#[trigger] s[i]) <= d),
    decreases s.len(),
{
    if s.len() > 0 {
        lemma_fields_depth(s.drop_first(), d);
        assert forall|i: int| 0 <= i < s.len() - 1 implies #[trigger] s.drop_first()[i] == s[i
            + 1] by {}
        if fields_depth(s) <= d {
            assert forall|i: int| 0 <= i < s.len() implies node_depth(#[trigger] s[i]) <= d by {
                if i > 0 {
                    assert(s.drop_first()[i - 1] == s[i]);
                }
            }
        } else {
            if node_depth(s[0]) <= d {
                let j = choose|j: int|
                    0 <= j < s.drop_first().len() && node_depth(s.drop_first()[j]) > d;
                assert(s.drop_first()[j] == s[j + 1]);
            }
        }
    }
}

/// The relation between a source schema node and its projection: names and
/// repetitions carried over, logical and physical types mapped by the
/// enumeration projections, children projected element-wise in order.
pub open spec fn node_projects_to(t: P2ParquetType, out: ParquetType) -> bool
    decreases t,
{
    match t {
        P2ParquetType::PrimitiveType(p) => out matches ParquetType::PrimitiveType {
            basic_info,
            logical_type,
            physical_type,
        } && basic_info.name@ == p.field_info.name@ && basic_info.repetition == spec_repetition(
            p.field_info.repetition,
        ) && logical_type == spec_opt_logical(p.logical_type) && physical_type == spec_physical(
            p.physical_type,
        ),
        P2ParquetType::GroupType { field_info, logical_type, converted_type, fields } => out
            matches ParquetType::GroupType {
            basic_info,
            logical_type: out_logical,
            fields: out_fields,
        } && basic_info.name@ == field_info.name@ && basic_info.repetition == spec_repetition(
            field_info.repetition,
        ) && out_logical == spec_opt_group_logical(logical_type) && out_fields@.len()
            == fields@.len() && (forall|i: int|
            0 <= i < fields@.len() ==> node_projects_to(
                #[trigger] fields@[i],
                out_fields@[i],
            )),
    }
}

/// Projects one source schema node, refusing trees deeper than the budget.
/// Succeeds exactly on nodes within the budget, and then returns the
/// projection `node_projects_to` describes.
#[verifier::loop_isolation(false)]
pub fn project_type(t: &P2ParquetType, depth_budget: usize) -> (out: Result<
    ParquetType,
    MetaError,
>)
    ensures
        out is Ok <==> node_depth(*t) <= depth_budget,
        out matches Ok(p) ==> node_projects_to(*t, p),
        out matches Err(e) ==> e == MetaError::SchemaTooDeep,
    decreases *t,
{
    if depth_budget == 0 {
        return Err(MetaError::SchemaTooDeep);
    }
    match t {
        P2ParquetType::PrimitiveType(p) => {
            let logical_type = match &p.logical_type {
                Option::None => Option::None,
                Option::Some(l) => Option::Some(project_logical(*l)),
            };
            Ok(
                ParquetType::PrimitiveType {
                    basic_info: project_basic(&p.field_info),
                    logical_type,
                    physical_type: project_physical(p.physical_type),
                },
            )
        },
        P2ParquetType::GroupType { field_info, logical_type, converted_type: _, fields } => {
            let mut out_fields: Vec<ParquetType> = Vec::new();
            let mut i: usize = 0;
            while i < fields.len()
                invariant
                    0 <= i <= fields.len(),
                    out_fields@.len() == i as int,
                    depth_budget >= 1,
                    forall|j: int|
                        0 <= j < i as int ==> node_projects_to(
                            #[trigger] fields@[j],
                            out_fields@[j],
                        ),
                    forall|j: int|
                        0 <= j < i as int ==> node_depth(#[trigger] fields@[j]) <= depth_budget
                            - 1,
                decreases fields.len() - i,
            {
                proof {
                    assert(decreases_to!(*t => fields@[i as int]));
                }
                match project_type(&fields[i], depth_budget - 1) {
                    Ok(c) => out_fields.push(c),
                    Err(e) => {
                        proof {
                            lemma_fields_depth(fields@, (depth_budget - 1) as nat);
                            assert(node_depth(*t) == 1 + fields_depth(fields@));
                            assert(node_depth(fields@[i as int]) > depth_budget - 1);
                        }
                        return Err(e);
                    },
                }
                i += 1;
            }
            proof {
                lemma_fields_depth(fields@, (depth_budget - 1) as nat);
                assert(node_depth(*t) == 1 + fields_depth(fields@));
            }
            let logical = match logical_type {
                Option::None => Option::None,
                Option::Some(l) => Option::Some(project_group_logical(*l)),
            };
            Ok(
                ParquetType::GroupType {
                    basic_info: project_basic(field_info),
                    logical_type: logical,
                    fields: out_fields,
                },
            )
        },
    }
}

/// Projects a top-level field list in order, under `MAX_SCHEMA_DEPTH`.
/// Succeeds exactly when every field fits the depth budget.
pub fn project_fields(fields: &[P2ParquetType]) -> (out: Result<Vec<ParquetType>, MetaError>)
    ensures
        out is Ok <==> (forall|i: int|
            0 <= i < fields@.len() ==> node_depth(#[trigger] fields@[i]) <= MAX_SCHEMA_DEPTH),
        out matches Ok(v) ==> v@.len() == fields@.len() && (forall|i: int|
            0 <= i < fields@.len() ==> node_projects_to(#[trigger] fields@[i], v@[i])),
        out matches Err(e) ==> e == MetaError::SchemaTooDeep,
{
    let mut out_fields: Vec<ParquetType> = Vec::new();
    let mut i: usize = 0;
    while i < fields.len()
        invariant
            0 <= i <= fields@.len(),
            out_fields@.len() == i as int,
            forall|j: int|
                0 <= j < i as int ==> node_projects_to(#[trigger] fields@[j], out_fields@[j]),
            forall|j: int|
                0 <= j < i as int ==> node_depth(#[trigger] fields@[j]) <= MAX_SCHEMA_DEPTH,
        decreases fields@.len() - i,
    {
        let f = &fields[i];
        match project_type(f, MAX_SCHEMA_DEPTH) {
            Ok(c) => out_fields.push(c),
            Err(e) => {
                return Err(e);
            },
        }
        i += 1;
    }
    Ok(out_fields)
}

/// Every node of the field list fits the depth budget.
pub open spec fn schema_fits(fields: Seq<P2ParquetType>) -> bool {
    forall|i: int| 0 <= i < fields.len() ==> node_depth(#[trigger] fields[i]) <= MAX_SCHEMA_DEPTH
}

/// The projected schema holds exactly the projections of the source's
/// top-level fields, element-wise, in order.
pub open spec fn schema_projects_to(fields: Seq<P2ParquetType>, out: SchemaDescriptor) -> bool {
    &&& out.fields@.len() == fields.len()
    &&& forall|i: int|
        0 <= i < fields.len() ==> node_projects_to(#[trigger] fields[i], out.fields@[i])
}

/// Projects the schema descriptor: its top-level fields in order, as a bare
/// list. Succeeds exactly when the named field list of the descriptor fits
/// the depth budget, and then holds its element-wise projection.
pub fn project_schema(sd: &P2SchemaDescriptor) -> (out: Result<SchemaDescriptor, MetaError>)
    ensures
        out is Ok <==> schema_fits(fields_of(*sd)),
        out matches Ok(s) ==> schema_projects_to(fields_of(*sd), s),
        out matches Err(e) ==> e == MetaError::SchemaTooDeep,
{
    let fields = sd.fields();
    match project_fields(fields) {
        Ok(v) => Ok(SchemaDescriptor { fields: v }),
        Err(e) => Err(e),
    }
}

// ---------------------------------------------------------------------------
// Column and row-group projection.
// ---------------------------------------------------------------------------
/// The compression the thrift code stands for, if it is in the modelled set.
pub open spec fn spec_compression_of(code: i32) -> Option<Compression> {
    if code == 0 {
        Option::Some(Compression::Uncompressed)
    } else if code == 1 {
        Option::Some(Compression::Snappy)
    } else if code == 2 {
        Option::Some(Compression::Gzip)
    } else if code == 3 {
        Option::Some(Compression::Lzo)
    } else if code == 4 {
        Option::Some(Compression::Brotli)
    } else if code == 5 {
        Option::Some(Compression::Lz4)
    } else if code == 6 {
        Option::Some(Compression::Zstd)
    } else {
        Option::None
    }
}

/// Maps a thrift compression code to the codec it names; any code outside
/// the modelled set fails with the code, never a near neighbour.
pub fn compression_from_code(code: i32) -> (out: Result<Compression, MetaError>)
    ensures
        out is Ok <==> spec_compression_of(code) is Some,
        out matches Ok(c) ==> spec_compression_of(code) == Option::Some(c),
        out matches Err(e) ==> e == MetaError::UnknownCompression(code),
{
    match code {
        0 => Ok(Compression::Uncompressed),
        1 => Ok(Compression::Snappy),
        2 => Ok(Compression::Gzip),
        3 => Ok(Compression::Lzo),
        4 => Ok(Compression::Brotli),
        5 => Ok(Compression::Lz4),
        6 => Ok(Compression::Zstd),
        _ => Err(MetaError::UnknownCompression(code)),
    }
}

/// The absolute byte range of a column chunk: it starts at the dictionary
/// page when there is one, else at the first data page, and spans the
/// compressed size. Defined only for non-negative offsets and sizes.
pub open spec fn spec_byte_range(
    dictionary_page_offset: Option<i64>,
    data_page_offset: i64,
    compressed_size: i64,
) -> Option<(u64, u64)> {
    let start = match dictionary_page_offset {
        Option::Some(d) => d,
        Option::None => data_page_offset,
    };
    if start >= 0 && compressed_size >= 0 {
        Option::Some((start as u64, (start + compressed_size) as u64))
    } else {
        Option::None
    }
}

/// Forms the byte range from the source's page offsets and compressed size;
/// the result's end never precedes its start.
pub fn byte_range_from(
    dictionary_page_offset: Option<i64>,
    data_page_offset: i64,
    compressed_size: i64,
) -> (out: Result<(u64, u64), MetaError>)
    ensures
        out is Ok <==> spec_byte_range(dictionary_page_offset, data_page_offset, compressed_size)
            is Some,
        out matches Ok(r) ==> Option::Some(r) == spec_byte_range(
            dictionary_page_offset,
            data_page_offset,
            compressed_size,
        ) && r.1 >= r.0,
        out matches Err(e) ==> e == MetaError::InvalidByteRange,
{
    let start: i64 = match dictionary_page_offset {
        Option::Some(d) => d,
        Option::None => data_page_offset,
    };
    if start < 0 || compressed_size < 0 {
        return Err(MetaError::InvalidByteRange);
    }
    let s = start as u64;
    let e = s + (compressed_size as u64);
    Ok((s, e))
}

/// The relation between a source column chunk's thrift record and its
/// projection: counts and sizes verbatim, codec and physical type by the
/// enumeration mappings, byte range by `spec_byte_range`.
pub open spec fn column_projects_to(
    file_offset: i64,
    md: PfColumnMetaData,
    physical: P2PhysicalType,
    col: ColumnChunkMetaData,
) -> bool {
    &&& col.file_offset == file_offset
    &&& col.num_values == md.num_values
    &&& col.compressed_size == md.total_compressed_size
    &&& col.uncompressed_size == md.total_uncompressed_size
    &&& Option::Some(col.compression) == spec_compression_of(md.codec.0)
    &&& Option::Some(col.byte_range) == spec_byte_range(
        md.dictionary_page_offset,
        md.data_page_offset,
        md.total_compressed_size,
    )
    &&& col.physical_type == spec_physical(physical)
}

/// The exact outcome of projecting a column chunk's visible parts: the
/// summary, or the first obstacle (no codec, no byte range).
pub open spec fn spec_column_parts(
    file_offset: i64,
    md: PfColumnMetaData,
    physical: P2PhysicalType,
) -> Result<ColumnChunkMetaData, MetaError> {
    match spec_compression_of(md.codec.0) {
        Option::None => Result::Err(MetaError::UnknownCompression(md.codec.0)),
        Option::Some(compression) => match spec_byte_range(
            md.dictionary_page_offset,
            md.data_page_offset,
            md.total_compressed_size,
        ) {
            Option::None => Result::Err(MetaError::InvalidByteRange),
            Option::Some(byte_range) => Result::Ok(
                ColumnChunkMetaData {
                    file_offset,
                    num_values: md.num_values,
                    compressed_size: md.total_compressed_size,
                    uncompressed_size: md.total_uncompressed_size,
                    byte_range,
                    physical_type: spec_physical(physical),
                    compression,
                },
            ),
        },
    }
}

/// The exact outcome of projecting a whole column chunk record.
pub open spec fn spec_column(ch: PfColumnChunk, physical: P2PhysicalType) -> Result<
    ColumnChunkMetaData,
    MetaError,
> {
    match ch.meta_data {
        Option::None => Result::Err(MetaError::MissingColumnMetaData),
        Option::Some(md) => spec_column_parts(ch.file_offset, md, physical),
    }
}

/// Projects one column chunk from its visible parts. Succeeds exactly when
/// the codec is in the modelled set and the offsets admit a byte range.
pub fn project_column_parts(file_offset: i64, md: &PfColumnMetaData, physical: P2PhysicalType) -> (out: Result<
    ColumnChunkMetaData,
    MetaError,
>)
    ensures
        out == spec_column_parts(file_offset, *md, physical),
        out matches Ok(col) ==> column_projects_to(file_offset, *md, physical, col)
            && col.byte_range.1 >= col.byte_range.0,
        out matches Err(e) ==> e == MetaError::UnknownCompression(md.codec.0) || e
            == MetaError::InvalidByteRange,
{
    let compression = match compression_from_code(md.codec.0) {
        Ok(c) => c,
        Err(e) => {
            return Err(e);
        },
    };
    let byte_range = match byte_range_from(
        md.dictionary_page_offset,
        md.data_page_offset,
        md.total_compressed_size,
    ) {
        Ok(r) => r,
        Err(e) => {
            return Err(e);
        },
    };
    Ok(
        ColumnChunkMetaData {
            file_offset,
            num_values: md.num_values,
            compressed_size: md.total_compressed_size,
            uncompressed_size: md.total_uncompressed_size,
            byte_range,
            physical_type: project_physical(physical),
            compression,
        },
    )
}

/// A projected column chunk is well formed when its byte range ends no
/// earlier than it starts.
pub open spec fn column_wf(col: ColumnChunkMetaData) -> bool {
    col.byte_range.1 >= col.byte_range.0
}

/// Every column chunk of the row group is well formed.
pub open spec fn row_group_wf(g: RowGroupMetaData) -> bool {
    forall|i: int| 0 <= i < g.columns@.len() ==> column_wf(#[trigger] g.columns@[i])
}

/// Every row group of the projection is well formed.
pub open spec fn file_wf(m: FileMetaData) -> bool {
    forall|i: int| 0 <= i < m.row_groups@.len() ==> row_group_wf(#[trigger] m.row_groups@[i])
}

/// Projects one column chunk: exactly `spec_column` on the named results of
/// the two trusted accessors.
pub fn project_column(c: &P2ColumnChunkMetaData) -> (out: Result<ColumnChunkMetaData, MetaError>)
    ensures
        out == spec_column(chunk_of(*c), ptype_of(*c)),
        out matches Ok(col) ==> column_wf(col),
        out matches Err(e) ==> e == MetaError::MissingColumnMetaData || (e matches
            MetaError::UnknownCompression(_)) || e == MetaError::InvalidByteRange,
{
    let ch = c.column_chunk();
    match &ch.meta_data {
        Option::None => Err(MetaError::MissingColumnMetaData),
        Option::Some(md) => project_column_parts(ch.file_offset, md, c.physical_type()),
    }
}

/// Every column chunk of the row group projects without error.
pub open spec fn row_group_ok(rg: P2RowGroupMetaData) -> bool {
    forall|i: int|
        0 <= i < columns_of(rg).len() ==> spec_column(
            chunk_of(#[trigger] columns_of(rg)[i]),
            ptype_of(columns_of(rg)[i]),
        ) is Ok
}

/// The projected row group holds exactly the projections of the source's
/// column chunks, element-wise, in source order, and the two counts
/// verbatim.
pub open spec fn row_group_projects_to(rg: P2RowGroupMetaData, g: RowGroupMetaData) -> bool {
    &&& g.columns@.len() == columns_of(rg).len()
    &&& forall|i: int|
        0 <= i < columns_of(rg).len() ==> Result::<ColumnChunkMetaData, MetaError>::Ok(
            g.columns@[i],
        ) == spec_column(chunk_of(#[trigger] columns_of(rg)[i]), ptype_of(columns_of(rg)[i]))
    &&& g.num_rows == num_rows_of(rg) as u64
    &&& g.total_byte_size == total_byte_size_of(rg) as u64
}

/// Projects one row group: its column chunks in source order, row and byte
/// counts verbatim. Succeeds exactly when every column chunk projects, and
/// then holds their element-wise projection; an error is some column's.
#[verifier::loop_isolation(false)]
pub fn project_row_group(rg: &P2RowGroupMetaData) -> (out: Result<RowGroupMetaData, MetaError>)
    ensures
        out is Ok <==> row_group_ok(*rg),
        out matches Ok(g) ==> row_group_projects_to(*rg, g) && row_group_wf(g),
        out matches Err(e) ==> e == MetaError::MissingColumnMetaData || (e matches
            MetaError::UnknownCompression(_)) || e == MetaError::InvalidByteRange,
{
    let cols = rg.columns();
    let mut out_cols: Vec<ColumnChunkMetaData> = Vec::new();
    let mut i: usize = 0;
    while i < cols.len()
        invariant
            0 <= i <= cols@.len(),
            out_cols@.len() == i as int,
            forall|j: int| 0 <= j < i as int ==> column_wf(#[trigger] out_cols@[j]),
            forall|j: int|
                0 <= j < i as int ==> Result::<ColumnChunkMetaData, MetaError>::Ok(
                    out_cols@[j],
                ) == spec_column(
                    chunk_of(#[trigger] columns_of(*rg)[j]),
                    ptype_of(columns_of(*rg)[j]),
                ),
        decreases cols@.len() - i,
    {
        match project_column(&cols[i]) {
            Ok(col) => out_cols.push(col),
            Err(e) => {
                proof {
                    assert(spec_column(
                        chunk_of(columns_of(*rg)[i as int]),
                        ptype_of(columns_of(*rg)[i as int]),
                    ) == Result::<ColumnChunkMetaData, MetaError>::Err(e));
                    assert(!row_group_ok(*rg));
                }
                return Err(e);
            },
        }
        i += 1;
    }
    Ok(
        RowGroupMetaData {
            columns: out_cols,
            num_rows: rg.num_rows() as u64,
            total_byte_size: rg.total_byte_size() as u64,
        },
    )
}

// ---------------------------------------------------------------------------
// File projection: the aggregate root.
// ---------------------------------------------------------------------------
/// The footer projects without error: its schema fits the depth budget and
/// every row group's column chunks project.
pub open spec fn file_projection_ok(m: P2FileMetaData) -> bool {
    &&& schema_fits(fields_of(m.schema_descr))
    &&& forall|i: int| 0 <= i < m.row_groups@.len() ==> row_group_ok(#[trigger] m.row_groups@[i])
}

/// The projection holds the parsed footer exactly: version, row count and
/// writer verbatim, the schema's element-wise projection, and every row
/// group's projection, in source order.
pub open spec fn file_projects_to(m: P2FileMetaData, f: FileMetaData) -> bool {
    &&& f.version == m.version
    &&& f.num_rows == m.num_rows as u64
    &&& (m.created_by matches Option::Some(s) ==> f.created_by matches Option::Some(t) && t@
        == s@)
    &&& (m.created_by is None ==> f.created_by is None)
    &&& schema_projects_to(fields_of(m.schema_descr), f.schema_descr)
    &&& f.row_groups@.len() == m.row_groups@.len()
    &&& forall|i: int|
        0 <= i < m.row_groups@.len() ==> row_group_projects_to(
            #[trigger] m.row_groups@[i],
            f.row_groups@[i],
        )
}

/// Projects the whole footer. Succeeds exactly when the schema fits the
/// depth budget and every column chunk projects; the result is then the
/// footer's exact projection, well formed. No error of the upstream parser
/// arises here.
#[verifier::loop_isolation(false)]
pub fn project_file(m: &P2FileMetaData) -> (out: Result<FileMetaData, MetaError>)
    ensures
        out is Ok <==> file_projection_ok(*m),
        out matches Ok(f) ==> file_projects_to(*m, f) && file_wf(f),
        out matches Err(e) ==> !(e matches MetaError::UpstreamParse(_)),
{
    let schema_descr = match project_schema(&m.schema_descr) {
        Ok(s) => s,
        Err(e) => {
            return Err(e);
        },
    };
    let mut row_groups: Vec<RowGroupMetaData> = Vec::new();
    let mut i: usize = 0;
    while i < m.row_groups.len()
        invariant
            0 <= i <= m.row_groups@.len(),
            row_groups@.len() == i as int,
            forall|j: int| 0 <= j < i as int ==> row_group_wf(#[trigger] row_groups@[j]),
            forall|j: int|
                0 <= j < i as int ==> row_group_projects_to(
                    #[trigger] m.row_groups@[j],
                    row_groups@[j],
                ) && row_group_ok(m.row_groups@[j]),
        decreases m.row_groups@.len() - i,
    {
        match project_row_group(&m.row_groups[i]) {
            Ok(g) => row_groups.push(g),
            Err(e) => {
                proof {
                    assert(!row_group_ok(m.row_groups@[i as int]));
                }
                return Err(e);
            },
        }
        i += 1;
    }
    let created_by = match &m.created_by {
        Option::None => Option::None,
        Option::Some(s) => Option::Some(s.clone()),
    };
    Ok(
        FileMetaData {
            version: m.version,
            num_rows: m.num_rows as u64,
            created_by,
            schema_descr,
            row_groups,
        },
    )
}

/// The projection half of the entry point: feeds the bytes to the upstream
/// parser and projects what it returns. Succeeds exactly when the bytes
/// parse and the parsed footer projects; the result is then that footer's
/// exact, well-formed projection. A parse failure comes back verbatim as
/// `UpstreamParse`, the parser's own message unwrapped; a projection
/// failure is never dressed as a parse failure.
pub fn read_parquet_metadata(data: &[u8]) -> (out: Result<FileMetaData, MetaError>)
    ensures
        out is Ok <==> (parse_of(data@) matches Ok(m) && file_projection_ok(m)),
        out matches Ok(f) ==> (parse_of(data@) matches Ok(m) && file_projects_to(m, f))
            && file_wf(f),
        out matches Err(e) ==> ((parse_of(data@) matches Err(t) && e matches
            MetaError::UpstreamParse(s) && s@ == t) || (parse_of(data@) matches Ok(m)
            && !file_projection_ok(m) && !(e matches MetaError::UpstreamParse(_)))),
{
    match parse_footer(data) {
        Err(msg) => Err(MetaError::UpstreamParse(msg)),
        Ok(meta) => project_file(&meta),
    }
}

} // verus!
