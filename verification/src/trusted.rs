//! Declarations of the upstream parser's types, and the one call into it.
//!
//! The `parquet2` crate parses a file footer into its own metadata tree; the
//! projection in this crate walks that tree. Every type of `parquet2` (and of
//! its thrift layer, `parquet_format_safe`) that the walk touches is declared
//! here. Types whose fields are public are declared transparently, so the
//! projection's pattern matches and field reads are themselves verified; types
//! with private fields are opaque, reached only through the method
//! specifications below.

use vstd::prelude::*;

use parquet2::metadata::ColumnChunkMetaData as P2ColumnChunkMetaData;
use parquet2::metadata::ColumnOrder as P2ColumnOrder;
use parquet2::metadata::FileMetaData as P2FileMetaData;
use parquet2::metadata::KeyValue as P2KeyValue;
use parquet2::metadata::RowGroupMetaData as P2RowGroupMetaData;
use parquet2::metadata::SchemaDescriptor as P2SchemaDescriptor;
use parquet2::schema::types::FieldInfo as P2FieldInfo;
use parquet2::schema::types::GroupConvertedType as P2GroupConvertedType;
use parquet2::schema::types::GroupLogicalType as P2GroupLogicalType;
use parquet2::schema::types::IntegerType as P2IntegerType;
use parquet2::schema::types::ParquetType as P2ParquetType;
use parquet2::schema::types::PhysicalType as P2PhysicalType;
use parquet2::schema::types::PrimitiveConvertedType as P2PrimitiveConvertedType;
use parquet2::schema::types::PrimitiveLogicalType as P2PrimitiveLogicalType;
use parquet2::schema::types::PrimitiveType as P2PrimitiveType;
use parquet2::schema::types::TimeUnit as P2TimeUnit;
use parquet2::schema::Repetition as P2Repetition;
use parquet_format_safe::ColumnChunk as PfColumnChunk;
use parquet_format_safe::ColumnCryptoMetaData as PfColumnCryptoMetaData;
use parquet_format_safe::ColumnMetaData as PfColumnMetaData;
use parquet_format_safe::CompressionCodec as PfCompressionCodec;
use parquet_format_safe::Encoding as PfEncoding;
use parquet_format_safe::PageEncodingStats as PfPageEncodingStats;
use parquet_format_safe::Statistics as PfStatistics;
use parquet_format_safe::Type as PfType;

verus! {

// ---------------------------------------------------------------------------
// Schema-side types of parquet2: all fields public, declared transparently.
// ---------------------------------------------------------------------------
#[verifier::external_type_specification]
pub struct ExRepetition(P2Repetition);

#[verifier::external_type_specification]
pub struct ExPhysicalType(P2PhysicalType);

#[verifier::external_type_specification]
pub struct ExTimeUnit(P2TimeUnit);

#[verifier::external_type_specification]
pub struct ExIntegerType(P2IntegerType);

#[verifier::external_type_specification]
pub struct ExPrimitiveLogicalType(P2PrimitiveLogicalType);

#[verifier::external_type_specification]
pub struct ExGroupLogicalType(P2GroupLogicalType);

#[verifier::external_type_specification]
pub struct ExFieldInfo(P2FieldInfo);

#[verifier::external_type_specification]
pub struct ExPrimitiveConvertedType(P2PrimitiveConvertedType);

#[verifier::external_type_specification]
pub struct ExGroupConvertedType(P2GroupConvertedType);

#[verifier::external_type_specification]
pub struct ExPrimitiveType(P2PrimitiveType);

#[verifier::external_type_specification]
pub struct ExParquetType(P2ParquetType);

// ---------------------------------------------------------------------------
// Metadata containers of parquet2. FileMetaData has public fields and is
// transparent; the others hide their fields and are opaque.
// ---------------------------------------------------------------------------
#[verifier::external_type_specification]
pub struct ExFileMetaData(P2FileMetaData);

#[verifier::external_type_specification]
#[verifier::external_body]
pub struct ExSchemaDescriptor(P2SchemaDescriptor);

#[verifier::external_type_specification]
#[verifier::external_body]
pub struct ExRowGroupMetaData(P2RowGroupMetaData);

#[verifier::external_type_specification]
#[verifier::external_body]
pub struct ExColumnChunkMetaData(P2ColumnChunkMetaData);

#[verifier::external_type_specification]
#[verifier::external_body]
pub struct ExColumnOrder(P2ColumnOrder);

#[verifier::external_type_specification]
#[verifier::external_body]
pub struct ExKeyValue(P2KeyValue);

// ---------------------------------------------------------------------------
// Thrift-layer types of parquet_format_safe. ColumnChunk, ColumnMetaData and
// CompressionCodec have public fields and are transparent, so the column
// projection reads offsets, sizes and the codec under its own verification;
// the rest are opaque payloads the projection carries past.
// ---------------------------------------------------------------------------
#[verifier::external_type_specification]
pub struct ExColumnChunk(PfColumnChunk);

#[verifier::external_type_specification]
pub struct ExColumnMetaData(PfColumnMetaData);

#[verifier::external_type_specification]
pub struct ExCompressionCodec(PfCompressionCodec);

#[verifier::external_type_specification]
#[verifier::external_body]
pub struct ExThriftType(PfType);

#[verifier::external_type_specification]
#[verifier::external_body]
pub struct ExEncoding(PfEncoding);

#[verifier::external_type_specification]
#[verifier::external_body]
pub struct ExStatistics(PfStatistics);

#[verifier::external_type_specification]
#[verifier::external_body]
pub struct ExPageEncodingStats(PfPageEncodingStats);

#[verifier::external_type_specification]
#[verifier::external_body]
pub struct ExColumnCryptoMetaData(PfColumnCryptoMetaData);

// ---------------------------------------------------------------------------
// Names for the accessors' results. Each accessor below is a plain field
// read in parquet2's source, so its result is a function of the value alone;
// the names let the projection's contracts speak of those results.
// ---------------------------------------------------------------------------
// The schema's top-level fields.
pub uninterp spec fn fields_of(sd: P2SchemaDescriptor) -> Seq<P2ParquetType>;

// The row group's column chunks, in column order.
pub uninterp spec fn columns_of(rg: P2RowGroupMetaData) -> Seq<P2ColumnChunkMetaData>;

// The row group's row count.
pub uninterp spec fn num_rows_of(rg: P2RowGroupMetaData) -> usize;

// The row group's total uncompressed byte size.
pub uninterp spec fn total_byte_size_of(rg: P2RowGroupMetaData) -> usize;

// The thrift record behind a column chunk.
pub uninterp spec fn chunk_of(c: P2ColumnChunkMetaData) -> PfColumnChunk;

// The column chunk's physical storage type.
pub uninterp spec fn ptype_of(c: P2ColumnChunkMetaData) -> P2PhysicalType;

// What the parser makes of a byte sequence: the decoded footer metadata, or
// the parse error's display text. The parse is a pure function of the bytes.
pub uninterp spec fn parse_of(data: Seq<u8>) -> Result<P2FileMetaData, Seq<char>>;

// ---------------------------------------------------------------------------
// Method specifications: plain field reads in parquet2's source, each stated
// as returning its named result.
// ---------------------------------------------------------------------------
/// Relies on SchemaDescriptor::fields: returns the schema's top-level fields.
pub assume_specification[ P2SchemaDescriptor::fields ](
    s: &P2SchemaDescriptor,
) -> (r: &[P2ParquetType])
    ensures
        r@ == fields_of(*s),
;

/// Relies on RowGroupMetaData::columns: returns the row group's column
/// chunks, in column order.
pub assume_specification[ P2RowGroupMetaData::columns ](
    r: &P2RowGroupMetaData,
) -> (out: &[P2ColumnChunkMetaData])
    ensures
        out@ == columns_of(*r),
;

/// Relies on RowGroupMetaData::num_rows.
pub assume_specification[ P2RowGroupMetaData::num_rows ](
    r: &P2RowGroupMetaData,
) -> (out: usize)
    ensures
        out == num_rows_of(*r),
;

/// Relies on RowGroupMetaData::total_byte_size.
pub assume_specification[ P2RowGroupMetaData::total_byte_size ](
    r: &P2RowGroupMetaData,
) -> (out: usize)
    ensures
        out == total_byte_size_of(*r),
;

/// Relies on ColumnChunkMetaData::column_chunk: the thrift record behind the
/// column chunk.
pub assume_specification[ P2ColumnChunkMetaData::column_chunk ](
    c: &P2ColumnChunkMetaData,
) -> (r: &PfColumnChunk)
    ensures
        *r == chunk_of(*c),
;

/// Relies on ColumnChunkMetaData::physical_type: the column's physical
/// storage type, read from the column descriptor.
pub assume_specification[ P2ColumnChunkMetaData::physical_type ](
    c: &P2ColumnChunkMetaData,
) -> (r: P2PhysicalType)
    ensures
        r == ptype_of(*c),
;

// ---------------------------------------------------------------------------
// The one call into the parser.
// ---------------------------------------------------------------------------
/// Relies on parquet2::read::read_metadata: given a byte stream, it returns
/// the decoded footer metadata, or a parse error (malformed footer, truncated
/// file, bad magic bytes). The error is handed on as its display text,
/// unwrapped; both outcomes are `parse_of` on the bytes alone.
#[verifier::external_body]
pub fn parse_footer(data: &[u8]) -> (r: Result<P2FileMetaData, String>)
    ensures
        match r {
            Ok(m) => parse_of(data@) == Result::<P2FileMetaData, Seq<char>>::Ok(m),
            Err(s) => parse_of(data@) matches Result::Err(t) && s@ == t,
        },
{
    let mut reader = std::io::Cursor::new(data);
    parquet2::read::read_metadata(&mut reader).map_err(|e| format!("{}", e))
}

} // verus!
