//! Write-time accumulation and columnar extraction of per-document scalar
//! attributes ("fast fields") for a single index segment under construction.

mod bitpacker;
mod doc_id_mapping;
mod encode;
mod group;
mod schema;
mod single_value;

pub use encode::{
    f64_bits_lt, f64_bits_to_u64_spec, i64_to_u64_spec, lemma_encode_f64_bits_monotonic,
    lemma_encode_i64_monotonic,
};
pub use bitpacker::bitpacker_contents;
pub use doc_id_mapping::{lemma_valid_mapping_visits_every_old_id, DocIdMapping};
pub use group::{
    all_but_bytes_unchanged, all_but_multi_value_unchanged, all_but_single_unchanged,
    all_but_term_id_unchanged, bump_bytes_doc_count, bump_doc_count, expected_bytes_writers,
    expected_multi_value_writers, expected_single_writers, expected_term_id_writers,
    fast_field_default_value_spec, fresh_bytes_writers_match, fresh_multi_writers_match,
    fresh_single_writers_match, is_single_request, multi_value_request, opt_deref,
    BytesFastFieldWriter, ColumnRequest, FastFieldType, FastFieldsWriter,
    MultiValuedFastFieldWriter, TermOrdinal, UnorderedTermId,
};
pub use single_value::{
    lemma_column_iter_matches_get, lemma_count_tracks_documents,
    lemma_same_unit_timestamps_record_equal, records_document,
    value_to_u64_spec, FastFieldStats, IntFastFieldWriter, SingleValueColumn,
    WriterFastFieldAccessProvider,
};
pub use schema::{
    first_value_for, precision_micros, trunc_div_micros, truncate_micros_spec, BytesOptions,
    Cardinality, DateOptions, DatePrecision, DateTime, Document, Field, FieldEntry, FieldType,
    FieldValue, IntOptions, Schema, TextOptions, Value,
};
