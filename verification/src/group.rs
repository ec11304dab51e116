//! The fast field writer group: built once from the schema, it owns one
//! writer per fast-field-eligible field, fans every appended document out
//! to all of them, and at segment seal turns every writer into a column
//! request for the external composite serializer, in a fixed grouping
//! order.

use crate::doc_id_mapping::DocIdMapping;
use crate::encode::{encode_f64_bits, encode_i64, f64_bits_to_u64_spec, i64_to_u64_spec};
use crate::schema::{
    Cardinality, DatePrecision, Document, Field, FieldEntry, FieldType, Schema,
};
use crate::single_value::{IntFastFieldWriter, SingleValueColumn};
use std::collections::HashMap;
use vstd::prelude::*;

verus! {

broadcast use vstd::std_specs::hash::group_hash_axioms;

/// A term id as first seen during indexing, before ordinals are assigned.
pub type UnorderedTermId = u64;

/// A term's rank in the sorted term dictionary.
pub type TermOrdinal = u64;

/// Declares fnv's hasher type, so the per-field ordinal tables, which key
/// their entries with it, can appear in signatures. The tables are only
/// carried through to the external term-ordinal writer.
#[verifier::external_type_specification]
#[verifier::external_body]
pub struct ExFnvHasher(fnv::FnvHasher);

/// Declares the standard hasher-builder wrapper that fnv's map alias is
/// made of.
#[verifier::external_type_specification]
#[verifier::external_body]
#[verifier::reject_recursive_types(T)]
pub struct ExBuildHasherDefault<T>(std::hash::BuildHasherDefault<T>);

/// The flavour of values a multi-valued writer stores.
#[derive(Clone, Copy, Debug, PartialEq, Eq, Structural)]
pub enum FastFieldType {
    /// Encoded numeric or timestamp values.
    Numeric,
    /// Term ids of a text field.
    String,
    /// Term ids of a facet field.
    Facet,
}

/// Stand-in for the external multi-valued fast field writer. Its term and
/// value buffering is outside this crate's scope; what matters here is the
/// field it is assigned to, its configuration, and the per-document
/// fan-out it receives.
#[derive(Clone, Debug)]
pub struct MultiValuedFastFieldWriter {
    pub field: Field,
    pub fast_field_type: FastFieldType,
    pub precision_opt: Option<DatePrecision>,
    pub doc_count: usize,
}

impl MultiValuedFastFieldWriter {
    /// Creates a writer for one multi-valued field.
    pub fn new(
        field: Field,
        fast_field_type: FastFieldType,
        precision_opt: Option<DatePrecision>,
    ) -> (r: MultiValuedFastFieldWriter)
        ensures
            r.field == field,
            r.fast_field_type == fast_field_type,
            r.precision_opt == precision_opt,
            r.doc_count == 0,
    {
        MultiValuedFastFieldWriter { field, fast_field_type, precision_opt, doc_count: 0 }
    }

    /// Returns the field that this writer is targeting.
    pub fn field(&self) -> (r: Field)
        ensures
            r == self.field,
    {
        self.field
    }

    /// The memory used. The stand-in buffers nothing, so it reports none.
    pub fn mem_usage(&self) -> (r: usize)
        ensures
            r == 0,
    {
        0
    }

    /// Registers one document with this writer.
    pub fn add_document(&mut self, doc: &Document)
        requires
            old(self).doc_count < usize::MAX,
        ensures
            *final(self) == (MultiValuedFastFieldWriter {
                doc_count: (old(self).doc_count + 1) as usize,
                ..*old(self)
            }),
    {
        let _ = doc;
        self.doc_count += 1;
    }

    /// Seals this writer into a column request, noting whether an ordinal
    /// remapping was supplied for its field.
    pub fn serialize(
        &self,
        ordinal_mapping: Option<&fnv::FnvHashMap<UnorderedTermId, TermOrdinal>>,
        doc_id_map: Option<&DocIdMapping>,
    ) -> (r: ColumnRequest)
        ensures
            r == multi_value_request(*self, ordinal_mapping is Some),
    {
        let _ = doc_id_map;
        ColumnRequest::MultiValued {
            field: self.field,
            fast_field_type: self.fast_field_type,
            doc_count: self.doc_count,
            has_ordinal_mapping: ordinal_mapping.is_some(),
        }
    }
}

/// Stand-in for the external variable-length bytes writer: only the field
/// assignment and the per-document fan-out are tracked.
#[derive(Clone, Debug)]
pub struct BytesFastFieldWriter {
    pub field: Field,
    pub doc_count: usize,
}

impl BytesFastFieldWriter {
    /// Creates a writer for one bytes field.
    pub fn new(field: Field) -> (r: BytesFastFieldWriter)
        ensures
            r.field == field,
            r.doc_count == 0,
    {
        BytesFastFieldWriter { field, doc_count: 0 }
    }

    /// Returns the field that this writer is targeting.
    pub fn field(&self) -> (r: Field)
        ensures
            r == self.field,
    {
        self.field
    }

    /// The memory used. The stand-in buffers nothing, so it reports none.
    pub fn mem_usage(&self) -> (r: usize)
        ensures
            r == 0,
    {
        0
    }

    /// Registers one document with this writer.
    pub fn add_document(&mut self, doc: &Document)
        requires
            old(self).doc_count < usize::MAX,
        ensures
            *final(self) == (BytesFastFieldWriter {
                doc_count: (old(self).doc_count + 1) as usize,
                ..*old(self)
            }),
    {
        let _ = doc;
        self.doc_count += 1;
    }

    /// Seals this writer into a column request.
    pub fn serialize(&self, doc_id_map: Option<&DocIdMapping>) -> (r: ColumnRequest)
        ensures
            r == (ColumnRequest::Bytes { field: self.field, doc_count: self.doc_count }),
    {
        let _ = doc_id_map;
        ColumnRequest::Bytes { field: self.field, doc_count: self.doc_count }
    }
}

/// One column handed to the external composite serializer at segment seal.
#[derive(Clone, Debug)]
pub enum ColumnRequest {
    /// A sealed single-value column with its statistics and values.
    SingleValue(SingleValueColumn),
    /// A multi-valued or term-ordinal column, sealed by the external
    /// multi-valued writer.
    MultiValued {
        field: Field,
        fast_field_type: FastFieldType,
        doc_count: usize,
        has_ordinal_mapping: bool,
    },
    /// A variable-length bytes column, sealed by the external bytes
    /// writer.
    Bytes { field: Field, doc_count: usize },
}

/// The request a multi-valued writer seals into.
pub open spec fn multi_value_request(w: MultiValuedFastFieldWriter, has_ordinal_mapping: bool) -> ColumnRequest {
    ColumnRequest::MultiValued {
        field: w.field,
        fast_field_type: w.fast_field_type,
        doc_count: w.doc_count,
        has_ordinal_mapping,
    }
}

/// The default recorded when a document has no value for a fast field:
/// the encoded form of the type's zero for the sign-flip and
/// sign-magnitude encodings, plain zero otherwise, so that encoded
/// comparisons remain consistent per type.
pub open spec fn fast_field_default_value_spec(field_entry: FieldEntry) -> u64 {
    match field_entry.field_type {
        FieldType::I64(_) => i64_to_u64_spec(0),
        FieldType::Date(_) => i64_to_u64_spec(0),
        FieldType::F64(_) => f64_bits_to_u64_spec(0),
        _ => 0u64,
    }
}

/// Computes the missing-value default for a field entry.
fn fast_field_default_value(field_entry: &FieldEntry) -> (r: u64)
    ensures
        r == fast_field_default_value_spec(*field_entry),
{
    match field_entry.field_type {
        FieldType::I64(_) | FieldType::Date(_) => encode_i64(0i64),
        FieldType::F64(_) => encode_f64_bits(0u64),
        _ => 0u64,
    }
}

/// The single-value writers the schema calls for: for every field with a
/// plain or timestamp type declared single-valued fast, its field id,
/// truncation precision and missing-value default, in field order.
pub open spec fn expected_single_writers(entries: Seq<FieldEntry>) -> Seq<
    (u32, Option<DatePrecision>, u64),
>
    decreases entries.len(),
{
    if entries.len() == 0 {
        Seq::empty()
    } else {
        let prefix = expected_single_writers(entries.drop_last());
        let e = entries.last();
        let id = (entries.len() - 1) as u32;
        match e.field_type {
            FieldType::U64(o) => if o.fastfield_cardinality matches Some(
                Cardinality::SingleValue,
            ) {
                prefix.push((id, None, fast_field_default_value_spec(e)))
            } else {
                prefix
            },
            FieldType::I64(o) => if o.fastfield_cardinality matches Some(
                Cardinality::SingleValue,
            ) {
                prefix.push((id, None, fast_field_default_value_spec(e)))
            } else {
                prefix
            },
            FieldType::F64(o) => if o.fastfield_cardinality matches Some(
                Cardinality::SingleValue,
            ) {
                prefix.push((id, None, fast_field_default_value_spec(e)))
            } else {
                prefix
            },
            FieldType::Bool(o) => if o.fastfield_cardinality matches Some(
                Cardinality::SingleValue,
            ) {
                prefix.push((id, None, fast_field_default_value_spec(e)))
            } else {
                prefix
            },
            FieldType::Date(o) => if o.fastfield_cardinality matches Some(
                Cardinality::SingleValue,
            ) {
                prefix.push((id, Some(o.precision), fast_field_default_value_spec(e)))
            } else {
                prefix
            },
            _ => prefix,
        }
    }
}

/// The term-ordinal writers the schema calls for: every facet field, and
/// every text field marked fast, in field order.
pub open spec fn expected_term_id_writers(entries: Seq<FieldEntry>) -> Seq<(u32, FastFieldType)>
    decreases entries.len(),
{
    if entries.len() == 0 {
        Seq::empty()
    } else {
        let prefix = expected_term_id_writers(entries.drop_last());
        let e = entries.last();
        let id = (entries.len() - 1) as u32;
        match e.field_type {
            FieldType::Facet => prefix.push((id, FastFieldType::Facet)),
            FieldType::Str(o) => if o.fast {
                prefix.push((id, FastFieldType::String))
            } else {
                prefix
            },
            _ => prefix,
        }
    }
}

/// The multi-value numeric writers the schema calls for: every plain or
/// timestamp field declared multi-valued fast, with its truncation
/// precision, in field order.
pub open spec fn expected_multi_value_writers(entries: Seq<FieldEntry>) -> Seq<
    (u32, Option<DatePrecision>),
>
    decreases entries.len(),
{
    if entries.len() == 0 {
        Seq::empty()
    } else {
        let prefix = expected_multi_value_writers(entries.drop_last());
        let e = entries.last();
        let id = (entries.len() - 1) as u32;
        match e.field_type {
            FieldType::U64(o) => if o.fastfield_cardinality matches Some(
                Cardinality::MultiValues,
            ) {
                prefix.push((id, None))
            } else {
                prefix
            },
            FieldType::I64(o) => if o.fastfield_cardinality matches Some(
                Cardinality::MultiValues,
            ) {
                prefix.push((id, None))
            } else {
                prefix
            },
            FieldType::F64(o) => if o.fastfield_cardinality matches Some(
                Cardinality::MultiValues,
            ) {
                prefix.push((id, None))
            } else {
                prefix
            },
            FieldType::Bool(o) => if o.fastfield_cardinality matches Some(
                Cardinality::MultiValues,
            ) {
                prefix.push((id, None))
            } else {
                prefix
            },
            FieldType::Date(o) => if o.fastfield_cardinality matches Some(
                Cardinality::MultiValues,
            ) {
                prefix.push((id, Some(o.precision)))
            } else {
                prefix
            },
            _ => prefix,
        }
    }
}

/// The bytes writers the schema calls for: every bytes field marked fast,
/// in field order.
pub open spec fn expected_bytes_writers(entries: Seq<FieldEntry>) -> Seq<u32>
    decreases entries.len(),
{
    if entries.len() == 0 {
        Seq::empty()
    } else {
        let prefix = expected_bytes_writers(entries.drop_last());
        let e = entries.last();
        let id = (entries.len() - 1) as u32;
        match e.field_type {
            FieldType::Bytes(o) => if o.fast {
                prefix.push(id)
            } else {
                prefix
            },
            _ => prefix,
        }
    }
}

/// A freshly built single-value writer matches its expected field id,
/// precision and default, and holds no values yet.
pub open spec fn fresh_single_writers_match(
    ws: Seq<IntFastFieldWriter>,
    ex: Seq<(u32, Option<DatePrecision>, u64)>,
) -> bool {
    &&& ws.len() == ex.len()
    &&& (forall|i: int|
        0 <= i < ws.len() ==> {
            &&& (#[trigger] ws[i]).field.0 == ex[i].0
            &&& ws[i].precision_opt == ex[i].1
            &&& ws[i].val_if_missing == ex[i].2
            &&& ws[i].val_count == 0
            &&& ws[i].values() == Seq::<u64>::empty()
            &&& ws[i].wf()
        })
}

/// A freshly built multi-valued writer matches its expected field id and
/// flavour, and has seen no documents yet.
pub open spec fn fresh_multi_writers_match(
    ws: Seq<MultiValuedFastFieldWriter>,
    ex: Seq<(u32, FastFieldType, Option<DatePrecision>)>,
) -> bool {
    &&& ws.len() == ex.len()
    &&& (forall|i: int|
        0 <= i < ws.len() ==> {
            &&& (#[trigger] ws[i]).field.0 == ex[i].0
            &&& ws[i].fast_field_type == ex[i].1
            &&& ws[i].precision_opt == ex[i].2
            &&& ws[i].doc_count == 0
        })
}

/// A freshly built bytes writer matches its expected field id and has
/// seen no documents yet.
pub open spec fn fresh_bytes_writers_match(
    ws: Seq<BytesFastFieldWriter>,
    ex: Seq<u32>,
) -> bool {
    &&& ws.len() == ex.len()
    &&& (forall|i: int|
        0 <= i < ws.len() ==> {
            &&& (#[trigger] ws[i]).field.0 == ex[i]
            &&& ws[i].doc_count == 0
        })
}

/// The `FastFieldsWriter` groups all of the fast field writers, one per
/// fast-field-eligible field, split by kind.
pub struct FastFieldsWriter {
    pub term_id_writers: Vec<MultiValuedFastFieldWriter>,
    pub single_value_writers: Vec<IntFastFieldWriter>,
    pub multi_values_writers: Vec<MultiValuedFastFieldWriter>,
    pub bytes_value_writers: Vec<BytesFastFieldWriter>,
}

impl FastFieldsWriter {
    /// Every held single-value writer is internally consistent.
    pub open spec fn wf(self) -> bool {
        forall|i: int|
            0 <= i < self.single_value_writers@.len() ==> (
            #[trigger] self.single_value_writers@[i]).wf()
    }

    /// Create all fast field writers required by the schema: one
    /// single-value accumulator per single-valued plain or timestamp
    /// field (with the type's encoded zero as missing-value default), one
    /// multi-valued writer per multi-valued numeric or term-ordinal
    /// field, and one bytes writer per fast bytes field. Every other
    /// field is left untracked.
    pub fn from_schema(schema: &Schema) -> (r: FastFieldsWriter)
        requires
            schema.entries@.len() <= u32::MAX,
        ensures
            r.wf(),
            fresh_single_writers_match(
                r.single_value_writers@,
                expected_single_writers(schema.entries@),
            ),
            fresh_multi_writers_match(
                r.term_id_writers@,
                expected_term_id_writers(schema.entries@).map_values(
                    |t: (u32, FastFieldType)| (t.0, t.1, Option::<DatePrecision>::None),
                ),
            ),
            fresh_multi_writers_match(
                r.multi_values_writers@,
                expected_multi_value_writers(schema.entries@).map_values(
                    |t: (u32, Option<DatePrecision>)| (t.0, FastFieldType::Numeric, t.1),
                ),
            ),
            fresh_bytes_writers_match(
                r.bytes_value_writers@,
                expected_bytes_writers(schema.entries@),
            ),
    {
        let mut single_value_writers: Vec<IntFastFieldWriter> = Vec::new();
        let mut term_id_writers: Vec<MultiValuedFastFieldWriter> = Vec::new();
        let mut multi_values_writers: Vec<MultiValuedFastFieldWriter> = Vec::new();
        let mut bytes_value_writers: Vec<BytesFastFieldWriter> = Vec::new();

        let ghost entries = schema.entries@;
        let n = schema.entries.len();
        for i in 0..n
            invariant
                n == entries.len(),
                n <= u32::MAX,
                entries == schema.entries@,
                fresh_single_writers_match(
                    single_value_writers@,
                    expected_single_writers(entries.take(i as int)),
                ),
                fresh_multi_writers_match(
                    term_id_writers@,
                    expected_term_id_writers(entries.take(i as int)).map_values(
                        |t: (u32, FastFieldType)| (t.0, t.1, Option::<DatePrecision>::None),
                    ),
                ),
                fresh_multi_writers_match(
                    multi_values_writers@,
                    expected_multi_value_writers(entries.take(i as int)).map_values(
                        |t: (u32, Option<DatePrecision>)| (t.0, FastFieldType::Numeric, t.1),
                    ),
                ),
                fresh_bytes_writers_match(
                    bytes_value_writers@,
                    expected_bytes_writers(entries.take(i as int)),
                ),
        {
            let field = Field(i as u32);
            let field_entry = &schema.entries[i];
            proof {
                assert(entries.take(i as int + 1).drop_last() =~= entries.take(i as int));
                assert(entries.take(i as int + 1).last() == entries[i as int]);
            }
            match &field_entry.field_type {
                FieldType::U64(int_options)
                | FieldType::I64(int_options)
                | FieldType::F64(int_options)
                | FieldType::Bool(int_options) => {
                    match int_options.fastfield_cardinality {
                        Some(Cardinality::SingleValue) => {
                            let mut fast_field_writer = IntFastFieldWriter::new(field, None);
                            let default_value = fast_field_default_value(field_entry);
                            fast_field_writer.set_val_if_missing(default_value);
                            single_value_writers.push(fast_field_writer);
                        },
                        Some(Cardinality::MultiValues) => {
                            let fast_field_writer = MultiValuedFastFieldWriter::new(
                                field,
                                FastFieldType::Numeric,
                                None,
                            );
                            multi_values_writers.push(fast_field_writer);
                        },
                        None => {},
                    }
                },
                FieldType::Date(options) => {
                    match options.fastfield_cardinality {
                        Some(Cardinality::SingleValue) => {
                            let mut fast_field_writer = IntFastFieldWriter::new(
                                field,
                                Some(options.precision),
                            );
                            let default_value = fast_field_default_value(field_entry);
                            fast_field_writer.set_val_if_missing(default_value);
                            single_value_writers.push(fast_field_writer);
                        },
                        Some(Cardinality::MultiValues) => {
                            let fast_field_writer = MultiValuedFastFieldWriter::new(
                                field,
                                FastFieldType::Numeric,
                                Some(options.precision),
                            );
                            multi_values_writers.push(fast_field_writer);
                        },
                        None => {},
                    }
                },
                FieldType::Facet => {
                    let fast_field_writer = MultiValuedFastFieldWriter::new(
                        field,
                        FastFieldType::Facet,
                        None,
                    );
                    term_id_writers.push(fast_field_writer);
                },
                FieldType::Str(text_options) => {
                    if text_options.fast {
                        let fast_field_writer = MultiValuedFastFieldWriter::new(
                            field,
                            FastFieldType::String,
                            None,
                        );
                        term_id_writers.push(fast_field_writer);
                    }
                },
                FieldType::Bytes(bytes_options) => {
                    if bytes_options.fast {
                        let fast_field_writer = BytesFastFieldWriter::new(field);
                        bytes_value_writers.push(fast_field_writer);
                    }
                },
                FieldType::JsonObject => {},
            }
        }
        proof {
            assert(entries.take(n as int) =~= entries);
        }
        FastFieldsWriter {
            term_id_writers,
            single_value_writers,
            multi_values_writers,
            bytes_value_writers,
        }
    }

    /// The memory used, including every held writer. Purely observational:
    /// the per-writer figures come from the buffers' allocators, so no
    /// value is promised; each step adds with saturation so the sum
    /// cannot wrap.
    pub fn mem_usage(&self) -> usize {
        let mut total: usize = 0;
        let tn = self.term_id_writers.len();
        for i in 0..tn
            invariant
                tn == self.term_id_writers@.len(),
        {
            total = saturating_add_usize(total, self.term_id_writers[i].mem_usage());
        }
        let sn = self.single_value_writers.len();
        for i in 0..sn
            invariant
                sn == self.single_value_writers@.len(),
        {
            total = saturating_add_usize(total, self.single_value_writers[i].mem_usage());
        }
        let mn = self.multi_values_writers.len();
        for i in 0..mn
            invariant
                mn == self.multi_values_writers@.len(),
        {
            total = saturating_add_usize(total, self.multi_values_writers[i].mem_usage());
        }
        let bn = self.bytes_value_writers.len();
        for i in 0..bn
            invariant
                bn == self.bytes_value_writers@.len(),
        {
            total = saturating_add_usize(total, self.bytes_value_writers[i].mem_usage());
        }
        total
    }

    /// Indexes all of the fast fields of a new document: every held
    /// writer records the document exactly once.
    pub fn add_document(&mut self, doc: &Document)
        requires
            old(self).wf(),
            forall|i: int|
                0 <= i < old(self).single_value_writers@.len() ==> (
                #[trigger] old(self).single_value_writers@[i]).val_count < usize::MAX && old(
                    self,
                ).single_value_writers@[i].can_add_document(*doc),
            forall|i: int|
                0 <= i < old(self).term_id_writers@.len() ==> (
                #[trigger] old(self).term_id_writers@[i]).doc_count < usize::MAX,
            forall|i: int|
                0 <= i < old(self).multi_values_writers@.len() ==> (
                #[trigger] old(self).multi_values_writers@[i]).doc_count < usize::MAX,
            forall|i: int|
                0 <= i < old(self).bytes_value_writers@.len() ==> (
                #[trigger] old(self).bytes_value_writers@[i]).doc_count < usize::MAX,
        ensures
            final(self).wf(),
            final(self).single_value_writers@.len() == old(self).single_value_writers@.len(),
            forall|i: int|
                0 <= i < old(self).single_value_writers@.len()
                    ==> crate::single_value::records_document(
                    old(self).single_value_writers@[i],
                    #[trigger] final(self).single_value_writers@[i],
                    *doc,
                ),
            final(self).term_id_writers@.len() == old(self).term_id_writers@.len(),
            forall|i: int|
                0 <= i < old(self).term_id_writers@.len()
                    ==> #[trigger] final(self).term_id_writers@[i] == bump_doc_count(
                    old(self).term_id_writers@[i],
                ),
            final(self).multi_values_writers@.len() == old(self).multi_values_writers@.len(),
            forall|i: int|
                0 <= i < old(self).multi_values_writers@.len()
                    ==> #[trigger] final(self).multi_values_writers@[i] == bump_doc_count(
                    old(self).multi_values_writers@[i],
                ),
            final(self).bytes_value_writers@.len() == old(self).bytes_value_writers@.len(),
            forall|i: int|
                0 <= i < old(self).bytes_value_writers@.len()
                    ==> #[trigger] final(self).bytes_value_writers@[i] == bump_bytes_doc_count(
                    old(self).bytes_value_writers@[i],
                ),
    {
        add_document_to_multi_writers(&mut self.term_id_writers, doc);
        add_document_to_single_writers(&mut self.single_value_writers, doc);
        add_document_to_multi_writers(&mut self.multi_values_writers, doc);
        add_document_to_bytes_writers(&mut self.bytes_value_writers, doc);
    }

    /// Get the term-ordinal writer associated to a field: the first held
    /// one targeting it, or `None` if the field has no such writer.
    pub fn get_term_id_writer(&self, field: Field) -> (r: Option<&MultiValuedFastFieldWriter>)
        ensures
            match r {
                Some(w) => exists|i: int|
                    0 <= i < self.term_id_writers@.len() && #[trigger] self.term_id_writers@[i]
                        == *w && w.field == field && (forall|j: int|
                        0 <= j < i ==> self.term_id_writers@[j].field != field),
                None => forall|i: int|
                    0 <= i < self.term_id_writers@.len() ==> (
                    #[trigger] self.term_id_writers@[i]).field != field,
            },
    {
        let n = self.term_id_writers.len();
        let mut i: usize = 0;
        while i < n
            invariant
                n == self.term_id_writers@.len(),
                0 <= i <= n,
                forall|j: int|
                    0 <= j < i ==> (#[trigger] self.term_id_writers@[j]).field != field,
            decreases n - i,
        {
            if self.term_id_writers[i].field() == field {
                return Some(&self.term_id_writers[i]);
            }
            i = i + 1;
        }
        None
    }

    /// Get the single-value writer associated to a field: the first held
    /// one targeting it, or `None` if the field has no such writer.
    pub fn get_field_writer(&self, field: Field) -> (r: Option<&IntFastFieldWriter>)
        ensures
            match r {
                Some(w) => exists|i: int|
                    0 <= i < self.single_value_writers@.len()
                        && #[trigger] self.single_value_writers@[i] == *w && w.field == field && (
                    forall|j: int| 0 <= j < i ==> self.single_value_writers@[j].field != field),
                None => forall|i: int|
                    0 <= i < self.single_value_writers@.len() ==> (
                    #[trigger] self.single_value_writers@[i]).field != field,
            },
    {
        let n = self.single_value_writers.len();
        let mut i: usize = 0;
        while i < n
            invariant
                n == self.single_value_writers@.len(),
                0 <= i <= n,
                forall|j: int|
                    0 <= j < i ==> (#[trigger] self.single_value_writers@[j]).field != field,
            decreases n - i,
        {
            if self.single_value_writers[i].field() == field {
                return Some(&self.single_value_writers[i]);
            }
            i = i + 1;
        }
        None
    }
    /// Get the single-value writer associated to a field, for mutation:
    /// the first held one targeting it. Only that writer may change
    /// through the returned borrow; everything else in the group stays as
    /// it was.
    pub fn get_field_writer_mut(&mut self, field: Field) -> (r: Option<
        &mut IntFastFieldWriter,
    >)
        ensures
            match r {
                Some(w) => exists|i: int|
                    {
                        &&& 0 <= i < old(self).single_value_writers@.len()
                        &&& #[trigger] old(self).single_value_writers@[i] == *w
                        &&& w.field == field
                        &&& (forall|j: int|
                            0 <= j < i ==> old(self).single_value_writers@[j].field != field)
                        &&& final(self).single_value_writers@
                            == old(self).single_value_writers@.update(i, *final(w))
                        &&& all_but_single_unchanged(*old(self), *final(self))
                    },
                None => {
                    &&& *final(self) == *old(self)
                    &&& (forall|i: int|
                        0 <= i < old(self).single_value_writers@.len() ==> (
                        #[trigger] old(self).single_value_writers@[i]).field != field)
                },
            },
    {
        let n = self.single_value_writers.len();
        let mut i: usize = 0;
        while i < n
            invariant
                n == self.single_value_writers@.len(),
                0 <= i <= n,
                *self == *old(self),
                forall|j: int|
                    0 <= j < i ==> (#[trigger] self.single_value_writers@[j]).field != field,
            decreases n - i,
        {
            if self.single_value_writers[i].field() == field {
                return Some(&mut self.single_value_writers[i]);
            }
            i = i + 1;
        }
        None
    }

    /// Get the term-ordinal writer associated to a field, for mutation:
    /// the first held one targeting it. Only that writer may change
    /// through the returned borrow.
    pub fn get_term_id_writer_mut(&mut self, field: Field) -> (r: Option<
        &mut MultiValuedFastFieldWriter,
    >)
        ensures
            match r {
                Some(w) => exists|i: int|
                    {
                        &&& 0 <= i < old(self).term_id_writers@.len()
                        &&& #[trigger] old(self).term_id_writers@[i] == *w
                        &&& w.field == field
                        &&& (forall|j: int|
                            0 <= j < i ==> old(self).term_id_writers@[j].field != field)
                        &&& final(self).term_id_writers@ == old(self).term_id_writers@.update(
                            i,
                            *final(w),
                        )
                        &&& all_but_term_id_unchanged(*old(self), *final(self))
                    },
                None => {
                    &&& *final(self) == *old(self)
                    &&& (forall|i: int|
                        0 <= i < old(self).term_id_writers@.len() ==> (
                        #[trigger] old(self).term_id_writers@[i]).field != field)
                },
            },
    {
        let n = self.term_id_writers.len();
        let mut i: usize = 0;
        while i < n
            invariant
                n == self.term_id_writers@.len(),
                0 <= i <= n,
                *self == *old(self),
                forall|j: int|
                    0 <= j < i ==> (#[trigger] self.term_id_writers@[j]).field != field,
            decreases n - i,
        {
            if self.term_id_writers[i].field() == field {
                return Some(&mut self.term_id_writers[i]);
            }
            i = i + 1;
        }
        None
    }

    /// Returns the fast field multi-value writer for the given field, for
    /// mutation, or `None` if the field is not tracked as a multi-valued
    /// fast field. Only that writer may change through the returned
    /// borrow.
    pub fn get_multivalue_writer_mut(&mut self, field: Field) -> (r: Option<
        &mut MultiValuedFastFieldWriter,
    >)
        ensures
            match r {
                Some(w) => exists|i: int|
                    {
                        &&& 0 <= i < old(self).multi_values_writers@.len()
                        &&& #[trigger] old(self).multi_values_writers@[i] == *w
                        &&& w.field == field
                        &&& (forall|j: int|
                            0 <= j < i ==> old(self).multi_values_writers@[j].field != field)
                        &&& final(self).multi_values_writers@
                            == old(self).multi_values_writers@.update(i, *final(w))
                        &&& all_but_multi_value_unchanged(*old(self), *final(self))
                    },
                None => {
                    &&& *final(self) == *old(self)
                    &&& (forall|i: int|
                        0 <= i < old(self).multi_values_writers@.len() ==> (
                        #[trigger] old(self).multi_values_writers@[i]).field != field)
                },
            },
    {
        let n = self.multi_values_writers.len();
        let mut i: usize = 0;
        while i < n
            invariant
                n == self.multi_values_writers@.len(),
                0 <= i <= n,
                *self == *old(self),
                forall|j: int|
                    0 <= j < i ==> (#[trigger] self.multi_values_writers@[j]).field != field,
            decreases n - i,
        {
            if self.multi_values_writers[i].field() == field {
                return Some(&mut self.multi_values_writers[i]);
            }
            i = i + 1;
        }
        None
    }

    /// Returns the bytes fast field writer for the given field, for
    /// mutation, or `None` if the field is not tracked as a bytes fast
    /// field. Only that writer may change through the returned borrow.
    pub fn get_bytes_writer_mut(&mut self, field: Field) -> (r: Option<
        &mut BytesFastFieldWriter,
    >)
        ensures
            match r {
                Some(w) => exists|i: int|
                    {
                        &&& 0 <= i < old(self).bytes_value_writers@.len()
                        &&& #[trigger] old(self).bytes_value_writers@[i] == *w
                        &&& w.field == field
                        &&& (forall|j: int|
                            0 <= j < i ==> old(self).bytes_value_writers@[j].field != field)
                        &&& final(self).bytes_value_writers@
                            == old(self).bytes_value_writers@.update(i, *final(w))
                        &&& all_but_bytes_unchanged(*old(self), *final(self))
                    },
                None => {
                    &&& *final(self) == *old(self)
                    &&& (forall|i: int|
                        0 <= i < old(self).bytes_value_writers@.len() ==> (
                        #[trigger] old(self).bytes_value_writers@[i]).field != field)
                },
            },
    {
        let n = self.bytes_value_writers.len();
        let mut i: usize = 0;
        while i < n
            invariant
                n == self.bytes_value_writers@.len(),
                0 <= i <= n,
                *self == *old(self),
                forall|j: int|
                    0 <= j < i ==> (#[trigger] self.bytes_value_writers@[j]).field != field,
            decreases n - i,
        {
            if self.bytes_value_writers[i].field() == field {
                return Some(&mut self.bytes_value_writers[i]);
            }
            i = i + 1;
        }
        None
    }

    /// Serializes all of the fast field writers, in the fixed grouping
    /// order: term-ordinal writers first, then single-value writers, then
    /// multi-value writers, then bytes writers. Each term-ordinal and
    /// multi-value writer is handed the ordinal remapping computed for its
    /// field, if any; every writer is handed the document id mapping.
    /// Consumes the group: sealing happens exactly once.
    pub fn serialize(
        self,
        mapping: &HashMap<u32, fnv::FnvHashMap<UnorderedTermId, TermOrdinal>>,
        doc_id_map: Option<&DocIdMapping>,
    ) -> (r: Vec<ColumnRequest>)
        requires
            self.wf(),
            forall|i: int|
                0 <= i < self.single_value_writers@.len() ==> match doc_id_map {
                    Some(m) => m.is_valid(
                        (#[trigger] self.single_value_writers@[i]).val_count as int,
                    ) && self.single_value_writers@[i].val_count <= u32::MAX,
                    None => true,
                },
        ensures
            r@.len() == self.term_id_writers@.len() + self.single_value_writers@.len()
                + self.multi_values_writers@.len() + self.bytes_value_writers@.len(),
            forall|i: int|
                0 <= i < self.term_id_writers@.len() ==> #[trigger] r@[i] == multi_value_request(
                    self.term_id_writers@[i],
                    mapping@.contains_key(self.term_id_writers@[i].field.0),
                ),
            forall|i: int|
                0 <= i < self.single_value_writers@.len() ==> is_single_request(
                    #[trigger] r@[self.term_id_writers@.len() + i],
                    self.single_value_writers@[i],
                    opt_deref(doc_id_map),
                ),
            forall|i: int|
                0 <= i < self.multi_values_writers@.len() ==> #[trigger] r@[self.term_id_writers@.len()
                    + self.single_value_writers@.len() + i] == multi_value_request(
                    self.multi_values_writers@[i],
                    mapping@.contains_key(self.multi_values_writers@[i].field.0),
                ),
            forall|i: int|
                0 <= i < self.bytes_value_writers@.len() ==> #[trigger] r@[self.term_id_writers@.len()
                    + self.single_value_writers@.len() + self.multi_values_writers@.len() + i]
                    == (ColumnRequest::Bytes {
                    field: self.bytes_value_writers@[i].field,
                    doc_count: self.bytes_value_writers@[i].doc_count,
                }),
    {
        let mut out: Vec<ColumnRequest> = Vec::new();
        let tn = self.term_id_writers.len();
        for i in 0..tn
            invariant
                tn == self.term_id_writers@.len(),
                out@.len() == i,
                forall|j: int|
                    0 <= j < i ==> #[trigger] out@[j] == multi_value_request(
                        self.term_id_writers@[j],
                        mapping@.contains_key(self.term_id_writers@[j].field.0),
                    ),
        {
            let field_writer = &self.term_id_writers[i];
            let field = field_writer.field();
            out.push(field_writer.serialize(mapping.get(&field.0), doc_id_map));
        }
        let sn = self.single_value_writers.len();
        for i in 0..sn
            invariant
                tn == self.term_id_writers@.len(),
                sn == self.single_value_writers@.len(),
                self.wf(),
                forall|j: int|
                    0 <= j < sn ==> match doc_id_map {
                        Some(m) => m.is_valid(
                            (#[trigger] self.single_value_writers@[j]).val_count as int,
                        ) && self.single_value_writers@[j].val_count <= u32::MAX,
                        None => true,
                    },
                out@.len() == tn + i,
                forall|j: int|
                    0 <= j < tn ==> #[trigger] out@[j] == multi_value_request(
                        self.term_id_writers@[j],
                        mapping@.contains_key(self.term_id_writers@[j].field.0),
                    ),
                forall|j: int|
                    0 <= j < i ==> is_single_request(
                        #[trigger] out@[tn + j],
                        self.single_value_writers@[j],
                        opt_deref(doc_id_map),
                    ),
        {
            let field_writer = &self.single_value_writers[i];
            out.push(ColumnRequest::SingleValue(field_writer.serialize(doc_id_map)));
        }
        let mn = self.multi_values_writers.len();
        for i in 0..mn
            invariant
                tn == self.term_id_writers@.len(),
                sn == self.single_value_writers@.len(),
                mn == self.multi_values_writers@.len(),
                out@.len() == tn + sn + i,
                forall|j: int|
                    0 <= j < tn ==> #[trigger] out@[j] == multi_value_request(
                        self.term_id_writers@[j],
                        mapping@.contains_key(self.term_id_writers@[j].field.0),
                    ),
                forall|j: int|
                    0 <= j < sn ==> is_single_request(
                        #[trigger] out@[tn + j],
                        self.single_value_writers@[j],
                        opt_deref(doc_id_map),
                    ),
                forall|j: int|
                    0 <= j < i ==> #[trigger] out@[tn + sn + j] == multi_value_request(
                        self.multi_values_writers@[j],
                        mapping@.contains_key(self.multi_values_writers@[j].field.0),
                    ),
        {
            let field_writer = &self.multi_values_writers[i];
            let field = field_writer.field();
            out.push(field_writer.serialize(mapping.get(&field.0), doc_id_map));
        }
        let bn = self.bytes_value_writers.len();
        for i in 0..bn
            invariant
                tn == self.term_id_writers@.len(),
                sn == self.single_value_writers@.len(),
                mn == self.multi_values_writers@.len(),
                bn == self.bytes_value_writers@.len(),
                out@.len() == tn + sn + mn + i,
                forall|j: int|
                    0 <= j < tn ==> #[trigger] out@[j] == multi_value_request(
                        self.term_id_writers@[j],
                        mapping@.contains_key(self.term_id_writers@[j].field.0),
                    ),
                forall|j: int|
                    0 <= j < sn ==> is_single_request(
                        #[trigger] out@[tn + j],
                        self.single_value_writers@[j],
                        opt_deref(doc_id_map),
                    ),
                forall|j: int|
                    0 <= j < mn ==> #[trigger] out@[tn + sn + j] == multi_value_request(
                        self.multi_values_writers@[j],
                        mapping@.contains_key(self.multi_values_writers@[j].field.0),
                    ),
                forall|j: int|
                    0 <= j < i ==> #[trigger] out@[tn + sn + mn + j] == (ColumnRequest::Bytes {
                        field: self.bytes_value_writers@[j].field,
                        doc_count: self.bytes_value_writers@[j].doc_count,
                    }),
        {
            let field_writer = &self.bytes_value_writers[i];
            out.push(field_writer.serialize(doc_id_map));
        }
        out
    }
}

/// The document id mapping behind an optional reference, as an optional
/// value.
pub open spec fn opt_deref(m: Option<&DocIdMapping>) -> Option<DocIdMapping> {
    match m {
        Some(x) => Some(*x),
        None => None,
    }
}

/// What a sealed single-value column request must hold: the writer's
/// field, its normalized statistics snapshot, and its values in new
/// document order.
pub open spec fn is_single_request(
    req: ColumnRequest,
    w: IntFastFieldWriter,
    m: Option<DocIdMapping>,
) -> bool {
    match req {
        ColumnRequest::SingleValue(col) => {
            &&& col.field == w.field
            &&& col.stats == w.stats_spec()
            &&& col.vals@ == w.reordered_values(m)
        },
        _ => false,
    }
}

/// The three writer collections other than the single-value one are
/// untouched.
pub open spec fn all_but_single_unchanged(pre: FastFieldsWriter, post: FastFieldsWriter) -> bool {
    &&& post.term_id_writers == pre.term_id_writers
    &&& post.multi_values_writers == pre.multi_values_writers
    &&& post.bytes_value_writers == pre.bytes_value_writers
}

/// The three writer collections other than the term-ordinal one are
/// untouched.
pub open spec fn all_but_term_id_unchanged(pre: FastFieldsWriter, post: FastFieldsWriter) -> bool {
    &&& post.single_value_writers == pre.single_value_writers
    &&& post.multi_values_writers == pre.multi_values_writers
    &&& post.bytes_value_writers == pre.bytes_value_writers
}

/// The three writer collections other than the multi-value one are
/// untouched.
pub open spec fn all_but_multi_value_unchanged(
    pre: FastFieldsWriter,
    post: FastFieldsWriter,
) -> bool {
    &&& post.single_value_writers == pre.single_value_writers
    &&& post.term_id_writers == pre.term_id_writers
    &&& post.bytes_value_writers == pre.bytes_value_writers
}

/// The three writer collections other than the bytes one are untouched.
pub open spec fn all_but_bytes_unchanged(pre: FastFieldsWriter, post: FastFieldsWriter) -> bool {
    &&& post.single_value_writers == pre.single_value_writers
    &&& post.term_id_writers == pre.term_id_writers
    &&& post.multi_values_writers == pre.multi_values_writers
}

/// Saturating addition: the exact sum where it fits, the top of the range
/// where it does not.
fn saturating_add_usize(a: usize, b: usize) -> (r: usize)
    ensures
        r == if a + b <= usize::MAX {
            a + b
        } else {
            usize::MAX as int
        },
{
    if a <= usize::MAX - b {
        a + b
    } else {
        usize::MAX
    }
}

/// A model writer's state after one more document.
pub open spec fn bump_doc_count(w: MultiValuedFastFieldWriter) -> MultiValuedFastFieldWriter {
    MultiValuedFastFieldWriter { doc_count: (w.doc_count + 1) as usize, ..w }
}

/// A bytes model writer's state after one more document.
pub open spec fn bump_bytes_doc_count(w: BytesFastFieldWriter) -> BytesFastFieldWriter {
    BytesFastFieldWriter { doc_count: (w.doc_count + 1) as usize, ..w }
}

/// Fans one document out to every multi-valued writer in the list.
fn add_document_to_multi_writers(writers: &mut Vec<MultiValuedFastFieldWriter>, doc: &Document)
    requires
        forall|i: int|
            0 <= i < old(writers)@.len() ==> (#[trigger] old(writers)@[i]).doc_count < usize::MAX,
    ensures
        final(writers)@.len() == old(writers)@.len(),
        forall|i: int|
            0 <= i < old(writers)@.len() ==> #[trigger] final(writers)@[i] == bump_doc_count(
                old(writers)@[i],
            ),
{
    let n = writers.len();
    for i in 0..n
        invariant
            n == writers@.len(),
            writers@.len() == old(writers)@.len(),
            forall|j: int|
                0 <= j < old(writers)@.len() ==> (#[trigger] old(writers)@[j]).doc_count
                    < usize::MAX,
            forall|j: int|
                0 <= j < i ==> #[trigger] writers@[j] == bump_doc_count(old(writers)@[j]),
            forall|j: int| i <= j < n ==> #[trigger] writers@[j] == old(writers)@[j],
    {
        writers[i].add_document(doc);
    }
}

/// Fans one document out to every single-value writer in the list.
fn add_document_to_single_writers(writers: &mut Vec<IntFastFieldWriter>, doc: &Document)
    requires
        forall|i: int|
            0 <= i < old(writers)@.len() ==> (#[trigger] old(writers)@[i]).wf() && old(
                writers,
            )@[i].val_count < usize::MAX && old(writers)@[i].can_add_document(*doc),
    ensures
        final(writers)@.len() == old(writers)@.len(),
        forall|i: int|
            0 <= i < old(writers)@.len() ==> crate::single_value::records_document(
                old(writers)@[i],
                #[trigger] final(writers)@[i],
                *doc,
            ),
{
    let n = writers.len();
    for i in 0..n
        invariant
            n == writers@.len(),
            writers@.len() == old(writers)@.len(),
            forall|j: int|
                0 <= j < old(writers)@.len() ==> (#[trigger] old(writers)@[j]).wf() && old(
                    writers,
                )@[j].val_count < usize::MAX && old(writers)@[j].can_add_document(*doc),
            forall|j: int|
                0 <= j < i ==> crate::single_value::records_document(
                    old(writers)@[j],
                    #[trigger] writers@[j],
                    *doc,
                ),
            forall|j: int| i <= j < n ==> #[trigger] writers@[j] == old(writers)@[j],
    {
        writers[i].add_document(doc);
    }
}

/// Fans one document out to every bytes writer in the list.
fn add_document_to_bytes_writers(writers: &mut Vec<BytesFastFieldWriter>, doc: &Document)
    requires
        forall|i: int|
            0 <= i < old(writers)@.len() ==> (#[trigger] old(writers)@[i]).doc_count < usize::MAX,
    ensures
        final(writers)@.len() == old(writers)@.len(),
        forall|i: int|
            0 <= i < old(writers)@.len() ==> #[trigger] final(writers)@[i] == bump_bytes_doc_count(
                old(writers)@[i],
            ),
{
    let n = writers.len();
    for i in 0..n
        invariant
            n == writers@.len(),
            writers@.len() == old(writers)@.len(),
            forall|j: int|
                0 <= j < old(writers)@.len() ==> (#[trigger] old(writers)@[j]).doc_count
                    < usize::MAX,
            forall|j: int|
                0 <= j < i ==> #[trigger] writers@[j] == bump_bytes_doc_count(old(writers)@[j]),
            forall|j: int| i <= j < n ==> #[trigger] writers@[j] == old(writers)@[j],
    {
        writers[i].add_document(doc);
    }
}

} // verus!
