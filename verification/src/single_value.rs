//! The single-value accumulator: buffers one encoded value per document for
//! a single-valued field, tracks running statistics, and at serialization
//! time exposes the buffer through a column accessor that applies an
//! optional document id mapping.

use crate::bitpacker::{
    bitpacker_add, bitpacker_contents, bitpacker_get, bitpacker_mem_usage, bitpacker_new,
    bitpacker_to_vec,
};
use crate::doc_id_mapping::DocIdMapping;
use crate::encode::{encode_f64_bits, encode_i64, f64_bits_to_u64_spec, i64_to_u64_spec};
use crate::schema::{
    first_value_for, precision_micros, truncate_micros_spec, DatePrecision, DateTime, Document,
    Field, Value,
};
use tantivy_bitpacker::BlockedBitpacker;
use vstd::prelude::*;

verus! {

/// What a value contributes to the encoded domain: unsigned values stand
/// for themselves, signed and timestamp values go through the sign-flip
/// encoding, double-precision bit patterns through the sign-magnitude
/// folding, and booleans become zero or one.
pub open spec fn value_to_u64_spec(value: Value) -> u64 {
    match value {
        Value::U64(x) => x,
        Value::I64(x) => i64_to_u64_spec(x),
        Value::F64Bits(bits) => f64_bits_to_u64_spec(bits),
        Value::Bool(b) => if b {
            1u64
        } else {
            0u64
        },
        Value::Date(d) => i64_to_u64_spec(d.timestamp_micros),
        Value::Str(_) => arbitrary(),
        Value::Bytes(_) => arbitrary(),
    }
}

/// Encodes an unsigned-encodable value into the `u64` domain.
pub(crate) fn value_to_u64(value: &Value) -> (r: u64)
    requires
        value.is_encodable(),
    ensures
        r == value_to_u64_spec(*value),
{
    match value {
        Value::U64(x) => *x,
        Value::I64(x) => encode_i64(*x),
        Value::F64Bits(bits) => encode_f64_bits(*bits),
        Value::Bool(b) => if *b {
            1u64
        } else {
            0u64
        },
        Value::Date(d) => d.to_u64(),
        Value::Str(_) => {
            proof {
                assert(false);
            }
            0u64
        },
        Value::Bytes(_) => {
            proof {
                assert(false);
            }
            0u64
        },
    }
}

/// The statistics snapshot handed to the external serializer: minimum,
/// maximum and count over the encoded values, with the empty state
/// normalized to all zeroes.
#[derive(Clone, Copy, Debug, PartialEq, Eq, Structural)]
pub struct FastFieldStats {
    pub min_value: u64,
    pub max_value: u64,
    pub num_vals: u64,
}

/// Fast field writer for values encoded into the `u64` domain. It keeps
/// the values in an append-only compressed buffer until the segment is
/// sealed; only then is the number of bits needed for the column known.
pub struct IntFastFieldWriter {
    pub field: Field,
    pub precision_opt: Option<DatePrecision>,
    pub vals: BlockedBitpacker,
    pub val_count: usize,
    pub val_if_missing: u64,
    pub val_min: u64,
    pub val_max: u64,
}

impl IntFastFieldWriter {
    /// The values recorded so far, in document order.
    pub open spec fn values(self) -> Seq<u64> {
        bitpacker_contents(self.vals)
    }

    /// Internal consistency: the count matches the buffer, and the running
    /// minimum and maximum bound the recorded values, sitting at their
    /// inverted sentinel while no value was recorded.
    pub open spec fn wf(self) -> bool {
        &&& self.values().len() == self.val_count
        &&& (forall|i: int|
            0 <= i < self.values().len() ==> self.val_min <= #[trigger] self.values()[i]
                <= self.val_max)
        &&& (self.val_count == 0 ==> self.val_min == u64::MAX && self.val_max == 0)
        &&& (self.val_count > 0 ==> self.values().contains(self.val_min)
            && self.values().contains(self.val_max))
    }

    /// Creates a writer for one single-valued field, with an optional
    /// timestamp truncation precision.
    pub fn new(field: Field, precision_opt: Option<DatePrecision>) -> (r: IntFastFieldWriter)
        ensures
            r.field == field,
            r.precision_opt == precision_opt,
            r.values() == Seq::<u64>::empty(),
            r.val_count == 0,
            r.val_if_missing == 0,
            r.wf(),
    {
        IntFastFieldWriter {
            field,
            precision_opt,
            vals: bitpacker_new(),
            val_count: 0,
            val_if_missing: 0u64,
            val_min: u64::MAX,
            val_max: 0,
        }
    }

    /// The memory used, including the compressed buffer's allocations. The
    /// allocator chooses the capacities behind this figure, so nothing
    /// more precise than its existence is stated.
    pub fn mem_usage(&self) -> usize {
        bitpacker_mem_usage(&self.vals)
    }

    /// Returns the field that this writer is targeting.
    pub fn field(&self) -> (r: Field)
        ensures
            r == self.field,
    {
        self.field
    }

    /// Sets the value recorded for documents that carry no value for the
    /// field.
    pub(crate) fn set_val_if_missing(&mut self, val_if_missing: u64)
        ensures
            *final(self) == (IntFastFieldWriter { val_if_missing, ..*old(self) }),
    {
        self.val_if_missing = val_if_missing;
    }

    /// Records a new value: appends it to the buffer, widens the running
    /// minimum and maximum to cover it, and counts it. The n-th recorded
    /// value belongs to the document with id n - 1.
    pub fn add_val(&mut self, val: u64)
        requires
            old(self).wf(),
            old(self).val_count < usize::MAX,
        ensures
            final(self).wf(),
            final(self).values() == old(self).values().push(val),
            final(self).val_count == old(self).val_count + 1,
            final(self).field == old(self).field,
            final(self).precision_opt == old(self).precision_opt,
            final(self).val_if_missing == old(self).val_if_missing,
            final(self).val_min == if val < old(self).val_min {
                val
            } else {
                old(self).val_min
            },
            final(self).val_max == if val > old(self).val_max {
                val
            } else {
                old(self).val_max
            },
    {
        proof {
            let ov = old(self).values();
            assert(ov.push(val)[ov.len() as int] == val);
            if old(self).val_count > 0 {
                assert(ov.contains(old(self).val_min));
                let i = choose|i: int| 0 <= i < ov.len() && ov[i] == old(self).val_min;
                assert(ov.push(val)[i] == old(self).val_min);
                let j = choose|j: int| 0 <= j < ov.len() && ov[j] == old(self).val_max;
                assert(ov.push(val)[j] == old(self).val_max);
            }
        }
        bitpacker_add(&mut self.vals, val);
        if val > self.val_max {
            self.val_max = val;
        }
        if val < self.val_min {
            self.val_min = val;
        }
        self.val_count += 1;
    }

    /// Whether a document can be recorded: its first value for the field,
    /// if any, must belong to the encodable domain.
    pub open spec fn can_add_document(self, doc: Document) -> bool {
        match first_value_for(doc.field_values@, self.field) {
            None => true,
            Some(v) => v.is_encodable(),
        }
    }

    /// The value that recording a document appends: the default where the
    /// field is absent; a timestamp truncated to the configured precision
    /// and then encoded; or the value's plain encoding. Where a document
    /// carries several values for the field, only the first counts.
    pub open spec fn extracted_value(self, doc: Document) -> u64 {
        match first_value_for(doc.field_values@, self.field) {
            None => self.val_if_missing,
            Some(v) => match (self.precision_opt, v) {
                (Some(p), Value::Date(d)) => i64_to_u64_spec(
                    truncate_micros_spec(d.timestamp_micros, p) as i64,
                ),
                _ => value_to_u64_spec(v),
            },
        }
    }

    /// Extracts the fast field value from the document (or falls back to
    /// the configured default) and records it.
    pub fn add_document(&mut self, doc: &Document)
        requires
            old(self).wf(),
            old(self).val_count < usize::MAX,
            old(self).can_add_document(*doc),
        ensures
            final(self).wf(),
            final(self).values() == old(self).values().push(old(self).extracted_value(*doc)),
            final(self).val_count == old(self).val_count + 1,
            final(self).field == old(self).field,
            final(self).precision_opt == old(self).precision_opt,
            final(self).val_if_missing == old(self).val_if_missing,
    {
        let field = self.field;
        match doc.get_first(field) {
            Some(v) => {
                let value: u64 = match (self.precision_opt, v) {
                    (Some(precision), Value::Date(date_val)) => {
                        proof {
                            DateTime::lemma_truncate_in_range(date_val.timestamp_micros, precision);
                        }
                        date_val.truncate(precision).to_u64()
                    },
                    _ => value_to_u64(v),
                };
                self.add_val(value);
            },
            None => {
                let missing = self.val_if_missing;
                self.add_val(missing);
            },
        }
    }

    /// The recorded values in document order, read back out of the
    /// compressed buffer.
    pub fn iter(&self) -> (r: Vec<u64>)
        ensures
            r@ == self.values(),
    {
        bitpacker_to_vec(&self.vals)
    }

    /// The statistics snapshot: the running minimum, maximum and count,
    /// with the never-written sentinel state normalized to `(0, 0, 0)`.
    pub open spec fn stats_spec(self) -> FastFieldStats {
        if self.val_count == 0 {
            FastFieldStats { min_value: 0, max_value: 0, num_vals: 0 }
        } else {
            FastFieldStats {
                min_value: self.val_min,
                max_value: self.val_max,
                num_vals: self.val_count as u64,
            }
        }
    }

    /// Computes the statistics snapshot for serialization.
    pub fn stats(&self) -> (r: FastFieldStats)
        requires
            self.wf(),
        ensures
            r == self.stats_spec(),
    {
        proof {
            if self.val_count > 0 {
                assert(self.val_min <= self.values()[0] <= self.val_max);
            }
        }
        let (min, max) = if self.val_min > self.val_max {
            (0u64, 0u64)
        } else {
            (self.val_min, self.val_max)
        };
        FastFieldStats { min_value: min, max_value: max, num_vals: self.val_count as u64 }
    }

    /// The buffered values read in new document order: permuted by the
    /// mapping where one is given, in buffer order otherwise.
    pub open spec fn reordered_values(self, m: Option<DocIdMapping>) -> Seq<u64> {
        match m {
            Some(m) => Seq::new(
                m.new_doc_id_to_old@.len(),
                |i: int| self.values()[m.new_doc_id_to_old@[i] as int],
            ),
            None => self.values(),
        }
    }

    /// Seals this writer's buffer into a column: the statistics snapshot
    /// together with the values in new document order, ready to be handed
    /// to the external column serializer.
    pub fn serialize(&self, doc_id_map: Option<&DocIdMapping>) -> (r: SingleValueColumn)
        requires
            self.wf(),
            match doc_id_map {
                Some(m) => m.is_valid(self.val_count as int) && self.val_count <= u32::MAX,
                None => true,
            },
        ensures
            r.field == self.field,
            r.stats == self.stats_spec(),
            match doc_id_map {
                Some(m) => r.vals@ == self.reordered_values(Some(*m)),
                None => r.vals@ == self.values(),
            },
    {
        let stats = self.stats();
        let fastfield_accessor = WriterFastFieldAccessProvider {
            doc_id_map,
            vals: &self.vals,
            stats,
        };
        let vals = fastfield_accessor.iter();
        SingleValueColumn { field: self.field, stats, vals }
    }
}

/// A sealed single-value column: the field, its statistics snapshot, and
/// the encoded values in new document order.
#[derive(Clone, Debug)]
pub struct SingleValueColumn {
    pub field: Field,
    pub stats: FastFieldStats,
    pub vals: Vec<u64>,
}

/// The read-only column accessor built at serialization time: random
/// access and iteration over a writer's buffer, transparently applying the
/// document id mapping if one is present.
#[derive(Clone)]
pub struct WriterFastFieldAccessProvider<'map, 'bitp> {
    pub doc_id_map: Option<&'map DocIdMapping>,
    pub vals: &'bitp BlockedBitpacker,
    pub stats: FastFieldStats,
}

impl<'map, 'bitp> WriterFastFieldAccessProvider<'map, 'bitp> {
    /// The underlying buffer's values, in old document order.
    pub open spec fn buffer(self) -> Seq<u64> {
        bitpacker_contents(*self.vals)
    }

    /// The accessor is consistent: the count matches the buffer, fits the
    /// machine, and any mapping is a valid bijection over it.
    pub open spec fn wf(self) -> bool {
        &&& self.buffer().len() == self.stats.num_vals
        &&& self.stats.num_vals <= usize::MAX
        &&& match self.doc_id_map {
            Some(m) => m.is_valid(self.stats.num_vals as int) && self.stats.num_vals <= u32::MAX,
            None => true,
        }
    }

    /// What random access returns for a new document id: the buffer value
    /// at the mapped old id, or at the id itself without a mapping.
    pub open spec fn get_spec(self, doc: int) -> u64 {
        match self.doc_id_map {
            Some(m) => self.buffer()[m.new_doc_id_to_old@[doc] as int],
            None => self.buffer()[doc],
        }
    }

    /// What iteration yields: the buffer values read in the order the
    /// mapping lists old ids, or the buffer itself without a mapping.
    pub open spec fn iter_spec(self) -> Seq<u64> {
        match self.doc_id_map {
            Some(m) => Seq::new(
                m.new_doc_id_to_old@.len(),
                |i: int| self.buffer()[m.new_doc_id_to_old@[i] as int],
            ),
            None => self.buffer(),
        }
    }

    /// Returns the value associated with the given new document id.
    pub fn get_val(&self, doc: u64) -> (r: u64)
        requires
            self.wf(),
            doc < self.stats.num_vals,
        ensures
            r == self.get_spec(doc as int),
    {
        match self.doc_id_map {
            Some(doc_id_map) => {
                let old_id = doc_id_map.get_old_doc_id(doc as u32);
                bitpacker_get(self.vals, old_id as usize)
            },
            None => bitpacker_get(self.vals, doc as usize),
        }
    }

    /// Yields all values in new document order.
    pub fn iter(&self) -> (r: Vec<u64>)
        requires
            self.wf(),
        ensures
            r@ == self.iter_spec(),
    {
        match self.doc_id_map {
            Some(doc_id_map) => {
                let old_ids = doc_id_map.iter_old_doc_ids();
                let n = old_ids.len();
                let mut out: Vec<u64> = Vec::new();
                for i in 0..n
                    invariant
                        self.wf(),
                        self.doc_id_map == Some(doc_id_map),
                        old_ids@ == doc_id_map.new_doc_id_to_old@,
                        n == old_ids@.len(),
                        out@.len() == i,
                        forall|j: int|
                            0 <= j < i ==> out@[j] == self.buffer()[old_ids@[j] as int],
                {
                    let old_id = old_ids[i];
                    out.push(bitpacker_get(self.vals, old_id as usize));
                }
                proof {
                    assert(out@ =~= self.iter_spec());
                }
                out
            },
            None => bitpacker_to_vec(self.vals),
        }
    }

    /// Returns the precomputed minimum encoded value.
    pub fn min_value(&self) -> (r: u64)
        ensures
            r == self.stats.min_value,
    {
        self.stats.min_value
    }

    /// Returns the precomputed maximum encoded value.
    pub fn max_value(&self) -> (r: u64)
        ensures
            r == self.stats.max_value,
    {
        self.stats.max_value
    }

    /// Returns the precomputed value count.
    pub fn num_vals(&self) -> (r: u64)
        ensures
            r == self.stats.num_vals,
    {
        self.stats.num_vals
    }
}

/// How recording one document relates a writer's state after the call to
/// its state before: the extracted value is appended, the count advances
/// by exactly one, and the configuration is untouched.
pub open spec fn records_document(
    pre: IntFastFieldWriter,
    post: IntFastFieldWriter,
    doc: Document,
) -> bool {
    &&& post.values() == pre.values().push(pre.extracted_value(doc))
    &&& post.val_count == pre.val_count + 1
    &&& post.field == pre.field
    &&& post.precision_opt == pre.precision_opt
    &&& post.val_if_missing == pre.val_if_missing
    &&& post.wf()
}

/// Recording documents counts them exactly: along any chain of writer
/// states linked by recording one document each, the final count exceeds
/// the initial one by the number of documents recorded.
pub proof fn lemma_count_tracks_documents(states: Seq<IntFastFieldWriter>, docs: Seq<Document>)
    requires
        states.len() == docs.len() + 1,
        forall|i: int|
            0 <= i < docs.len() ==> records_document(states[i], #[trigger] states[i + 1], docs[i]),
    ensures
        states.last().val_count == states[0].val_count + docs.len(),
    decreases docs.len(),
{
    if docs.len() > 0 {
        assert forall|i: int| 0 <= i < docs.len() - 1 implies records_document(
            states.drop_last()[i],
            #[trigger] states.drop_last()[i + 1],
            docs.drop_last()[i],
        ) by {
            assert(records_document(states[i], states[i + 1], docs[i]));
        }
        lemma_count_tracks_documents(states.drop_last(), docs.drop_last());
        assert(records_document(
            states[states.len() - 2],
            states[states.len() - 1],
            docs[docs.len() - 1],
        ));
    }
}

/// Iterating a column accessor and reading it by random access agree: the
/// iteration yields, position by position, exactly the values that random
/// access returns for every new document id in order.
pub proof fn lemma_column_iter_matches_get(c: WriterFastFieldAccessProvider)
    requires
        c.wf(),
    ensures
        c.iter_spec().len() == c.stats.num_vals,
        forall|i: int| 0 <= i < c.stats.num_vals ==> c.iter_spec()[i] == c.get_spec(i),
{
}

/// A writer configured with a timestamp precision records identical
/// encoded values for any two timestamps that fall within the same
/// truncation unit, however their finer components differ.
pub proof fn lemma_same_unit_timestamps_record_equal(
    w: IntFastFieldWriter,
    doc1: Document,
    doc2: Document,
    p: DatePrecision,
    d1: DateTime,
    d2: DateTime,
)
    requires
        w.precision_opt == Some(p),
        first_value_for(doc1.field_values@, w.field) == Some(Value::Date(d1)),
        first_value_for(doc2.field_values@, w.field) == Some(Value::Date(d2)),
        crate::schema::trunc_div_micros(d1.timestamp_micros, precision_micros(p) as int)
            == crate::schema::trunc_div_micros(d2.timestamp_micros, precision_micros(p) as int),
    ensures
        w.extracted_value(doc1) == w.extracted_value(doc2),
{
    assert(truncate_micros_spec(d1.timestamp_micros, p) == truncate_micros_spec(
        d2.timestamp_micros,
        p,
    ));
}

} // verus!
