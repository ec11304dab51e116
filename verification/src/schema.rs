//! Modeled view of the schema and document types that surround the fast
//! field writers: field identifiers, per-field type declarations with their
//! fast-field cardinality, and documents as flat lists of field values.

use crate::encode::i64_to_u64_spec;
use vstd::prelude::*;

verus! {

/// Identifier of a schema-declared field: its position in the schema.
#[derive(Clone, Copy, PartialEq, Eq, Structural, Debug, Hash)]
pub struct Field(pub u32);

impl Field {
    /// Numeric id of the field within its schema.
    pub fn field_id(self) -> (r: u32)
        ensures
            r == self.0,
    {
        self.0
    }
}

/// Declared multiplicity of a fast field's values per document.
#[derive(Clone, Copy, Debug)]
pub enum Cardinality {
    SingleValue,
    MultiValues,
}

/// Granularity to which timestamp values are truncated before encoding.
#[derive(Clone, Copy, Debug)]
pub enum DatePrecision {
    Seconds,
    Milliseconds,
    Microseconds,
}

/// Number of microseconds in one unit of the given precision.
pub open spec fn precision_micros(p: DatePrecision) -> u64 {
    match p {
        DatePrecision::Seconds => 1_000_000,
        DatePrecision::Milliseconds => 1_000,
        DatePrecision::Microseconds => 1,
    }
}

/// Truncated (towards zero) quotient of a timestamp by a unit size.
pub open spec fn trunc_div_micros(m: i64, k: int) -> int {
    if m >= 0 {
        (m as int) / k
    } else {
        -((-(m as int)) / k)
    }
}

/// A timestamp truncated to a whole number of units, towards zero.
pub open spec fn truncate_micros_spec(m: i64, p: DatePrecision) -> int {
    trunc_div_micros(m, precision_micros(p) as int) * (precision_micros(p) as int)
}

/// A calendar timestamp, counted in microseconds from the epoch.
#[derive(Clone, Copy, Debug)]
pub struct DateTime {
    pub timestamp_micros: i64,
}

/// Number of microseconds in one unit of the given precision.
pub fn precision_micros_of(p: DatePrecision) -> (k: u64)
    ensures
        k == precision_micros(p),
{
    match p {
        DatePrecision::Seconds => 1_000_000,
        DatePrecision::Milliseconds => 1_000,
        DatePrecision::Microseconds => 1,
    }
}

impl DateTime {
    /// Wraps a microsecond timestamp.
    pub fn from_timestamp_micros(timestamp_micros: i64) -> (r: DateTime)
        ensures
            r.timestamp_micros == timestamp_micros,
    {
        DateTime { timestamp_micros }
    }

    /// Drops every component finer than the given precision.
    pub fn truncate(self, precision: DatePrecision) -> (r: DateTime)
        ensures
            r.timestamp_micros == truncate_micros_spec(self.timestamp_micros, precision),
    {
        let k: u64 = precision_micros_of(precision);
        let m = self.timestamp_micros;
        if m >= 0 {
            let q: u64 = (m as u64) / k;
            proof {
                vstd::arithmetic::div_mod::lemma_fundamental_div_mod(m as int, k as int);
                vstd::arithmetic::div_mod::lemma_mod_bound(m as int, k as int);
            }
            let t: u64 = q * k;
            DateTime { timestamp_micros: t as i64 }
        } else {
            let neg: u64 = (-(m as i128)) as u64;
            let q: u64 = neg / k;
            proof {
                vstd::arithmetic::div_mod::lemma_fundamental_div_mod(neg as int, k as int);
                vstd::arithmetic::div_mod::lemma_mod_bound(neg as int, k as int);
            }
            let t: u64 = q * k;
            DateTime { timestamp_micros: (-(t as i128)) as i64 }
        }
    }

    /// The order-preserving unsigned encoding of this timestamp.
    pub fn to_u64(self) -> (r: u64)
        ensures
            r == i64_to_u64_spec(self.timestamp_micros),
    {
        crate::encode::encode_i64(self.timestamp_micros)
    }

    /// The truncated timestamp stays within the timestamp domain.
    pub proof fn lemma_truncate_in_range(m: i64, p: DatePrecision)
        ensures
            i64::MIN <= truncate_micros_spec(m, p) <= i64::MAX,
    {
        let k = precision_micros(p) as int;
        if m >= 0 {
            vstd::arithmetic::div_mod::lemma_fundamental_div_mod(m as int, k);
            vstd::arithmetic::div_mod::lemma_mod_bound(m as int, k);
        } else {
            vstd::arithmetic::div_mod::lemma_fundamental_div_mod(-m as int, k);
            vstd::arithmetic::div_mod::lemma_mod_bound(-m as int, k);
        }
    }
}

/// A single typed value carried by a document. Double-precision values are
/// carried as their IEEE-754 bit patterns.
#[derive(Clone, Debug)]
pub enum Value {
    U64(u64),
    I64(i64),
    F64Bits(u64),
    Bool(bool),
    Date(DateTime),
    Str(String),
    Bytes(Vec<u8>),
}

impl Value {
    /// Whether the value belongs to the unsigned-encodable domain of
    /// single-value fast fields.
    pub open spec fn is_encodable(self) -> bool {
        match self {
            Value::U64(_) => true,
            Value::I64(_) => true,
            Value::F64Bits(_) => true,
            Value::Bool(_) => true,
            Value::Date(_) => true,
            Value::Str(_) => false,
            Value::Bytes(_) => false,
        }
    }
}

/// Fast-field options of the four plain numeric types.
#[derive(Clone, Copy, Debug)]
pub struct IntOptions {
    pub fastfield_cardinality: Option<Cardinality>,
}

/// Fast-field options of the timestamp type.
#[derive(Clone, Copy, Debug)]
pub struct DateOptions {
    pub fastfield_cardinality: Option<Cardinality>,
    pub precision: DatePrecision,
}

/// Options of the text type.
#[derive(Clone, Copy, Debug)]
pub struct TextOptions {
    pub fast: bool,
}

/// Options of the raw bytes type.
#[derive(Clone, Copy, Debug)]
pub struct BytesOptions {
    pub fast: bool,
}

/// Declared type of a schema field, with the options the fast field
/// writers read.
#[derive(Clone, Copy, Debug)]
pub enum FieldType {
    U64(IntOptions),
    I64(IntOptions),
    F64(IntOptions),
    Bool(IntOptions),
    Date(DateOptions),
    Facet,
    Str(TextOptions),
    Bytes(BytesOptions),
    JsonObject,
}

/// A schema entry: the declared type of one field.
#[derive(Clone, Copy, Debug)]
pub struct FieldEntry {
    pub field_type: FieldType,
}

/// The schema: one entry per field, in field-id order.
#[derive(Clone, Debug)]
pub struct Schema {
    pub entries: Vec<FieldEntry>,
}

impl Schema {
    /// An empty schema.
    pub fn new() -> (r: Schema)
        ensures
            r.entries@ == Seq::<FieldEntry>::empty(),
    {
        Schema { entries: Vec::new() }
    }

    /// Declares one more field and returns its identifier.
    pub fn add_field(&mut self, entry: FieldEntry) -> (r: Field)
        requires
            old(self).entries@.len() < u32::MAX,
        ensures
            final(self).entries@ == old(self).entries@.push(entry),
            r.0 == old(self).entries@.len(),
    {
        let id = self.entries.len() as u32;
        self.entries.push(entry);
        Field(id)
    }
}

/// One field/value pair on a document.
#[derive(Clone, Debug)]
pub struct FieldValue {
    pub field: Field,
    pub value: Value,
}

/// The first value a document carries for a field, or `None`.
pub open spec fn first_value_for(s: Seq<FieldValue>, field: Field) -> Option<Value>
    decreases s.len(),
{
    if s.len() == 0 {
        None
    } else if s[0].field == field {
        Some(s[0].value)
    } else {
        first_value_for(s.drop_first(), field)
    }
}

/// A document: the flat list of field values it carries, in the order they
/// were added.
#[derive(Clone, Debug)]
pub struct Document {
    pub field_values: Vec<FieldValue>,
}

impl Document {
    /// An empty document.
    pub fn new() -> (r: Document)
        ensures
            r.field_values@ == Seq::<FieldValue>::empty(),
    {
        Document { field_values: Vec::new() }
    }

    /// Appends one value for a field.
    pub fn add_value(&mut self, field: Field, value: Value)
        ensures
            final(self).field_values@ == old(self).field_values@.push(
                FieldValue { field, value },
            ),
    {
        self.field_values.push(FieldValue { field, value });
    }

    /// The first value this document carries for `field`, or `None` if the
    /// field is absent.
    pub fn get_first(&self, field: Field) -> (r: Option<&Value>)
        ensures
            match r {
                Some(v) => first_value_for(self.field_values@, field) == Some(*v),
                None => first_value_for(self.field_values@, field) is None,
            },
    {
        let ghost s = self.field_values@;
        proof {
            assert(s.skip(0) =~= s);
        }
        let n = self.field_values.len();
        let mut i: usize = 0;
        while i < n
            invariant
                n == s.len(),
                0 <= i <= n,
                s == self.field_values@,
                first_value_for(s.skip(i as int), field) == first_value_for(s, field),
            decreases n - i,
        {
            if self.field_values[i].field == field {
                proof {
                    assert(s.skip(i as int)[0] == s[i as int]);
                }
                return Some(&self.field_values[i].value);
            }
            proof {
                assert(s.skip(i as int).drop_first() =~= s.skip(i as int + 1));
                assert(s.skip(i as int)[0] == s[i as int]);
            }
            i = i + 1;
        }
        proof {
            assert(s.skip(n as int) =~= Seq::<FieldValue>::empty());
        }
        None
    }
}

} // verus!
