use fastfield_writer::{
    Cardinality, DatePrecision, DateTime, Document, Field, FieldEntry, FieldType,
    IntFastFieldWriter, IntOptions, Schema, Value,
};

const HIGHEST_BIT: u64 = 1 << 63;

fn encode_i64(val: i64) -> u64 {
    (val as u64) ^ HIGHEST_BIT
}

#[test]
fn count_tracks_documents() {
    let field = Field(0);
    let mut writer = IntFastFieldWriter::new(field, None);
    for i in 0..57i64 {
        let mut doc = Document::new();
        doc.add_value(field, Value::I64(i));
        writer.add_document(&doc);
    }
    assert_eq!(writer.val_count, 57);
    assert_eq!(writer.stats().num_vals, 57);
}

#[test]
fn missing_value_records_encoded_zero_default() {
    let mut schema = Schema::new();
    let field = schema.add_field(FieldEntry {
        field_type: FieldType::I64(IntOptions {
            fastfield_cardinality: Some(Cardinality::SingleValue),
        }),
    });
    let mut group = fastfield_writer::FastFieldsWriter::from_schema(&schema);
    let empty_doc = Document::new();
    group.add_document(&empty_doc);
    let writer = group.get_field_writer(field).expect("writer for the field");
    let column = writer.serialize(None);
    assert_eq!(column.vals, vec![encode_i64(0)]);
    assert_eq!(column.vals, vec![HIGHEST_BIT]);
}

#[test]
fn three_values_stats_and_order() {
    let field = Field(0);
    let mut writer = IntFastFieldWriter::new(field, None);
    for v in [5i64, 3, 8] {
        let mut doc = Document::new();
        doc.add_value(field, Value::I64(v));
        writer.add_document(&doc);
    }
    let column = writer.serialize(None);
    assert_eq!(column.stats.num_vals, 3);
    assert_eq!(column.stats.min_value, encode_i64(3));
    assert_eq!(column.stats.max_value, encode_i64(8));
    assert_eq!(column.vals, vec![encode_i64(5), encode_i64(3), encode_i64(8)]);
    assert_eq!(writer.iter(), column.vals);
}

#[test]
fn empty_accumulator_normalizes_stats() {
    let writer = IntFastFieldWriter::new(Field(3), None);
    let stats = writer.stats();
    assert_eq!(stats.num_vals, 0);
    assert_eq!(stats.min_value, 0);
    assert_eq!(stats.max_value, 0);
    let column = writer.serialize(None);
    assert_eq!(column.stats, stats);
    assert!(column.vals.is_empty());
}

#[test]
fn subsecond_components_collapse_at_second_precision() {
    let field = Field(0);
    let mut writer = IntFastFieldWriter::new(field, Some(DatePrecision::Seconds));
    for micros in [5_000_123i64, 5_999_999] {
        let mut doc = Document::new();
        doc.add_value(field, Value::Date(DateTime::from_timestamp_micros(micros)));
        writer.add_document(&doc);
    }
    let column = writer.serialize(None);
    assert_eq!(column.vals[0], column.vals[1]);
    assert_eq!(column.vals[0], encode_i64(5_000_000));
}

#[test]
fn millisecond_precision_keeps_millis() {
    let field = Field(0);
    let mut writer = IntFastFieldWriter::new(field, Some(DatePrecision::Milliseconds));
    let mut doc = Document::new();
    doc.add_value(field, Value::Date(DateTime::from_timestamp_micros(5_123_456)));
    writer.add_document(&doc);
    let column = writer.serialize(None);
    assert_eq!(column.vals, vec![encode_i64(5_123_000)]);
}

#[test]
fn negative_timestamp_truncates_towards_zero() {
    let truncated = DateTime::from_timestamp_micros(-1_500_000).truncate(DatePrecision::Seconds);
    assert_eq!(truncated.timestamp_micros, -1_000_000);
    let positive = DateTime::from_timestamp_micros(1_500_000).truncate(DatePrecision::Seconds);
    assert_eq!(positive.timestamp_micros, 1_000_000);
}

#[test]
fn first_value_wins_on_multivalued_documents() {
    let field = Field(0);
    let mut writer = IntFastFieldWriter::new(field, None);
    let mut doc = Document::new();
    doc.add_value(field, Value::U64(41));
    doc.add_value(field, Value::U64(99));
    writer.add_document(&doc);
    let column = writer.serialize(None);
    assert_eq!(column.vals, vec![41]);
}

#[test]
fn values_survive_block_compression() {
    let field = Field(0);
    let mut writer = IntFastFieldWriter::new(field, None);
    for v in 0..300u64 {
        writer.add_val(v * 7 + 1);
    }
    let column = writer.serialize(None);
    assert_eq!(column.vals.len(), 300);
    for v in 0..300u64 {
        assert_eq!(column.vals[v as usize], v * 7 + 1);
    }
    assert_eq!(column.stats.min_value, 1);
    assert_eq!(column.stats.max_value, 299 * 7 + 1);
}
