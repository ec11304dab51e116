use fastfield_writer::{DateTime, Document, Field, IntFastFieldWriter, Value};

const HIGHEST_BIT: u64 = 1 << 63;

fn record_one(value: Value) -> u64 {
    let field = Field(0);
    let mut writer = IntFastFieldWriter::new(field, None);
    let mut doc = Document::new();
    doc.add_value(field, value);
    writer.add_document(&doc);
    writer.serialize(None).vals[0]
}

#[test]
fn i64_encoding_matches_outside_encoder() {
    for v in [i64::MIN, -1_000_000, -1, 0, 1, 42, 1_000_000, i64::MAX] {
        assert_eq!(record_one(Value::I64(v)), tantivy_common::i64_to_u64(v));
        assert_eq!(record_one(Value::I64(v)), (v as u64) ^ HIGHEST_BIT);
    }
}

#[test]
fn i64_encoding_is_monotonic_on_samples() {
    let samples = [i64::MIN, -1_000_000_000, -37, -1, 0, 1, 2, 999, i64::MAX - 1, i64::MAX];
    for pair in samples.windows(2) {
        assert!(pair[0] < pair[1]);
        assert!(record_one(Value::I64(pair[0])) < record_one(Value::I64(pair[1])));
        assert!(tantivy_common::i64_to_u64(pair[0]) < tantivy_common::i64_to_u64(pair[1]));
    }
}

#[test]
fn f64_encoding_matches_outside_encoder() {
    for v in [
        f64::NEG_INFINITY,
        f64::MIN,
        -1.0e9,
        -1.5,
        -f64::MIN_POSITIVE,
        -0.0,
        0.0,
        f64::MIN_POSITIVE,
        1.5,
        1.0e9,
        f64::MAX,
        f64::INFINITY,
    ] {
        assert_eq!(
            record_one(Value::F64Bits(v.to_bits())),
            tantivy_common::f64_to_u64(v)
        );
    }
}

#[test]
fn f64_encoding_is_monotonic_on_samples() {
    let samples = [
        f64::NEG_INFINITY,
        f64::MIN,
        -1.0e9,
        -2.5,
        -1.0,
        -f64::MIN_POSITIVE,
        0.0,
        f64::MIN_POSITIVE,
        1.0,
        2.5,
        1.0e9,
        f64::MAX,
        f64::INFINITY,
    ];
    for pair in samples.windows(2) {
        assert!(pair[0] < pair[1]);
        assert!(
            record_one(Value::F64Bits(pair[0].to_bits()))
                < record_one(Value::F64Bits(pair[1].to_bits()))
        );
        assert!(tantivy_common::f64_to_u64(pair[0]) < tantivy_common::f64_to_u64(pair[1]));
    }
}

#[test]
fn plain_values_encode_directly() {
    assert_eq!(record_one(Value::U64(12345)), 12345);
    assert_eq!(record_one(Value::Bool(true)), 1);
    assert_eq!(record_one(Value::Bool(false)), 0);
}

#[test]
fn date_without_precision_encodes_micros() {
    let micros = 1_650_000_000_123_456i64;
    assert_eq!(
        record_one(Value::Date(DateTime::from_timestamp_micros(micros))),
        tantivy_common::i64_to_u64(micros)
    );
}
