use std::collections::HashMap;

use fastfield_writer::{
    BytesOptions, Cardinality, ColumnRequest, DateOptions, DatePrecision, Document, FastFieldType,
    FastFieldsWriter, Field, FieldEntry, FieldType, IntOptions, Schema, TextOptions, Value,
};

fn sample_schema() -> (Schema, Field, Field, Field, Field, Field) {
    let mut schema = Schema::new();
    let facet = schema.add_field(FieldEntry { field_type: FieldType::Facet });
    let score = schema.add_field(FieldEntry {
        field_type: FieldType::I64(IntOptions {
            fastfield_cardinality: Some(Cardinality::SingleValue),
        }),
    });
    let tags = schema.add_field(FieldEntry {
        field_type: FieldType::U64(IntOptions {
            fastfield_cardinality: Some(Cardinality::MultiValues),
        }),
    });
    let payload = schema.add_field(FieldEntry {
        field_type: FieldType::Bytes(BytesOptions { fast: true }),
    });
    let title = schema.add_field(FieldEntry {
        field_type: FieldType::Str(TextOptions { fast: true }),
    });
    schema.add_field(FieldEntry {
        field_type: FieldType::Str(TextOptions { fast: false }),
    });
    schema.add_field(FieldEntry { field_type: FieldType::JsonObject });
    schema.add_field(FieldEntry {
        field_type: FieldType::U64(IntOptions { fastfield_cardinality: None }),
    });
    (schema, facet, score, tags, payload, title)
}

#[test]
fn schema_dispatch_assigns_writers() {
    let (schema, facet, score, tags, payload, title) = sample_schema();
    let group = FastFieldsWriter::from_schema(&schema);
    assert_eq!(group.term_id_writers.len(), 2);
    assert_eq!(group.single_value_writers.len(), 1);
    assert_eq!(group.multi_values_writers.len(), 1);
    assert_eq!(group.bytes_value_writers.len(), 1);
    assert_eq!(group.term_id_writers[0].field, facet);
    assert_eq!(group.term_id_writers[0].fast_field_type, FastFieldType::Facet);
    assert_eq!(group.term_id_writers[1].field, title);
    assert_eq!(group.term_id_writers[1].fast_field_type, FastFieldType::String);
    assert_eq!(group.single_value_writers[0].field, score);
    assert_eq!(group.single_value_writers[0].val_if_missing, 1u64 << 63);
    assert_eq!(group.multi_values_writers[0].field, tags);
    assert_eq!(group.bytes_value_writers[0].field, payload);
}

#[test]
fn date_fields_carry_their_precision() {
    let mut schema = Schema::new();
    let when = schema.add_field(FieldEntry {
        field_type: FieldType::Date(DateOptions {
            fastfield_cardinality: Some(Cardinality::SingleValue),
            precision: DatePrecision::Milliseconds,
        }),
    });
    let group = FastFieldsWriter::from_schema(&schema);
    assert_eq!(group.single_value_writers.len(), 1);
    let writer = &group.single_value_writers[0];
    assert_eq!(writer.field, when);
    assert!(matches!(writer.precision_opt, Some(DatePrecision::Milliseconds)));
    assert_eq!(writer.val_if_missing, 1u64 << 63);
}

#[test]
fn lookups_find_writers_by_field() {
    let (schema, facet, score, tags, payload, title) = sample_schema();
    let mut group = FastFieldsWriter::from_schema(&schema);
    assert!(group.get_term_id_writer(facet).is_some());
    assert!(group.get_term_id_writer(title).is_some());
    assert!(group.get_term_id_writer(score).is_none());
    assert!(group.get_field_writer(score).is_some());
    assert!(group.get_field_writer(tags).is_none());
    assert!(group.get_field_writer_mut(score).is_some());
    assert!(group.get_term_id_writer_mut(facet).is_some());
    assert!(group.get_multivalue_writer_mut(tags).is_some());
    assert!(group.get_multivalue_writer_mut(facet).is_none());
    assert!(group.get_bytes_writer_mut(payload).is_some());
    assert!(group.get_bytes_writer_mut(score).is_none());
}

#[test]
fn add_document_fans_out_to_every_writer() {
    let (schema, _, score, _, _, _) = sample_schema();
    let mut group = FastFieldsWriter::from_schema(&schema);
    for v in [5i64, -2, 9] {
        let mut doc = Document::new();
        doc.add_value(score, Value::I64(v));
        group.add_document(&doc);
    }
    assert_eq!(group.term_id_writers[0].doc_count, 3);
    assert_eq!(group.term_id_writers[1].doc_count, 3);
    assert_eq!(group.single_value_writers[0].val_count, 3);
    assert_eq!(group.multi_values_writers[0].doc_count, 3);
    assert_eq!(group.bytes_value_writers[0].doc_count, 3);
}

#[test]
fn serialize_emits_fixed_grouping_order() {
    let (schema, facet, score, tags, payload, title) = sample_schema();
    let mut group = FastFieldsWriter::from_schema(&schema);
    let mut doc = Document::new();
    doc.add_value(score, Value::I64(-7));
    group.add_document(&doc);

    let mut ordinal_for_facet: fnv::FnvHashMap<u64, u64> = fnv::FnvHashMap::default();
    ordinal_for_facet.insert(3, 0);
    let mut mapping: HashMap<u32, fnv::FnvHashMap<u64, u64>> = HashMap::new();
    mapping.insert(facet.0, ordinal_for_facet);

    let requests = group.serialize(&mapping, None);
    assert_eq!(requests.len(), 5);
    match &requests[0] {
        ColumnRequest::MultiValued { field, fast_field_type, doc_count, has_ordinal_mapping } => {
            assert_eq!(*field, facet);
            assert_eq!(*fast_field_type, FastFieldType::Facet);
            assert_eq!(*doc_count, 1);
            assert!(*has_ordinal_mapping);
        }
        other => panic!("expected a term-ordinal request, got {:?}", other),
    }
    match &requests[1] {
        ColumnRequest::MultiValued { field, has_ordinal_mapping, .. } => {
            assert_eq!(*field, title);
            assert!(!*has_ordinal_mapping);
        }
        other => panic!("expected a term-ordinal request, got {:?}", other),
    }
    match &requests[2] {
        ColumnRequest::SingleValue(column) => {
            assert_eq!(column.field, score);
            assert_eq!(column.stats.num_vals, 1);
            assert_eq!(column.vals, vec![tantivy_common::i64_to_u64(-7)]);
        }
        other => panic!("expected a single-value request, got {:?}", other),
    }
    match &requests[3] {
        ColumnRequest::MultiValued { field, .. } => assert_eq!(*field, tags),
        other => panic!("expected a multi-value request, got {:?}", other),
    }
    match &requests[4] {
        ColumnRequest::Bytes { field, doc_count } => {
            assert_eq!(*field, payload);
            assert_eq!(*doc_count, 1);
        }
        other => panic!("expected a bytes request, got {:?}", other),
    }
}

#[test]
fn mem_usage_sums_constituents_and_grows() {
    let (schema, _, score, _, _, _) = sample_schema();
    let mut group = FastFieldsWriter::from_schema(&schema);
    let parts: usize = group.term_id_writers.iter().map(|w| w.mem_usage()).sum::<usize>()
        + group.single_value_writers.iter().map(|w| w.mem_usage()).sum::<usize>()
        + group.multi_values_writers.iter().map(|w| w.mem_usage()).sum::<usize>()
        + group.bytes_value_writers.iter().map(|w| w.mem_usage()).sum::<usize>();
    assert_eq!(group.mem_usage(), parts);

    let mut previous = group.mem_usage();
    for i in 0..600i64 {
        let mut doc = Document::new();
        doc.add_value(score, Value::I64(i));
        group.add_document(&doc);
        let current = group.mem_usage();
        assert!(current >= previous);
        previous = current;
    }
}
