use fastfield_writer::{
    DocIdMapping, Field, IntFastFieldWriter, WriterFastFieldAccessProvider,
};

#[test]
fn reversal_mapping_permutes_column() {
    let mut writer = IntFastFieldWriter::new(Field(0), None);
    for v in [10u64, 20, 30, 40] {
        writer.add_val(v);
    }
    let mapping = DocIdMapping::from_new_id_to_old_id(vec![3, 2, 1, 0]);
    let stats = writer.stats();
    let accessor = WriterFastFieldAccessProvider {
        doc_id_map: Some(&mapping),
        vals: &writer.vals,
        stats,
    };
    assert_eq!(accessor.get_val(0), 40);
    assert_eq!(accessor.get_val(3), 10);
    assert_eq!(accessor.iter(), vec![40, 30, 20, 10]);
    let column = writer.serialize(Some(&mapping));
    assert_eq!(column.vals, vec![40, 30, 20, 10]);
}

#[test]
fn iteration_agrees_with_random_access_without_mapping() {
    let mut writer = IntFastFieldWriter::new(Field(0), None);
    for v in [7u64, 7, 0, u64::MAX, 13, 5] {
        writer.add_val(v);
    }
    let stats = writer.stats();
    let accessor = WriterFastFieldAccessProvider {
        doc_id_map: None,
        vals: &writer.vals,
        stats,
    };
    let iterated = accessor.iter();
    assert_eq!(iterated.len() as u64, accessor.num_vals());
    for i in 0..iterated.len() {
        assert_eq!(iterated[i], accessor.get_val(i as u64));
    }
}

#[test]
fn iteration_agrees_with_random_access_with_mapping() {
    let mut writer = IntFastFieldWriter::new(Field(0), None);
    for v in [100u64, 200, 300, 400, 500] {
        writer.add_val(v);
    }
    let mapping = DocIdMapping::from_new_id_to_old_id(vec![2, 0, 4, 1, 3]);
    let stats = writer.stats();
    let accessor = WriterFastFieldAccessProvider {
        doc_id_map: Some(&mapping),
        vals: &writer.vals,
        stats,
    };
    let iterated = accessor.iter();
    assert_eq!(iterated, vec![300, 100, 500, 200, 400]);
    for i in 0..iterated.len() {
        assert_eq!(iterated[i], accessor.get_val(i as u64));
    }
}

#[test]
fn accessor_reports_stats_verbatim() {
    let mut writer = IntFastFieldWriter::new(Field(0), None);
    for v in [9u64, 4, 6] {
        writer.add_val(v);
    }
    let stats = writer.stats();
    let accessor = WriterFastFieldAccessProvider {
        doc_id_map: None,
        vals: &writer.vals,
        stats,
    };
    assert_eq!(accessor.min_value(), 4);
    assert_eq!(accessor.max_value(), 9);
    assert_eq!(accessor.num_vals(), 3);
}

#[test]
fn mapping_resolves_pointwise() {
    let mapping = DocIdMapping::from_new_id_to_old_id(vec![1, 2, 0]);
    assert_eq!(mapping.get_old_doc_id(0), 1);
    assert_eq!(mapping.get_old_doc_id(1), 2);
    assert_eq!(mapping.get_old_doc_id(2), 0);
    assert_eq!(mapping.iter_old_doc_ids(), &vec![1, 2, 0]);
}
