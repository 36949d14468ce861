use minimap2_htslib::{
    mapping_to_record, AlignmentDetail, AlignmentOperation, HeaderContext, MappingResult,
};

fn empty_header() -> HeaderContext {
    HeaderContext { references: Vec::new() }
}

#[test]
fn quality_defaults_to_sentinel_bytes() {
    let seq = b"ACGTA";
    let rec = mapping_to_record(None, seq, empty_header(), None, Some(b"q1")).unwrap();
    assert_eq!(rec.quality.len(), seq.len());
    assert!(rec.quality.iter().all(|&q| q == 255));
}

#[test]
fn quality_defaults_on_empty_sequence() {
    let rec = mapping_to_record(None, b"", empty_header(), None, Some(b"q1")).unwrap();
    assert_eq!(rec.sequence, Vec::<u8>::new());
    assert_eq!(rec.quality, Vec::<u8>::new());
}

#[test]
fn supplied_quality_is_kept() {
    let rec =
        mapping_to_record(None, b"ACG", empty_header(), Some(&[30, 31, 32]), Some(b"q1")).unwrap();
    assert_eq!(rec.quality, vec![30, 31, 32]);
}

#[test]
fn unmapped_record_carries_sentinels() {
    let rec = mapping_to_record(None, b"ACGT", empty_header(), None, Some(b"q1")).unwrap();
    assert!(rec.unmapped);
    assert_eq!(rec.target_id, Some(-1));
    assert_eq!(rec.position, -1);
    assert_eq!(rec.mapping_quality, 255);
    assert_eq!(rec.mate_position, -1);
    assert_eq!(rec.mate_target_id, -1);
    assert_eq!(rec.insert_size, -1);
    assert!(rec.operations.is_none());
}

#[test]
fn mapped_record_takes_fields_from_mapping() {
    let mapping = MappingResult { target_start: 1000, mapping_quality: 40, alignment: None };
    let rec = mapping_to_record(Some(&mapping), b"ACGT", empty_header(), None, Some(b"q1"))
        .unwrap();
    assert!(!rec.unmapped);
    assert_eq!(rec.target_id, None);
    assert_eq!(rec.position, 1000);
    assert_eq!(rec.mapping_quality, 40);
    assert_eq!(rec.mate_position, -1);
    assert_eq!(rec.mate_target_id, -1);
    assert_eq!(rec.insert_size, 0);
    assert!(rec.operations.is_none());
}

#[test]
fn mapping_quality_is_truncated_to_eight_bits() {
    let mapping = MappingResult { target_start: 0, mapping_quality: 300, alignment: None };
    let rec = mapping_to_record(Some(&mapping), b"A", empty_header(), None, Some(b"q1")).unwrap();
    assert_eq!(rec.mapping_quality, 44);
}

#[test]
fn operation_trace_is_attached_in_order() {
    let mapping = MappingResult {
        target_start: 12,
        mapping_quality: 60,
        alignment: Some(AlignmentDetail { cigar: Some(vec![(10, 0), (2, 1), (4, 4)]) }),
    };
    let rec = mapping_to_record(Some(&mapping), b"ACGT", empty_header(), None, Some(b"q1"))
        .unwrap();
    assert_eq!(
        rec.operations,
        Some(vec![
            AlignmentOperation::Match(10),
            AlignmentOperation::Insertion(2),
            AlignmentOperation::SoftClip(4),
        ])
    );
}

#[test]
fn mapping_without_trace_attaches_no_operations() {
    let mapping = MappingResult {
        target_start: 12,
        mapping_quality: 60,
        alignment: Some(AlignmentDetail { cigar: None }),
    };
    let rec = mapping_to_record(Some(&mapping), b"ACGT", empty_header(), None, Some(b"q1"))
        .unwrap();
    assert!(rec.operations.is_none());
}

#[test]
fn invalid_code_in_trace_fails_the_call() {
    let mapping = MappingResult {
        target_start: 12,
        mapping_quality: 60,
        alignment: Some(AlignmentDetail { cigar: Some(vec![(5, 0), (3, 9)]) }),
    };
    let err = mapping_to_record(Some(&mapping), b"ACGT", empty_header(), None, Some(b"q1"))
        .unwrap_err();
    assert_eq!(err.code, 9);
}

#[test]
fn name_defaults_to_placeholder() {
    let rec = mapping_to_record(None, b"ACGT", empty_header(), None, None).unwrap();
    assert_eq!(rec.query_name, b"query".to_vec());
}

#[test]
fn supplied_name_is_kept() {
    let rec = mapping_to_record(None, b"ACGT", empty_header(), None, Some(b"read7")).unwrap();
    assert_eq!(rec.query_name, b"read7".to_vec());
}

#[test]
fn header_context_is_not_used_to_resolve_target_id() {
    let header = HeaderContext { references: vec![(b"contig4".to_vec(), 3360)] };
    let mapping = MappingResult { target_start: 5, mapping_quality: 1, alignment: None };
    let rec = mapping_to_record(Some(&mapping), b"ACGT", header, None, Some(b"q1")).unwrap();
    assert_eq!(rec.target_id, None);
}

#[test]
fn sequence_bytes_are_copied() {
    let rec = mapping_to_record(None, b"acGTn", empty_header(), None, Some(b"q1")).unwrap();
    assert_eq!(rec.sequence, b"acGTn".to_vec());
}
