use ngspice::extract::decode_string_array;
use ngspice::NgSpiceError;

#[test]
fn stops_exactly_at_first_null() {
    let entries = vec![
        Some(b"op1".to_vec()),
        Some(b"tran1".to_vec()),
        None,
        Some(b"after the terminator".to_vec()),
    ];
    let names = decode_string_array(&entries).unwrap();
    assert_eq!(names, vec!["op1".to_string(), "tran1".to_string()]);
}

#[test]
fn preserves_engine_reported_order() {
    let entries = vec![
        Some(b"op2".to_vec()),
        Some(b"op1".to_vec()),
        Some(b"const".to_vec()),
        None,
    ];
    let names = decode_string_array(&entries).unwrap();
    assert_eq!(names, vec!["op2".to_string(), "op1".to_string(), "const".to_string()]);
}

#[test]
fn array_without_null_is_taken_whole() {
    let entries = vec![Some(b"op1".to_vec()), Some(b"op2".to_vec())];
    let names = decode_string_array(&entries).unwrap();
    assert_eq!(names.len(), 2);
}

#[test]
fn leading_null_yields_empty_list() {
    let entries = vec![None, Some(b"op1".to_vec())];
    let names = decode_string_array(&entries).unwrap();
    assert!(names.is_empty());
}

#[test]
fn undecodable_entry_aborts_whole_query() {
    let entries = vec![Some(b"op1".to_vec()), Some(vec![0xff, 0x00, 0x80]), None];
    let r = decode_string_array(&entries);
    assert_eq!(r.unwrap_err(), NgSpiceError::EncodingError);
}

#[test]
fn undecodable_entry_after_null_is_ignored() {
    let entries = vec![Some(b"op1".to_vec()), None, Some(vec![0xff])];
    let names = decode_string_array(&entries).unwrap();
    assert_eq!(names, vec!["op1".to_string()]);
}
