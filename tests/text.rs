use nnsdk::text::{c_prefix_of, c_string, decode_name, decode_text};

#[test]
fn c_string_appends_terminator() {
    assert_eq!(c_string("ab"), vec![b'a', b'b', 0]);
    assert_eq!(c_string(""), vec![0]);
    assert_eq!(c_string("é"), vec![0xc3, 0xa9, 0]);
}

#[test]
fn c_prefix_stops_at_first_zero() {
    assert_eq!(c_prefix_of(&[1, 2, 0, 3, 0]), vec![1, 2]);
    assert_eq!(c_prefix_of(&[0, 1]), Vec::<u8>::new());
    assert_eq!(c_prefix_of(&[4, 5]), vec![4, 5]);
}

#[test]
fn decode_name_is_lossy_to_empty() {
    assert_eq!(decode_name(&[0x68, 0x69]), "hi");
    assert_eq!(decode_name(&[0xc3, 0xa9]), "é");
    assert_eq!(decode_name(&[0xff, 0x41]), "");
    assert_eq!(decode_name(&[]), "");
}

#[test]
fn decode_text_rejects_invalid_utf8() {
    assert_eq!(decode_text(&[0x68, 0x69]), Some("hi".to_string()));
    assert_eq!(decode_text(&[0xe2, 0x9c, 0x93]), Some("✓".to_string()));
    assert_eq!(decode_text(&[0xc0, 0x80]), None);
    assert_eq!(decode_text(&[0xed, 0xa0, 0x80]), None);
    assert_eq!(decode_text(&[]), Some(String::new()));
}
