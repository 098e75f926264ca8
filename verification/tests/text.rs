use ebidownload::text::{
    eq_ignore_ascii_case, fields, last_segment_of, parse_u64, split_text, split_text_on,
    strip_text_prefix, text_or_empty, to_decimal, to_hex_lower,
};

#[test]
fn numbers_are_read_like_the_standard_library_reads_them() {
    for text in ["0", "7", "+7", "007", "18446744073709551615", "18446744073709551616", "", "+", "-1", "1 ", " 1", "1_0", "12a", "٣", "99999999999999999999999"] {
        assert_eq!(parse_u64(text), text.parse::<u64>().ok(), "{text:?}");
    }
}

#[test]
fn numbers_are_written_in_base_ten() {
    for n in [0u64, 9, 10, 11, 99, 100, 1234567890, u64::MAX] {
        assert_eq!(to_decimal(n), n.to_string());
    }
}

#[test]
fn bytes_are_written_in_lower_case_hex() {
    assert_eq!(to_hex_lower(&[]), "");
    assert_eq!(to_hex_lower(&[0x00, 0x0f, 0xa0, 0xff, 0x9e]), "000fa0ff9e");
}

#[test]
fn splitting_keeps_empty_pieces() {
    for text in ["", ";", "a;b", ";a;;b;", "no separator", "é;ü"] {
        let expected: Vec<String> = text.split(';').map(|s| s.to_string()).collect();
        assert_eq!(split_text_on(text, ';'), expected, "{text:?}");
        let kept: Vec<String> = text.split(';').filter(|s| !s.is_empty()).map(|s| s.to_string()).collect();
        assert_eq!(fields(text, ';'), kept, "{text:?}");
        assert_eq!(last_segment_of(text, ';'), text.rsplit(';').next().unwrap());
    }
}

#[test]
fn split_once_cuts_at_the_first_separator() {
    assert_eq!(split_text("a--b--c", "--"), Some(("a".to_string(), "b--c".to_string())));
    assert_eq!(split_text("--", "--"), Some((String::new(), String::new())));
    assert_eq!(split_text("a-b", "--"), None);
    assert_eq!(strip_text_prefix("s3://b", "s3://"), Some("b".to_string()));
    assert_eq!(strip_text_prefix("s3:/", "s3://"), None);
}

#[test]
fn case_of_ascii_letters_is_ignored() {
    assert!(eq_ignore_ascii_case("SRAFile", "srafile"));
    assert!(eq_ignore_ascii_case("", ""));
    assert!(!eq_ignore_ascii_case("Run", "Runs"));
    assert!(!eq_ignore_ascii_case("É", "é"));
    assert!(!eq_ignore_ascii_case("[", "{"));
    assert!(!eq_ignore_ascii_case("@", "`"));
}

#[test]
fn only_well_formed_bytes_are_text() {
    assert_eq!(text_or_empty("häagen".as_bytes()), "häagen");
    assert_eq!(text_or_empty(&[0x66, 0xff]), "");
    assert_eq!(text_or_empty(&[]), "");
}
