use oe_update_db::marker::{marker_text, parse_version};

#[test]
fn parse_plain_versions() {
    assert_eq!(parse_version(b"13"), Some(13));
    assert_eq!(parse_version(b"16"), Some(16));
    assert_eq!(parse_version(b"0"), Some(0));
    assert_eq!(parse_version(b"007"), Some(7));
    assert_eq!(parse_version(b"4294967295"), Some(u32::MAX));
}

#[test]
fn parse_accepts_one_leading_plus() {
    assert_eq!(parse_version(b"+15"), Some(15));
    assert_eq!(parse_version(b"+"), None);
    assert_eq!(parse_version(b"++15"), None);
}

#[test]
fn parse_rejects_what_is_not_a_decimal_u32() {
    assert_eq!(parse_version(b""), None);
    assert_eq!(parse_version(b"-1"), None);
    assert_eq!(parse_version(b"16\n"), None);
    assert_eq!(parse_version(b" 16"), None);
    assert_eq!(parse_version(b"1a"), None);
    assert_eq!(parse_version(b"4294967296"), None);
    assert_eq!(parse_version(b"99999999999999999999"), None);
}

#[test]
fn marker_text_is_decimal() {
    assert_eq!(marker_text(16), b"16".to_vec());
    assert_eq!(marker_text(0), b"0".to_vec());
    assert_eq!(marker_text(4294967295), b"4294967295".to_vec());
}

#[test]
fn marker_text_reads_back() {
    for v in [0u32, 9, 10, 13, 16, 99, 100, 65535, 1_000_000, u32::MAX] {
        assert_eq!(parse_version(&marker_text(v)), Some(v));
        assert_eq!(marker_text(v), format!("{}", v).into_bytes());
    }
}
