use pinchtask::transport::{content_length, framing_of, parse_count, Framing};

#[test]
fn framing_by_first_byte() {
    assert_eq!(framing_of(b'{'), Framing::NewlineDelimited);
    assert_eq!(framing_of(b'C'), Framing::ContentLength);
}

#[test]
fn counts_parse_like_from_str() {
    assert_eq!(parse_count("42"), Some(42));
    assert_eq!(parse_count("+7"), Some(7));
    assert_eq!(parse_count(""), None);
    assert_eq!(parse_count("+"), None);
    assert_eq!(parse_count("-1"), None);
    assert_eq!(parse_count("12a"), None);
    assert_eq!(parse_count("99999999999999999999999"), None);
}

#[test]
fn count_round_trips_through_decimal() {
    for n in [0usize, 1, 9, 10, 123, 65536, usize::MAX] {
        assert_eq!(parse_count(&n.to_string()), Some(n));
    }
}

#[test]
fn content_length_header() {
    assert_eq!(content_length("Content-Length: 123"), Some(123));
    assert_eq!(content_length("  Content-Length :  5  "), Some(5));
    assert_eq!(content_length("Content-Type: json"), None);
    assert_eq!(content_length("Content-Length: x"), None);
}
