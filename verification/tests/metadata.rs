use quinn_tower::decimal::{parse_decimal, push_decimal};
use quinn_tower::metadata::{
    decode_timestamp, extract_timestamp_from_json, find_pattern, find_value_end, timestamp_in,
    trim_blanks, FreshnessMetadata, MetadataFormatError,
};

#[test]
fn parse_decimal_reads_plain_numbers() {
    assert_eq!(parse_decimal(b"0"), Some(0));
    assert_eq!(parse_decimal(b"7"), Some(7));
    assert_eq!(parse_decimal(b"1700000000"), Some(1_700_000_000));
    assert_eq!(parse_decimal(b"007"), Some(7));
}

#[test]
fn parse_decimal_takes_one_leading_plus() {
    assert_eq!(parse_decimal(b"+5"), Some(5));
    assert_eq!(parse_decimal(b"++5"), None);
    assert_eq!(parse_decimal(b"+"), None);
}

#[test]
fn parse_decimal_refuses_what_is_no_number() {
    assert_eq!(parse_decimal(b""), None);
    assert_eq!(parse_decimal(b"-1"), None);
    assert_eq!(parse_decimal(b"12a"), None);
    assert_eq!(parse_decimal(b" 12"), None);
    assert_eq!(parse_decimal(b"1.5"), None);
    assert_eq!(parse_decimal(b"abc"), None);
}

#[test]
fn parse_decimal_knows_the_largest_number() {
    assert_eq!(parse_decimal(b"18446744073709551615"), Some(u64::MAX));
    assert_eq!(parse_decimal(b"18446744073709551616"), None);
    assert_eq!(parse_decimal(b"18446744073709551620"), None);
    assert_eq!(parse_decimal(b"99999999999999999999"), None);
    assert_eq!(parse_decimal(b"000018446744073709551615"), Some(u64::MAX));
}

#[test]
fn push_decimal_writes_the_shortest_notation() {
    let mut out = b"n=".to_vec();
    push_decimal(&mut out, 0);
    assert_eq!(out, b"n=0".to_vec());
    let mut out = Vec::new();
    push_decimal(&mut out, 10);
    assert_eq!(out, b"10".to_vec());
    let mut out = Vec::new();
    push_decimal(&mut out, 1_700_000_000);
    assert_eq!(out, b"1700000000".to_vec());
    let mut out = Vec::new();
    push_decimal(&mut out, u64::MAX);
    assert_eq!(out, b"18446744073709551615".to_vec());
}

#[test]
fn decimal_round_trip_on_chosen_numbers() {
    for n in [0u64, 1, 9, 10, 99, 100, 12345, 1 << 32, u64::MAX - 1, u64::MAX] {
        let mut out = Vec::new();
        push_decimal(&mut out, n);
        assert_eq!(parse_decimal(&out), Some(n));
    }
}

#[test]
fn encode_writes_the_compact_record() {
    let record = FreshnessMetadata { timestamp: 1_700_000_000, size: 10 };
    assert_eq!(record.encode(), b"{\"timestamp\":1700000000,\"size\":10}".to_vec());
    let empty = FreshnessMetadata { timestamp: 0, size: 0 };
    assert_eq!(empty.encode(), b"{\"timestamp\":0,\"size\":0}".to_vec());
}

#[test]
fn encoded_record_gives_its_timestamp_back() {
    for timestamp in [0u64, 1, 59, 1_700_000_000, u64::MAX] {
        for size in [0u64, 10, 4096, u64::MAX] {
            let text = FreshnessMetadata { timestamp, size }.encode();
            assert_eq!(decode_timestamp(&text), Ok(timestamp));
            assert_eq!(timestamp_in(&text), Ok(timestamp));
        }
    }
}

#[test]
fn extract_timestamp_reads_the_compact_record() {
    assert_eq!(
        extract_timestamp_from_json("{\"timestamp\":1700000000,\"size\":10}"),
        Ok(1_700_000_000)
    );
    assert_eq!(extract_timestamp_from_json("{\"timestamp\":42}"), Ok(42));
}

#[test]
fn extract_timestamp_ignores_fields_appended_later() {
    assert_eq!(
        extract_timestamp_from_json(
            "{\"timestamp\":1700000000,\"size\":10,\"host\":\"a\",\"timestamp\":5}"
        ),
        Ok(1_700_000_000)
    );
    assert_eq!(
        extract_timestamp_from_json("{\"size\":10,\"timestamp\":77,\"slot\":3}"),
        Ok(77)
    );
}

#[test]
fn extract_timestamp_ignores_blanks_around_the_number() {
    assert_eq!(
        extract_timestamp_from_json("{\"timestamp\": 1700000000, \"size\": 10}"),
        Ok(1_700_000_000)
    );
    assert_eq!(extract_timestamp_from_json("{\"timestamp\":\t12 \r\n}"), Ok(12));
    assert_eq!(
        extract_timestamp_from_json("{\"timestamp\": 1 2 }"),
        Err(MetadataFormatError::InvalidNumber)
    );
}

#[test]
fn extract_timestamp_reports_a_missing_field() {
    assert_eq!(
        extract_timestamp_from_json("{\"size\":10}"),
        Err(MetadataFormatError::MissingTimestamp)
    );
    assert_eq!(extract_timestamp_from_json(""), Err(MetadataFormatError::MissingTimestamp));
    assert_eq!(
        extract_timestamp_from_json("{\"timestamp\" :10}"),
        Err(MetadataFormatError::MissingTimestamp)
    );
    assert_eq!(
        extract_timestamp_from_json("{timestamp:10}"),
        Err(MetadataFormatError::MissingTimestamp)
    );
}

#[test]
fn extract_timestamp_reports_a_field_without_end() {
    assert_eq!(
        extract_timestamp_from_json("{\"timestamp\":1700000000"),
        Err(MetadataFormatError::UnterminatedTimestamp)
    );
    assert_eq!(
        extract_timestamp_from_json("\"timestamp\":"),
        Err(MetadataFormatError::UnterminatedTimestamp)
    );
}

#[test]
fn extract_timestamp_reports_what_is_no_number() {
    assert_eq!(
        extract_timestamp_from_json("{\"timestamp\":\"soon\",\"size\":10}"),
        Err(MetadataFormatError::InvalidNumber)
    );
    assert_eq!(
        extract_timestamp_from_json("{\"timestamp\":,\"size\":10}"),
        Err(MetadataFormatError::InvalidNumber)
    );
    assert_eq!(
        extract_timestamp_from_json("{\"timestamp\":-4}"),
        Err(MetadataFormatError::InvalidNumber)
    );
    assert_eq!(
        extract_timestamp_from_json("{\"timestamp\":18446744073709551616}"),
        Err(MetadataFormatError::InvalidNumber)
    );
    assert_eq!(
        extract_timestamp_from_json("{\"timestamp\":1.5e9}"),
        Err(MetadataFormatError::InvalidNumber)
    );
}

#[test]
fn decode_timestamp_refuses_bytes_that_are_no_text() {
    let mut record = b"{\"timestamp\":12,\"note\":\"".to_vec();
    record.push(0xff);
    record.extend_from_slice(b"\"}");
    assert_eq!(decode_timestamp(&record), Err(MetadataFormatError::InvalidEncoding));
    assert_eq!(timestamp_in(&record), Ok(12));
    assert_eq!(decode_timestamp(&[0xc3]), Err(MetadataFormatError::InvalidEncoding));
    assert_eq!(decode_timestamp(&[0xed, 0xa0, 0x80]), Err(MetadataFormatError::InvalidEncoding));
}

#[test]
fn decode_timestamp_reads_text_beyond_ascii() {
    let record = "{\"note\":\"gr\u{fc}n \u{2713}\",\"timestamp\":99}".as_bytes().to_vec();
    assert_eq!(decode_timestamp(&record), Ok(99));
    assert_eq!(decode_timestamp(b""), Err(MetadataFormatError::MissingTimestamp));
}

#[test]
fn find_pattern_names_the_first_occurrence() {
    assert_eq!(find_pattern(b"abcabc", b"bc"), Some(1));
    assert_eq!(find_pattern(b"abcabc", b"abcabc"), Some(0));
    assert_eq!(find_pattern(b"aab", b"ab"), Some(1));
    assert_eq!(find_pattern(b"abc", b"abcd"), None);
    assert_eq!(find_pattern(b"abc", b"x"), None);
    assert_eq!(find_pattern(b"abc", b""), Some(0));
    assert_eq!(find_pattern(b"", b""), Some(0));
    assert_eq!(find_pattern(b"xxab", b"ab"), Some(2));
}

#[test]
fn find_value_end_names_the_first_comma_or_brace() {
    assert_eq!(find_value_end(b"12,34}"), Some(2));
    assert_eq!(find_value_end(b"12}34,"), Some(2));
    assert_eq!(find_value_end(b","), Some(0));
    assert_eq!(find_value_end(b"1234"), None);
    assert_eq!(find_value_end(b""), None);
    assert_eq!(find_value_end(b"{12"), None);
}

#[test]
fn trim_blanks_strips_both_sides_only() {
    assert_eq!(trim_blanks(b"  12 \t\r\n"), b"12");
    assert_eq!(trim_blanks(b"1 2"), b"1 2");
    assert_eq!(trim_blanks(b" \t "), b"");
    assert_eq!(trim_blanks(b""), b"");
    assert_eq!(trim_blanks(b"x"), b"x");
    assert_eq!(trim_blanks(b"\x0b1"), b"\x0b1");
}
