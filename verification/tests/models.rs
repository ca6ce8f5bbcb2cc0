use debt_tracker_api::model;
use debt_tracker_api::error::EncodeError;
use debt_tracker_api::models::datetime::{into_valid_datetime, DateTime};
use debt_tracker_api::models::debt::Debt;
use debt_tracker_api::models::oid::ObjectId;

#[test]
fn parse_str_reads_lower_case_digits() {
    let id = ObjectId::parse_str("53e37d08776f724e42000000").unwrap();
    assert_eq!(
        id.bytes,
        [0x53, 0xe3, 0x7d, 0x08, 0x77, 0x6f, 0x72, 0x4e, 0x42, 0x00, 0x00, 0x00]
    );
}

#[test]
fn parse_str_reads_digits_of_either_case() {
    let id = ObjectId::parse_str("53E37D08776f724E42abCDef").unwrap();
    assert_eq!(
        id.bytes,
        [0x53, 0xe3, 0x7d, 0x08, 0x77, 0x6f, 0x72, 0x4e, 0x42, 0xab, 0xcd, 0xef]
    );
}

#[test]
fn parse_str_refuses_text_of_another_length() {
    assert_eq!(ObjectId::parse_str("not-an-id"), None);
    assert_eq!(ObjectId::parse_str(""), None);
    assert_eq!(ObjectId::parse_str("53e37d08776f724e4200000"), None);
    assert_eq!(ObjectId::parse_str("53e37d08776f724e420000000"), None);
    assert_eq!(ObjectId::parse_str("53e37d08776f724e42000000ff"), None);
}

#[test]
fn parse_str_refuses_other_characters() {
    assert_eq!(ObjectId::parse_str("53e37d08776f724e4200000g"), None);
    assert_eq!(ObjectId::parse_str("53e37d08776f724e4200000 "), None);
    assert_eq!(ObjectId::parse_str("-3e37d08776f724e42000000"), None);
    assert_eq!(ObjectId::parse_str("53e37d08776f724e4200000\u{e9}"), None);
    assert_eq!(ObjectId::parse_str("53e37d08776f724e420000\u{e9}"), None);
}

#[test]
fn to_hex_writes_lower_case_digits() {
    let id = ObjectId { bytes: [0x00, 0x01, 0x0a, 0x10, 0x9f, 0xa0, 0xab, 0xcd, 0xef, 0xf0, 0xfe, 0xff] };
    assert_eq!(id.to_hex(), "00010a109fa0abcdeff0feff");
}

#[test]
fn text_of_an_identifier_reads_back() {
    let id = ObjectId { bytes: [0xde, 0xad, 0xbe, 0xef, 0, 1, 2, 3, 0x7f, 0x80, 0xfe, 0xff] };
    assert_eq!(ObjectId::parse_str(&id.to_hex()), Some(id));
    let text = "0123456789abcdef01234567";
    assert_eq!(ObjectId::parse_str(text).unwrap().to_hex(), text);
}

#[test]
fn into_valid_datetime_writes_the_timestamp_in_rfc_3339() {
    let now = DateTime { millis: 86_400_000 };
    assert_eq!(
        into_valid_datetime(Some(DateTime { millis: 0 }), now),
        Ok(String::from("1970-01-01T00:00:00Z"))
    );
    assert_eq!(
        into_valid_datetime(Some(DateTime { millis: 1_709_967_901_250 }), now),
        Ok(String::from("2024-03-09T07:05:01.25Z"))
    );
    assert_eq!(
        into_valid_datetime(Some(DateTime { millis: -1 }), now),
        Ok(String::from("1969-12-31T23:59:59.999Z"))
    );
}

#[test]
fn into_valid_datetime_falls_back_on_now() {
    let now = DateTime { millis: 86_400_000 };
    assert_eq!(into_valid_datetime(None, now), Ok(String::from("1970-01-02T00:00:00Z")));
}

#[test]
fn into_valid_datetime_covers_the_years_of_four_digits() {
    let now = DateTime { millis: 0 };
    assert_eq!(
        into_valid_datetime(Some(DateTime { millis: -62_167_219_200_000 }), now),
        Ok(String::from("0000-01-01T00:00:00Z"))
    );
    assert_eq!(
        into_valid_datetime(Some(DateTime { millis: 253_402_300_799_999 }), now),
        Ok(String::from("9999-12-31T23:59:59.999Z"))
    );
}

#[test]
fn into_valid_datetime_cannot_write_an_instant_outside_those_years() {
    let now = DateTime { millis: 0 };
    for millis in [i64::MIN, -62_167_219_200_001, 253_402_300_800_000, i64::MAX] {
        assert_eq!(into_valid_datetime(Some(DateTime { millis }), now), Err(EncodeError {}));
    }
    assert_eq!(into_valid_datetime(None, DateTime { millis: i64::MAX }), Err(EncodeError {}));
}

#[test]
fn into_valid_datetime_has_two_digits_in_each_part_and_no_space() {
    for millis in [-1, 0, 1, 3_600_000, 1_709_967_901_250] {
        let text = into_valid_datetime(Some(DateTime { millis }), DateTime { millis: 0 }).unwrap();
        assert!(!text.contains(' '));
        let bytes = text.as_bytes();
        assert_eq!(bytes[4], b'-');
        assert_eq!(bytes[7], b'-');
        assert_eq!(bytes[10], b'T');
        assert_eq!(bytes[13], b':');
        assert_eq!(bytes[16], b':');
        assert_eq!(bytes[bytes.len() - 1], b'Z');
    }
}

#[test]
fn new_record_has_no_identifier_and_no_timestamps() {
    let stated = model::Debt { name: String::from("rent"), amount: 500 };
    assert_eq!(
        Debt::new(stated),
        Debt { id: None, name: String::from("rent"), amount: 500, created_at: None, updated_at: None }
    );
}
