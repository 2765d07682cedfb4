use rgb_clock::{ConvertError, LocalTime};

fn decode(message: &[u8]) -> Result<LocalTime, ConvertError> {
    LocalTime::try_from(message)
}

fn time(hour: u8, minute: u8, second: u8) -> LocalTime {
    LocalTime { hour, minute, second }
}

#[test]
fn decodes_a_time_object() {
    assert_eq!(
        decode(b"{\"hour\":6,\"minute\":30,\"second\":0}"),
        Ok(time(6, 30, 0))
    );
    assert_eq!(
        decode(b"{\"hour\":23,\"minute\":59,\"second\":58}"),
        Ok(time(23, 59, 58))
    );
    assert_eq!(
        decode(b"{\"hour\":0,\"minute\":0,\"second\":0}"),
        Ok(time(0, 0, 0))
    );
}

#[test]
fn decodes_through_try_into() {
    let message: &[u8] = b"{\"hour\":1,\"minute\":2,\"second\":3}";
    let decoded: Result<LocalTime, ConvertError> = message.try_into();
    assert_eq!(decoded, Ok(time(1, 2, 3)));
}

#[test]
fn text_that_is_not_json_is_invalid_json() {
    assert_eq!(decode(b"not json"), Err(ConvertError::InvalidJson));
    assert_eq!(decode(b""), Err(ConvertError::InvalidJson));
    assert_eq!(decode(b"   "), Err(ConvertError::InvalidJson));
    assert_eq!(decode(b"{\"hour\":6,\"minute\":30,\"second\":0"), Err(ConvertError::InvalidJson));
    assert_eq!(
        decode(b"{\"hour\":6,\"minute\":30,\"second\":0} trailing"),
        Err(ConvertError::InvalidJson)
    );
    assert_eq!(decode(b"{hour:6,minute:30,second:0}"), Err(ConvertError::InvalidJson));
}

#[test]
fn bytes_that_are_not_utf8_are_invalid_utf8() {
    let stray: [u8; 3] = [0xff, 0xfe, 0xfd];
    assert_eq!(decode(&stray), Err(ConvertError::InvalidUtf8));

    // a continuation byte without its leading byte
    let mut cut: Vec<u8> = b"{\"hour\":6,\"minute\":30,\"second\":0}".to_vec();
    cut.push(0x80);
    assert_eq!(decode(&cut), Err(ConvertError::InvalidUtf8));

    // an overlong encoding of NUL, and an encoded surrogate
    let overlong: [u8; 2] = [0xc0, 0x80];
    assert_eq!(decode(&overlong), Err(ConvertError::InvalidUtf8));
    let surrogate: [u8; 3] = [0xed, 0xa0, 0x80];
    assert_eq!(decode(&surrogate), Err(ConvertError::InvalidUtf8));

    // a sequence that ends before it is complete
    let unfinished: [u8; 2] = [0xe2, 0x82];
    assert_eq!(decode(&unfinished), Err(ConvertError::InvalidUtf8));
}

#[test]
fn utf8_is_checked_before_json() {
    // neither UTF-8 nor JSON: the first check decides
    let message: [u8; 4] = [b'n', b'o', 0xff, b'!'];
    assert_eq!(decode(&message), Err(ConvertError::InvalidUtf8));
    // text beyond ASCII is still text
    assert_eq!(decode("zw\u{f6}lf Uhr".as_bytes()), Err(ConvertError::InvalidJson));
    assert_eq!(
        decode("{\"hour\":6,\"minute\":30,\"second\":0,\"ort\":\"K\u{f6}ln\"}".as_bytes()),
        Ok(time(6, 30, 0))
    );
}

#[test]
fn layout_and_member_order_do_not_matter() {
    assert_eq!(
        decode(b" {\n  \"second\" : 3,\n  \"hour\" : 1,\n  \"minute\" : 2\n}\n"),
        Ok(time(1, 2, 3))
    );
}

#[test]
fn members_that_are_not_asked_for_are_passed_over() {
    assert_eq!(
        decode(b"{\"hour\":6,\"minute\":30,\"second\":0,\"zone\":\"UTC\",\"extra\":[1,2,{\"a\":null}]}"),
        Ok(time(6, 30, 0))
    );
}

#[test]
fn every_member_is_needed() {
    assert_eq!(decode(b"{\"minute\":30,\"second\":0}"), Err(ConvertError::InvalidJson));
    assert_eq!(decode(b"{\"hour\":6,\"second\":0}"), Err(ConvertError::InvalidJson));
    assert_eq!(decode(b"{\"hour\":6,\"minute\":30}"), Err(ConvertError::InvalidJson));
    assert_eq!(decode(b"{}"), Err(ConvertError::InvalidJson));
    assert_eq!(
        decode(b"{\"Hour\":6,\"minute\":30,\"second\":0}"),
        Err(ConvertError::InvalidJson)
    );
}

#[test]
fn a_document_that_is_no_object_is_invalid_json() {
    assert_eq!(decode(b"[6,30,0]"), Err(ConvertError::InvalidJson));
    assert_eq!(decode(b"6"), Err(ConvertError::InvalidJson));
    assert_eq!(decode(b"\"6:30:00\""), Err(ConvertError::InvalidJson));
    assert_eq!(decode(b"null"), Err(ConvertError::InvalidJson));
    assert_eq!(decode(b"true"), Err(ConvertError::InvalidJson));
}

#[test]
fn components_are_integers_from_0_to_255() {
    assert_eq!(
        decode(b"{\"hour\":255,\"minute\":255,\"second\":255}"),
        Ok(time(255, 255, 255))
    );
    assert_eq!(
        decode(b"{\"hour\":24,\"minute\":60,\"second\":61}"),
        Ok(time(24, 60, 61))
    );
    assert_eq!(
        decode(b"{\"hour\":256,\"minute\":30,\"second\":0}"),
        Err(ConvertError::InvalidJson)
    );
    assert_eq!(
        decode(b"{\"hour\":6,\"minute\":300,\"second\":0}"),
        Err(ConvertError::InvalidJson)
    );
    assert_eq!(
        decode(b"{\"hour\":6,\"minute\":30,\"second\":18446744073709551615}"),
        Err(ConvertError::InvalidJson)
    );
    assert_eq!(
        decode(b"{\"hour\":6,\"minute\":30,\"second\":18446744073709551616}"),
        Err(ConvertError::InvalidJson)
    );
    assert_eq!(
        decode(b"{\"hour\":-1,\"minute\":30,\"second\":0}"),
        Err(ConvertError::InvalidJson)
    );
    assert_eq!(
        decode(b"{\"hour\":6.0,\"minute\":30,\"second\":0}"),
        Err(ConvertError::InvalidJson)
    );
    assert_eq!(
        decode(b"{\"hour\":6.5,\"minute\":30,\"second\":0}"),
        Err(ConvertError::InvalidJson)
    );
    assert_eq!(
        decode(b"{\"hour\":\"6\",\"minute\":30,\"second\":0}"),
        Err(ConvertError::InvalidJson)
    );
    assert_eq!(
        decode(b"{\"hour\":null,\"minute\":30,\"second\":0}"),
        Err(ConvertError::InvalidJson)
    );
    assert_eq!(
        decode(b"{\"hour\":[6],\"minute\":30,\"second\":0}"),
        Err(ConvertError::InvalidJson)
    );
    assert_eq!(
        decode(b"{\"hour\":{\"hour\":6},\"minute\":30,\"second\":0}"),
        Err(ConvertError::InvalidJson)
    );
}

#[test]
fn members_are_looked_up_at_the_top_of_the_document() {
    assert_eq!(
        decode(b"{\"time\":{\"hour\":6,\"minute\":30,\"second\":0}}"),
        Err(ConvertError::InvalidJson)
    );
}

#[test]
fn from_members_needs_all_three_in_range() {
    assert_eq!(
        LocalTime::from_members(Some(6), Some(30), Some(0)),
        Ok(time(6, 30, 0))
    );
    assert_eq!(
        LocalTime::from_members(Some(255), Some(0), Some(255)),
        Ok(time(255, 0, 255))
    );
    assert_eq!(
        LocalTime::from_members(None, Some(30), Some(0)),
        Err(ConvertError::InvalidJson)
    );
    assert_eq!(
        LocalTime::from_members(Some(6), None, Some(0)),
        Err(ConvertError::InvalidJson)
    );
    assert_eq!(
        LocalTime::from_members(Some(6), Some(30), None),
        Err(ConvertError::InvalidJson)
    );
    assert_eq!(
        LocalTime::from_members(Some(256), Some(30), Some(0)),
        Err(ConvertError::InvalidJson)
    );
    assert_eq!(
        LocalTime::from_members(Some(6), Some(256), Some(0)),
        Err(ConvertError::InvalidJson)
    );
    assert_eq!(
        LocalTime::from_members(Some(6), Some(30), Some(u64::MAX)),
        Err(ConvertError::InvalidJson)
    );
    assert_eq!(LocalTime::from_members(None, None, None), Err(ConvertError::InvalidJson));
}

#[test]
fn errors_describe_themselves() {
    assert_eq!(ConvertError::InvalidUtf8.message(), "Invalid UTF-8 in message data");
    assert_eq!(
        ConvertError::InvalidJson.message(),
        "Failed to parse JSON into LocalTime"
    );
}

#[test]
fn decoding_never_panics_on_short_byte_strings() {
    // every message of one byte, and every pair around a brace
    for byte in 0..=255u8 {
        let single: [u8; 1] = [byte];
        let outcome: Result<LocalTime, ConvertError> = decode(&single);
        if byte < 0x80 {
            assert_eq!(outcome, Err(ConvertError::InvalidJson));
        } else {
            assert_eq!(outcome, Err(ConvertError::InvalidUtf8));
        }
        let pair: [u8; 2] = [b'{', byte];
        assert!(decode(&pair).is_err());
    }
}
