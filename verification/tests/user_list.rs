use server::error::ApiError;
use server::project::flags::respond;
use server::user::list::{list_params, parse_i64, Response};

#[test]
fn parse_i64_reads_decimal_numbers() {
    assert_eq!(parse_i64("0"), Some(0));
    assert_eq!(parse_i64("42"), Some(42));
    assert_eq!(parse_i64("-42"), Some(-42));
    assert_eq!(parse_i64("+7"), Some(7));
    assert_eq!(parse_i64("007"), Some(7));
    assert_eq!(parse_i64("-0"), Some(0));
}

#[test]
fn parse_i64_bounds() {
    assert_eq!(parse_i64("9223372036854775807"), Some(i64::MAX));
    assert_eq!(parse_i64("-9223372036854775808"), Some(i64::MIN));
    assert_eq!(parse_i64("9223372036854775808"), None);
    assert_eq!(parse_i64("-9223372036854775809"), None);
    assert_eq!(parse_i64("99999999999999999999999"), None);
}

#[test]
fn parse_i64_rejects_malformed_text() {
    for s in ["", "-", "+", "1a", " 1", "1 ", "--1", "+-1", "1.0", "٣", "0x10"] {
        assert_eq!(parse_i64(s), None, "{:?}", s);
    }
}

#[test]
fn parse_i64_agrees_with_std() {
    let samples = [
        "0", "1", "-1", "+1", "12345", "-98765", "", "-", "+", "abc", "12a", "a12",
        "9223372036854775806", "9223372036854775807", "9223372036854775808",
        "-9223372036854775807", "-9223372036854775808", "-9223372036854775809",
        "00000000000000000000000000001", "-00000000000000000000000000009", "+-3", "-+3", "1_000",
    ];
    for s in samples {
        assert_eq!(parse_i64(s), s.parse::<i64>().ok(), "{:?}", s);
    }
}

#[test]
fn list_params_accepts_valid_query() {
    let p = list_params("20", "10", Some("email"), Some(true)).unwrap();
    assert_eq!(p.offset, 20);
    assert_eq!(p.limit, 10);
    assert_eq!(p.order_by, "email");
    assert!(p.direction);
}

#[test]
fn list_params_rejects_each_bad_part() {
    let e = Err(ApiError::InternalServerError);
    assert_eq!(list_params("x", "10", Some(1u8), Some(2u8)).map(|p| p.offset), e);
    assert_eq!(list_params("0", "ten", Some(1u8), Some(2u8)).map(|p| p.offset), e);
    assert_eq!(list_params("0", "10", None::<u8>, Some(2u8)).map(|p| p.offset), e);
    assert_eq!(list_params("0", "10", Some(1u8), None::<u8>).map(|p| p.offset), e);
}

#[test]
fn listing_response_keeps_items() {
    let r = Response::new(vec!["a", "b"]);
    assert_eq!(r.items, vec!["a", "b"]);
}

#[test]
fn flags_response_wraps_items_or_passes_error() {
    let r = respond(Ok(vec![1, 2, 3])).ok().unwrap();
    assert_eq!(r.items, vec![1, 2, 3]);
    assert!(matches!(respond::<u8>(Err(ApiError::Forbidden)), Err(ApiError::Forbidden)));
}
