use infuse::decimal::{format_id, parse_id};
use infuse::replies::{document_link, job_link, route_id, Status};
use infuse::server::listen_address;

#[test]
fn parse_id_accepts_plain_and_signed_numbers() {
    assert_eq!(parse_id("42"), Some(42));
    assert_eq!(parse_id("0"), Some(0));
    assert_eq!(parse_id("-7"), Some(-7));
    assert_eq!(parse_id("+5"), Some(5));
    assert_eq!(parse_id("007"), Some(7));
}

#[test]
fn parse_id_accepts_the_i32_bounds() {
    assert_eq!(parse_id("2147483647"), Some(i32::MAX));
    assert_eq!(parse_id("-2147483648"), Some(i32::MIN));
}

#[test]
fn parse_id_refuses_overflow() {
    assert_eq!(parse_id("2147483648"), None);
    assert_eq!(parse_id("-2147483649"), None);
    assert_eq!(parse_id("99999999999999999999"), None);
}

#[test]
fn parse_id_refuses_malformed_text() {
    assert_eq!(parse_id(""), None);
    assert_eq!(parse_id("-"), None);
    assert_eq!(parse_id("+"), None);
    assert_eq!(parse_id("abc"), None);
    assert_eq!(parse_id("12a"), None);
    assert_eq!(parse_id(" 1"), None);
    assert_eq!(parse_id("1 "), None);
    assert_eq!(parse_id("--1"), None);
    assert_eq!(parse_id("\u{0663}"), None);
}

#[test]
fn parse_id_agrees_with_std() {
    for s in ["1", "-0", "+0", "123456", "-99", "x", "", "+-3", "2147483647", "2147483648"] {
        assert_eq!(parse_id(s), s.parse::<i32>().ok(), "{}", s);
    }
}

#[test]
fn format_id_writes_decimal() {
    assert_eq!(format_id(0), "0");
    assert_eq!(format_id(42), "42");
    assert_eq!(format_id(-7), "-7");
    assert_eq!(format_id(1000), "1000");
    assert_eq!(format_id(i32::MAX), "2147483647");
    assert_eq!(format_id(i32::MIN), "-2147483648");
}

#[test]
fn format_then_parse_round_trips() {
    for n in [0, 1, -1, 9, 10, -10, 12345, i32::MAX, i32::MIN, i32::MIN + 1] {
        assert_eq!(parse_id(&format_id(n)), Some(n));
    }
}

#[test]
fn links_name_their_records() {
    assert_eq!(job_link(7), "/jobs/7");
    assert_eq!(document_link(12), "/documents/12");
    assert_eq!(job_link(-3), "/jobs/-3");
}

#[test]
fn links_route_back_to_their_ids() {
    for id in [0, 5, 2147483647] {
        let link = job_link(id);
        let segment = &link["/jobs/".len()..];
        assert!(matches!(route_id(segment), Ok(n) if n == id));
    }
}

#[test]
fn route_id_answers_not_found_for_bad_ids() {
    match route_id("abc") {
        Err(r) => {
            assert_eq!(r.status, Status::NotFound);
            assert!(r.location.is_none());
            assert!(r.data.is_none());
        }
        Ok(_) => panic!("expected a reply"),
    }
    assert!(matches!(route_id("15"), Ok(15)));
}

#[test]
fn listen_address_is_on_localhost() {
    assert_eq!(listen_address("8080"), "localhost:8080");
    assert_eq!(listen_address(""), "localhost:");
}
