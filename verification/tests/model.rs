//! Tests of the record model: dates, statuses, rendering, and partial
//! update merging.

use student_records::date::{parse_iso, Date};
use student_records::student::{status_from_name, Status, Student};
use student_records::text::{i64_to_dec, str_eq};

fn date(year: u16, month: u8, day: u8) -> Date {
    Date::from_ymd(year, month, day).unwrap()
}

#[test]
fn date_parse_valid() {
    assert_eq!(parse_iso("2000-01-01"), Some(date(2000, 1, 1)));
    assert_eq!(parse_iso("1987-12-31"), Some(date(1987, 12, 31)));
    assert_eq!(parse_iso("0001-02-03"), Some(date(1, 2, 3)));
    assert_eq!(parse_iso("9999-12-31"), Some(date(9999, 12, 31)));
}

#[test]
fn date_parse_leap_years() {
    assert_eq!(parse_iso("2000-02-29"), Some(date(2000, 2, 29)));
    assert_eq!(parse_iso("2004-02-29"), Some(date(2004, 2, 29)));
    assert_eq!(parse_iso("1900-02-29"), None);
    assert_eq!(parse_iso("2001-02-29"), None);
    assert_eq!(parse_iso("2004-02-30"), None);
}

#[test]
fn date_parse_malformed() {
    assert_eq!(parse_iso(""), None);
    assert_eq!(parse_iso("2000-1-1"), None);
    assert_eq!(parse_iso("2000/01/01"), None);
    assert_eq!(parse_iso("garbage in"), None);
    assert_eq!(parse_iso("2000-13-01"), None);
    assert_eq!(parse_iso("2000-00-10"), None);
    assert_eq!(parse_iso("2000-01-32"), None);
    assert_eq!(parse_iso("2000-01-00"), None);
    assert_eq!(parse_iso("2000-04-31"), None);
    assert_eq!(parse_iso("2000-01-011"), None);
}

#[test]
fn date_format() {
    assert_eq!(date(2000, 1, 1).format_iso(), "2000-01-01");
    assert_eq!(date(1, 2, 3).format_iso(), "0001-02-03");
    assert_eq!(date(9999, 12, 31).format_iso(), "9999-12-31");
}

#[test]
fn date_round_trip() {
    for (y, m, d) in [(2000u16, 1u8, 1u8), (1999, 2, 28), (2024, 2, 29), (1, 1, 1)] {
        let dt = date(y, m, d);
        assert_eq!(parse_iso(&dt.format_iso()), Some(dt));
    }
}

#[test]
fn date_from_ymd_rejects() {
    assert_eq!(Date::from_ymd(2000, 13, 1), None);
    assert_eq!(Date::from_ymd(2000, 0, 1), None);
    assert_eq!(Date::from_ymd(2000, 2, 30), None);
    assert_eq!(Date::from_ymd(10000, 1, 1), None);
}

#[test]
fn status_round_trips() {
    for st in [Status::Active, Status::Inactive, Status::Graduated, Status::Suspended] {
        assert_eq!(status_from_name(st.canonical_name()), st);
    }
}

#[test]
fn status_unrecognized_falls_back() {
    assert_eq!(status_from_name("None"), Status::Inactive);
    assert_eq!(status_from_name(""), Status::Inactive);
    assert_eq!(status_from_name("active"), Status::Inactive);
    assert_eq!(status_from_name("Enrolled"), Status::Inactive);
}

#[test]
fn status_labels() {
    assert_eq!(Status::Active.label(), "Ativo");
    assert_eq!(Status::Inactive.label(), "Inativo");
    assert_eq!(Status::Graduated.label(), "Graduado");
    assert_eq!(Status::Suspended.label(), "Suspenso");
}

#[test]
fn new_student_has_no_id() {
    let st = Student::new(Some("Ana".to_string()), None, None, None);
    assert_eq!(st.get_id(), None);
}

#[test]
fn set_id_assigns() {
    let mut st = Student::new(None, None, None, None);
    st.set_id(41);
    assert_eq!(st.get_id(), Some(41));
}

#[test]
fn patched_merges_fields() {
    let mut stored = Student::new(
        Some("Ana".to_string()),
        Some(date(2000, 1, 1)),
        Some(8.5f32.to_bits()),
        Some(Status::Active),
    );
    stored.set_id(3);
    let patch = Student::new(None, None, Some(9.0f32.to_bits()), None);
    let merged = stored.patched(&patch);
    assert_eq!(merged.get_id(), Some(3));
    assert_eq!(merged.name, Some("Ana".to_string()));
    assert_eq!(merged.birth_date, Some(date(2000, 1, 1)));
    assert_eq!(merged.cr_bits, Some(9.0f32.to_bits()));
    assert_eq!(merged.status, Some(Status::Active));
}

#[test]
fn patched_replaces_every_given_field() {
    let mut stored = Student::new(
        Some("Ana".to_string()),
        Some(date(2000, 1, 1)),
        Some(8.5f32.to_bits()),
        Some(Status::Active),
    );
    stored.set_id(9);
    let patch = Student::new(
        Some("Bia".to_string()),
        Some(date(1999, 5, 4)),
        Some(7.0f32.to_bits()),
        Some(Status::Graduated),
    );
    let merged = stored.patched(&patch);
    assert_eq!(merged.get_id(), Some(9));
    assert_eq!(merged.name, Some("Bia".to_string()));
    assert_eq!(merged.birth_date, Some(date(1999, 5, 4)));
    assert_eq!(merged.cr_bits, Some(7.0f32.to_bits()));
    assert_eq!(merged.status, Some(Status::Graduated));
}

#[test]
fn render_full_record() {
    let mut st = Student::new(
        Some("Ana".to_string()),
        Some(date(2000, 1, 1)),
        Some(8.5f32.to_bits()),
        Some(Status::Active),
    );
    st.set_id(7);
    let expected = "\nID: 7\nNome: Ana\nData de Nascimento (dd-mm-yy): 2000-01-01\nCR: 8.5\nStatus: Ativo\n";
    assert_eq!(st.display("8.5"), expected);
}

#[test]
fn render_empty_record() {
    let st = Student::new(None, None, None, None);
    let expected = "\nID: -1\nNome: Não informado\nData de Nascimento: Não informado\nCR: Não informado\nStatus: Não informado\n";
    assert_eq!(st.display("unused"), expected);
}

#[test]
fn decimal_rendering() {
    assert_eq!(i64_to_dec(0), "0");
    assert_eq!(i64_to_dec(7), "7");
    assert_eq!(i64_to_dec(-1), "-1");
    assert_eq!(i64_to_dec(123456), "123456");
    assert_eq!(i64_to_dec(i64::MAX), "9223372036854775807");
    assert_eq!(i64_to_dec(i64::MIN), "-9223372036854775808");
}

#[test]
fn string_comparison() {
    assert!(str_eq("", ""));
    assert!(str_eq("Active", "Active"));
    assert!(!str_eq("Active", "Inactive"));
    assert!(!str_eq("Ativo", "Ativa"));
    assert!(str_eq("não", "não"));
}
