//! Tests of the persistence gateway against a real SQLite store.

use student_records::date::Date;
use student_records::store::{Persistence, StoreError};
use student_records::student::{Status, Student};

fn date(year: u16, month: u8, day: u8) -> Date {
    Date::from_ymd(year, month, day).unwrap()
}

fn ana() -> Student {
    Student::new(
        Some("Ana".to_string()),
        Some(date(2000, 1, 1)),
        Some(8.5f32.to_bits()),
        Some(Status::Active),
    )
}

fn mem_store() -> Persistence {
    Persistence::new(":memory:").unwrap()
}

#[test]
fn create_assigns_identity() {
    let mut p = mem_store();
    let id = p.create(&ana()).unwrap();
    assert!(id >= 1);
}

#[test]
fn create_then_read_round_trips() {
    let mut p = mem_store();
    let id = p.create(&ana()).unwrap();
    let st = p.read_one(id).unwrap().expect("stored record");
    assert_eq!(st.get_id(), Some(id));
    assert_eq!(st.name, Some("Ana".to_string()));
    assert_eq!(st.birth_date, Some(date(2000, 1, 1)));
    assert_eq!(st.cr_bits, Some(8.5f32.to_bits()));
    assert_eq!(f32::from_bits(st.cr_bits.unwrap()), 8.5f32);
    assert_eq!(st.status, Some(Status::Active));
}

#[test]
fn repeated_reads_agree() {
    let mut p = mem_store();
    let id = p.create(&ana()).unwrap();
    let first = p.read_one(id).unwrap().expect("stored record");
    let second = p.read_one(id).unwrap().expect("stored record");
    assert_eq!(first.get_id(), second.get_id());
    assert_eq!(first.name, second.name);
    assert_eq!(first.birth_date, second.birth_date);
    assert_eq!(first.cr_bits, second.cr_bits);
    assert_eq!(first.status, second.status);
}

#[test]
fn cr_is_stored_exactly() {
    let mut p = mem_store();
    let mut st = ana();
    st.cr_bits = Some(0.1f32.to_bits());
    let id = p.create(&st).unwrap();
    let back = p.read_one(id).unwrap().unwrap();
    assert_eq!(f32::from_bits(back.cr_bits.unwrap()), 0.1f32);
}

#[test]
fn read_one_never_created_is_not_found() {
    let p = mem_store();
    assert_eq!(p.read_one(12345).unwrap().is_none(), true);
}

#[test]
fn partial_update_keeps_unset_fields() {
    let mut p = mem_store();
    let id = p.create(&ana()).unwrap();
    let stored = p.read_one(id).unwrap().expect("stored record");
    let patch = Student::new(None, None, Some(9.0f32.to_bits()), None);
    let merged = stored.patched(&patch);
    p.update(&merged).unwrap();
    let after = p.read_one(id).unwrap().expect("stored record");
    assert_eq!(after.get_id(), Some(id));
    assert_eq!(after.name, Some("Ana".to_string()));
    assert_eq!(after.birth_date, Some(date(2000, 1, 1)));
    assert_eq!(after.cr_bits, Some(9.0f32.to_bits()));
    assert_eq!(after.status, Some(Status::Active));
}

#[test]
fn update_rewrites_every_field() {
    let mut p = mem_store();
    let id = p.create(&ana()).unwrap();
    let mut replacement = Student::new(
        Some("Bia".to_string()),
        Some(date(1999, 5, 4)),
        Some(7.25f32.to_bits()),
        Some(Status::Graduated),
    );
    replacement.set_id(id);
    p.update(&replacement).unwrap();
    let after = p.read_one(id).unwrap().unwrap();
    assert_eq!(after.name, Some("Bia".to_string()));
    assert_eq!(after.birth_date, Some(date(1999, 5, 4)));
    assert_eq!(after.cr_bits, Some(7.25f32.to_bits()));
    assert_eq!(after.status, Some(Status::Graduated));
}

#[test]
fn update_missing_identity_reports_not_found() {
    let mut p = mem_store();
    let mut st = ana();
    st.set_id(999);
    assert_eq!(p.update(&st), Err(StoreError::NotFound));
}

#[test]
fn delete_then_read_is_not_found() {
    let mut p = mem_store();
    let id = p.create(&ana()).unwrap();
    p.delete(id).unwrap();
    assert_eq!(p.read_one(id).unwrap().is_none(), true);
}

#[test]
fn delete_missing_identity_is_quiet() {
    let mut p = mem_store();
    assert_eq!(p.delete(4242), Ok(()));
}

#[test]
fn read_all_counts_creates_minus_deletes() {
    let mut p = mem_store();
    assert_eq!(p.read_all().unwrap().len(), 0);
    let a = p.create(&ana()).unwrap();
    let b = p.create(&ana()).unwrap();
    let c = p.create(&ana()).unwrap();
    assert_eq!(p.read_all().unwrap().len(), 3);
    p.delete(b).unwrap();
    assert_eq!(p.read_all().unwrap().len(), 2);
    p.delete(a).unwrap();
    p.delete(c).unwrap();
    assert_eq!(p.read_all().unwrap().len(), 0);
}

#[test]
fn read_all_returns_each_record_once() {
    let mut p = mem_store();
    let a = p.create(&ana()).unwrap();
    let other = Student::new(
        Some("Bia".to_string()),
        Some(date(1998, 7, 15)),
        Some(6.5f32.to_bits()),
        Some(Status::Suspended),
    );
    let b = p.create(&other).unwrap();
    let all = p.read_all().unwrap();
    assert_eq!(all.len(), 2);
    let mut ids: Vec<i64> = all.iter().map(|s| s.get_id().unwrap()).collect();
    ids.sort();
    let mut expected = vec![a, b];
    expected.sort();
    assert_eq!(ids, expected);
}

#[test]
fn unreadable_location_is_unavailable() {
    let r = Persistence::new("/nonexistent_dir_for_this_test/records.db");
    assert!(matches!(r, Err(StoreError::StorageUnavailable)));
}

#[test]
fn malformed_stored_fields_degrade() {
    // An old store may hold rows this crate never wrote: plant one through
    // a raw connection first, then open the gateway over it.
    let uri = "file:degrade_test_db?mode=memory&cache=shared";
    let raw = rusqlite::Connection::open(uri).unwrap();
    raw.execute(
        "CREATE TABLE IF NOT EXISTS students (
            id INTEGER PRIMARY KEY AUTOINCREMENT,
            name TEXT, birth_date TEXT, cr INTEGER, status TEXT)",
        [],
    )
    .unwrap();
    raw.execute(
        "INSERT INTO students (name, birth_date, cr, status) VALUES (NULL, '2000-13-45', 'abc', 'Bogus')",
        [],
    )
    .unwrap();
    let id = raw.last_insert_rowid();
    let mut p = Persistence::new(uri).unwrap();
    let st = p.read_one(id).unwrap().expect("row is readable");
    assert_eq!(st.get_id(), Some(id));
    assert_eq!(st.name, None);
    assert_eq!(st.birth_date, None);
    assert_eq!(st.cr_bits, None);
    assert_eq!(st.status, Some(Status::Inactive));
    let fresh = p.create(&ana()).unwrap();
    assert!(fresh != id);
}

#[test]
fn stored_status_text_round_trips() {
    let mut p = mem_store();
    for st in [Status::Active, Status::Inactive, Status::Graduated, Status::Suspended] {
        let id = p.create(&Student::new(None, None, None, Some(st))).unwrap();
        let back = p.read_one(id).unwrap().unwrap();
        assert_eq!(back.status, Some(st));
    }
}
