//! The row shape the store keeps, and the coercions between rows and
//! student records: dates travel as `YYYY-MM-DD` text, statuses as their
//! canonical names, and a field that does not coerce degrades to absent
//! instead of failing the whole row.

use vstd::prelude::*;

use crate::date::{date_chars, parse_date_chars, parse_iso, lemma_parse_date_chars_round_trip};
use crate::student::{
    clone_opt_string, decode_status, lemma_status_round_trip, status_from_name, status_name,
    Status, Student, StudentV,
};

verus! {

/// The mathematical value of one stored row, besides its key:
/// name, birth date text, grade-average bits, status text.
pub type RowV = (Option<Seq<char>>, Option<Seq<char>>, Option<u32>, Option<Seq<char>>);

/// One row of the student table, besides its key. Each column is optional:
/// the schema is lenient, and absent stands in for anything unreadable.
#[derive(Debug)]
pub struct Row {
    pub name: Option<String>,
    pub birth_date: Option<String>,
    pub cr_bits: Option<u32>,
    pub status: Option<String>,
}

impl View for Row {
    type V = RowV;

    open spec fn view(&self) -> RowV {
        (self.name.deep_view(), self.birth_date.deep_view(), self.cr_bits, self.status.deep_view())
    }
}

/// The row a student's business fields are stored as.
pub open spec fn row_of(sv: StudentV) -> RowV {
    (
        sv.name,
        match sv.birth_date {
            Some(d) => Some(date_chars(d)),
            None => None,
        },
        sv.cr_bits,
        match sv.status {
            Some(st) => Some(status_name(st)),
            None => None,
        },
    )
}

/// The student a stored row denotes: unparseable date text reads as absent,
/// status text falls back to `Inactive`, and the identity is the row's key.
pub open spec fn student_of(id: i64, r: RowV) -> StudentV {
    StudentV {
        id: Some(id),
        name: r.0,
        birth_date: match r.1 {
            Some(s) => parse_date_chars(s),
            None => None,
        },
        cr_bits: r.2,
        status: match r.3 {
            Some(s) => Some(decode_status(s)),
            None => None,
        },
    }
}

/// Storing a record and reading it back preserves every business field
/// exactly, and the record carries the key it was stored under.
pub proof fn lemma_row_round_trip(sv: StudentV, id: i64)
    requires
        sv.birth_date matches Some(d) ==> d.wf(),
    ensures
        student_of(id, row_of(sv)) == (StudentV { id: Some(id), ..sv }),
{
    if let Some(d) = sv.birth_date {
        lemma_parse_date_chars_round_trip(d);
    }
    if let Some(st) = sv.status {
        lemma_status_round_trip(st);
    }
}

/// Converts a record's business fields into the row the store writes.
pub fn to_row(st: &Student) -> (r: Row)
    requires
        st.wf(),
    ensures
        r@ == row_of(st@),
{
    Row {
        name: clone_opt_string(&st.name),
        birth_date: match &st.birth_date {
            Some(d) => Some(d.format_iso()),
            None => None,
        },
        cr_bits: st.cr_bits,
        status: match &st.status {
            Some(s) => Some(String::from_str(s.canonical_name())),
            None => None,
        },
    }
}

/// Reads a stored row back into a record carrying the row's key.
pub fn to_student(id: i64, r: &Row) -> (st: Student)
    ensures
        st@ == student_of(id, r@),
        st.wf(),
{
    let mut st = Student::new(
        clone_opt_string(&r.name),
        match &r.birth_date {
            Some(s) => parse_iso(s.as_str()),
            None => None,
        },
        r.cr_bits,
        match &r.status {
            Some(s) => Some(status_from_name(s.as_str())),
            None => None,
        },
    );
    st.set_id(id);
    st
}

} // verus!
