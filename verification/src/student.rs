//! The record model: one student, their enrollment status, and the
//! operations the command surface needs on them.

use vstd::prelude::*;

use crate::date::{date_chars, Date};
use crate::text::{dec_chars, i64_to_dec, str_eq};

verus! {

/// Enrollment state of a student.
#[derive(Clone, Copy, Debug, PartialEq, Eq, Structural)]
pub enum Status {
    Active,
    Inactive,
    Graduated,
    Suspended,
}

/// The canonical name under which a status is stored.
pub open spec fn status_name(st: Status) -> Seq<char> {
    match st {
        Status::Active => "Active"@,
        Status::Inactive => "Inactive"@,
        Status::Graduated => "Graduated"@,
        Status::Suspended => "Suspended"@,
    }
}

/// The status a stored name denotes. An unrecognized name falls back to
/// `Inactive` rather than failing, so old rows stay readable.
pub open spec fn decode_status(s: Seq<char>) -> Status {
    if s == "Active"@ {
        Status::Active
    } else if s == "Inactive"@ {
        Status::Inactive
    } else if s == "Graduated"@ {
        Status::Graduated
    } else if s == "Suspended"@ {
        Status::Suspended
    } else {
        Status::Inactive
    }
}

/// The four canonical names are pairwise distinct, so each status owns its
/// name: decoding the canonical name of any status gives that status back.
pub proof fn lemma_status_round_trip(st: Status)
    ensures
        decode_status(status_name(st)) == st,
{
    reveal_strlit("Active");
    reveal_strlit("Inactive");
    reveal_strlit("Graduated");
    reveal_strlit("Suspended");
    assert("Graduated"@[0] == 'G' && "Suspended"@[0] == 'S');
    assert("Active"@.len() == 6 && "Inactive"@.len() == 8 && "Graduated"@.len() == 9);
}

/// A name that is none of the four canonical ones decodes to the fallback.
pub proof fn lemma_status_fallback(s: Seq<char>)
    requires
        s != "Active"@,
        s != "Inactive"@,
        s != "Graduated"@,
        s != "Suspended"@,
    ensures
        decode_status(s) == Status::Inactive,
{
}

impl Status {
    /// The canonical name, the form the store keeps.
    pub fn canonical_name(&self) -> (r: &'static str)
        ensures
            r@ == status_name(*self),
    {
        match self {
            Status::Active => "Active",
            Status::Inactive => "Inactive",
            Status::Graduated => "Graduated",
            Status::Suspended => "Suspended",
        }
    }

    /// The label under which a status is shown to the user.
    pub fn label(&self) -> (r: &'static str)
        ensures
            r@ == status_label(*self),
    {
        match self {
            Status::Active => "Ativo",
            Status::Inactive => "Inativo",
            Status::Graduated => "Graduado",
            Status::Suspended => "Suspenso",
        }
    }
}

/// The user-facing label of a status.
pub open spec fn status_label(st: Status) -> Seq<char> {
    match st {
        Status::Active => "Ativo"@,
        Status::Inactive => "Inativo"@,
        Status::Graduated => "Graduado"@,
        Status::Suspended => "Suspenso"@,
    }
}

/// Decodes a stored status name, falling back to `Inactive` on anything
/// unrecognized.
pub fn status_from_name(s: &str) -> (r: Status)
    ensures
        r == decode_status(s@),
{
    if str_eq(s, "Active") {
        Status::Active
    } else if str_eq(s, "Inactive") {
        Status::Inactive
    } else if str_eq(s, "Graduated") {
        Status::Graduated
    } else if str_eq(s, "Suspended") {
        Status::Suspended
    } else {
        Status::Inactive
    }
}

/// One student record. Every business field is optional so that an update
/// can carry only the fields it changes; `cr_bits` holds the cumulative
/// grade average as the bit pattern of a 32-bit IEEE-754 value, which the
/// unverified rim converts to and from a float at the edges.
#[derive(Debug)]
pub struct Student {
    pub id: Option<i64>,
    pub name: Option<String>,
    pub birth_date: Option<Date>,
    pub cr_bits: Option<u32>,
    pub status: Option<Status>,
}

/// The mathematical value of a student record.
pub struct StudentV {
    pub id: Option<i64>,
    pub name: Option<Seq<char>>,
    pub birth_date: Option<Date>,
    pub cr_bits: Option<u32>,
    pub status: Option<Status>,
}

impl View for Student {
    type V = StudentV;

    open spec fn view(&self) -> StudentV {
        StudentV {
            id: self.id,
            name: self.name.deep_view(),
            birth_date: self.birth_date,
            cr_bits: self.cr_bits,
            status: self.status,
        }
    }
}

impl Student {
    /// A student's date, when present, names a calendar day.
    pub open spec fn wf(self) -> bool {
        self@.birth_date matches Some(d) ==> d.wf()
    }

    /// Builds a record that has not been persisted: it carries no identity.
    pub fn new(
        name: Option<String>,
        birth_date: Option<Date>,
        cr_bits: Option<u32>,
        status: Option<Status>,
    ) -> (r: Student)
        ensures
            r@.id is None,
            r@.name == name.deep_view(),
            r@.birth_date == birth_date,
            r@.cr_bits == cr_bits,
            r@.status == status,
    {
        Student { id: None, name, birth_date, cr_bits, status }
    }

    /// The identity the store assigned, or nothing before persistence.
    pub fn get_id(&self) -> (r: Option<i64>)
        ensures
            r == self@.id,
    {
        self.id
    }

    /// Assigns the identity; done once, with a key the store handed out.
    pub fn set_id(&mut self, id: i64)
        ensures
            final(self)@ == (StudentV { id: Some(id), ..old(self)@ }),
    {
        self.id = Some(id);
    }

    /// The record an update writes back: every field this patch carries
    /// replaces the stored one, every field it leaves unset keeps the stored
    /// value, and the identity is the stored record's.
    pub fn patched(&self, patch: &Student) -> (r: Student)
        ensures
            r@ == patched_v(self@, patch@),
    {
        Student {
            id: self.id,
            name: match &patch.name {
                Some(n) => Some(n.clone()),
                None => clone_opt_string(&self.name),
            },
            birth_date: match patch.birth_date {
                Some(d) => Some(d),
                None => self.birth_date,
            },
            cr_bits: match patch.cr_bits {
                Some(c) => Some(c),
                None => self.cr_bits,
            },
            status: match patch.status {
                Some(st) => Some(st),
                None => self.status,
            },
        }
    }
}

/// The identity as shown to the user: the assigned key, or -1 before one
/// is assigned.
pub open spec fn id_chars(id: Option<i64>) -> Seq<char> {
    match id {
        Some(i) => dec_chars(i as int),
        None => dec_chars(-1),
    }
}

/// The labeled multi-line block a record is shown as, one line per field,
/// with a placeholder for each absent field. `cr_text` is the rendered
/// grade average, used only when the record carries one: the rim formats
/// the float, everything else is assembled here.
pub open spec fn display_chars(sv: StudentV, cr_text: Seq<char>) -> Seq<char> {
    "\nID: "@ + id_chars(sv.id) + "\n"@ + (match sv.name {
        Some(n) => "Nome: "@ + n,
        None => "Nome: Não informado"@,
    }) + "\n"@ + (match sv.birth_date {
        Some(d) => "Data de Nascimento (dd-mm-yy): "@ + date_chars(d),
        None => "Data de Nascimento: Não informado"@,
    }) + "\n"@ + (match sv.cr_bits {
        Some(_) => "CR: "@ + cr_text,
        None => "CR: Não informado"@,
    }) + "\n"@ + (match sv.status {
        Some(st) => "Status: "@ + status_label(st),
        None => "Status: Não informado"@,
    }) + "\n"@
}

impl Student {
    /// Renders the record as its user-facing block. `cr_text` is the
    /// already-rendered grade average; it is ignored when the record
    /// carries none.
    #[verifier::rlimit(100)]
    pub fn display(&self, cr_text: &str) -> (r: String)
        requires
            self.wf(),
        ensures
            r@ == display_chars(self@, cr_text@),
    {
        let mut s = String::from_str("\nID: ");
        let id_text = match self.id {
            Some(i) => i64_to_dec(i),
            None => i64_to_dec(-1),
        };
        s.append(id_text.as_str());
        s.append("\n");
        match &self.name {
            Some(n) => {
                s.append("Nome: ");
                s.append(n.as_str());
            },
            None => s.append("Nome: Não informado"),
        }
        s.append("\n");
        match self.birth_date {
            Some(d) => {
                s.append("Data de Nascimento (dd-mm-yy): ");
                s.append(d.format_iso().as_str());
            },
            None => s.append("Data de Nascimento: Não informado"),
        }
        s.append("\n");
        match self.cr_bits {
            Some(_) => {
                s.append("CR: ");
                s.append(cr_text);
            },
            None => s.append("CR: Não informado"),
        }
        s.append("\n");
        match self.status {
            Some(st) => {
                s.append("Status: ");
                s.append(st.label());
            },
            None => s.append("Status: Não informado"),
        }
        s.append("\n");
        proof {
            assert(s@ =~= display_chars(self@, cr_text@));
        }
        s
    }
}

/// What a partial update writes over a stored record: each field the patch
/// carries, the stored field where the patch is silent, and always the
/// stored record's identity.
pub open spec fn patched_v(stored: StudentV, patch: StudentV) -> StudentV {
    StudentV {
        id: stored.id,
        name: if patch.name is Some {
            patch.name
        } else {
            stored.name
        },
        birth_date: if patch.birth_date is Some {
            patch.birth_date
        } else {
            stored.birth_date
        },
        cr_bits: if patch.cr_bits is Some {
            patch.cr_bits
        } else {
            stored.cr_bits
        },
        status: if patch.status is Some {
            patch.status
        } else {
            stored.status
        },
    }
}

/// Clones an optional owned string, keeping its value.
pub fn clone_opt_string(o: &Option<String>) -> (r: Option<String>)
    ensures
        r.deep_view() == o.deep_view(),
{
    match o {
        Some(s) => Some(s.clone()),
        None => None,
    }
}

} // verus!
