//! The persistence gateway: sole owner of the storage connection, creating
//! the schema on open and carrying the four CRUD operations. Its view is
//! the stored table, a finite map from assigned identity to row, and every
//! operation's contract says what it does to that map.

use vstd::prelude::*;

use crate::db::{
    delete_row, ensure_table, insert_row, open_connection, select_all_rows, select_one, table_of,
    update_row,
};
use crate::row::{lemma_row_round_trip, row_of, student_of, to_row, to_student, Row, RowV};
use crate::student::{patched_v, Student, StudentV};

verus! {

/// Why a storage operation failed. Absence of a record is an error only
/// for `update`, which must find its target; `read_one` and `delete`
/// report or skip absence without failing.
#[derive(Clone, Copy, Debug, PartialEq, Eq, Structural)]
pub enum StoreError {
    /// The storage location could not be opened or initialized.
    StorageUnavailable,
    /// A query failed.
    ReadError,
    /// A write statement failed.
    WriteError,
    /// The record an update named is not stored.
    NotFound,
}

/// The gateway. Holds the one connection for the process lifetime.
pub struct Persistence {
    conn: rusqlite::Connection,
}

impl View for Persistence {
    type V = Map<i64, RowV>;

    closed spec fn view(&self) -> Map<i64, RowV> {
        table_of(self.conn)
    }
}

impl Persistence {
    /// The stored table is finite, as a table is.
    pub open spec fn wf(self) -> bool {
        self@.dom().finite()
    }

    /// Opens the storage location and makes sure the student table exists.
    pub fn new(path: &str) -> (r: Result<Persistence, StoreError>)
        ensures
            r matches Ok(p) ==> p.wf(),
            r matches Err(e) ==> e == StoreError::StorageUnavailable,
    {
        let mut conn = match open_connection(path) {
            Ok(c) => c,
            Err(_) => {
                return Err(StoreError::StorageUnavailable);
            },
        };
        match ensure_table(&mut conn) {
            Ok(_) => Ok(Persistence { conn }),
            Err(_) => Err(StoreError::StorageUnavailable),
        }
    }

    /// Inserts a new record. The store assigns the identity: a fresh key,
    /// at least 1, never one the table already holds, returned to the
    /// caller. The input never carries an identity.
    pub fn create(&mut self, student: &Student) -> (r: Result<i64, StoreError>)
        requires
            old(self).wf(),
            student.wf(),
            student@.id is None,
        ensures
            final(self).wf(),
            r matches Ok(id) ==> 1 <= id && !old(self)@.contains_key(id) && final(self)@ == old(
                self,
            )@.insert(id, row_of(student@)),
            r matches Err(e) ==> final(self)@ == old(self)@ && e == StoreError::WriteError,
    {
        let row = to_row(student);
        match insert_row(&mut self.conn, &row) {
            Ok(id) => Ok(id),
            Err(_) => Err(StoreError::WriteError),
        }
    }

    /// Returns the record stored under the identity, or nothing — absence
    /// is a normal answer, not an error; errors come only from the store
    /// itself failing.
    pub fn read_one(&self, id: i64) -> (r: Result<Option<Student>, StoreError>)
        requires
            self.wf(),
        ensures
            match r {
                Ok(Some(st)) => self@.contains_key(id) && st@ == student_of(id, self@[id])
                    && st.wf(),
                Ok(None) => !self@.contains_key(id),
                Err(e) => e == StoreError::ReadError,
            },
    {
        match select_one(&self.conn, id) {
            Ok(Some(row)) => Ok(Some(to_student(id, &row))),
            Ok(None) => Ok(None),
            Err(_) => Err(StoreError::ReadError),
        }
    }

    /// Returns every stored record, each exactly once, in storage order:
    /// as many records as the table holds, each carrying its key and the
    /// fields stored under it.
    pub fn read_all(&self) -> (r: Result<Vec<Student>, StoreError>)
        requires
            self.wf(),
        ensures
            match r {
                Ok(v) => {
                    &&& v@.len() == self@.dom().len()
                    &&& forall|i: int|
                        0 <= i < v@.len() ==> ((#[trigger] v@[i])@.id matches Some(k)
                            && self@.contains_key(k) && v@[i]@ == student_of(k, self@[k])
                            && v@[i].wf())
                    &&& forall|i: int, j: int|
                        0 <= i < j < v@.len() ==> v@[i]@.id != v@[j]@.id
                    &&& forall|k: i64|
                        self@.contains_key(k) ==> exists|i: int|
                            0 <= i < v@.len() && (#[trigger] v@[i])@.id == Some(k)
                },
                Err(e) => e == StoreError::ReadError,
            },
    {
        let pairs = match select_all_rows(&self.conn) {
            Ok(p) => p,
            Err(_) => {
                return Err(StoreError::ReadError);
            },
        };
        let mut out: Vec<Student> = Vec::new();
        let mut i: usize = 0;
        while i < pairs.len()
            invariant
                self.wf(),
                out@.len() == i,
                0 <= i <= pairs@.len(),
                forall|n: int|
                    0 <= n < pairs@.len() ==> self@.contains_key((#[trigger] pairs@[n]).0)
                        && pairs@[n].1@ == self@[pairs@[n].0],
                forall|n: int, m: int| 0 <= n < m < pairs@.len() ==> pairs@[n].0 != pairs@[m].0,
                forall|k: i64|
                    self@.contains_key(k) ==> exists|n: int|
                        0 <= n < pairs@.len() && (#[trigger] pairs@[n]).0 == k,
                forall|n: int|
                    0 <= n < i ==> (#[trigger] out@[n])@ == student_of(
                        pairs@[n].0,
                        self@[pairs@[n].0],
                    ) && out@[n].wf() && out@[n]@.id == Some(pairs@[n].0),
            decreases pairs@.len() - i,
        {
            let pair = &pairs[i];
            out.push(to_student(pair.0, &pair.1));
            i = i + 1;
        }
        proof {
            let keys = pairs@.map_values(|p: (i64, Row)| p.0);
            assert forall|k: i64| self@.contains_key(k) implies exists|n: int|
                0 <= n < keys.len() && #[trigger] keys[n] == k by {
                let n = choose|n: int| 0 <= n < pairs@.len() && (#[trigger] pairs@[n]).0 == k;
                assert(keys[n] == k);
            }
            lemma_len_matches_dom(keys, self@);
            assert forall|k: i64| self@.contains_key(k) implies exists|n: int|
                0 <= n < out@.len() && (#[trigger] out@[n])@.id == Some(k) by {
                let n = choose|n: int| 0 <= n < pairs@.len() && (#[trigger] pairs@[n]).0 == k;
                assert(out@[n]@.id == Some(k));
            }
        }
        Ok(out)
    }

    /// Rewrites every business field of the record stored under the given
    /// record's identity. An update must find its target: when no record
    /// has the identity, it reports `NotFound` and changes nothing.
    pub fn update(&mut self, student: &Student) -> (r: Result<(), StoreError>)
        requires
            old(self).wf(),
            student.wf(),
            student@.id matches Some(_),
        ensures
            final(self).wf(),
            r is Ok ==> old(self)@.contains_key(student@.id.unwrap()) && final(self)@ == old(
                self,
            )@.insert(student@.id.unwrap(), row_of(student@)),
            r matches Err(e) ==> final(self)@ == old(self)@ && (e == StoreError::NotFound || e
                == StoreError::WriteError),
            r == Err::<(), StoreError>(StoreError::NotFound) ==> !old(self)@.contains_key(
                student@.id.unwrap(),
            ),
            old(self)@.contains_key(student@.id.unwrap()) && r is Err ==> r == Err::<
                (),
                StoreError,
            >(StoreError::WriteError),
    {
        let id = match student.get_id() {
            Some(id) => id,
            None => {
                return Err(StoreError::NotFound);
            },
        };
        let row = to_row(student);
        match update_row(&mut self.conn, id, &row) {
            Ok(n) => if n == 1 {
                Ok(())
            } else {
                Err(StoreError::NotFound)
            },
            Err(_) => Err(StoreError::WriteError),
        }
    }

    /// Removes the record stored under the identity; removing an absent
    /// identity is a no-op, not an error.
    pub fn delete(&mut self, id: i64) -> (r: Result<(), StoreError>)
        requires
            old(self).wf(),
        ensures
            final(self).wf(),
            r is Ok ==> final(self)@ == old(self)@.remove(id),
            r matches Err(e) ==> final(self)@ == old(self)@ && e == StoreError::WriteError,
    {
        match delete_row(&mut self.conn, id) {
            Ok(_) => Ok(()),
            Err(_) => Err(StoreError::WriteError),
        }
    }
}

/// One successful mutation of the stored table, as the contracts of
/// `create` and `delete` describe it: a create inserts a row under a fresh
/// key, a delete removes a held key.
pub enum StoreOp {
    Create { id: i64, row: RowV },
    Delete { id: i64 },
}

/// Whether the operation succeeds on this table: a create's key is fresh,
/// a delete's key is held.
pub open spec fn op_ok(m: Map<i64, RowV>, op: StoreOp) -> bool {
    match op {
        StoreOp::Create { id, .. } => !m.contains_key(id),
        StoreOp::Delete { id } => m.contains_key(id),
    }
}

/// The table after the operation.
pub open spec fn apply_op(m: Map<i64, RowV>, op: StoreOp) -> Map<i64, RowV> {
    match op {
        StoreOp::Create { id, row } => m.insert(id, row),
        StoreOp::Delete { id } => m.remove(id),
    }
}

/// Whether every operation of the sequence succeeds on the table it meets.
pub open spec fn ops_ok(m: Map<i64, RowV>, ops: Seq<StoreOp>) -> bool
    decreases ops.len(),
{
    ops.len() == 0 || (op_ok(m, ops[0]) && ops_ok(apply_op(m, ops[0]), ops.drop_first()))
}

/// The table after the whole sequence.
pub open spec fn apply_ops(m: Map<i64, RowV>, ops: Seq<StoreOp>) -> Map<i64, RowV>
    decreases ops.len(),
{
    if ops.len() == 0 {
        m
    } else {
        apply_ops(apply_op(m, ops[0]), ops.drop_first())
    }
}

/// How many creates the sequence holds.
pub open spec fn n_creates(ops: Seq<StoreOp>) -> int
    decreases ops.len(),
{
    if ops.len() == 0 {
        0
    } else {
        (if ops[0] is Create {
            1int
        } else {
            0int
        }) + n_creates(ops.drop_first())
    }
}

/// How many deletes the sequence holds.
pub open spec fn n_deletes(ops: Seq<StoreOp>) -> int
    decreases ops.len(),
{
    if ops.len() == 0 {
        0
    } else {
        (if ops[0] is Delete {
            1int
        } else {
            0int
        }) + n_deletes(ops.drop_first())
    }
}

/// Over any sequence of successful creates and deletes, the table ends with
/// its starting count plus the creates minus the deletes — the length
/// `read_all` then reports.
pub proof fn lemma_count_after_ops(m: Map<i64, RowV>, ops: Seq<StoreOp>)
    requires
        m.dom().finite(),
        ops_ok(m, ops),
    ensures
        apply_ops(m, ops).dom().finite(),
        apply_ops(m, ops).dom().len() == m.dom().len() + n_creates(ops) - n_deletes(ops),
    decreases ops.len(),
{
    if ops.len() > 0 {
        let m1 = apply_op(m, ops[0]);
        match ops[0] {
            StoreOp::Create { id, row } => {
                assert(m1.dom() =~= m.dom().insert(id));
                assert(m1.dom().len() == m.dom().len() + 1);
            },
            StoreOp::Delete { id } => {
                assert(m1.dom() =~= m.dom().remove(id));
                assert(m1.dom().len() == m.dom().len() - 1);
            },
        }
        lemma_count_after_ops(m1, ops.drop_first());
    }
}

/// Reading the key a create assigned finds the created record: its identity
/// is that key and its business fields are the ones given at creation —
/// and, the stored table being the only thing a read looks at, every
/// further read of that key answers the same.
pub proof fn lemma_read_after_create(m: Map<i64, RowV>, id: i64, sv: StudentV)
    requires
        !m.contains_key(id),
        sv.birth_date matches Some(d) ==> d.wf(),
    ensures
        m.insert(id, row_of(sv)).contains_key(id),
        student_of(id, m.insert(id, row_of(sv))[id]) == (StudentV {
            id: Some(id),
            ..sv
        }),
{
    lemma_row_round_trip(sv, id);
}

/// A partial update ends with exactly the patched record stored: each field
/// the patch carries reads back as the patch gave it, each field it left
/// unset reads back as it was stored, under the same identity.
pub proof fn lemma_partial_update(
    m: Map<i64, RowV>,
    id: i64,
    stored: StudentV,
    patch: StudentV,
)
    requires
        m.contains_key(id),
        stored == student_of(id, m[id]),
        stored.birth_date matches Some(d) ==> d.wf(),
        patch.birth_date matches Some(d) ==> d.wf(),
    ensures
        ({
            let merged = patched_v(stored, patch);
            let after = student_of(id, m.insert(id, row_of(merged))[id]);
            &&& after.id == Some(id)
            &&& after.name == (if patch.name is Some {
                patch.name
            } else {
                stored.name
            })
            &&& after.birth_date == (if patch.birth_date is Some {
                patch.birth_date
            } else {
                stored.birth_date
            })
            &&& after.cr_bits == (if patch.cr_bits is Some {
                patch.cr_bits
            } else {
                stored.cr_bits
            })
            &&& after.status == (if patch.status is Some {
                patch.status
            } else {
                stored.status
            })
        }),
{
    let merged = patched_v(stored, patch);
    lemma_row_round_trip(merged, id);
}

/// A deleted identity is gone: a later read of it finds nothing.
pub proof fn lemma_delete_then_read(m: Map<i64, RowV>, id: i64)
    ensures
        !m.remove(id).contains_key(id),
{
}

/// A sequence of distinct keys that lies in `m`'s domain and covers it has
/// exactly as many entries as `m`.
proof fn lemma_len_matches_dom(keys: Seq<i64>, m: Map<i64, RowV>)
    requires
        m.dom().finite(),
        forall|n: int, j: int| 0 <= n < j < keys.len() ==> keys[n] != keys[j],
        forall|n: int| 0 <= n < keys.len() ==> m.contains_key(#[trigger] keys[n]),
        forall|k: i64|
            m.contains_key(k) ==> exists|n: int| 0 <= n < keys.len() && #[trigger] keys[n] == k,
    ensures
        keys.len() == m.dom().len(),
{
    assert(keys.no_duplicates());
    keys.unique_seq_to_set();
    assert(keys.to_set() =~= m.dom());
}

} // verus!

