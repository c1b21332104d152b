//! The function catalog: the durable mapping of `(owner, name)` to a
//! function's metadata. The catalog holds at most one row per owner and
//! name; registering an already-registered pair changes nothing, which is
//! what makes redeploys idempotent.

use vstd::prelude::*;

use crate::text::str_eq;

verus! {

/// One catalog row: a function a user has deployed.
pub struct FunctionRecord {
    pub uuid: String,
    pub name: String,
    pub runtime: String,
    pub owner_uuid: String,
}

/// Whether a row belongs to the given owner under the given name.
pub open spec fn spec_owns(r: FunctionRecord, owner: Seq<char>, name: Seq<char>) -> bool {
    r.owner_uuid@ == owner && r.name@ == name
}

/// No two rows share an owner and a name.
pub open spec fn spec_rows_wf(rows: Seq<FunctionRecord>) -> bool {
    forall|i: int, j: int|
        0 <= i < j < rows.len() ==> !spec_owns(
            #[trigger] rows[i],
            (#[trigger] rows[j]).owner_uuid@,
            rows[j].name@,
        )
}

/// How many rows belong to the given owner under the given name.
pub open spec fn spec_count_owned(rows: Seq<FunctionRecord>, owner: Seq<char>, name: Seq<char>) -> int
    decreases rows.len(),
{
    if rows.len() == 0 {
        0
    } else {
        spec_count_owned(rows.drop_last(), owner, name) + if spec_owns(rows.last(), owner, name) {
            1 as int
        } else {
            0 as int
        }
    }
}

/// What registering a row does to the catalog: nothing when the owner
/// already has the name, an appended row otherwise.
pub open spec fn spec_register(rows: Seq<FunctionRecord>, rec: FunctionRecord) -> Seq<
    FunctionRecord,
> {
    if exists|i: int| 0 <= i < rows.len() && spec_owns(#[trigger] rows[i], rec.owner_uuid@, rec.name@) {
        rows
    } else {
        rows.push(rec)
    }
}

pub proof fn lemma_count_zero(rows: Seq<FunctionRecord>, owner: Seq<char>, name: Seq<char>)
    requires
        forall|i: int| 0 <= i < rows.len() ==> !spec_owns(#[trigger] rows[i], owner, name),
    ensures
        spec_count_owned(rows, owner, name) == 0,
    decreases rows.len(),
{
    if rows.len() > 0 {
        lemma_count_zero(rows.drop_last(), owner, name);
    }
}

pub proof fn lemma_count_nonneg(rows: Seq<FunctionRecord>, owner: Seq<char>, name: Seq<char>)
    ensures
        spec_count_owned(rows, owner, name) >= 0,
    decreases rows.len(),
{
    if rows.len() > 0 {
        lemma_count_nonneg(rows.drop_last(), owner, name);
    }
}

pub proof fn lemma_count_pos(rows: Seq<FunctionRecord>, owner: Seq<char>, name: Seq<char>, i: int)
    requires
        0 <= i < rows.len(),
        spec_owns(rows[i], owner, name),
    ensures
        spec_count_owned(rows, owner, name) >= 1,
    decreases rows.len(),
{
    lemma_count_nonneg(rows.drop_last(), owner, name);
    if i < rows.len() - 1 {
        lemma_count_pos(rows.drop_last(), owner, name, i);
    }
}

/// In a well-formed catalog a pair is held by at most one row.
pub proof fn lemma_wf_count_le_one(rows: Seq<FunctionRecord>, owner: Seq<char>, name: Seq<char>)
    requires
        spec_rows_wf(rows),
    ensures
        spec_count_owned(rows, owner, name) <= 1,
    decreases rows.len(),
{
    if rows.len() > 0 {
        let head = rows.drop_last();
        assert(spec_rows_wf(head));
        if spec_owns(rows.last(), owner, name) {
            assert forall|i: int| 0 <= i < head.len() implies !spec_owns(
                #[trigger] head[i],
                owner,
                name,
            ) by {
                assert(rows[i] == head[i]);
            }
            lemma_count_zero(head, owner, name);
        } else {
            lemma_wf_count_le_one(head, owner, name);
        }
    }
}

/// Registering keeps the catalog well-formed.
pub proof fn lemma_register_preserves_wf(rows: Seq<FunctionRecord>, rec: FunctionRecord)
    requires
        spec_rows_wf(rows),
    ensures
        spec_rows_wf(spec_register(rows, rec)),
{
    let out = spec_register(rows, rec);
    if out != rows {
        assert forall|i: int, j: int| 0 <= i < j < out.len() implies !spec_owns(
            #[trigger] out[i],
            (#[trigger] out[j]).owner_uuid@,
            out[j].name@,
        ) by {
            if j == out.len() - 1 {
                assert(out[i] == rows[i]);
            }
        }
    }
}

/// After registering a pair, the catalog holds exactly one row for it.
pub proof fn lemma_register_count_one(rows: Seq<FunctionRecord>, rec: FunctionRecord)
    requires
        spec_rows_wf(rows),
    ensures
        spec_count_owned(spec_register(rows, rec), rec.owner_uuid@, rec.name@) == 1,
{
    let owner = rec.owner_uuid@;
    let name = rec.name@;
    let out = spec_register(rows, rec);
    if out == rows {
        let i = choose|i: int| 0 <= i < rows.len() && spec_owns(#[trigger] rows[i], owner, name);
        lemma_count_pos(rows, owner, name, i);
        lemma_wf_count_le_one(rows, owner, name);
    } else {
        assert(out.drop_last() =~= rows);
        lemma_count_zero(rows, owner, name);
    }
}

/// Idempotent deploy: registering the same pair twice changes nothing the
/// second time, and one row for the pair remains.
pub proof fn lemma_register_idempotent(
    rows: Seq<FunctionRecord>,
    rec1: FunctionRecord,
    rec2: FunctionRecord,
)
    requires
        spec_rows_wf(rows),
        rec1.owner_uuid@ == rec2.owner_uuid@,
        rec1.name@ == rec2.name@,
    ensures
        spec_register(spec_register(rows, rec1), rec2) == spec_register(rows, rec1),
        spec_count_owned(
            spec_register(spec_register(rows, rec1), rec2),
            rec1.owner_uuid@,
            rec1.name@,
        ) == 1,
{
    let owner = rec1.owner_uuid@;
    let name = rec1.name@;
    let once = spec_register(rows, rec1);
    if once == rows {
        let i = choose|i: int| 0 <= i < rows.len() && spec_owns(#[trigger] rows[i], owner, name);
        assert(spec_owns(once[i], rec2.owner_uuid@, rec2.name@));
    } else {
        assert(spec_owns(once[rows.len() as int], rec2.owner_uuid@, rec2.name@));
    }
    lemma_register_count_one(rows, rec1);
}

/// Namespacing at the catalog: two users registering the same name end up
/// with one row each.
pub proof fn lemma_register_namespacing(
    rows: Seq<FunctionRecord>,
    rec1: FunctionRecord,
    rec2: FunctionRecord,
)
    requires
        spec_rows_wf(rows),
        rec1.owner_uuid@ != rec2.owner_uuid@,
        rec1.name@ == rec2.name@,
    ensures
        spec_count_owned(
            spec_register(spec_register(rows, rec1), rec2),
            rec1.owner_uuid@,
            rec1.name@,
        ) == 1,
        spec_count_owned(
            spec_register(spec_register(rows, rec1), rec2),
            rec2.owner_uuid@,
            rec2.name@,
        ) == 1,
{
    let once = spec_register(rows, rec1);
    lemma_register_preserves_wf(rows, rec1);
    lemma_register_count_one(rows, rec1);
    lemma_register_count_one(once, rec2);
    let twice = spec_register(once, rec2);
    // the second registration never touches the first user's rows
    if twice != once {
        assert(twice.drop_last() =~= once);
        lemma_wf_count_le_one(once, rec1.owner_uuid@, rec1.name@);
    }
}

/// The catalog itself: rows, unique per owner and name.
pub struct Catalog {
    rows: Vec<FunctionRecord>,
}

impl View for Catalog {
    type V = Seq<FunctionRecord>;

    closed spec fn view(&self) -> Seq<FunctionRecord> {
        self.rows@
    }
}

fn clone_record(r: &FunctionRecord) -> (out: FunctionRecord)
    ensures
        out == *r,
{
    FunctionRecord {
        uuid: r.uuid.clone(),
        name: r.name.clone(),
        runtime: r.runtime.clone(),
        owner_uuid: r.owner_uuid.clone(),
    }
}

impl Catalog {
    pub open spec fn wf(&self) -> bool {
        spec_rows_wf(self@)
    }

    /// An empty catalog.
    pub fn new() -> (r: Catalog)
        ensures
            r.wf(),
            r@.len() == 0,
    {
        Catalog { rows: Vec::new() }
    }

    fn find_index(&self, owner_uuid: &str, name: &str) -> (r: Option<usize>)
        ensures
            match r {
                Some(i) => i < self@.len() && spec_owns(self@[i as int], owner_uuid@, name@),
                None => forall|i: int|
                    0 <= i < self@.len() ==> !spec_owns(#[trigger] self@[i], owner_uuid@, name@),
            },
    {
        let n: usize = self.rows.len();
        let mut i: usize = 0;
        while i < n
            invariant
                i <= n,
                n == self@.len(),
                forall|k: int| 0 <= k < i ==> !spec_owns(#[trigger] self@[k], owner_uuid@, name@),
            decreases n - i,
        {
            let row = &self.rows[i];
            if str_eq(row.owner_uuid.as_str(), owner_uuid) && str_eq(row.name.as_str(), name) {
                return Some(i);
            }
            i = i + 1;
        }
        None
    }

    /// Look a function up by owner and name.
    pub fn find_by_name(&self, owner_uuid: &str, name: &str) -> (r: Option<&FunctionRecord>)
        ensures
            match r {
                Some(rec) => self@.contains(*rec) && spec_owns(*rec, owner_uuid@, name@),
                None => forall|i: int|
                    0 <= i < self@.len() ==> !spec_owns(#[trigger] self@[i], owner_uuid@, name@),
            },
    {
        match self.find_index(owner_uuid, name) {
            Some(i) => {
                let rec = &self.rows[i];
                proof {
                    assert(self@.contains(self@[i as int]));
                }
                Some(rec)
            },
            None => None,
        }
    }

    /// Every function of one user, in catalog order.
    pub fn find_by_user(&self, owner_uuid: &str) -> (r: Vec<FunctionRecord>)
        ensures
            r@ == self@.filter(|rec: FunctionRecord| rec.owner_uuid@ == owner_uuid@),
    {
        let n: usize = self.rows.len();
        let mut out: Vec<FunctionRecord> = Vec::new();
        let mut i: usize = 0;
        proof {
            reveal(Seq::filter);
            assert(out@ =~= self@.take(0).filter(
                |rec: FunctionRecord| rec.owner_uuid@ == owner_uuid@,
            ));
        }
        while i < n
            invariant
                i <= n,
                n == self@.len(),
                out@ == self@.take(i as int).filter(
                    |rec: FunctionRecord| rec.owner_uuid@ == owner_uuid@,
                ),
            decreases n - i,
        {
            let row = &self.rows[i];
            if str_eq(row.owner_uuid.as_str(), owner_uuid) {
                out.push(clone_record(row));
            }
            proof {
                reveal(Seq::filter);
                assert(self@.take(i + 1).drop_last() =~= self@.take(i as int));
                assert(self@.take(i + 1).last() == self@[i as int]);
            }
            i = i + 1;
        }
        proof {
            assert(self@.take(n as int) =~= self@);
        }
        out
    }

    /// Register a function unless its owner already has one of that name:
    /// the step of a deploy that makes redeploys idempotent. Exactly one
    /// row for the pair stands afterwards either way.
    pub fn register(&mut self, rec: FunctionRecord) -> (created: bool)
        requires
            old(self).wf(),
        ensures
            final(self).wf(),
            final(self)@ == spec_register(old(self)@, rec),
            created == (final(self)@.len() != old(self)@.len()),
            spec_count_owned(final(self)@, rec.owner_uuid@, rec.name@) == 1,
    {
        proof {
            lemma_register_preserves_wf(self@, rec);
            lemma_register_count_one(self@, rec);
        }
        match self.find_index(rec.owner_uuid.as_str(), rec.name.as_str()) {
            Some(_) => false,
            None => {
                self.rows.push(rec);
                true
            },
        }
    }
}

} // verus!
