//! The user table and the four persistence operations over it: list all,
//! insert one, update one by public identifier, delete one by public
//! identifier, together with the re-read of the most recent row that every
//! mutating operation is followed by.

use vstd::prelude::*;

use crate::models::{
    contains_user_id, ids_increasing, merged, most_recent_rows, table_inv, user_ids_distinct,
    users_view, without_user, UpdateModel, UpdateUser, User, UserModel, Users,
};
use crate::user_error::UserError;

verus! {

/// The relational table of user rows. Rows keep their insertion order; the
/// store assigns each inserted row the next surrogate key.
pub struct UserStore {
    users: Vec<User>,
    next_id: i32,
}

impl View for UserStore {
    type V = Seq<UserModel>;

    closed spec fn view(&self) -> Seq<UserModel> {
        users_view(self.users@)
    }
}

impl UserStore {
    /// The surrogate key the next successful insert will be assigned.
    pub closed spec fn spec_next_id(&self) -> int {
        self.next_id as int
    }

    /// Well-formedness: the table invariant holds and every assigned
    /// surrogate key lies below the next one.
    pub closed spec fn wf(&self) -> bool {
        &&& table_inv(self@)
        &&& 1 <= self.next_id
        &&& forall|i: int| 0 <= i < self@.len() ==> self@[i].id < self.next_id as int
    }

    /// Law: in a well-formed store the public identifiers are pairwise
    /// distinct and the surrogate keys strictly increase in insertion order;
    /// no two rows ever share a public identifier.
    pub proof fn lemma_public_ids_unique(&self)
        requires
            self.wf(),
        ensures
            user_ids_distinct(self@),
            ids_increasing(self@),
            forall|i: int| 0 <= i < self@.len() ==> self@[i].id < self.spec_next_id(),
    {
    }

    /// An empty table; the first row inserted will get surrogate key 1.
    pub fn new() -> (s: Self)
        ensures
            s.wf(),
            s@ == Seq::<UserModel>::empty(),
            s.spec_next_id() == 1,
    {
        let s = UserStore { users: Vec::new(), next_id: 1 };
        proof {
            assert(s@ =~= Seq::<UserModel>::empty());
        }
        s
    }

    /// How many rows the table holds.
    pub fn len(&self) -> (n: usize)
        ensures
            n == self@.len(),
    {
        self.users.len()
    }

    /// A field-for-field copy of one row.
    fn copy_user(u: &User) -> (r: User)
        ensures
            r@ == u@,
    {
        User {
            id: u.id,
            user_id: u.user_id,
            first_name: u.first_name.clone(),
            last_name: u.last_name.clone(),
            email: u.email.clone(),
            created_at: u.created_at,
        }
    }

    /// List all rows, in the table's stable order.
    pub fn list_users(&self) -> (r: Vec<User>)
        ensures
            users_view(r@) == self@,
    {
        let mut out: Vec<User> = Vec::new();
        let mut i: usize = 0;
        while i < self.users.len()
            invariant
                i <= self.users.len(),
                out@.len() == i,
                forall|k: int| 0 <= k < i ==> (#[trigger] out@[k])@ == self.users@[k]@,
            decreases self.users.len() - i,
        {
            out.push(Self::copy_user(&self.users[i]));
            i += 1;
        }
        proof {
            assert(users_view(out@) =~= self@);
        }
        out
    }

    /// Whether some row carries the public identifier `uid`.
    pub fn contains_user(&self, uid: u128) -> (b: bool)
        ensures
            b == contains_user_id(self@, uid),
    {
        match self.find_user(uid) {
            Some(_) => true,
            None => false,
        }
    }

    /// The index of the row carrying `uid`, if any row does.
    fn find_user(&self, uid: u128) -> (r: Option<usize>)
        ensures
            match r {
                Some(i) => i < self@.len() && self@[i as int].user_id == uid,
                None => !contains_user_id(self@, uid),
            },
    {
        let mut i: usize = 0;
        while i < self.users.len()
            invariant
                i <= self.users.len(),
                forall|j: int| 0 <= j < i ==> self@[j].user_id != uid,
            decreases self.users.len() - i,
        {
            if self.users[i].user_id == uid {
                proof {
                    assert(self@[i as int].user_id == uid);
                }
                return Some(i);
            }
            i += 1;
        }
        None
    }

    /// Insert one row, assigning it the next surrogate key. Fails exactly
    /// when the row's public identifier is already taken or the key space is
    /// exhausted; either failure is a storage failure and leaves the table
    /// untouched.
    pub fn insert(&mut self, row: Users) -> (r: Result<(), UserError>)
        requires
            old(self).wf(),
        ensures
            final(self).wf(),
            match r {
                Ok(()) => {
                    &&& !contains_user_id(old(self)@, row.user_id)
                    &&& old(self).spec_next_id() < i32::MAX as int
                    &&& final(self)@ == old(self)@.push(row.with_id(old(self).spec_next_id()))
                    &&& final(self).spec_next_id() == old(self).spec_next_id() + 1
                },
                Err(e) => {
                    &&& contains_user_id(old(self)@, row.user_id) || old(self).spec_next_id()
                        == i32::MAX as int
                    &&& *final(self) == *old(self)
                    &&& e matches UserError::StorageError(_)
                },
            },
    {
        if self.contains_user(row.user_id) {
            return Err(UserError::StorageError(String::from_str("duplicate public identifier")));
        }
        if self.next_id == i32::MAX {
            return Err(UserError::StorageError(String::from_str("surrogate key space exhausted")));
        }
        let assigned: i32 = self.next_id;
        let u = User {
            id: assigned,
            user_id: row.user_id,
            first_name: row.first_name,
            last_name: row.last_name,
            email: row.email,
            created_at: row.created_at,
        };
        self.users.push(u);
        self.next_id = assigned + 1;
        proof {
            let prev = old(self)@;
            assert(self@ =~= prev.push(row.with_id(old(self).spec_next_id())));
            assert forall|i: int, j: int| 0 <= i < j < self@.len() implies self@[i].id
                < self@[j].id by {
                if j == self@.len() - 1 {
                    assert(prev[i].id < old(self).spec_next_id());
                }
            }
            assert forall|i: int, j: int| 0 <= i < j < self@.len() implies self@[i].user_id
                != self@[j].user_id by {
                if j == self@.len() - 1 {
                    assert(!(exists|k: int|
                        0 <= k < prev.len() && prev[k].user_id == row.user_id));
                    assert(prev[i].user_id != row.user_id);
                }
            }
        }
        Ok(())
    }

    /// Update the row carrying `uid`, overwriting exactly the fields the
    /// request carries; rows with other identifiers are untouched. Returns
    /// how many rows matched.
    pub fn update(&mut self, uid: u128, changes: &UpdateUser) -> (n: usize)
        requires
            old(self).wf(),
        ensures
            final(self).wf(),
            final(self)@.len() == old(self)@.len(),
            final(self).spec_next_id() == old(self).spec_next_id(),
            forall|i: int|
                0 <= i < old(self)@.len() ==> final(self)@[i] == (if old(self)@[i].user_id == uid {
                    merged(old(self)@[i], changes@)
                } else {
                    old(self)@[i]
                }),
            n as int == (if contains_user_id(old(self)@, uid) {
                1int
            } else {
                0int
            }),
    {
        match self.find_user(uid) {
            None => {
                0
            },
            Some(at) => {
                let cur = &self.users[at];
                let merged_row = User {
                    id: cur.id,
                    user_id: cur.user_id,
                    first_name: match &changes.first_name {
                        Some(s) => s.clone(),
                        None => cur.first_name.clone(),
                    },
                    last_name: match &changes.last_name {
                        Some(s) => s.clone(),
                        None => cur.last_name.clone(),
                    },
                    email: match &changes.email {
                        Some(s) => s.clone(),
                        None => cur.email.clone(),
                    },
                    created_at: cur.created_at,
                };
                proof {
                    assert(merged_row@ == merged(old(self)@[at as int], changes@));
                }
                self.users.set(at, merged_row);
                proof {
                    assert(self@ =~= old(self)@.update(
                        at as int,
                        merged(old(self)@[at as int], changes@),
                    ));
                    assert forall|i: int|
                        0 <= i < old(self)@.len() && i != at implies old(self)@[i].user_id
                        != uid by {
                        if i < at {
                            assert(old(self)@[i].user_id != old(self)@[at as int].user_id);
                        } else {
                            assert(old(self)@[at as int].user_id != old(self)@[i].user_id);
                        }
                    }
                }
                1
            },
        }
    }

    /// Delete every row carrying `uid` (by the table invariant there is at
    /// most one); other rows keep their order. Returns how many rows were
    /// removed — zero when no row matched, which is not an error.
    pub fn delete(&mut self, uid: u128) -> (n: usize)
        requires
            old(self).wf(),
        ensures
            final(self).wf(),
            final(self)@ == without_user(old(self)@, uid),
            final(self).spec_next_id() == old(self).spec_next_id(),
            n as int == old(self)@.len() - final(self)@.len(),
    {
        let mut kept: Vec<User> = Vec::new();
        let mut i: usize = 0;
        while i < self.users.len()
            invariant
                *self == *old(self),
                i <= self.users.len(),
                kept@.len() <= i,
                users_view(kept@) == without_user(
                    users_view(self.users@.subrange(0, i as int)),
                    uid,
                ),
            decreases self.users.len() - i,
        {
            proof {
                lemma_without_user_unfold(users_view(self.users@.subrange(0, i + 1 as int)), uid);
                assert(users_view(self.users@.subrange(0, i + 1 as int)).drop_last()
                    =~= users_view(self.users@.subrange(0, i as int)));
            }
            if self.users[i].user_id != uid {
                kept.push(Self::copy_user(&self.users[i]));
                proof {
                    assert(users_view(kept@) =~= users_view(
                        self.users@.subrange(0, i as int),
                    ).filter(|u: UserModel| u.user_id != uid).push(
                        users_view(self.users@.subrange(0, i + 1 as int)).last(),
                    ));
                }
            }
            i += 1;
        }
        proof {
            assert(self.users@.subrange(0, self.users@.len() as int) =~= self.users@);
            lemma_without_user_table_inv(old(self)@, uid);
        }
        let removed: usize = self.users.len() - kept.len();
        self.users = kept;
        removed
    }

    /// The re-read every mutating operation ends with: the most recently
    /// inserted row, or nothing when the table is empty.
    pub fn most_recent(&self) -> (r: Vec<User>)
        ensures
            users_view(r@) == most_recent_rows(self@),
    {
        let mut out: Vec<User> = Vec::new();
        if self.users.len() > 0 {
            out.push(Self::copy_user(&self.users[self.users.len() - 1]));
        }
        proof {
            assert(users_view(out@) =~= most_recent_rows(self@));
        }
        out
    }
}

/// One step of the definition of `without_user`: splitting off the last row.
proof fn lemma_without_user_unfold(rows: Seq<UserModel>, uid: u128)
    requires
        rows.len() > 0,
    ensures
        without_user(rows, uid) == (if rows.last().user_id != uid {
            without_user(rows.drop_last(), uid).push(rows.last())
        } else {
            without_user(rows.drop_last(), uid)
        }),
{
    reveal(Seq::filter);
}

/// Law: deleting preserves the table invariant, and every surviving row
/// already stood in the table before the delete.
pub proof fn lemma_without_user_table_inv(rows: Seq<UserModel>, uid: u128)
    requires
        table_inv(rows),
    ensures
        table_inv(without_user(rows, uid)),
        without_user(rows, uid).len() <= rows.len(),
        forall|k: int|
            0 <= k < without_user(rows, uid).len() ==> exists|j: int|
                0 <= j < rows.len() && #[trigger] without_user(rows, uid)[k] == rows[j],
    decreases rows.len(),
{
    reveal(Seq::filter);
    if rows.len() > 0 {
        let t = rows.drop_last();
        let sub = without_user(t, uid);
        let out = without_user(rows, uid);
        assert(table_inv(t));
        lemma_without_user_table_inv(t, uid);
        assert forall|k: int| 0 <= k < out.len() implies exists|j: int|
            0 <= j < rows.len() && #[trigger] out[k] == rows[j] by {
            if rows.last().user_id != uid && k == out.len() - 1 {
                assert(out[k] == rows[rows.len() - 1]);
            } else {
                assert(sub[k] == out[k]);
                let j = choose|j: int| 0 <= j < t.len() && sub[k] == t[j];
                assert(out[k] == rows[j]);
            }
        }
        if rows.last().user_id != uid {
            assert(out =~= sub.push(rows.last()));
            assert forall|a: int, b: int| 0 <= a < b < out.len() implies out[a].id
                < out[b].id && out[a].user_id != out[b].user_id by {
                if b == out.len() - 1 {
                    let j = choose|j: int| 0 <= j < t.len() && sub[a] == t[j];
                    assert(rows[j].id < rows.last().id);
                    assert(rows[j].user_id != rows.last().user_id);
                }
            }
        }
    }
}

/// Law: once a create has appended its row, a listing of the table contains
/// the created row's public identifier.
pub proof fn lemma_list_after_create(pre: Seq<UserModel>, row: UserModel)
    ensures
        contains_user_id(pre.push(row), row.user_id),
{
    assert(pre.push(row)[pre.len() as int] == row);
}

/// Law: after an update that carries a new email address, the row with the
/// updated public identifier shows exactly that email, and every row with
/// that identifier does.
pub proof fn lemma_update_then_list(
    pre: Seq<UserModel>,
    post: Seq<UserModel>,
    uid: u128,
    changes: UpdateModel,
)
    requires
        post.len() == pre.len(),
        forall|i: int|
            0 <= i < pre.len() ==> post[i] == (if pre[i].user_id == uid {
                merged(pre[i], changes)
            } else {
                pre[i]
            }),
        contains_user_id(pre, uid),
        changes.email is Some,
    ensures
        contains_user_id(post, uid),
        exists|i: int|
            0 <= i < post.len() && post[i].user_id == uid && post[i].email == changes.email->0,
        forall|i: int|
            0 <= i < post.len() && post[i].user_id == uid ==> post[i].email == changes.email->0,
{
    let w = choose|i: int| 0 <= i < pre.len() && pre[i].user_id == uid;
    assert(post[w].user_id == uid && post[w].email == changes.email->0);
    assert forall|i: int|
        0 <= i < post.len() && post[i].user_id == uid implies post[i].email
        == changes.email->0 by {
        if pre[i].user_id != uid {
            assert(post[i] == pre[i]);
        }
    }
}

/// Law: after a delete no row carries the deleted public identifier.
pub proof fn lemma_delete_removes(rows: Seq<UserModel>, uid: u128)
    ensures
        !contains_user_id(without_user(rows, uid), uid),
    decreases rows.len(),
{
    reveal(Seq::filter);
    if rows.len() > 0 {
        lemma_delete_removes(rows.drop_last(), uid);
        let sub = without_user(rows.drop_last(), uid);
        let out = without_user(rows, uid);
        assert forall|i: int| 0 <= i < out.len() implies out[i].user_id != uid by {
            if !(rows.last().user_id != uid && i == out.len() - 1) {
                assert(out[i] == sub[i]);
                assert(!(0 <= i < sub.len() && sub[i].user_id == uid));
            }
        }
    }
}

/// Law: deleting an identifier that no row carries leaves the table as it
/// was.
pub proof fn lemma_delete_missing_id(rows: Seq<UserModel>, uid: u128)
    requires
        !contains_user_id(rows, uid),
    ensures
        without_user(rows, uid) == rows,
    decreases rows.len(),
{
    reveal(Seq::filter);
    if rows.len() > 0 {
        assert(!contains_user_id(rows.drop_last(), uid)) by {
            assert forall|i: int| 0 <= i < rows.drop_last().len() implies rows.drop_last()[
                i
            ].user_id != uid by {
                assert(rows.drop_last()[i] == rows[i]);
                assert(!(0 <= i < rows.len() && rows[i].user_id == uid));
            }
        }
        lemma_delete_missing_id(rows.drop_last(), uid);
        assert(rows[rows.len() - 1].user_id != uid);
        assert(without_user(rows, uid) =~= rows);
    }
}

/// Law: under the table invariant the last row of a non-empty table is the
/// most recently inserted one — its surrogate key is the greatest.
pub proof fn lemma_most_recent_is_max(rows: Seq<UserModel>)
    requires
        ids_increasing(rows),
        rows.len() > 0,
    ensures
        forall|i: int| 0 <= i < rows.len() ==> rows[i].id <= rows.last().id,
{
}

} // verus!
