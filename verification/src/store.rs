//! An in-memory model of the store the service runs against.
//!
//! The real service issues the statements of `crate::statements` against a
//! relational store; this module pins down what those statements mean. Rows
//! live in insertion order; an insert assigns the next free id; a delete
//! keyed on a missing id removes nothing and is not an error; an update
//! expects exactly one matching row and fails otherwise.

use vstd::prelude::*;
use crate::user::{CreateUserSchema, User, UserV, users_view};

verus! {

/// A store operation's failure; the service maps it to a plain 500 response.
#[derive(Debug)]
pub struct StoreError;

/// Whether some row carries the id.
pub open spec fn has_id(rows: Seq<UserV>, id: int) -> bool {
    exists|i: int| 0 <= i < rows.len() && rows[i].id == id
}

/// The rows after an insert: the new record at the end.
pub open spec fn inserted(rows: Seq<UserV>, id: int, login: Seq<char>) -> Seq<UserV> {
    rows.push(UserV { id, login })
}

/// The rows after a delete: every row whose id differs, in order.
pub open spec fn deleted(rows: Seq<UserV>, id: int) -> Seq<UserV> {
    rows.filter(|u: UserV| u.id != id)
}

/// The rows after an update: each matching row carries the new login, every
/// other row is untouched.
pub open spec fn updated(rows: Seq<UserV>, id: int, login: Seq<char>) -> Seq<UserV> {
    rows.map_values(|u: UserV| if u.id == id { UserV { id: u.id, login } } else { u })
}

/// Deleting an id that no row carries removes nothing: the operation is not
/// an error, it merely affects zero rows.
pub proof fn lemma_delete_missing_id(rows: Seq<UserV>, id: int)
    requires
        forall|i: int| 0 <= i < rows.len() ==> (#[trigger] rows[i]).id != id,
    ensures
        deleted(rows, id) == rows,
    decreases rows.len(),
{
    reveal(Seq::filter);
    if rows.len() > 0 {
        lemma_delete_missing_id(rows.drop_last(), id);
        assert(deleted(rows, id) =~= rows);
    } else {
        assert(deleted(rows, id) =~= rows);
    }
}

/// When exactly one row carries the id, deleting it takes that row out and
/// leaves every other row in place.
proof fn lemma_unique_match_removed(rows: Seq<UserV>, id: int, w: int)
    requires
        0 <= w < rows.len(),
        rows[w].id == id,
        forall|i: int| 0 <= i < rows.len() && i != w ==> (#[trigger] rows[i]).id != id,
    ensures
        deleted(rows, id) == rows.remove(w),
    decreases rows.len(),
{
    reveal(Seq::filter);
    if w == rows.len() - 1 {
        lemma_delete_missing_id(rows.drop_last(), id);
        assert(deleted(rows, id) == deleted(rows.drop_last(), id));
        assert(rows.remove(w) =~= rows.drop_last());
    } else {
        lemma_unique_match_removed(rows.drop_last(), id, w);
        assert(deleted(rows, id) == deleted(rows.drop_last(), id).push(rows.last()));
        assert(rows.drop_last().remove(w).push(rows.last()) =~= rows.remove(w));
    }
}

fn find_row_index(users: &Vec<User>, id: i32) -> (r: Option<usize>)
    ensures
        match r {
            Some(w) => w < users@.len() && users@[w as int]@.id == id as int,
            None => forall|j: int| 0 <= j < users@.len() ==> (#[trigger] users@[j])@.id != id as int,
        },
{
    let mut i: usize = 0;
    while i < users.len()
        invariant
            i <= users@.len(),
            forall|j: int| 0 <= j < i ==> (#[trigger] users@[j])@.id != id as int,
        decreases users@.len() - i,
    {
        if users[i].id == id {
            return Some(i);
        }
        i += 1;
    }
    None
}

/// The model store: the `users` table and the id the next insert assigns.
pub struct Store {
    users: Vec<User>,
    next_id: i32,
}

impl Store {
    /// The rows, in insertion order.
    pub closed spec fn rows(&self) -> Seq<UserV> {
        users_view(self.users@)
    }

    /// The id the next insert will assign.
    pub closed spec fn next(&self) -> int {
        self.next_id as int
    }

    /// Every id is positive, below the next free id, and unique.
    pub closed spec fn wf(&self) -> bool {
        &&& 1 <= self.next_id
        &&& forall|i: int|
            0 <= i < self.users@.len() ==> 0 < (#[trigger] self.users@[i])@.id < self.next_id
        &&& forall|i: int, j: int|
            0 <= i < j < self.users@.len() ==> (#[trigger] self.users@[i])@.id != (
            #[trigger] self.users@[j])@.id
    }

    /// An empty table; the first insert will assign id 1.
    pub fn new() -> (s: Store)
        ensures
            s.wf(),
            s.rows() == Seq::<UserV>::empty(),
            s.next() == 1,
    {
        let s = Store { users: Vec::new(), next_id: 1 };
        proof {
            assert(s.rows() =~= Seq::<UserV>::empty());
        }
        s
    }

    /// A copy of every row, in order; an empty table gives an empty listing,
    /// not an error.
    pub fn all(&self) -> (r: Vec<User>)
        ensures
            users_view(r@) == self.rows(),
    {
        let mut r: Vec<User> = Vec::new();
        let mut i: usize = 0;
        while i < self.users.len()
            invariant
                i <= self.users@.len(),
                r@.len() == i,
                forall|j: int| 0 <= j < i ==> (#[trigger] r@[j])@ == self.users@[j]@,
            decreases self.users@.len() - i,
        {
            r.push(self.users[i].duplicate());
            i += 1;
        }
        proof {
            assert(users_view(r@) =~= self.rows());
        }
        r
    }

    /// An insert: the new record, with the next free id, goes to the end;
    /// exactly one row is affected. The returned columns of the underlying
    /// statement are discarded: only the count is surfaced.
    pub fn create(&mut self, d: CreateUserSchema) -> (count: u64)
        requires
            old(self).wf(),
            old(self).next() < i32::MAX as int,
        ensures
            final(self).wf(),
            final(self).rows() == inserted(old(self).rows(), old(self).next(), d.login@),
            final(self).next() == old(self).next() + 1,
            count == 1,
    {
        let id = self.next_id;
        self.users.push(User { id, login: d.login });
        self.next_id = self.next_id + 1;
        proof {
            assert(self.rows() =~= inserted(old(self).rows(), old(self).next(), d.login@));
        }
        1
    }

    /// A delete keyed on the id: the matching row goes away, and the count
    /// says whether one did; a missing id affects nothing and is not an
    /// error.
    pub fn delete(&mut self, id: i32) -> (count: u64)
        requires
            old(self).wf(),
        ensures
            final(self).wf(),
            final(self).rows() == deleted(old(self).rows(), id as int),
            final(self).next() == old(self).next(),
            count as int == old(self).rows().len() - final(self).rows().len(),
            count == if has_id(old(self).rows(), id as int) {
                1u64
            } else {
                0u64
            },
            !has_id(old(self).rows(), id as int) ==> final(self).rows() == old(self).rows(),
    {
        match find_row_index(&self.users, id) {
            None => {
                proof {
                    assert forall|i: int| 0 <= i < old(self).rows().len() implies (
                    #[trigger] old(self).rows()[i]).id != id as int by {
                        assert(old(self).users@[i]@.id != id as int);
                    }
                    lemma_delete_missing_id(old(self).rows(), id as int);
                    if has_id(old(self).rows(), id as int) {
                        let w = choose|w: int|
                            0 <= w < old(self).rows().len() && old(self).rows()[w].id == id as int;
                        assert(old(self).rows()[w].id != id as int);
                    }
                }
                0
            },
            Some(w) => {
                proof {
                    assert(old(self).rows()[w as int].id == id as int);
                    assert(has_id(old(self).rows(), id as int));
                }
                self.users.remove(w);
                proof {
                    let before = users_view(old(self).users@);
                    assert forall|i: int|
                        0 <= i < before.len() && i != w as int implies (#[trigger] before[i]).id
                        != id as int by {
                        assert(old(self).users@[i]@.id != old(self).users@[w as int]@.id);
                    }
                    lemma_unique_match_removed(before, id as int, w as int);
                    assert(self.rows() =~= before.remove(w as int));
                    assert(forall|k: int|
                        0 <= k < self.users@.len() ==> (#[trigger] self.users@[k])@ == (if k
                            < w as int {
                            old(self).users@[k]@
                        } else {
                            old(self).users@[k + 1]@
                        }));
                }
                1
            },
        }
    }

    /// An update keyed on the record's id: it succeeds if and only if a row
    /// carries the id; the matching row takes the new login and comes back;
    /// a missing id surfaces as a store error and changes nothing.
    pub fn update(&mut self, d: User) -> (r: Result<User, StoreError>)
        requires
            old(self).wf(),
        ensures
            final(self).wf(),
            final(self).next() == old(self).next(),
            r is Ok <==> has_id(old(self).rows(), d.id as int),
            r is Ok ==> final(self).rows() == updated(old(self).rows(), d.id as int, d.login@),
            r is Ok ==> r->Ok_0@ == (UserV { id: d.id as int, login: d.login@ }),
            r is Err ==> final(self).rows() == old(self).rows(),
    {
        let mut changed: Vec<User> = Vec::new();
        let mut found = false;
        let mut i: usize = 0;
        while i < self.users.len()
            invariant
                i <= self.users@.len(),
                self.users@ == old(self).users@,
                self.next_id == old(self).next_id,
                changed@.len() == i,
                found <==> has_id(users_view(self.users@.take(i as int)), d.id as int),
                forall|j: int|
                    0 <= j < i ==> (#[trigger] changed@[j])@ == (if self.users@[j]@.id
                        == d.id as int {
                        UserV { id: self.users@[j]@.id, login: d.login@ }
                    } else {
                        self.users@[j]@
                    }),
            decreases self.users@.len() - i,
        {
            proof {
                let prefix = users_view(self.users@.take(i as int + 1));
                assert(prefix.len() == i + 1);
                assert(forall|j: int|
                    0 <= j < i + 1 ==> prefix[j] == users_view(self.users@)[j]);
            }
            if self.users[i].id == d.id {
                changed.push(User { id: d.id, login: d.login.clone() });
                found = true;
                proof {
                    let prefix = users_view(self.users@.take(i as int + 1));
                    assert(prefix[i as int].id == d.id as int);
                    assert(has_id(prefix, d.id as int));
                }
            } else {
                changed.push(self.users[i].duplicate());
                proof {
                    let prefix = users_view(self.users@.take(i as int + 1));
                    let shorter = users_view(self.users@.take(i as int));
                    assert(forall|j: int| 0 <= j < i ==> prefix[j] == shorter[j]);
                    if has_id(prefix, d.id as int) {
                        let w = choose|w: int|
                            0 <= w < prefix.len() && prefix[w].id == d.id as int;
                        assert(w < i);
                        assert(shorter[w].id == d.id as int);
                        assert(has_id(shorter, d.id as int));
                    }
                }
            }
            i += 1;
        }
        proof {
            assert(users_view(self.users@.take(self.users@.len() as int)) =~= users_view(
                self.users@,
            ));
        }
        self.users = changed;
        if found {
            proof {
                assert(self.rows() =~= updated(old(self).rows(), d.id as int, d.login@));
            }
            Ok(User { id: d.id, login: d.login })
        } else {
            proof {
                assert(self.rows() =~= old(self).rows());
            }
            Err(StoreError)
        }
    }
}

/// In a well-formed store no row carries the next free id: an insert always
/// assigns a fresh one.
pub proof fn lemma_wf_next_fresh(s: &Store)
    requires
        s.wf(),
    ensures
        !has_id(s.rows(), s.next()),
{
    if has_id(s.rows(), s.next()) {
        let w = choose|w: int| 0 <= w < s.rows().len() && s.rows()[w].id == s.next();
        assert(s.rows()[w].id < s.next());
    }
}

} // verus!
