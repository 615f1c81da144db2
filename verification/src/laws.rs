//! Properties that tie the operations together.
//!
//! Each law is stated over the spec-level shapes of the operations — the
//! rows before and after, as the contracts of `crate::store` give them —
//! so it holds of every run of the service against the model.

use vstd::prelude::*;
use crate::json::users_json;
use crate::store::{deleted, has_id, inserted, updated};
use crate::user::UserV;

verus! {

/// Creating a record and then listing shows exactly one more row than
/// before, and some row carries the created login.
pub proof fn lemma_create_then_list(rows: Seq<UserV>, id: int, login: Seq<char>)
    ensures
        inserted(rows, id, login).len() == rows.len() + 1,
        exists|i: int|
            0 <= i < inserted(rows, id, login).len() && inserted(rows, id, login)[i].login
                == login,
{
    assert(inserted(rows, id, login)[rows.len() as int].login == login);
}

/// Listing an empty table gives the empty JSON array — an empty table is not
/// an error.
pub proof fn lemma_empty_listing()
    ensures
        users_json(Seq::<UserV>::empty()) == "[]"@,
{
    reveal_strlit("[");
    reveal_strlit("]");
    reveal_strlit("[]");
    assert(users_json(Seq::<UserV>::empty()) =~= "[]"@);
}

/// Round trip: creating a record and then updating the id it was assigned to
/// a second login succeeds, keeps the assigned id on that row, gives it the
/// second login, and touches no other row.
pub proof fn lemma_create_update_round_trip(
    rows: Seq<UserV>,
    id: int,
    first: Seq<char>,
    second: Seq<char>,
)
    requires
        !has_id(rows, id),
    ensures
        has_id(inserted(rows, id, first), id),
        updated(inserted(rows, id, first), id, second).len() == rows.len() + 1,
        updated(inserted(rows, id, first), id, second)[rows.len() as int] == (UserV {
            id,
            login: second,
        }),
        forall|i: int|
            0 <= i < rows.len() ==> updated(inserted(rows, id, first), id, second)[i] == rows[i],
{
    let grown = inserted(rows, id, first);
    assert(grown[rows.len() as int].id == id);
    assert(has_id(grown, id));
    assert forall|i: int| 0 <= i < rows.len() implies updated(grown, id, second)[i] == rows[i] by {
        if rows[i].id == id {
            assert(has_id(rows, id));
        }
        assert(grown[i] == rows[i]);
    }
}

/// Deleting an id that no row carries leaves every row in place; the delete
/// still succeeds, with an affected-row count of zero.
pub proof fn lemma_delete_missing_leaves_rows(rows: Seq<UserV>, id: int)
    requires
        !has_id(rows, id),
    ensures
        deleted(rows, id) == rows,
{
    assert forall|i: int| 0 <= i < rows.len() implies (#[trigger] rows[i]).id != id by {
        if rows[i].id == id {
            assert(has_id(rows, id));
        }
    }
    crate::store::lemma_delete_missing_id(rows, id);
}

} // verus!
