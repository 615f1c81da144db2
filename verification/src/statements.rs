//! The parameterized SQL statements the data-access layer issues.
//!
//! Each function pins the statement's text; the surrounding program prepares
//! it and binds the parameters in the order the placeholders name.

use vstd::prelude::*;

verus! {

/// The fixed select behind a listing: both columns of every row, in store
/// order — there is no ORDER BY.
pub fn select_all_statement() -> (r: &'static str)
    ensures
        r@ == "SELECT id, login FROM users"@,
{
    "SELECT id, login FROM users"
}

/// The insert behind a create: the login is the single bound parameter; the
/// returned columns are discarded by the caller.
pub fn insert_statement() -> (r: &'static str)
    ensures
        r@ == "INSERT INTO users (login) VALUES ($1) RETURNING *"@,
{
    "INSERT INTO users (login) VALUES ($1) RETURNING *"
}

/// The delete behind a remove: keyed on the id, the single bound parameter.
pub fn delete_statement() -> (r: &'static str)
    ensures
        r@ == "DELETE FROM users WHERE id = $1"@,
{
    "DELETE FROM users WHERE id = $1"
}

/// The update behind a put: keyed on the id, binding the id and the new
/// login, returning the updated row.
pub fn update_statement() -> (r: &'static str)
    ensures
        r@ == "UPDATE users SET login = $2 WHERE id = $1 RETURNING id, login "@,
{
    "UPDATE users SET login = $2 WHERE id = $1 RETURNING id, login "
}

} // verus!
