//! The decision each HTTP handler makes.
//!
//! The surrounding program acquires a pooled connection, runs the statement,
//! and hands the outcome to these functions; they turn it into the response's
//! status code and JSON body. Every failure, whether the pool or the store
//! refused, becomes a plain 500 with a fixed message; success carries the
//! payload the route owes.

use vstd::prelude::*;
use crate::json::{dec_nat, u64_to_json, user_json, user_to_json, users_json, users_to_json};
use crate::user::{User, users_view};

verus! {

/// What went wrong before a result could be produced: the pool had no
/// connection to give, or the store refused the operation.
#[derive(Debug)]
pub enum HandlerError {
    PoolUnavailable,
    StoreFailure,
}

/// An HTTP response: the status code and the JSON body.
#[derive(Debug)]
pub struct Response {
    pub status: u16,
    pub body: String,
}

/// GET /healthchecker: always 200 with the fixed payload, whatever the state
/// of the store.
pub fn health_checker() -> (r: Response)
    ensures
        r.status == 200,
        r.body@
            == "{\"name\":\"Jill\",\"followee\":\"Jim\",\"msg\":\"Build Simple CRUD API with Rust, SQLX, Postgres,and Actix Web\"}"@,
{
    Response {
        status: 200,
        body: String::from_str(
            "{\"name\":\"Jill\",\"followee\":\"Jim\",\"msg\":\"Build Simple CRUD API with Rust, SQLX, Postgres,and Actix Web\"}",
        ),
    }
}

/// GET /users: 200 with the JSON array of every fetched row, in store order;
/// 500 with a fixed message when the pool or the query failed.
pub fn list_users(fetched: Result<Vec<User>, HandlerError>) -> (r: Response)
    ensures
        fetched is Ok ==> r.status == 200 && r.body@ == users_json(users_view(fetched->Ok_0@)),
        fetched is Err && fetched->Err_0 is PoolUnavailable ==> r.status == 500 && r.body@
            == "\"unable to get postgres client\""@,
        fetched is Err && fetched->Err_0 is StoreFailure ==> r.status == 500 && r.body@
            == "\"unable to fetch users\""@,
{
    match fetched {
        Ok(users) => Response { status: 200, body: users_to_json(&users) },
        Err(HandlerError::PoolUnavailable) => Response {
            status: 500,
            body: String::from_str("\"unable to get postgres client\""),
        },
        Err(HandlerError::StoreFailure) => Response {
            status: 500,
            body: String::from_str("\"unable to fetch users\""),
        },
    }
}

/// POST /users: 201 with the affected-row count (not the created record);
/// 500 with a fixed message when the pool or the statement failed.
pub fn create_user(outcome: Result<u64, HandlerError>) -> (r: Response)
    ensures
        outcome is Ok ==> r.status == 201 && r.body@ == dec_nat(outcome->Ok_0 as nat),
        outcome is Err && outcome->Err_0 is PoolUnavailable ==> r.status == 500 && r.body@
            == "\"unable to get postgres client\""@,
        outcome is Err && outcome->Err_0 is StoreFailure ==> r.status == 500 && r.body@
            == "\"unable to create users\""@,
{
    match outcome {
        Ok(count) => Response { status: 201, body: u64_to_json(count) },
        Err(HandlerError::PoolUnavailable) => Response {
            status: 500,
            body: String::from_str("\"unable to get postgres client\""),
        },
        Err(HandlerError::StoreFailure) => Response {
            status: 500,
            body: String::from_str("\"unable to create users\""),
        },
    }
}

/// PUT /users/{id}: 200 with the updated record as the store returned it; 500
/// with a fixed message when the pool or the query failed — a missing id
/// surfaces as a store failure, so it too answers 500, never 404.
pub fn update_user(outcome: Result<User, HandlerError>) -> (r: Response)
    ensures
        outcome is Ok ==> r.status == 200 && r.body@ == user_json(outcome->Ok_0@),
        outcome is Err && outcome->Err_0 is PoolUnavailable ==> r.status == 500 && r.body@
            == "\"unable to get postgres client\""@,
        outcome is Err && outcome->Err_0 is StoreFailure ==> r.status == 500 && r.body@
            == "\"unable to update users\""@,
{
    match outcome {
        Ok(user) => Response { status: 200, body: user_to_json(&user) },
        Err(HandlerError::PoolUnavailable) => Response {
            status: 500,
            body: String::from_str("\"unable to get postgres client\""),
        },
        Err(HandlerError::StoreFailure) => Response {
            status: 500,
            body: String::from_str("\"unable to update users\""),
        },
    }
}

/// DELETE /users/{id}: 204 with the affected-row count echoed in the body —
/// a missing id still answers 204 with a count of zero; 500 with a fixed
/// message when the pool or the statement failed.
pub fn delete_user(outcome: Result<u64, HandlerError>) -> (r: Response)
    ensures
        outcome is Ok ==> r.status == 204 && r.body@ == dec_nat(outcome->Ok_0 as nat),
        outcome is Err && outcome->Err_0 is PoolUnavailable ==> r.status == 500 && r.body@
            == "\"unable to get postgres client\""@,
        outcome is Err && outcome->Err_0 is StoreFailure ==> r.status == 500 && r.body@
            == "\"unable to delete users\""@,
{
    match outcome {
        Ok(count) => Response { status: 204, body: u64_to_json(count) },
        Err(HandlerError::PoolUnavailable) => Response {
            status: 500,
            body: String::from_str("\"unable to get postgres client\""),
        },
        Err(HandlerError::StoreFailure) => Response {
            status: 500,
            body: String::from_str("\"unable to delete users\""),
        },
    }
}

} // verus!
