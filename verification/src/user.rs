//! The service's single entity: a user record with an id and a login.

use vstd::prelude::*;

verus! {

/// The transient input shape for creating a record: it carries only the
/// caller-supplied login.
pub struct CreateUserSchema {
    pub login: String,
}

/// A persisted user record: a server-assigned id and a caller-supplied login.
pub struct User {
    pub id: i32,
    pub login: String,
}

/// The mathematical shape of a user record: an unbounded id and the login's
/// characters.
pub ghost struct UserV {
    pub id: int,
    pub login: Seq<char>,
}

impl View for User {
    type V = UserV;

    open spec fn view(&self) -> UserV {
        UserV { id: self.id as int, login: self.login@ }
    }
}

/// The records of a vector, each abstracted to its mathematical shape.
pub open spec fn users_view(s: Seq<User>) -> Seq<UserV> {
    s.map_values(|u: User| u@)
}

impl User {
    /// An identical record; the model store hands out copies of its rows.
    pub fn duplicate(&self) -> (r: User)
        ensures
            r@ == self@,
    {
        User { id: self.id, login: self.login.clone() }
    }
}

} // verus!
