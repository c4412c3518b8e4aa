//! What the server says about the logged-in user.

use vstd::prelude::*;

verus! {

/// The user, as the users endpoint describes it.
#[derive(Debug)]
pub struct UserResponse {
    pub id: String,
    pub name: Option<String>,
    pub email: String,
}

/// The user as shown by the command line tool.
#[derive(Debug)]
pub struct UserInfoUser {
    pub id: String,
    pub name: String,
    pub email: String,
}

impl vstd::std_specs::convert::FromSpecImpl<UserResponse> for UserInfoUser {
    open spec fn obeys_from_spec() -> bool {
        true
    }

    /// The user's name, or the email address when the user has no name.
    open spec fn from_spec(v: UserResponse) -> UserInfoUser {
        UserInfoUser {
            id: v.id,
            name: match v.name {
                Some(name) => name,
                None => v.email,
            },
            email: v.email,
        }
    }
}

impl From<UserResponse> for UserInfoUser {
    fn from(value: UserResponse) -> (r: Self)
        ensures
            r.id == value.id,
            r.email == value.email,
            value.name matches Some(name) ==> r.name == name,
            value.name is None ==> r.name == value.email,
    {
        let name = match value.name {
            Some(name) => name,
            None => value.email.clone(),
        };
        UserInfoUser { id: value.id, name, email: value.email }
    }
}

} // verus!
