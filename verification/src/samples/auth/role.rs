//! Roles and what each may do.

use crate::text::{concat2, lowercase_of, str_eq, to_lowercase};
use vstd::prelude::*;

verus! {

/// The role of a user.
#[derive(Debug, Clone, Copy, PartialEq, Eq, Structural)]
pub enum Role {
    /// May read, write and manage.
    Admin,
    /// May read and write.
    Writer,
    /// May read.
    Reader,
}

/// The name of a role.
pub open spec fn role_name_of(role: Role) -> Seq<char> {
    match role {
        Role::Admin => "admin"@,
        Role::Writer => "writer"@,
        Role::Reader => "reader"@,
    }
}

/// The role that a name in lower case stands for.
pub open spec fn role_named(lower: Seq<char>) -> Option<Role> {
    if lower == "admin"@ {
        Some(Role::Admin)
    } else if lower == "writer"@ {
        Some(Role::Writer)
    } else if lower == "reader"@ {
        Some(Role::Reader)
    } else {
        None
    }
}

/// What reading a role from `given` returns, where `lower` is `given` in
/// lower case.
pub open spec fn role_read(r: Result<Role, String>, lower: Seq<char>, given: Seq<char>) -> bool {
    match role_named(lower) {
        Some(role) => r == Ok::<Role, String>(role),
        None => r is Err && r->Err_0@ == "Unknown role: "@ + given,
    }
}

impl Role {
    /// Whether this role manages.
    pub fn is_admin(&self) -> (r: bool)
        ensures
            r == (*self == Role::Admin),
    {
        match self {
            Role::Admin => true,
            _ => false,
        }
    }

    /// Whether this role may write: an admin and a writer may.
    pub fn can_write(&self) -> (r: bool)
        ensures
            r == (*self == Role::Admin || *self == Role::Writer),
    {
        match self {
            Role::Admin => true,
            Role::Writer => true,
            Role::Reader => false,
        }
    }

    /// Whether this role may read: every role may.
    pub fn can_read(&self) -> (r: bool)
        ensures
            r,
    {
        true
    }

    /// The name of this role.
    pub fn to_string(&self) -> (r: String)
        ensures
            r@ == role_name_of(*self),
    {
        match self {
            Role::Admin => String::from_str("admin"),
            Role::Writer => String::from_str("writer"),
            Role::Reader => String::from_str("reader"),
        }
    }

    /// The role that `lower` names; the error quotes `given`, the name as the
    /// user wrote it.
    pub fn from_lowercase(lower: &str, given: &str) -> (r: Result<Role, String>)
        ensures
            role_read(r, lower@, given@),
    {
        if str_eq(lower, "admin") {
            Ok(Role::Admin)
        } else if str_eq(lower, "writer") {
            Ok(Role::Writer)
        } else if str_eq(lower, "reader") {
            Ok(Role::Reader)
        } else {
            Err(concat2("Unknown role: ", given))
        }
    }

    /// The role that `s` names, in whatever case it is written.
    pub fn parse(s: &str) -> (r: Result<Role, String>)
        ensures
            role_read(r, lowercase_of(s@), s@),
    {
        let lower = to_lowercase(s);
        Role::from_lowercase(lower.as_str(), s)
    }
}

impl std::str::FromStr for Role {
    type Err = String;

    fn from_str(s: &str) -> (r: Result<Role, String>)
        ensures
            role_read(r, lowercase_of(s@), s@),
    {
        Role::parse(s)
    }
}

} // verus!
