//! The `User` resource and its transient input views.
//!
//! A `User` row carries a system-assigned identifier, two required text
//! fields, an optional age, and two timestamps given as non-leap seconds
//! since the Unix epoch, UTC.

use vstd::prelude::*;

verus! {

/// A persisted user row.
pub struct User {
    pub id: i32,
    pub name: String,
    pub email: String,
    pub age: Option<i32>,
    pub created_at: i64,
    pub updated_at: i64,
}

/// Input for creating a user: no identifier and no timestamps, those
/// are assigned by storage.
pub struct CreateUser {
    pub name: String,
    pub email: String,
    pub age: Option<i32>,
}

/// Input describing a partial update: every field optional. Defined as
/// an extension point; no operation consumes it yet.
pub struct UpdateUser {
    pub name: Option<String>,
    pub email: Option<String>,
    pub age: Option<i32>,
}

/// Two user rows agree in every field (text compared by contents).
pub open spec fn same_user(a: User, b: User) -> bool {
    &&& a.id == b.id
    &&& a.name@ == b.name@
    &&& a.email@ == b.email@
    &&& a.age == b.age
    &&& a.created_at == b.created_at
    &&& a.updated_at == b.updated_at
}

/// `u` is the row that creating from input `c` must yield, given the
/// assigned identifier and the creation instant.
pub open spec fn is_created_from(u: User, c: CreateUser, id: i32, now: i64) -> bool {
    &&& u.id == id
    &&& u.name@ == c.name@
    &&& u.email@ == c.email@
    &&& u.age == c.age
    &&& u.created_at == now
    &&& u.updated_at == now
}

/// A create input is well-shaped: name and email are present
/// (non-empty); the age needs no check beyond its type.
pub open spec fn valid_create(c: CreateUser) -> bool {
    c.name@.len() > 0 && c.email@.len() > 0
}

/// Agreement with one and the same stored row carries over: the user a
/// successful create returns and the user a later lookup of its
/// identifier returns are equal in every field.
pub proof fn lemma_same_user_trans(a: User, b: User, w: User)
    requires
        same_user(a, w),
        same_user(b, w),
    ensures
        same_user(a, b),
{
}

impl CreateUser {
    /// Shape validation of a create input.
    pub fn validate(&self) -> (r: bool)
        ensures
            r == valid_create(*self),
    {
        !self.name.as_str().is_empty() && !self.email.as_str().is_empty()
    }
}

} // verus!
