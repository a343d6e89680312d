//! Membership roles and their ordering.
//!
//! A member of an organization holds one of three roles.  The roles are
//! totally ordered — `User` below `Admin` below `Owner` — and the order
//! gates privileged operations: an action reserved for admins is allowed
//! for owners too.  The relational store keeps the role as a small
//! integer, so the conversions in both directions are part of the model.

use vstd::prelude::*;

verus! {

/// A member's role inside one organization.
#[derive(Clone, Copy, Debug, PartialEq, Eq, Hash, Structural)]
pub enum UserRole {
    User,
    Admin,
    Owner,
}

/// The rank of a role; the order on roles is the order of ranks.
pub open spec fn role_level(r: UserRole) -> int {
    match r {
        UserRole::User => 0,
        UserRole::Admin => 1,
        UserRole::Owner => 2,
    }
}

/// The role stored as the integer `n`: 2 is `Owner`, 1 is `Admin`, and
/// anything else is `User`.
pub open spec fn role_of_i32(n: i32) -> UserRole {
    if n == 2 {
        UserRole::Owner
    } else if n == 1 {
        UserRole::Admin
    } else {
        UserRole::User
    }
}

impl UserRole {
    /// The integer that the store keeps for this role.
    pub fn as_i32(&self) -> (n: i32)
        ensures
            n == role_level(*self),
            role_of_i32(n) == *self,
    {
        match self {
            UserRole::User => 0,
            UserRole::Admin => 1,
            UserRole::Owner => 2,
        }
    }

    /// The role that the stored integer `n` denotes.
    pub fn from_i32(n: i32) -> (r: UserRole)
        ensures
            r == role_of_i32(n),
    {
        match n {
            2 => UserRole::Owner,
            1 => UserRole::Admin,
            _ => UserRole::User,
        }
    }

    /// Whether this role ranks at least as high as `other`.
    pub fn at_least(&self, other: &UserRole) -> (r: bool)
        ensures
            r == (role_level(*self) >= role_level(*other)),
    {
        self.as_i32() >= other.as_i32()
    }
}

/// Role ordering: `User` ranks strictly below `Admin`, which ranks
/// strictly below `Owner`, and the rank order is total.
pub proof fn lemma_role_order()
    ensures
        role_level(UserRole::User) < role_level(UserRole::Admin)
            < role_level(UserRole::Owner),
        forall|a: UserRole, b: UserRole|
            role_level(a) == role_level(b) ==> a == b,
{
}

} // verus!
