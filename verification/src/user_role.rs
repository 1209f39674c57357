//! User roles as the database stores them.

use vstd::prelude::*;
use vstd::std_specs::convert::FromSpecImpl;

use crate::types::UserRole;

verus! {

/// The `user_role` database type: `default` or `admin`.
#[derive(Debug, Clone, Copy, PartialEq, Eq, Structural)]
pub enum UserRoleDb {
    Default,
    Admin,
}

/// The database role that stores a user role.
pub open spec fn role_to_db(role: UserRole) -> UserRoleDb {
    match role {
        UserRole::Default => UserRoleDb::Default,
        UserRole::Admin => UserRoleDb::Admin,
    }
}

/// The user role a database role stands for.
pub open spec fn role_from_db(role: UserRoleDb) -> UserRole {
    match role {
        UserRoleDb::Default => UserRole::Default,
        UserRoleDb::Admin => UserRole::Admin,
    }
}

impl<'a> From<&'a UserRole> for UserRoleDb {
    fn from(value: &'a UserRole) -> (res: Self) {
        match value {
            UserRole::Default => UserRoleDb::Default,
            UserRole::Admin => UserRoleDb::Admin,
        }
    }
}

impl<'a> FromSpecImpl<&'a UserRole> for UserRoleDb {
    open spec fn obeys_from_spec() -> bool {
        true
    }

    open spec fn from_spec(v: &'a UserRole) -> Self {
        role_to_db(*v)
    }
}

impl<'a> From<&'a UserRoleDb> for UserRole {
    fn from(value: &'a UserRoleDb) -> (res: Self) {
        match value {
            UserRoleDb::Default => UserRole::Default,
            UserRoleDb::Admin => UserRole::Admin,
        }
    }
}

impl<'a> FromSpecImpl<&'a UserRoleDb> for UserRole {
    open spec fn obeys_from_spec() -> bool {
        true
    }

    open spec fn from_spec(v: &'a UserRoleDb) -> Self {
        role_from_db(*v)
    }
}

/// Storing a role and reading it back gives the role stored.
pub proof fn lemma_role_roundtrip(role: UserRole)
    ensures
        role_from_db(role_to_db(role)) == role,
{
}

/// Reading a stored role and storing it again gives the same database value.
pub proof fn lemma_role_db_roundtrip(role: UserRoleDb)
    ensures
        role_to_db(role_from_db(role)) == role,
{
}

} // verus!
