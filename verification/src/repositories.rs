//! Where users and key pairs are stored, and the rows users are stored as.

use std::path::PathBuf;

use vstd::prelude::*;

use crate::user_role::UserRoleDb;

verus! {

/// A user row as it is read from the `users` table.
pub struct GetUserDb {
    pub id: String,
    pub user_name: String,
    pub role: UserRoleDb,
    pub password_hash: String,
}

/// A user row as it is written to the `users` table.
pub struct SaveUserDb {
    pub id: String,
    pub user_name: String,
    pub role: UserRoleDb,
    pub password_hash: String,
}

/// Users stored in PostgreSQL.
pub struct PostgreSQLUserRepository {}

/// A transaction on the PostgreSQL user store.
pub struct PostgreSQLUserRepositoryTransaction {}

/// Key pairs stored as files in a directory.
pub struct FileSystemKeyPairRepository {
    keypairs_location: PathBuf,
}

/// A transaction on the key pairs stored in a directory.
pub struct FileSystemKeyPairRepositoryWithTransaction {
    keypairs_location: PathBuf,
}

} // verus!
