//! Small value types shared by the configuration and the persistence layer.

use vstd::prelude::*;

verus! {

#[derive(Clone, Copy, Debug)]
pub struct SessionExpirationSeconds(pub usize);

#[derive(Clone, Copy, Debug)]
pub struct AccessTokenExpirationSeconds(pub usize);

#[derive(Clone, Copy, Debug)]
pub struct PostgresDbMaxConnections(pub usize);

/// What a user is allowed to do.
#[derive(Clone, Copy, Debug, PartialEq, Eq, Structural)]
pub enum UserRole {
    Default,
    Admin,
}

} // verus!
