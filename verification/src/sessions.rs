//! The rows sessions are stored as, and which columns each state of a
//! session writes.

use vstd::prelude::*;
use vstd::std_specs::convert::FromSpecImpl;

use crate::user_role::UserRoleDb;

verus! {

/// A session row as it is read from the `sessions` table.
pub struct GetSessionDb {
    pub id: String,
    pub user_id: String,
    pub user_name: String,
    pub user_role: UserRoleDb,
    pub expires_at: time::OffsetDateTime,
    pub revoked_at: Option<time::OffsetDateTime>,
}

/// A session row as it is written to the `sessions` table.
pub struct SaveSessionDb {
    pub id: String,
    pub user_id: Option<String>,
    pub expires_at: Option<time::OffsetDateTime>,
    pub revoked_at: Option<time::OffsetDateTime>,
}

/// A session to be stored, in the state it is in.
pub enum SessionRecord {
    /// Usable until it expires; it belongs to a user.
    Active { id: String, user_id: String, expires_at: time::OffsetDateTime },
    /// Past its expiry time.
    Expired { id: String },
    /// Revoked at the given time.
    Revoked { id: String, revoked_at: time::OffsetDateTime },
}

/// The row a session is stored as: an active session keeps its user and
/// expiry time, a revoked one its revocation time, an expired one its id
/// only.
pub open spec fn save_session_row(session: SessionRecord) -> SaveSessionDb {
    match session {
        SessionRecord::Active { id, user_id, expires_at } => SaveSessionDb {
            id,
            user_id: Some(user_id),
            expires_at: Some(expires_at),
            revoked_at: None,
        },
        SessionRecord::Expired { id } => SaveSessionDb {
            id,
            user_id: None,
            expires_at: None,
            revoked_at: None,
        },
        SessionRecord::Revoked { id, revoked_at } => SaveSessionDb {
            id,
            user_id: None,
            expires_at: None,
            revoked_at: Some(revoked_at),
        },
    }
}

impl From<SessionRecord> for SaveSessionDb {
    fn from(value: SessionRecord) -> (res: Self) {
        match value {
            SessionRecord::Active { id, user_id, expires_at } => SaveSessionDb {
                id,
                user_id: Some(user_id),
                expires_at: Some(expires_at),
                revoked_at: None,
            },
            SessionRecord::Expired { id } => SaveSessionDb {
                id,
                user_id: None,
                expires_at: None,
                revoked_at: None,
            },
            SessionRecord::Revoked { id, revoked_at } => SaveSessionDb {
                id,
                user_id: None,
                expires_at: None,
                revoked_at: Some(revoked_at),
            },
        }
    }
}

impl FromSpecImpl<SessionRecord> for SaveSessionDb {
    open spec fn obeys_from_spec() -> bool {
        true
    }

    open spec fn from_spec(v: SessionRecord) -> Self {
        save_session_row(v)
    }
}

/// A stored row says which state its session was in: only an active
/// session has a user, only a revoked one a revocation time, and no row has
/// both an expiry and a revocation time.
pub proof fn lemma_save_session_row_states(session: SessionRecord)
    ensures
        ({
            let row = save_session_row(session);
            &&& row.user_id is Some <==> session is Active
            &&& row.expires_at is Some <==> session is Active
            &&& row.revoked_at is Some <==> session is Revoked
            &&& !(row.expires_at is Some && row.revoked_at is Some)
        }),
{
}

} // verus!
