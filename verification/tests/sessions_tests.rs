use nimbus_auth::sessions::{SaveSessionDb, SessionRecord};
use time::OffsetDateTime;

fn at(seconds: i64) -> OffsetDateTime {
    OffsetDateTime::from_unix_timestamp(seconds).unwrap()
}

#[test]
fn active_session_keeps_its_user_and_expiry() {
    let row = SaveSessionDb::from(SessionRecord::Active {
        id: "01HZSESSION".to_string(),
        user_id: "01HZUSER".to_string(),
        expires_at: at(1_700_000_000),
    });
    assert_eq!(row.id, "01HZSESSION");
    assert_eq!(row.user_id.as_deref(), Some("01HZUSER"));
    assert_eq!(row.expires_at, Some(at(1_700_000_000)));
    assert_eq!(row.revoked_at, None);
}

#[test]
fn expired_session_keeps_its_id_only() {
    let row = SaveSessionDb::from(SessionRecord::Expired { id: "01HZEXPIRED".to_string() });
    assert_eq!(row.id, "01HZEXPIRED");
    assert_eq!(row.user_id, None);
    assert_eq!(row.expires_at, None);
    assert_eq!(row.revoked_at, None);
}

#[test]
fn revoked_session_keeps_its_revocation_time() {
    let row = SaveSessionDb::from(SessionRecord::Revoked { id: "01HZREVOKED".to_string(), revoked_at: at(42) });
    assert_eq!(row.id, "01HZREVOKED");
    assert_eq!(row.user_id, None);
    assert_eq!(row.expires_at, None);
    assert_eq!(row.revoked_at, Some(at(42)));
}
