use nimbus_auth::errors::ErrorBoxed;

#[test]
fn boxed_error_keeps_its_message() {
    let err = ErrorBoxed::from_str("session is expired");
    assert_eq!(err.message(), "session is expired");
    assert_eq!(err.inner().0, "session is expired");
}

#[test]
fn boxed_error_may_have_an_empty_message() {
    assert_eq!(ErrorBoxed::from_str("").message(), "");
}
