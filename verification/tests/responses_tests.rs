use nimbus_auth::constants::{SESSION_COOKIE_NAME, SESSION_HEADER_NAME};
use nimbus_auth::extractors::{Client, ClientType, Session};
use nimbus_auth::responses::{decimal_string, respond_with_session, ProtoResponse, SameSite};
use nimbus_auth::use_cases::SessionDto;

fn session(id: &str, expires_at: i64) -> SessionDto {
    SessionDto { session_id: id.to_string(), session_expires_at_unix_timestamp: expires_at }
}

#[test]
fn decimal_string_writes_integers_as_to_string_does() {
    assert_eq!(decimal_string(0), "0");
    assert_eq!(decimal_string(7), "7");
    assert_eq!(decimal_string(-42), "-42");
    assert_eq!(decimal_string(1700000000), "1700000000");
    assert_eq!(decimal_string(i64::MAX), i64::MAX.to_string());
    assert_eq!(decimal_string(i64::MIN), i64::MIN.to_string());
}

#[test]
fn new_response_has_no_headers_and_no_cookies() {
    let (status, headers, cookies, message) = ProtoResponse::new(418, "body").into_response_parts();
    assert_eq!(status, 418);
    assert_eq!(message, "body");
    let headers = headers.into_vec();
    assert_eq!(headers.len(), 1);
    assert_eq!(headers[0].0, "content-type");
    assert_eq!(headers[0].1, "application/x-protobuf");
    assert_eq!(cookies.len(), 0);
}

#[test]
fn browser_session_goes_into_cookies() {
    let response = ProtoResponse::new(201, 5u8)
        .with_session_headers(ClientType::Browser, &session("abc\n", 1700000000))
        .ok()
        .expect("a browser takes any session id as a cookie");
    let (status, headers, cookies, message) = response.into_response_parts();
    assert_eq!(status, 201);
    assert_eq!(message, 5u8);
    assert_eq!(headers.len(), 1);
    let cookies = cookies.into_vec();
    assert_eq!(cookies.len(), 2);
    assert_eq!(cookies[0].0, "session_id");
    assert_eq!(cookies[0].1.value, "abc\n");
    assert!(cookies[0].1.http_only);
    assert!(cookies[0].1.secure);
    assert_eq!(cookies[0].1.same_site, Some(SameSite::Strict));
    assert_eq!(cookies[1].0, "session_exp_timestamp");
    assert_eq!(cookies[1].1.value, "1700000000");
    assert!(cookies[1].1.http_only);
    assert!(cookies[1].1.secure);
    assert_eq!(cookies[1].1.same_site, Some(SameSite::Strict));
}

#[test]
fn other_clients_get_session_headers() {
    for client in [ClientType::Mobile, ClientType::PC] {
        let response = ProtoResponse::new(200, ())
            .with_session_headers(client, &session("01HZX", -5))
            .ok()
            .expect("a visible session id is a valid header value");
        let (status, headers, cookies, _) = response.into_response_parts();
        assert_eq!(status, 200);
        assert_eq!(cookies.len(), 0);
        let headers = headers.into_vec();
        assert_eq!(headers.len(), 3);
        assert_eq!(headers[0], ("x-session-id".to_string(), "01HZX".to_string()));
        assert_eq!(headers[1], ("x-session-exp-timestamp".to_string(), "-5".to_string()));
        assert_eq!(headers[2].0, "content-type");
    }
}

#[test]
fn session_id_that_is_no_header_value_is_refused_for_headers() {
    let result = ProtoResponse::new(200, ()).with_session_headers(ClientType::Mobile, &session("a\nb", 1));
    assert!(result.is_err());
    let result = ProtoResponse::new(200, ()).with_session_headers(ClientType::PC, &session("a\u{7f}", 1));
    assert!(result.is_err());
}

#[test]
fn session_id_with_tab_and_high_bytes_is_a_header_value() {
    let result = ProtoResponse::new(200, ()).with_session_headers(ClientType::PC, &session("a\tb é", 1));
    assert!(result.is_ok());
}

#[test]
fn respond_with_session_falls_back_to_server_error() {
    let (status, headers, cookies, message) =
        respond_with_session(ClientType::Mobile, 201, "ok", "failed", &session("bad\r", 9))
            .into_response_parts();
    assert_eq!(status, 500);
    assert_eq!(message, "failed");
    assert_eq!(headers.len(), 1);
    assert_eq!(cookies.len(), 0);

    let (status, headers, cookies, message) =
        respond_with_session(ClientType::Mobile, 201, "ok", "failed", &session("good", 9))
            .into_response_parts();
    assert_eq!(status, 201);
    assert_eq!(message, "ok");
    assert_eq!(headers.len(), 3);
    assert_eq!(cookies.len(), 0);
}

#[test]
fn session_handed_out_is_the_session_read_back() {
    let (_, headers, _, _) = ProtoResponse::new(200, ())
        .with_session_headers(ClientType::Mobile, &session("01HZXSESSION", 1))
        .ok()
        .unwrap()
        .into_response_parts();
    let headers = headers.into_vec();
    let (_, value) = headers.iter().find(|(name, _)| name == SESSION_HEADER_NAME).unwrap();
    let read_back = Session::extract_session_id(Client(ClientType::Mobile), None, Some(value.as_bytes()));
    assert_eq!(read_back, Ok("01HZXSESSION".to_string()));

    let (_, _, cookies, _) = ProtoResponse::new(200, ())
        .with_session_headers(ClientType::Browser, &session("01HZYSESSION", 1))
        .ok()
        .unwrap()
        .into_response_parts();
    let cookies = cookies.into_vec();
    let (_, cookie) = cookies.iter().find(|(name, _)| name == SESSION_COOKIE_NAME).unwrap();
    let read_back =
        Session::extract_session_id(Client(ClientType::Browser), Some(cookie.value.as_str()), None);
    assert_eq!(read_back, Ok("01HZYSESSION".to_string()));
}
