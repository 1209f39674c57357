//! Protobuf responses: a message with its status code, the extra headers and
//! the cookies that go out with it.

use vstd::prelude::*;
use vstd::string::StringExecFns;
use vstd::utf8::{encode_utf8, encode_utf8_decode_utf8};

use crate::extractors::ClientType;
use crate::constants::{SESSION_COOKIE_NAME, SESSION_HEADER_NAME};
use crate::headers::{
    all_header_value_bytes, all_visible_ascii, header_text, is_visible_ascii, lemma_ascii_decodes,
};
use crate::named_entries::{
    entries_view, insert_entry, lemma_insert_entry, lemma_map_insert_entry, lookup, map_entry_values,
    names_distinct, NamedEntries,
};
use crate::use_cases::SessionDto;

verus! {

#[verifier::external_type_specification]
#[verifier::external_body]
pub struct ExInvalidHeaderValue(axum::http::header::InvalidHeaderValue);

/// `HeaderValue::from_str`, which succeeds exactly when every byte of the
/// string's UTF-8 encoding is a tab or a byte of at least 32 other than 127.
#[verifier::external_body]
pub(crate) fn check_header_value(value: &str) -> (res: Result<(), axum::http::header::InvalidHeaderValue>)
    ensures
        res is Ok <==> all_header_value_bytes(encode_utf8(value@)),
{
    match axum::http::HeaderValue::from_str(value) {
        Ok(_) => Ok(()),
        Err(e) => Err(e),
    }
}

/// The character of a decimal digit.
pub open spec fn digit_char(d: nat) -> char {
    (48 + d) as char
}

/// The decimal digits of a natural number, most significant first.
pub open spec fn decimal_digits(n: nat) -> Seq<char>
    decreases n,
{
    if n < 10 {
        seq![digit_char(n)]
    } else {
        decimal_digits(n / 10).push(digit_char(n % 10))
    }
}

/// The decimal representation of an integer, with a leading `-` when it
/// is negative.
pub open spec fn decimal(n: int) -> Seq<char> {
    if n < 0 {
        seq!['-'] + decimal_digits((-n) as nat)
    } else {
        decimal_digits(n as nat)
    }
}

/// Decimal representations are made of digits and a minus sign only.
pub proof fn lemma_decimal_chars(n: int)
    ensures
        forall|i: int|
            0 <= i < decimal(n).len() ==> #[trigger] decimal(n)[i] == '-' || ('0' <= decimal(n)[i]
                <= '9'),
{
    let m: nat = if n < 0 {
        (-n) as nat
    } else {
        n as nat
    };
    lemma_decimal_digits_chars(m);
}

proof fn lemma_decimal_digits_chars(n: nat)
    ensures
        forall|i: int|
            0 <= i < decimal_digits(n).len() ==> '0' <= #[trigger] decimal_digits(n)[i] <= '9',
    decreases n,
{
    lemma_digit_char(n % 10);
    if n >= 10 {
        lemma_decimal_digits_chars(n / 10);
        assert(decimal_digits(n) == decimal_digits(n / 10).push(digit_char(n % 10)));
    } else {
        assert(n % 10 == n);
    }
}

/// The number a string of decimal digits, most significant first, reads as.
pub open spec fn digits_value(s: Seq<char>) -> int
    decreases s.len(),
{
    if s.len() == 0 {
        0
    } else {
        digits_value(s.drop_last()) * 10 + (s.last() as int - '0' as int)
    }
}

proof fn lemma_decimal_digits_value(n: nat)
    ensures
        decimal_digits(n).len() >= 1,
        digits_value(decimal_digits(n)) == n,
        n > 0 ==> decimal_digits(n)[0] != '0',
    decreases n,
{
    if n < 10 {
        let d = decimal_digits(n);
        assert(d.drop_last() =~= Seq::<char>::empty());
        assert(digit_char(n) as int == 48 + n);
        assert(d.last() == digit_char(n));
        assert('0' as int == 48);
        assert(digits_value(d) == digits_value(d.drop_last()) * 10 + (d.last() as int - '0' as int));
        assert(digits_value(d.drop_last()) == 0);
    } else {
        let q = n / 10;
        let r = n % 10;
        lemma_decimal_digits_value(q);
        let d = decimal_digits(n);
        assert(d == decimal_digits(q).push(digit_char(r)));
        assert(d.drop_last() =~= decimal_digits(q));
        assert(digit_char(r) as int == 48 + r);
        assert(q * 10 + r == n) by (nonlinear_arith)
            requires
                q == n / 10,
                r == n % 10,
        ;
        assert(d[0] == decimal_digits(q)[0]);
        assert('0' as int == 48);
        assert(digits_value(d) == digits_value(d.drop_last()) * 10 + (d.last() as int - '0' as int));
        assert(digits_value(d) == q * 10 + r);
    }
}

/// The decimal representation of an integer reads back as that integer:
/// a negative one is a minus sign followed by the digits of its magnitude,
/// any other is its digits alone; the digits have no leading zero.
pub proof fn lemma_decimal_reads_back(n: int)
    ensures
        decimal(n).len() >= 1,
        n >= 0 ==> digits_value(decimal(n)) == n && (n > 0 ==> decimal(n)[0] != '0'),
        n >= 0 ==> decimal(n)[0] != '-',
        n < 0 ==> decimal(n)[0] == '-' && digits_value(decimal(n).drop_first()) == -n
            && decimal(n)[1] != '0',
{
    if n >= 0 {
        lemma_decimal_digits_value(n as nat);
        lemma_decimal_digits_chars(n as nat);
        assert('0' <= decimal(n)[0] <= '9');
    } else {
        let m = (-n) as nat;
        lemma_decimal_digits_value(m);
        assert(decimal(n).drop_first() =~= decimal_digits(m));
        assert(decimal(n)[1] == decimal_digits(m)[0]);
    }
}

proof fn lemma_digit_char(d: nat)
    requires
        d < 10,
    ensures
        '0' <= digit_char(d) <= '9',
{
}

/// A decimal representation is a valid header value.
proof fn lemma_decimal_header_value(n: int)
    ensures
        all_header_value_bytes(encode_utf8(decimal(n))),
{
    let d = decimal(n);
    lemma_decimal_chars(n);
    assert(vstd::utf8::is_ascii_chars(d)) by {
        assert forall|i| 0 <= i < d.len() implies '\0' <= #[trigger] d[i] <= '\u{7f}' by {}
    }
    vstd::utf8::is_ascii_chars_encode_utf8(d);
    let e = encode_utf8(d);
    assert forall|i: int| 0 <= i < e.len() implies crate::headers::is_header_value_byte(#[trigger] e[i]) by {
        assert(d[i] as u8 == e[i]);
    }
}

fn digit_str(d: u64) -> (res: &'static str)
    requires
        d < 10,
    ensures
        res@ == seq![digit_char(d as nat)],
{
    proof {
        reveal_strlit("0");
        reveal_strlit("1");
        reveal_strlit("2");
        reveal_strlit("3");
        reveal_strlit("4");
        reveal_strlit("5");
        reveal_strlit("6");
        reveal_strlit("7");
        reveal_strlit("8");
        reveal_strlit("9");
    }
    match d {
        0 => "0",
        1 => "1",
        2 => "2",
        3 => "3",
        4 => "4",
        5 => "5",
        6 => "6",
        7 => "7",
        8 => "8",
        _ => "9",
    }
}

fn push_decimal_digits(s: &mut String, n: u64)
    ensures
        final(s)@ == old(s)@ + decimal_digits(n as nat),
    decreases n,
{
    if n >= 10 {
        push_decimal_digits(s, n / 10);
    }
    s.append(digit_str(n % 10));
}

/// The decimal representation of `n`, as `i64::to_string` writes it.
pub fn decimal_string(n: i64) -> (res: String)
    ensures
        res@ == decimal(n as int),
{
    let mut s = String::new();
    if n < 0 {
        proof {
            reveal_strlit("-");
        }
        s.append("-");
        let magnitude = (0 - (n as i128)) as u64;
        push_decimal_digits(&mut s, magnitude);
    } else {
        push_decimal_digits(&mut s, n as u64);
    }
    assert(s@ =~= decimal(n as int));
    s
}

/// The `SameSite` attribute of a cookie.
#[derive(PartialEq, Eq, Structural, Clone, Copy, Debug)]
pub enum SameSite {
    Strict,
    Lax,
    /// `SameSite=None`: sent with cross-site requests too.
    CrossSite,
}

/// A cookie to be set on the client, without its name.
pub struct ResponseCookie {
    pub value: String,
    pub http_only: bool,
    pub secure: bool,
    pub same_site: Option<SameSite>,
}

/// The attributes of a cookie, its value as text.
pub struct CookieView {
    pub value: Seq<char>,
    pub http_only: bool,
    pub secure: bool,
    pub same_site: Option<SameSite>,
}

pub open spec fn cookie_view(c: ResponseCookie) -> CookieView {
    CookieView {
        value: c.value@,
        http_only: c.http_only,
        secure: c.secure,
        same_site: c.same_site,
    }
}

pub open spec fn string_view(s: String) -> Seq<char> {
    s@
}

/// The cookie the service sets to carry session data: HTTP-only, secure,
/// and sent only to this site.
pub open spec fn session_cookie_view(value: Seq<char>) -> CookieView {
    CookieView { value, http_only: true, secure: true, same_site: Some(SameSite::Strict) }
}

fn session_cookie(value: String) -> (res: ResponseCookie)
    ensures
        cookie_view(res) == session_cookie_view(value@),
{
    ResponseCookie { value, http_only: true, secure: true, same_site: Some(SameSite::Strict) }
}

/// A protobuf message with the status code, headers and cookies of the
/// HTTP response that carries it.
pub struct ProtoResponse<T> {
    message: T,
    status_code: u16,
    extra_headers: NamedEntries<String>,
    cookie_jar: NamedEntries<ResponseCookie>,
}

/// The headers and cookies a response carries for a session.
pub open spec fn session_headers_added(
    headers: Seq<(Seq<char>, Seq<char>)>,
    cookies: Seq<(Seq<char>, CookieView)>,
    client_type: ClientType,
    session_id: Seq<char>,
    expires_at: i64,
) -> (Seq<(Seq<char>, Seq<char>)>, Seq<(Seq<char>, CookieView)>) {
    if client_type == ClientType::Browser {
        (
            headers,
            insert_entry(
                insert_entry(cookies, "session_id"@, session_cookie_view(session_id)),
                "session_exp_timestamp"@,
                session_cookie_view(decimal(expires_at as int)),
            ),
        )
    } else {
        (
            insert_entry(
                insert_entry(headers, "x-session-id"@, session_id),
                "x-session-exp-timestamp"@,
                decimal(expires_at as int),
            ),
            cookies,
        )
    }
}

/// The session a response attaches is the one the client's next request
/// carries back: a browser keeps it in the cookie the session extractor
/// reads, any other client in the header it reads, and that header's bytes
/// read back as the same text where the session id is visible ASCII.
pub proof fn lemma_session_round_trip(client_type: ClientType, session_id: Seq<char>, expires_at: i64)
    requires
        client_type != ClientType::Browser ==> all_visible_ascii(encode_utf8(session_id)),
    ensures
        ({
            let (headers, cookies) = session_headers_added(
                Seq::empty(),
                Seq::empty(),
                client_type,
                session_id,
                expires_at,
            );
            &&& client_type == ClientType::Browser ==> lookup(cookies, SESSION_COOKIE_NAME@) == Some(
                session_cookie_view(session_id),
            )
            &&& client_type != ClientType::Browser ==> lookup(headers, SESSION_HEADER_NAME@) == Some(
                session_id,
            )
            &&& client_type != ClientType::Browser ==> header_text(encode_utf8(session_id)) == Some(
                session_id,
            )
        }),
{
    reveal_strlit("session_id");
    reveal_strlit("session_exp_timestamp");
    reveal_strlit("x-session-id");
    reveal_strlit("x-session-exp-timestamp");
    let e = Seq::<(Seq<char>, Seq<char>)>::empty();
    let c = Seq::<(Seq<char>, CookieView)>::empty();
    if client_type == ClientType::Browser {
        let once = insert_entry(c, "session_id"@, session_cookie_view(session_id));
        lemma_insert_entry(c, "session_id"@, session_cookie_view(session_id));
        lemma_insert_entry(
            once,
            "session_exp_timestamp"@,
            session_cookie_view(decimal(expires_at as int)),
        );
        assert("session_exp_timestamp"@.len() != "session_id"@.len());
    } else {
        let once = insert_entry(e, "x-session-id"@, session_id);
        lemma_insert_entry(e, "x-session-id"@, session_id);
        lemma_insert_entry(once, "x-session-exp-timestamp"@, decimal(expires_at as int));
        assert("x-session-exp-timestamp"@.len() != "x-session-id"@.len());
        let bytes = encode_utf8(session_id);
        assert forall|i: int| 0 <= i < bytes.len() implies #[trigger] bytes[i] < 128 by {
            assert(is_visible_ascii(bytes[i]));
        }
        lemma_ascii_decodes(bytes);
        encode_utf8_decode_utf8(session_id);
    }
}

/// Whether a session can be attached for this client: browsers take it as
/// cookies, other clients need a session id that is a valid header value.
pub open spec fn session_accepted(client_type: ClientType, session_id: Seq<char>) -> bool {
    client_type == ClientType::Browser || all_header_value_bytes(encode_utf8(session_id))
}

/// `res` has the given status and message and carries no extra headers
/// and no cookies.
pub open spec fn is_plain_response<T>(res: ProtoResponse<T>, status: u16, message: T) -> bool {
    &&& res.status() == status
    &&& res.message() == message
    &&& res.headers() == Seq::<(Seq<char>, Seq<char>)>::empty()
    &&& res.cookies() == Seq::<(Seq<char>, CookieView)>::empty()
}

/// `res` answers a successful call that opened `session`: the success
/// message with the session attached, or, where the session cannot be
/// attached, a server error with the failure message.
pub open spec fn is_session_response<T>(
    res: ProtoResponse<T>,
    client_type: ClientType,
    status: u16,
    success: T,
    failure: T,
    session: SessionDto,
) -> bool {
    if session_accepted(client_type, session.session_id@) {
        &&& res.status() == status
        &&& res.message() == success
        &&& (res.headers(), res.cookies()) == session_headers_added(
            Seq::empty(),
            Seq::empty(),
            client_type,
            session.session_id@,
            session.session_expires_at_unix_timestamp,
        )
    } else {
        is_plain_response(res, 500, failure)
    }
}

/// The answer to a successful call that opened `session`.
pub fn respond_with_session<T>(
    client_type: ClientType,
    status: u16,
    success: T,
    failure: T,
    session: &SessionDto,
) -> (res: ProtoResponse<T>)
    ensures
        is_session_response(res, client_type, status, success, failure, *session),
{
    match ProtoResponse::new(status, success).with_session_headers(client_type, session) {
        Ok(response) => response,
        Err(_) => ProtoResponse::new(500, failure),
    }
}

impl<T> ProtoResponse<T> {
    pub closed spec fn message(&self) -> T {
        self.message
    }

    pub closed spec fn status(&self) -> u16 {
        self.status_code
    }

    /// The extra headers, names and values as text.
    pub closed spec fn headers(&self) -> Seq<(Seq<char>, Seq<char>)> {
        map_entry_values(self.extra_headers.entries(), |v: String| string_view(v))
    }

    /// The cookies, by name.
    pub closed spec fn cookies(&self) -> Seq<(Seq<char>, CookieView)> {
        map_entry_values(self.cookie_jar.entries(), |c: ResponseCookie| cookie_view(c))
    }

    /// A response with the given status and message, no extra headers and
    /// no cookies.
    pub fn new(status_code: u16, message: T) -> (res: Self)
        ensures
            res.status() == status_code,
            res.message() == message,
            res.headers() == Seq::<(Seq<char>, Seq<char>)>::empty(),
            res.cookies() == Seq::<(Seq<char>, CookieView)>::empty(),
    {
        let res = ProtoResponse {
            message,
            status_code,
            extra_headers: NamedEntries::new(),
            cookie_jar: NamedEntries::new(),
        };
        assert(res.headers() =~= Seq::<(Seq<char>, Seq<char>)>::empty());
        assert(res.cookies() =~= Seq::<(Seq<char>, CookieView)>::empty());
        res
    }

    fn set_header(&mut self, name: String, value: String)
        ensures
            final(self).headers() == insert_entry(old(self).headers(), name@, value@),
            final(self).cookies() == old(self).cookies(),
            final(self).status() == old(self).status(),
            final(self).message() == old(self).message(),
    {
        proof {
            lemma_map_insert_entry(
                self.extra_headers.entries(),
                |v: String| string_view(v),
                name@,
                value,
            );
        }
        self.extra_headers.insert(name, value);
    }

    fn set_cookie(&mut self, name: String, cookie: ResponseCookie)
        ensures
            final(self).cookies() == insert_entry(old(self).cookies(), name@, cookie_view(cookie)),
            final(self).headers() == old(self).headers(),
            final(self).status() == old(self).status(),
            final(self).message() == old(self).message(),
    {
        proof {
            lemma_map_insert_entry(
                self.cookie_jar.entries(),
                |c: ResponseCookie| cookie_view(c),
                name@,
                cookie,
            );
        }
        self.cookie_jar.insert(name, cookie);
    }

    /// Attaches a session: a browser gets the session id and its expiry
    /// time as cookies, any other client gets them as headers. Fails when
    /// the session id cannot be a header value.
    pub fn with_session_headers(self, client_type: ClientType, session: &SessionDto) -> (res:
        Result<Self, axum::http::header::InvalidHeaderValue>)
        ensures
            client_type != ClientType::Browser && !all_header_value_bytes(
                encode_utf8(session.session_id@),
            ) ==> res is Err,
            res is Err ==> client_type != ClientType::Browser && !all_header_value_bytes(
                encode_utf8(session.session_id@),
            ),
            res matches Ok(r) ==> {
                &&& r.status() == self.status()
                &&& r.message() == self.message()
                &&& (r.headers(), r.cookies()) == session_headers_added(
                    self.headers(),
                    self.cookies(),
                    client_type,
                    session.session_id@,
                    session.session_expires_at_unix_timestamp,
                )
            },
    {
        let mut response = self;
        proof {
            reveal_strlit("session_id");
            reveal_strlit("session_exp_timestamp");
            reveal_strlit("x-session-id");
            reveal_strlit("x-session-exp-timestamp");
        }
        match client_type {
            ClientType::Browser => {
                response.set_cookie(
                    "session_id".to_owned(),
                    session_cookie(session.session_id.clone()),
                );
                response.set_cookie(
                    "session_exp_timestamp".to_owned(),
                    session_cookie(decimal_string(session.session_expires_at_unix_timestamp)),
                );
            },
            _ => {
                match check_header_value(session.session_id.as_str()) {
                    Ok(()) => {},
                    Err(e) => {
                        return Err(e);
                    },
                }
                response.set_header("x-session-id".to_owned(), session.session_id.clone());
                let expires_at = decimal_string(session.session_expires_at_unix_timestamp);
                proof {
                    lemma_decimal_header_value(session.session_expires_at_unix_timestamp as int);
                }
                match check_header_value(expires_at.as_str()) {
                    Ok(()) => {},
                    Err(e) => {
                        return Err(e);
                    },
                }
                response.set_header("x-session-exp-timestamp".to_owned(), expires_at);
            },
        }
        Ok(response)
    }

    /// The parts of the HTTP response: the status, the headers with the
    /// protobuf content type set, the cookies, and the message to encode.
    pub fn into_response_parts(self) -> (res: (u16, NamedEntries<String>, NamedEntries<ResponseCookie>, T))
        ensures
            res.0 == self.status(),
            map_entry_values(res.1.entries(), |v: String| string_view(v)) == insert_entry(
                self.headers(),
                "content-type"@,
                "application/x-protobuf"@,
            ),
            map_entry_values(res.2.entries(), |c: ResponseCookie| cookie_view(c))
                == self.cookies(),
            res.3 == self.message(),
    {
        let mut response = self;
        proof {
            reveal_strlit("content-type");
            reveal_strlit("application/x-protobuf");
        }
        response.set_header("content-type".to_owned(), "application/x-protobuf".to_owned());
        (response.status_code, response.extra_headers, response.cookie_jar, response.message)
    }
}

} // verus!
