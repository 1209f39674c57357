//! Request extractors: which kind of client sent a request, which session
//! it carries, and which bearer token authorizes it.
//!
//! The raw header values are passed in as bytes, as the request holds them.

use vstd::prelude::*;

use crate::headers::{
    all_visible_ascii, ascii_bytes, is_visible_ascii, ascii_lowercase, ascii_text, bytes_equal, contains_bytes,
    contains_subslice, header_text, header_value_to_str, is_visible_ascii_text, keyword,
    lowercase_ascii,
};
use crate::use_cases::{AuthorizationError, AuthorizationResponse, UserClaimsDto};

verus! {

/// A refusal of a request: an HTTP status code and a message.
pub type Rejection = (u16, &'static str);

pub const BAD_REQUEST: u16 = 400;

pub const UNAUTHORIZED: u16 = 401;

pub const INTERNAL_SERVER_ERROR: u16 = 500;

/// The kind of software a request comes from.
#[derive(PartialEq, Eq, Structural, Clone, Copy, Debug)]
pub enum ClientType {
    Browser,
    Mobile,
    PC,
}

pub struct Client(pub ClientType);

pub struct Session {
    pub session_id: String,
}

pub struct Authorization(pub UserClaimsDto);

/// Why no authorized user could be extracted from a request.
pub enum AuthorizationExtractorError {
    AuthHeaderIsMissing,
    AuthHeaderContainsNonAscii,
    AuthHeaderWrongSchema,
    Authorization(AuthorizationError),
}

/// The byte content of an optional header value.
pub open spec fn opt_bytes(o: Option<&[u8]>) -> Option<Seq<u8>> {
    match o {
        Some(b) => Some(b@),
        None => None,
    }
}

/// Whether `res` is the refusal with the given status and message.
pub open spec fn is_rejection<T>(res: Result<T, Rejection>, status: u16, message: &str) -> bool {
    res matches Err(r) && r.0 == status && r.1@ == message@
}

/// The client type that an `x-client-type` value names, compared without
/// regard to ASCII case.
pub open spec fn client_type_named(lowered: Seq<u8>) -> Option<ClientType> {
    if lowered == keyword("browser") {
        Some(ClientType::Browser)
    } else if lowered == keyword("mobile") {
        Some(ClientType::Mobile)
    } else if lowered == keyword("pc") {
        Some(ClientType::PC)
    } else {
        None
    }
}

/// The client type a lower-cased user agent suggests: mobile device words
/// first, then browser engines, then desktop systems.
pub open spec fn client_type_of_user_agent(lowered: Seq<u8>) -> Option<ClientType> {
    if contains_bytes(lowered, keyword("android")) || contains_bytes(lowered, keyword("iphone"))
        || contains_bytes(lowered, keyword("ipad")) || contains_bytes(lowered, keyword("mobile")) {
        Some(ClientType::Mobile)
    } else if contains_bytes(lowered, keyword("mozilla")) || contains_bytes(
        lowered,
        keyword("chrome"),
    ) || contains_bytes(lowered, keyword("safari")) {
        Some(ClientType::Browser)
    } else if contains_bytes(lowered, keyword("windows")) || contains_bytes(
        lowered,
        keyword("macintosh"),
    ) || contains_bytes(lowered, keyword("linux")) {
        Some(ClientType::PC)
    } else {
        None
    }
}

/// The client type of a request: an `x-client-type` header that is text
/// decides alone; without one, a user agent that is text is consulted.
pub open spec fn detected_client_type(
    client_type_header: Option<Seq<u8>>,
    user_agent: Option<Seq<u8>>,
) -> Option<ClientType> {
    let named = match client_type_header {
        Some(v) => if all_visible_ascii(v) {
            Some(ascii_lowercase(v))
        } else {
            None
        },
        None => None,
    };
    let agent = match user_agent {
        Some(u) => if all_visible_ascii(u) {
            Some(ascii_lowercase(u))
        } else {
            None
        },
        None => None,
    };
    match named {
        Some(n) => client_type_named(n),
        None => match agent {
            Some(a) => client_type_of_user_agent(a),
            None => None,
        },
    }
}

/// Lower-cases a header value that is present.
pub open spec fn lowercase_opt(o: Option<Seq<u8>>) -> Option<Seq<u8>> {
    match o {
        Some(v) => Some(ascii_lowercase(v)),
        None => None,
    }
}

/// The client type does not depend on the ASCII case of either header.
pub proof fn lemma_client_type_ignores_case(
    client_type_header: Option<Seq<u8>>,
    user_agent: Option<Seq<u8>>,
)
    ensures
        detected_client_type(lowercase_opt(client_type_header), lowercase_opt(user_agent))
            == detected_client_type(client_type_header, user_agent),
{
    if let Some(v) = client_type_header {
        lemma_lowercase_keeps_text(v);
    }
    if let Some(u) = user_agent {
        lemma_lowercase_keeps_text(u);
    }
}

proof fn lemma_lowercase_keeps_text(v: Seq<u8>)
    ensures
        all_visible_ascii(ascii_lowercase(v)) == all_visible_ascii(v),
        ascii_lowercase(ascii_lowercase(v)) == ascii_lowercase(v),
{
    let l = ascii_lowercase(v);
    assert(ascii_lowercase(l) =~= l);
    if all_visible_ascii(v) {
        assert forall|i: int| 0 <= i < l.len() implies is_visible_ascii(#[trigger] l[i]) by {
            assert(is_visible_ascii(v[i]));
        }
    }
    if all_visible_ascii(l) {
        assert forall|i: int| 0 <= i < v.len() implies is_visible_ascii(#[trigger] v[i]) by {
            assert(is_visible_ascii(l[i]));
        }
    }
}

/// The words whose presence in a lower-cased user agent marks a mobile
/// device.
pub open spec fn has_mobile_word(lowered: Seq<u8>) -> bool {
    ||| contains_bytes(lowered, keyword("android"))
    ||| contains_bytes(lowered, keyword("iphone"))
    ||| contains_bytes(lowered, keyword("ipad"))
    ||| contains_bytes(lowered, keyword("mobile"))
}

/// The words whose presence in a lower-cased user agent marks a browser.
pub open spec fn has_browser_word(lowered: Seq<u8>) -> bool {
    ||| contains_bytes(lowered, keyword("mozilla"))
    ||| contains_bytes(lowered, keyword("chrome"))
    ||| contains_bytes(lowered, keyword("safari"))
}

/// The words whose presence in a lower-cased user agent marks a desktop
/// system.
pub open spec fn has_desktop_word(lowered: Seq<u8>) -> bool {
    ||| contains_bytes(lowered, keyword("windows"))
    ||| contains_bytes(lowered, keyword("macintosh"))
    ||| contains_bytes(lowered, keyword("linux"))
}

/// Without an `x-client-type` header, a user agent that is text decides,
/// regardless of ASCII case: a mobile word makes a mobile client; failing
/// that, `mozilla`, `chrome` or `safari` makes a browser, whatever desktop
/// system it also names; failing that, a desktop system makes a PC; and a
/// user agent with none of these words, or one that is not text, names no
/// client type.
pub proof fn lemma_user_agent_decides(user_agent: Seq<u8>)
    ensures
        ({
            let lowered = ascii_lowercase(user_agent);
            let detected = detected_client_type(None, Some(user_agent));
            &&& !all_visible_ascii(user_agent) ==> detected == None::<ClientType>
            &&& all_visible_ascii(user_agent) && has_mobile_word(lowered) ==> detected == Some(
                ClientType::Mobile,
            )
            &&& all_visible_ascii(user_agent) && !has_mobile_word(lowered) && has_browser_word(lowered)
                ==> detected == Some(ClientType::Browser)
            &&& all_visible_ascii(user_agent) && !has_mobile_word(lowered) && !has_browser_word(
                lowered,
            ) && has_desktop_word(lowered) ==> detected == Some(ClientType::PC)
            &&& all_visible_ascii(user_agent) && !has_mobile_word(lowered) && !has_browser_word(
                lowered,
            ) && !has_desktop_word(lowered) ==> detected == None::<ClientType>
        }),
{
}

/// An `x-client-type` header that is text names the client by one of the
/// words `browser`, `mobile` or `pc`, in any ASCII case, whatever the user
/// agent says; any other text names no client type.
pub proof fn lemma_client_type_header_names(header: Seq<u8>, user_agent: Option<Seq<u8>>)
    requires
        all_visible_ascii(header),
    ensures
        ({
            let lowered = ascii_lowercase(header);
            let detected = detected_client_type(Some(header), user_agent);
            &&& lowered == keyword("browser") ==> detected == Some(ClientType::Browser)
            &&& lowered == keyword("mobile") ==> detected == Some(ClientType::Mobile)
            &&& lowered == keyword("pc") ==> detected == Some(ClientType::PC)
            &&& lowered != keyword("browser") && lowered != keyword("mobile") && lowered != keyword(
                "pc",
            ) ==> detected == None::<ClientType>
        }),
{
    reveal_strlit("browser");
    reveal_strlit("mobile");
    reveal_strlit("pc");
    assert(keyword("browser").len() == 7);
    assert(keyword("mobile").len() == 6);
    assert(keyword("pc").len() == 2);
}

/// An `x-client-type` header that is text decides alone: the user agent
/// then plays no part.
pub proof fn lemma_client_type_header_decides(
    client_type_header: Seq<u8>,
    user_agent: Option<Seq<u8>>,
    other_user_agent: Option<Seq<u8>>,
)
    requires
        all_visible_ascii(client_type_header),
    ensures
        detected_client_type(Some(client_type_header), user_agent) == detected_client_type(
            Some(client_type_header),
            other_user_agent,
        ),
{
}

fn contains_keyword(hay: &[u8], word: &'static str) -> (res: bool)
    requires
        vstd::string::is_ascii(word),
    ensures
        res == contains_bytes(hay@, keyword(word)),
{
    contains_subslice(hay, ascii_bytes(word))
}

fn equals_keyword(bytes: &[u8], word: &'static str) -> (res: bool)
    requires
        vstd::string::is_ascii(word),
    ensures
        res == (bytes@ == keyword(word)),
{
    bytes_equal(bytes, ascii_bytes(word))
}

impl Client {
    /// The client type of a request, from the first `x-client-type` and the
    /// first `user-agent` header value.
    pub fn detect_client_type(client_type_header: Option<&[u8]>, user_agent: Option<&[u8]>) -> (res:
        Result<ClientType, Rejection>)
        ensures
            match detected_client_type(opt_bytes(client_type_header), opt_bytes(user_agent)) {
                Some(t) => res == Ok::<ClientType, Rejection>(t),
                None => is_rejection(res, 400, "client type header is not found"),
            },
    {
        proof {
            reveal_strlit("browser");
            reveal_strlit("mobile");
            reveal_strlit("pc");
            reveal_strlit("android");
            reveal_strlit("iphone");
            reveal_strlit("ipad");
            reveal_strlit("mozilla");
            reveal_strlit("chrome");
            reveal_strlit("safari");
            reveal_strlit("windows");
            reveal_strlit("macintosh");
            reveal_strlit("linux");
        }
        if let Some(value) = client_type_header {
            if is_visible_ascii_text(value) {
                let lowered = lowercase_ascii(value);
                if equals_keyword(lowered.as_slice(), "browser") {
                    return Ok(ClientType::Browser);
                } else if equals_keyword(lowered.as_slice(), "mobile") {
                    return Ok(ClientType::Mobile);
                } else if equals_keyword(lowered.as_slice(), "pc") {
                    return Ok(ClientType::PC);
                } else {
                    return Err((BAD_REQUEST, "client type header is not found"));
                }
            }
        }
        if let Some(agent) = user_agent {
            if is_visible_ascii_text(agent) {
                let lowered = lowercase_ascii(agent);
                let ua = lowered.as_slice();
                if contains_keyword(ua, "android") || contains_keyword(ua, "iphone")
                    || contains_keyword(ua, "ipad") || contains_keyword(ua, "mobile") {
                    return Ok(ClientType::Mobile);
                }
                if contains_keyword(ua, "mozilla") || contains_keyword(ua, "chrome")
                    || contains_keyword(ua, "safari") {
                    return Ok(ClientType::Browser);
                }
                if contains_keyword(ua, "windows") || contains_keyword(ua, "macintosh")
                    || contains_keyword(ua, "linux") {
                    return Ok(ClientType::PC);
                }
            }
        }
        Err((BAD_REQUEST, "client type header is not found"))
    }
}

impl Session {
    /// The session id a request carries: a browser's comes from its session
    /// cookie, any other client's from the session header, which must be
    /// text.
    pub fn extract_session_id(
        client: Client,
        session_cookie: Option<&str>,
        session_header: Option<&[u8]>,
    ) -> (res: Result<String, Rejection>)
        ensures
            client.0 == ClientType::Browser ==> match session_cookie {
                Some(c) => res matches Ok(s) && s@ == c@,
                None => is_rejection(res, 400, "session cookie is not found"),
            },
            client.0 != ClientType::Browser ==> match session_header {
                None => is_rejection(res, 400, "session header is not found"),
                Some(h) => match header_text(h@) {
                    Some(t) => res matches Ok(s) && s@ == t,
                    None => is_rejection(res, 400, "session header is invalid"),
                },
            },
    {
        match client.0 {
            ClientType::Browser => match session_cookie {
                Some(cookie) => Ok(cookie.to_owned()),
                None => Err((BAD_REQUEST, "session cookie is not found")),
            },
            _ => match session_header {
                None => Err((BAD_REQUEST, "session header is not found")),
                Some(header) => match header_value_to_str(header) {
                    Some(text) => Ok(text.to_owned()),
                    None => Err((BAD_REQUEST, "session header is invalid")),
                },
            },
        }
    }
}

/// Length of the `Bearer ` scheme prefix.
pub open spec fn bearer_prefix_len() -> int {
    7
}

/// A header made of `Bearer ` and a token that is text gives that token
/// back: it is text, starts with the scheme, and the rest is the token.
pub proof fn lemma_bearer_roundtrip(token: Seq<u8>)
    requires
        all_visible_ascii(token),
    ensures
        ({
            let header = keyword("Bearer ") + token;
            &&& all_visible_ascii(header)
            &&& header.len() >= 7
            &&& header.subrange(0, 7) == keyword("Bearer ")
            &&& header.subrange(7, header.len() as int) == token
        }),
{
    reveal_strlit("Bearer ");
    let prefix = keyword("Bearer ");
    let header = prefix + token;
    assert(prefix.len() == 7);
    assert(header.subrange(0, 7) =~= prefix);
    assert(header.subrange(7, header.len() as int) =~= token);
    assert forall|i: int| 0 <= i < header.len() implies is_visible_ascii(#[trigger] header[i]) by {
        if i >= 7 {
            assert(header[i] == token[i - 7]);
        }
    }
}

/// Why an `Authorization` header carries no bearer token, if it does not.
pub open spec fn bearer_header_error(header: Option<Seq<u8>>) -> Option<AuthorizationExtractorError> {
    match header {
        None => Some(AuthorizationExtractorError::AuthHeaderIsMissing),
        Some(h) => if !all_visible_ascii(h) {
            Some(AuthorizationExtractorError::AuthHeaderContainsNonAscii)
        } else if h.len() >= 7 && h.subrange(0, 7) == keyword("Bearer ") {
            None
        } else {
            Some(AuthorizationExtractorError::AuthHeaderWrongSchema)
        },
    }
}

/// The status and message that answer a request whose authorization
/// failed.
pub open spec fn extractor_error_rejection(err: AuthorizationExtractorError) -> (u16, Seq<char>) {
    match err {
        AuthorizationExtractorError::AuthHeaderIsMissing => (
            401,
            "authorization header is not found"@,
        ),
        AuthorizationExtractorError::AuthHeaderContainsNonAscii => (
            400,
            "authorization header is invalid"@,
        ),
        AuthorizationExtractorError::AuthHeaderWrongSchema => (
            400,
            "authorization header has wrong schema"@,
        ),
        AuthorizationExtractorError::Authorization(e) => authorization_rejection(e),
    }
}

impl Authorization {
    /// The signed token of an `Authorization: Bearer <token>` header, or why
    /// there is none.
    pub fn parse_bearer(authorization_header: Option<&[u8]>) -> (res: Result<
        &str,
        AuthorizationExtractorError,
    >)
        ensures
            match bearer_header_error(opt_bytes(authorization_header)) {
                Some(e) => res == Err::<&str, AuthorizationExtractorError>(e),
                None => res matches Ok(t) && t@ == ascii_text(
                    authorization_header.unwrap()@.subrange(
                        7,
                        authorization_header.unwrap()@.len() as int,
                    ),
                ),
            },
    {
        let header = match authorization_header {
            None => {
                return Err(AuthorizationExtractorError::AuthHeaderIsMissing);
            },
            Some(h) => h,
        };
        if !is_visible_ascii_text(header) {
            return Err(AuthorizationExtractorError::AuthHeaderContainsNonAscii);
        }
        proof {
            reveal_strlit("Bearer ");
        }
        if header.len() < 7 || !equals_keyword(&header[0..7], "Bearer ") {
            return Err(AuthorizationExtractorError::AuthHeaderWrongSchema);
        }
        let rest = &header[7..header.len()];
        assert(rest@ =~= header@.subrange(7, header@.len() as int));
        assert(all_visible_ascii(rest@));
        match header_value_to_str(rest) {
            Some(token) => Ok(token),
            None => Err(AuthorizationExtractorError::AuthHeaderContainsNonAscii),
        }
    }

    /// The refusal that answers a request whose authorization failed.
    pub fn extractor_rejection(err: &AuthorizationExtractorError) -> (res: Rejection)
        ensures
            res.0 == extractor_error_rejection(*err).0,
            res.1@ == extractor_error_rejection(*err).1,
    {
        match err {
            AuthorizationExtractorError::AuthHeaderIsMissing => (
                UNAUTHORIZED,
                "authorization header is not found",
            ),
            AuthorizationExtractorError::AuthHeaderContainsNonAscii => (
                BAD_REQUEST,
                "authorization header is invalid",
            ),
            AuthorizationExtractorError::AuthHeaderWrongSchema => (
                BAD_REQUEST,
                "authorization header has wrong schema",
            ),
            AuthorizationExtractorError::Authorization(e) => Authorization::rejection_for(e),
        }
    }

    /// The signed token of an `Authorization: Bearer <token>` header.
    pub fn bearer_token(authorization_header: Option<&[u8]>) -> (res: Result<&str, Rejection>)
        ensures
            match authorization_header {
                None => is_rejection(res, 401, "authorization header is not found"),
                Some(h) => if !all_visible_ascii(h@) {
                    is_rejection(res, 400, "authorization header is invalid")
                } else if h@.len() >= 7 && h@.subrange(0, 7) == keyword("Bearer ") {
                    res matches Ok(t) && t@ == ascii_text(h@.subrange(7, h@.len() as int))
                } else {
                    is_rejection(res, 400, "authorization header has wrong schema")
                },
            },
    {
        match Authorization::parse_bearer(authorization_header) {
            Ok(token) => Ok(token),
            Err(e) => Err(Authorization::extractor_rejection(&e)),
        }
    }

    /// The refusal that answers a failed authorization.
    pub fn rejection_for(err: &AuthorizationError) -> (res: Rejection)
        ensures
            res.0 == authorization_rejection(*err).0,
            res.1@ == authorization_rejection(*err).1,
    {
        match err {
            AuthorizationError::ExtractKeyId(_) => (
                BAD_REQUEST,
                "access token does not contain valid key id",
            ),
            AuthorizationError::AccessTokenVerification(_) => (
                BAD_REQUEST,
                "access token is invalid",
            ),
            AuthorizationError::KeyPairNotFound | AuthorizationError::KeyPairExpired
            | AuthorizationError::KeyPairRevoked => (BAD_REQUEST, "access token key is invalid"),
            AuthorizationError::Other(_) => (INTERNAL_SERVER_ERROR, "server error"),
        }
    }

    /// The extractor's answer once the token has been checked: the user on
    /// success, else the refusal for the failure.
    pub fn from_authorization_result(result: Result<AuthorizationResponse, AuthorizationError>) -> (res:
        Result<Authorization, Rejection>)
        ensures
            match result {
                Ok(r) => res matches Ok(a) && a.0 == r.user,
                Err(e) => res matches Err(r) && r.0 == authorization_rejection(e).0 && r.1@
                    == authorization_rejection(e).1,
            },
    {
        match result {
            Ok(response) => Ok(Authorization(response.user)),
            Err(err) => Err(Authorization::rejection_for(&err)),
        }
    }
}

/// The status and message that answer each kind of failed authorization.
pub open spec fn authorization_rejection(err: AuthorizationError) -> (u16, Seq<char>) {
    match err {
        AuthorizationError::ExtractKeyId(_) => (
            400,
            "access token does not contain valid key id"@,
        ),
        AuthorizationError::AccessTokenVerification(_) => (400, "access token is invalid"@),
        AuthorizationError::KeyPairNotFound | AuthorizationError::KeyPairExpired
        | AuthorizationError::KeyPairRevoked => (400, "access token key is invalid"@),
        AuthorizationError::Other(_) => (500, "server error"@),
    }
}

} // verus!
