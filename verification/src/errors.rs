//! Error values shared across the service.

use vstd::prelude::*;

verus! {

/// An error carried as the message it displays.
pub struct ErrorBoxed {
    message: String,
}

/// An error that consists of a message only.
pub struct StringError(pub String);

impl ErrorBoxed {
    /// The message this error displays.
    pub closed spec fn text(&self) -> Seq<char> {
        self.message@
    }

    /// An error that displays `msg`.
    pub fn from_str(msg: &str) -> (res: Self)
        ensures
            res.text() == msg@,
    {
        ErrorBoxed { message: msg.to_owned() }
    }

    /// The message this error displays.
    pub fn message(&self) -> (res: &str)
        ensures
            res@ == self.text(),
    {
        self.message.as_str()
    }

    /// The underlying error.
    pub fn inner(self) -> (res: StringError)
        ensures
            res.0@ == self.text(),
    {
        StringError(self.message)
    }
}

#[verifier::external_type_specification]
#[verifier::external_body]
pub struct ExUrlParseError(url::ParseError);

/// Why `url::Url::parse` refused its input, one variant for each of
/// `url::ParseError`'s.
#[derive(PartialEq, Eq, Structural, Clone, Copy, Debug)]
pub enum UrlParseError {
    EmptyHost,
    IdnaError,
    InvalidPort,
    InvalidIpv4Address,
    InvalidIpv6Address,
    InvalidDomainCharacter,
    RelativeUrlWithoutBase,
    RelativeUrlWithCannotBeABaseBase,
    SetHostOnCannotBeABaseUrl,
    Overflow,
    /// A variant that `url::ParseError` may gain, being non-exhaustive.
    Other,
}

/// Why a configuration could not be built.
pub enum AppConfigBuilderError {
    /// An allowed CORS origin is not a URL.
    OriginParsingError(UrlParseError),
}

} // verus!
