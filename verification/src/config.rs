//! The service's configuration and the builder that assembles it.

use std::path::PathBuf;

use url::ParseError;

use vstd::prelude::*;

use crate::constants::{
    ACCESS_TOKEN_EXPIRATION_SECONDS_DEFAULT, CORS_ORIGINS_COMMA_SEPARATED_DEFAULT,
    POSTGRESDB_MAX_CONNECTIONS_DEFAULT, SESSION_EXPIRATION_SECONDS_DEFAULT, USE_HSTS_DEFAULT,
};
use crate::errors::{AppConfigBuilderError, UrlParseError};
use crate::text::{chars_of, lemma_split_commas_nonempty, split_commas, trim, trimmed_bounds};
use crate::types::{AccessTokenExpirationSeconds, PostgresDbMaxConnections, SessionExpirationSeconds};

verus! {

#[verifier::external_type_specification]
#[verifier::external_body]
pub struct ExPathBuf(PathBuf);

/// `PathBuf::clone` gives a path equal to the original.
pub assume_specification[ <PathBuf as Clone>::clone ](p: &PathBuf) -> (res: PathBuf)
    ensures
        res == *p,
;

/// What `url::Url::parse` makes of `input`: the serialization of the URL,
/// or the kind of error it refuses the input with.
pub uninterp spec fn url_parse(input: Seq<char>) -> Result<Seq<char>, UrlParseError>;

/// The variant of a `url::ParseError`, variant by variant.
#[verifier::external_body]
fn url_error_kind(e: url::ParseError) -> (res: UrlParseError) {
    match e {
        ParseError::EmptyHost => UrlParseError::EmptyHost,
        ParseError::IdnaError => UrlParseError::IdnaError,
        ParseError::InvalidPort => UrlParseError::InvalidPort,
        ParseError::InvalidIpv4Address => UrlParseError::InvalidIpv4Address,
        ParseError::InvalidIpv6Address => UrlParseError::InvalidIpv6Address,
        ParseError::InvalidDomainCharacter => UrlParseError::InvalidDomainCharacter,
        ParseError::RelativeUrlWithoutBase => UrlParseError::RelativeUrlWithoutBase,
        ParseError::RelativeUrlWithCannotBeABaseBase => UrlParseError::RelativeUrlWithCannotBeABaseBase,
        ParseError::SetHostOnCannotBeABaseUrl => UrlParseError::SetHostOnCannotBeABaseUrl,
        ParseError::Overflow => UrlParseError::Overflow,
        _ => UrlParseError::Other,
    }
}

/// `url::Url::parse` followed by the URL's `to_string`, which is its
/// serialization, or the variant of the `ParseError` it fails with. The
/// result is a function of the input alone.
#[verifier::external_body]
fn parse_url(input: &str) -> (res: Result<String, UrlParseError>)
    ensures
        match res {
            Ok(u) => url_parse(input@) == Ok::<Seq<char>, UrlParseError>(u@),
            Err(e) => url_parse(input@) == Err::<Seq<char>, UrlParseError>(e),
        },
{
    match url::Url::parse(input) {
        Ok(url) => Ok(url.to_string()),
        Err(e) => Err(url_error_kind(e)),
    }
}

/// The trimmed pieces that are not blank.
pub open spec fn nonblank_trimmed(pieces: Seq<Seq<char>>) -> Seq<Seq<char>>
    decreases pieces.len(),
{
    if pieces.len() == 0 {
        Seq::empty()
    } else {
        let prev = nonblank_trimmed(pieces.drop_last());
        let t = trim(pieces.last());
        if t.len() == 0 {
            prev
        } else {
            prev.push(t)
        }
    }
}

/// The origins a comma-separated list names: its pieces, trimmed, blank
/// ones left out.
pub open spec fn origin_candidates_of(list: Seq<char>) -> Seq<Seq<char>> {
    nonblank_trimmed(split_commas(list))
}

/// The URL serializations of all candidates, or the error of the first
/// that is not a URL.
pub open spec fn serialized_urls(candidates: Seq<Seq<char>>) -> Result<Seq<Seq<char>>, UrlParseError>
    decreases candidates.len(),
{
    if candidates.len() == 0 {
        Ok(Seq::empty())
    } else {
        match serialized_urls(candidates.drop_last()) {
            Ok(prev) => match url_parse(candidates.last()) {
                Ok(u) => Ok(prev.push(u)),
                Err(e) => Err(e),
            },
            Err(e) => Err(e),
        }
    }
}

/// The allowed CORS origins a comma-separated list configures, or the
/// error of its first origin that is not a URL.
pub open spec fn cors_origins_of(list: Seq<char>) -> Result<Seq<Seq<char>>, UrlParseError> {
    serialized_urls(origin_candidates_of(list))
}

pub open spec fn strings_view(v: Seq<String>) -> Seq<Seq<char>> {
    v.map_values(|s: String| s@)
}

fn push_candidate(list: &str, chars: &Vec<char>, start: usize, end: usize, out: &mut Vec<String>)
    requires
        chars@ == list@,
        start <= end <= chars@.len(),
    ensures
        strings_view(final(out)@) == ({
            let t = trim(chars@.subrange(start as int, end as int));
            if t.len() == 0 {
                strings_view(old(out)@)
            } else {
                strings_view(old(out)@).push(t)
            }
        }),
{
    let (a, b) = trimmed_bounds(chars, start, end);
    if a < b {
        let candidate = list.substring_char(a, b).to_owned();
        out.push(candidate);
        assert(strings_view(out@) =~= strings_view(old(out)@).push(
            trim(chars@.subrange(start as int, end as int)),
        ));
    }
}

/// The trimmed, non-blank pieces of a comma-separated list.
pub fn origin_candidates(list: &str) -> (res: Vec<String>)
    ensures
        strings_view(res@) == origin_candidates_of(list@),
{
    let chars = chars_of(list);
    let n = chars.len();
    let mut out: Vec<String> = Vec::new();
    let mut start: usize = 0;
    let mut i: usize = 0;
    let ghost mut done: Seq<Seq<char>> = Seq::empty();
    assert(chars@.subrange(0, 0) =~= Seq::<char>::empty());
    assert(split_commas(Seq::<char>::empty()) =~= done.push(Seq::<char>::empty()));
    while i < n
        invariant
            n == chars@.len(),
            chars@ == list@,
            start <= i <= n,
            split_commas(chars@.subrange(0, i as int)) == done.push(
                chars@.subrange(start as int, i as int),
            ),
            strings_view(out@) == nonblank_trimmed(done),
        decreases n - i,
    {
        let ghost prefix = chars@.subrange(0, i + 1);
        assert(prefix.drop_last() =~= chars@.subrange(0, i as int));
        if chars[i] == ',' {
            let ghost piece = chars@.subrange(start as int, i as int);
            let ghost next = done.push(piece);
            assert(next.drop_last() =~= done);
            push_candidate(list, &chars, start, i, &mut out);
            assert(chars@.subrange(i + 1, i + 1) =~= Seq::<char>::empty());
            start = i + 1;
            proof {
                done = next;
            }
        } else {
            assert(chars@.subrange(start as int, i + 1) =~= chars@.subrange(
                start as int,
                i as int,
            ).push(chars@[i as int]));
            proof {
                lemma_split_commas_nonempty(chars@.subrange(0, i as int));
            }
            assert(split_commas(prefix) =~= done.push(chars@.subrange(start as int, i + 1)));
        }
        i = i + 1;
    }
    let ghost last = chars@.subrange(start as int, n as int);
    assert(done.push(last).drop_last() =~= done);
    assert(chars@.subrange(0, n as int) =~= chars@);
    push_candidate(list, &chars, start, n, &mut out);
    out
}

/// The URL serializations of the candidates, or the error of the first
/// that is not a URL.
pub fn serialize_urls(candidates: &Vec<String>) -> (res: Result<Vec<String>, UrlParseError>)
    ensures
        match res {
            Ok(v) => serialized_urls(strings_view(candidates@)) == Ok::<
                Seq<Seq<char>>,
                UrlParseError,
            >(strings_view(v@)),
            Err(e) => serialized_urls(strings_view(candidates@)) == Err::<
                Seq<Seq<char>>,
                UrlParseError,
            >(e),
        },
{
    let mut out: Vec<String> = Vec::new();
    let mut i: usize = 0;
    assert(strings_view(candidates@.subrange(0, 0)) =~= Seq::<Seq<char>>::empty());
    assert(strings_view(out@) =~= Seq::<Seq<char>>::empty());
    while i < candidates.len()
        invariant
            i <= candidates@.len(),
            serialized_urls(strings_view(candidates@.subrange(0, i as int))) == Ok::<
                Seq<Seq<char>>,
                UrlParseError,
            >(strings_view(out@)),
        decreases candidates@.len() - i,
    {
        let ghost prefix = strings_view(candidates@.subrange(0, i + 1));
        assert(prefix.drop_last() =~= strings_view(candidates@.subrange(0, i as int)));
        match parse_url(candidates[i].as_str()) {
            Ok(url) => {
                let ghost before = strings_view(out@);
                out.push(url);
                assert(strings_view(out@) =~= before.push(url@));
                assert(serialized_urls(prefix) == Ok::<Seq<Seq<char>>, UrlParseError>(
                    before.push(url@),
                ));
            },
            Err(e) => {
                assert(serialized_urls(prefix) == Err::<Seq<Seq<char>>, UrlParseError>(e));
                proof {
                    assert(strings_view(candidates@).subrange(0, i + 1) =~= prefix);
                    lemma_serialized_urls_prefix(strings_view(candidates@), i + 1);
                }
                return Err(e);
            },
        }
        i = i + 1;
    }
    assert(candidates@.subrange(0, candidates@.len() as int) =~= candidates@);
    assert(strings_view(candidates@.subrange(0, i as int)) =~= strings_view(candidates@));
    Ok(out)
}

/// A list of candidates is accepted exactly when each candidate is a URL,
/// and then each origin is the serialization of the candidate at its place;
/// a refused list is refused with the error of its first candidate that is
/// not a URL.
pub proof fn lemma_serialized_urls(candidates: Seq<Seq<char>>)
    ensures
        serialized_urls(candidates) is Ok <==> forall|i: int|
            0 <= i < candidates.len() ==> #[trigger] url_parse(candidates[i]) is Ok,
        serialized_urls(candidates) matches Ok(origins) ==> origins.len() == candidates.len()
            && forall|i: int|
            0 <= i < candidates.len() ==> url_parse(candidates[i]) == Ok::<
                Seq<char>,
                UrlParseError,
            >(#[trigger] origins[i]),
        serialized_urls(candidates) matches Err(e) ==> exists|k: int|
            0 <= k < candidates.len() && url_parse(candidates[k]) == Err::<Seq<char>, UrlParseError>(
                e,
            ) && forall|j: int| 0 <= j < k ==> #[trigger] url_parse(candidates[j]) is Ok,
    decreases candidates.len(),
{
    if candidates.len() > 0 {
        let prev = candidates.drop_last();
        let last = candidates.len() - 1;
        lemma_serialized_urls(prev);
        assert forall|i: int| 0 <= i < prev.len() implies #[trigger] prev[i] == candidates[i] by {}
        match serialized_urls(prev) {
            Ok(p) => {
                assert forall|j: int| 0 <= j < last implies #[trigger] url_parse(candidates[j]) is Ok by {
                    assert(url_parse(prev[j]) is Ok);
                }
                match url_parse(candidates[last]) {
                    Ok(u) => {
                        let origins = p.push(u);
                        assert forall|i: int| 0 <= i < candidates.len() implies url_parse(
                            candidates[i],
                        ) == Ok::<Seq<char>, UrlParseError>(#[trigger] origins[i]) by {
                            if i < last {
                                assert(origins[i] == p[i]);
                                assert(url_parse(prev[i]) == Ok::<Seq<char>, UrlParseError>(p[i]));
                            }
                        }
                        assert forall|i: int| 0 <= i < candidates.len() implies #[trigger] url_parse(
                            candidates[i],
                        ) is Ok by {
                            assert(url_parse(candidates[i]) == Ok::<Seq<char>, UrlParseError>(
                                origins[i],
                            ));
                        }
                    },
                    Err(e) => {
                        assert(url_parse(candidates[last]) == Err::<Seq<char>, UrlParseError>(e));
                    },
                }
            },
            Err(e) => {
                let k = choose|k: int|
                    0 <= k < prev.len() && url_parse(prev[k]) == Err::<Seq<char>, UrlParseError>(e)
                        && forall|j: int| 0 <= j < k ==> #[trigger] url_parse(prev[j]) is Ok;
                assert(url_parse(candidates[k]) == Err::<Seq<char>, UrlParseError>(e));
                assert forall|j: int| 0 <= j < k implies #[trigger] url_parse(candidates[j]) is Ok by {
                    assert(url_parse(prev[j]) is Ok);
                }
            },
        }
    }
}

/// A refused prefix makes the whole list refused, with the same error.
proof fn lemma_serialized_urls_prefix(c: Seq<Seq<char>>, k: int)
    requires
        0 <= k <= c.len(),
        serialized_urls(c.subrange(0, k)) is Err,
    ensures
        serialized_urls(c) == serialized_urls(c.subrange(0, k)),
    decreases c.len() - k,
{
    if k < c.len() {
        assert(c.subrange(0, k + 1).drop_last() =~= c.subrange(0, k));
        lemma_serialized_urls_prefix(c, k + 1);
    } else {
        assert(c.subrange(0, k) =~= c);
    }
}

/// Builds an `AppConfig`; every setting but the three required ones has a
/// default.
pub struct AppConfigBuilder {
    server_addr: String,
    keypairs_store_path: PathBuf,
    postgres_db_url: String,
    session_expiration_seconds: usize,
    access_token_expiration_seconds: usize,
    postgres_db_max_connections: usize,
    use_hsts: bool,
    cors_origins_comma_separated: String,
}

/// The settings a builder holds.
pub struct AppConfigBuilderView {
    pub server_addr: Seq<char>,
    pub keypairs_store_path: PathBuf,
    pub postgres_db_url: Seq<char>,
    pub session_expiration_seconds: usize,
    pub access_token_expiration_seconds: usize,
    pub postgres_db_max_connections: usize,
    pub use_hsts: bool,
    pub cors_origins_comma_separated: Seq<char>,
}

/// The service's configuration.
pub struct AppConfig {
    server_addr: String,
    keypairs_store_path: PathBuf,
    postgres_db_url: String,
    session_expiration_seconds: SessionExpirationSeconds,
    access_token_expiration_seconds: AccessTokenExpirationSeconds,
    postgres_db_max_connections: PostgresDbMaxConnections,
    use_hsts: bool,
    cors_origins: Vec<String>,
}

/// The settings a configuration holds.
pub struct AppConfigView {
    pub server_addr: Seq<char>,
    pub keypairs_store_path: PathBuf,
    pub postgres_db_url: Seq<char>,
    pub session_expiration_seconds: usize,
    pub access_token_expiration_seconds: usize,
    pub postgres_db_max_connections: usize,
    pub use_hsts: bool,
    pub cors_origins: Seq<Seq<char>>,
}

/// The settings that have no default.
pub struct AppConfigRequiredOptions {
    pub server_addr: String,
    pub keypairs_store_path: PathBuf,
    pub postgres_db_url: String,
}

impl View for AppConfigBuilder {
    type V = AppConfigBuilderView;

    closed spec fn view(&self) -> AppConfigBuilderView {
        AppConfigBuilderView {
            server_addr: self.server_addr@,
            keypairs_store_path: self.keypairs_store_path,
            postgres_db_url: self.postgres_db_url@,
            session_expiration_seconds: self.session_expiration_seconds,
            access_token_expiration_seconds: self.access_token_expiration_seconds,
            postgres_db_max_connections: self.postgres_db_max_connections,
            use_hsts: self.use_hsts,
            cors_origins_comma_separated: self.cors_origins_comma_separated@,
        }
    }
}

impl View for AppConfig {
    type V = AppConfigView;

    closed spec fn view(&self) -> AppConfigView {
        AppConfigView {
            server_addr: self.server_addr@,
            keypairs_store_path: self.keypairs_store_path,
            postgres_db_url: self.postgres_db_url@,
            session_expiration_seconds: self.session_expiration_seconds.0,
            access_token_expiration_seconds: self.access_token_expiration_seconds.0,
            postgres_db_max_connections: self.postgres_db_max_connections.0,
            use_hsts: self.use_hsts,
            cors_origins: strings_view(self.cors_origins@),
        }
    }
}

/// The configuration a builder's settings give, or the error of its first
/// CORS origin that is not a URL.
pub open spec fn built_config(b: AppConfigBuilderView) -> Result<AppConfigView, UrlParseError> {
    match cors_origins_of(b.cors_origins_comma_separated) {
        Ok(origins) => Ok(
            AppConfigView {
                server_addr: b.server_addr,
                keypairs_store_path: b.keypairs_store_path,
                postgres_db_url: b.postgres_db_url,
                session_expiration_seconds: b.session_expiration_seconds,
                access_token_expiration_seconds: b.access_token_expiration_seconds,
                postgres_db_max_connections: b.postgres_db_max_connections,
                use_hsts: b.use_hsts,
                cors_origins: origins,
            },
        ),
        Err(e) => Err(e),
    }
}

/// A configuration is built exactly when every CORS origin of the builder
/// is a URL, and then holds the builder's settings unchanged, with the CORS
/// origins as their URL serializations.
pub proof fn lemma_built_config_keeps_settings(b: AppConfigBuilderView)
    ensures
        built_config(b) is Ok <==> serialized_urls(origin_candidates_of(b.cors_origins_comma_separated)) is Ok,
        built_config(b) matches Ok(c) ==> {
            &&& c.server_addr == b.server_addr
            &&& c.keypairs_store_path == b.keypairs_store_path
            &&& c.postgres_db_url == b.postgres_db_url
            &&& c.session_expiration_seconds == b.session_expiration_seconds
            &&& c.access_token_expiration_seconds == b.access_token_expiration_seconds
            &&& c.postgres_db_max_connections == b.postgres_db_max_connections
            &&& c.use_hsts == b.use_hsts
            &&& serialized_urls(origin_candidates_of(b.cors_origins_comma_separated)) == Ok::<
                Seq<Seq<char>>,
                UrlParseError,
            >(c.cors_origins)
        },
{
}

/// A call of one of the builder's setters, with its argument.
pub enum BuilderCall {
    SessionExpirationSeconds(usize),
    AccessTokenExpirationSeconds(usize),
    PostgresDbMaxConnections(usize),
    Hsts,
    CorsOriginsCommaSeparated(Seq<char>),
}

/// A builder's settings after a call of a setter.
pub open spec fn after_call(b: AppConfigBuilderView, call: BuilderCall) -> AppConfigBuilderView {
    match call {
        BuilderCall::SessionExpirationSeconds(s) => AppConfigBuilderView {
            session_expiration_seconds: s,
            ..b
        },
        BuilderCall::AccessTokenExpirationSeconds(s) => AppConfigBuilderView {
            access_token_expiration_seconds: s,
            ..b
        },
        BuilderCall::PostgresDbMaxConnections(n) => AppConfigBuilderView {
            postgres_db_max_connections: n,
            ..b
        },
        BuilderCall::Hsts => AppConfigBuilderView { use_hsts: true, ..b },
        BuilderCall::CorsOriginsCommaSeparated(o) => AppConfigBuilderView {
            cors_origins_comma_separated: o,
            ..b
        },
    }
}

/// A builder's settings after a sequence of setter calls, in order.
pub open spec fn after_calls(b: AppConfigBuilderView, calls: Seq<BuilderCall>) -> AppConfigBuilderView
    decreases calls.len(),
{
    if calls.len() == 0 {
        b
    } else {
        after_call(after_calls(b, calls.drop_last()), calls.last())
    }
}

/// Whatever setters are called, and in whatever order, the builder uses
/// HSTS exactly when it did to begin with or `with_hsts` was called at
/// least once; a configuration built from it uses HSTS exactly then.
pub proof fn lemma_hsts_over_builder_calls(b: AppConfigBuilderView, calls: Seq<BuilderCall>)
    ensures
        after_calls(b, calls).use_hsts == (b.use_hsts || exists|i: int|
            0 <= i < calls.len() && #[trigger] calls[i] == BuilderCall::Hsts),
        built_config(after_calls(b, calls)) matches Ok(c) ==> c.use_hsts == after_calls(
            b,
            calls,
        ).use_hsts,
    decreases calls.len(),
{
    if calls.len() > 0 {
        let prev = calls.drop_last();
        lemma_hsts_over_builder_calls(b, prev);
        let last = calls.len() - 1;
        if exists|i: int| 0 <= i < prev.len() && #[trigger] prev[i] == BuilderCall::Hsts {
            let i = choose|i: int| 0 <= i < prev.len() && #[trigger] prev[i] == BuilderCall::Hsts;
            assert(calls[i] == prev[i]);
        }
        if exists|i: int| 0 <= i < calls.len() && #[trigger] calls[i] == BuilderCall::Hsts {
            let i = choose|i: int| 0 <= i < calls.len() && #[trigger] calls[i] == BuilderCall::Hsts;
            if i < last {
                assert(prev[i] == calls[i]);
            }
        }
    }
}

impl AppConfigBuilder {
    /// A builder with the required settings and every other one at its
    /// default.
    pub fn new(options: AppConfigRequiredOptions) -> (res: Self)
        ensures
            res@ == (AppConfigBuilderView {
                server_addr: options.server_addr@,
                keypairs_store_path: options.keypairs_store_path,
                postgres_db_url: options.postgres_db_url@,
                session_expiration_seconds: SESSION_EXPIRATION_SECONDS_DEFAULT,
                access_token_expiration_seconds: ACCESS_TOKEN_EXPIRATION_SECONDS_DEFAULT,
                postgres_db_max_connections: POSTGRESDB_MAX_CONNECTIONS_DEFAULT,
                use_hsts: USE_HSTS_DEFAULT,
                cors_origins_comma_separated: CORS_ORIGINS_COMMA_SEPARATED_DEFAULT@,
            }),
    {
        AppConfigBuilder {
            server_addr: options.server_addr,
            keypairs_store_path: options.keypairs_store_path,
            postgres_db_url: options.postgres_db_url,
            session_expiration_seconds: SESSION_EXPIRATION_SECONDS_DEFAULT,
            access_token_expiration_seconds: ACCESS_TOKEN_EXPIRATION_SECONDS_DEFAULT,
            postgres_db_max_connections: POSTGRESDB_MAX_CONNECTIONS_DEFAULT,
            use_hsts: USE_HSTS_DEFAULT,
            cors_origins_comma_separated: CORS_ORIGINS_COMMA_SEPARATED_DEFAULT.to_owned(),
        }
    }

    pub fn with_session_expiration_seconds(&mut self, seconds: usize) -> (ret: &mut Self)
        ensures
            ret@ == (AppConfigBuilderView { session_expiration_seconds: seconds, ..old(self)@ }),
            ret@ == after_call(old(self)@, BuilderCall::SessionExpirationSeconds(seconds)),
            final(self)@ == final(ret)@,
    {
        self.session_expiration_seconds = seconds;
        self
    }

    pub fn with_access_token_expiration_seconds(&mut self, seconds: usize) -> (ret: &mut Self)
        ensures
            ret@ == (AppConfigBuilderView { access_token_expiration_seconds: seconds, ..old(self)@ }),
            ret@ == after_call(old(self)@, BuilderCall::AccessTokenExpirationSeconds(seconds)),
            final(self)@ == final(ret)@,
    {
        self.access_token_expiration_seconds = seconds;
        self
    }

    pub fn with_postgres_db_max_connections(&mut self, connections: usize) -> (ret: &mut Self)
        ensures
            ret@ == (AppConfigBuilderView { postgres_db_max_connections: connections, ..old(self)@ }),
            ret@ == after_call(old(self)@, BuilderCall::PostgresDbMaxConnections(connections)),
            final(self)@ == final(ret)@,
    {
        self.postgres_db_max_connections = connections;
        self
    }

    pub fn with_hsts(&mut self) -> (ret: &mut Self)
        ensures
            ret@ == (AppConfigBuilderView { use_hsts: true, ..old(self)@ }),
            ret@ == after_call(old(self)@, BuilderCall::Hsts),
            final(self)@ == final(ret)@,
    {
        self.use_hsts = true;
        self
    }

    pub fn with_cors_origins_comma_separated(&mut self, origins_comma_separated: &str) -> (ret:
        &mut Self)
        ensures
            ret@ == (AppConfigBuilderView {
                cors_origins_comma_separated: origins_comma_separated@,
                ..old(self)@
            }),
            ret@ == after_call(
                old(self)@,
                BuilderCall::CorsOriginsCommaSeparated(origins_comma_separated@),
            ),
            final(self)@ == final(ret)@,
    {
        self.cors_origins_comma_separated = origins_comma_separated.to_owned();
        self
    }

    /// The configuration, with the CORS origins read from the
    /// comma-separated list. Fails when a non-blank origin is not a URL.
    pub fn build(self) -> (res: Result<AppConfig, AppConfigBuilderError>)
        ensures
            match built_config(self@) {
                Ok(c) => res matches Ok(config) && config@ == c,
                Err(e) => res matches Err(AppConfigBuilderError::OriginParsingError(f)) && f == e,
            },
    {
        let cors_origins = match Self::parse_cors_origins_comma_separated(
            self.cors_origins_comma_separated.as_str(),
        ) {
            Ok(origins) => origins,
            Err(e) => {
                return Err(AppConfigBuilderError::OriginParsingError(e));
            },
        };
        Ok(
            AppConfig {
                server_addr: self.server_addr,
                keypairs_store_path: self.keypairs_store_path,
                postgres_db_url: self.postgres_db_url,
                session_expiration_seconds: SessionExpirationSeconds(self.session_expiration_seconds),
                access_token_expiration_seconds: AccessTokenExpirationSeconds(
                    self.access_token_expiration_seconds,
                ),
                postgres_db_max_connections: PostgresDbMaxConnections(
                    self.postgres_db_max_connections,
                ),
                use_hsts: self.use_hsts,
                cors_origins,
            },
        )
    }

    /// The URL serializations of the non-blank, trimmed origins of a
    /// comma-separated list.
    pub fn parse_cors_origins_comma_separated(cors_origins_comma_separated: &str) -> (res: Result<
        Vec<String>,
        UrlParseError,
    >)
        ensures
            match res {
                Ok(v) => cors_origins_of(cors_origins_comma_separated@) == Ok::<
                    Seq<Seq<char>>,
                    UrlParseError,
                >(strings_view(v@)),
                Err(e) => cors_origins_of(cors_origins_comma_separated@) == Err::<
                    Seq<Seq<char>>,
                    UrlParseError,
                >(e),
            },
    {
        let candidates = origin_candidates(cors_origins_comma_separated);
        serialize_urls(&candidates)
    }
}

fn clone_strings(v: &Vec<String>) -> (res: Vec<String>)
    ensures
        strings_view(res@) == strings_view(v@),
{
    let mut out: Vec<String> = Vec::new();
    let mut i: usize = 0;
    while i < v.len()
        invariant
            i <= v@.len(),
            out@.len() == i,
            forall|j: int| 0 <= j < i ==> #[trigger] out@[j]@ == v@[j]@,
        decreases v@.len() - i,
    {
        out.push(v[i].clone());
        i = i + 1;
    }
    assert(strings_view(out@) =~= strings_view(v@));
    out
}

impl Clone for AppConfig {
    /// A configuration with the same settings.
    fn clone(&self) -> (res: Self)
        ensures
            res@ == self@,
    {
        AppConfig {
            server_addr: self.server_addr.clone(),
            keypairs_store_path: self.keypairs_store_path.clone(),
            postgres_db_url: self.postgres_db_url.clone(),
            session_expiration_seconds: SessionExpirationSeconds(self.session_expiration_seconds.0),
            access_token_expiration_seconds: AccessTokenExpirationSeconds(
                self.access_token_expiration_seconds.0,
            ),
            postgres_db_max_connections: PostgresDbMaxConnections(self.postgres_db_max_connections.0),
            use_hsts: self.use_hsts,
            cors_origins: clone_strings(&self.cors_origins),
        }
    }
}

impl AppConfig {
    pub fn server_addr(&self) -> (res: &str)
        ensures
            res@ == self@.server_addr,
    {
        self.server_addr.as_str()
    }

    pub fn keypairs_store_path(&self) -> (res: &PathBuf)
        ensures
            *res == self@.keypairs_store_path,
    {
        &self.keypairs_store_path
    }

    pub fn postgres_db_url(&self) -> (res: &str)
        ensures
            res@ == self@.postgres_db_url,
    {
        self.postgres_db_url.as_str()
    }

    pub fn session_expiration_seconds(&self) -> (res: SessionExpirationSeconds)
        ensures
            res.0 == self@.session_expiration_seconds,
    {
        self.session_expiration_seconds
    }

    pub fn access_token_expiration_seconds(&self) -> (res: AccessTokenExpirationSeconds)
        ensures
            res.0 == self@.access_token_expiration_seconds,
    {
        self.access_token_expiration_seconds
    }

    pub fn postgres_db_max_connections(&self) -> (res: PostgresDbMaxConnections)
        ensures
            res.0 == self@.postgres_db_max_connections,
    {
        self.postgres_db_max_connections
    }

    pub fn use_hsts(&self) -> (res: bool)
        ensures
            res == self@.use_hsts,
    {
        self.use_hsts
    }

    pub fn cors_origins(&self) -> (res: &Vec<String>)
        ensures
            strings_view(res@) == self@.cors_origins,
    {
        &self.cors_origins
    }
}

} // verus!
