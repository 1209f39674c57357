//! The HTTP server's middleware: which layers wrap the router, in which
//! order, and with which settings.

use vstd::prelude::*;
use vstd::utf8::encode_utf8;

use crate::config::{strings_view, AppConfig};
use crate::headers::all_header_value_bytes;
use crate::responses::check_header_value;

verus! {

/// The HTTP server of the service.
pub struct WebApi {}

/// The header that tells browsers to use HTTPS only.
pub const HSTS_HEADER_NAME: &'static str = "strict-transport-security";

/// One year, subdomains included, eligible for preloading.
pub const HSTS_HEADER_VALUE: &'static str = "max-age=31536000; includeSubDomains; preload";

/// The origins the CORS layer is configured with.
pub enum AllowedOrigins {
    /// Any origin.
    Any,
    /// The configured origins, in order. The server hands them to
    /// `tower_http`'s `CorsLayer::allow_origin` one after another, and each
    /// call replaces the setting of the one before, so the running server
    /// admits only the last of them.
    List(Vec<String>),
}

/// A layer that wraps the router.
pub enum MiddlewareLayer {
    /// Sets the HSTS header on responses that lack it.
    Hsts,
    /// Answers CORS requests for `GET` and `POST` from the allowed origins.
    Cors(AllowedOrigins),
    /// Limits the rate of requests.
    RateLimiting,
    /// Traces each HTTP request.
    Tracing,
}

/// Every origin can be a header value.
pub open spec fn origins_are_header_values(origins: Seq<Seq<char>>) -> bool {
    forall|i: int| 0 <= i < origins.len() ==> all_header_value_bytes(encode_utf8(#[trigger] origins[i]))
}

/// `layer` is the CORS layer for the configured `origins`: any origin where
/// none is configured, else the list of exactly these.
pub open spec fn is_cors_layer_for(layer: MiddlewareLayer, origins: Seq<Seq<char>>) -> bool {
    match layer {
        MiddlewareLayer::Cors(AllowedOrigins::Any) => origins.len() == 0,
        MiddlewareLayer::Cors(AllowedOrigins::List(l)) => origins.len() > 0 && strings_view(l@)
            == origins,
        _ => false,
    }
}

/// The origins the CORS layer is configured with: any origin where none is
/// configured, else the list of the configured ones, each of which must be
/// a valid header value.
pub fn cors_allowed_origins(origins: &Vec<String>) -> (res: Result<
    AllowedOrigins,
    axum::http::header::InvalidHeaderValue,
>)
    ensures
        origins@.len() == 0 ==> res matches Ok(AllowedOrigins::Any),
        origins@.len() > 0 ==> (res is Ok <==> origins_are_header_values(strings_view(origins@))),
        origins@.len() > 0 ==> (res matches Ok(a) ==> a matches AllowedOrigins::List(l) && strings_view(
            l@,
        ) == strings_view(origins@)),
{
    if origins.len() == 0 {
        return Ok(AllowedOrigins::Any);
    }
    let mut list: Vec<String> = Vec::new();
    let mut i: usize = 0;
    while i < origins.len()
        invariant
            i <= origins@.len(),
            list@.len() == i,
            forall|j: int| 0 <= j < i ==> #[trigger] list@[j]@ == origins@[j]@,
            forall|j: int| 0 <= j < i ==> all_header_value_bytes(encode_utf8(#[trigger] origins@[j]@)),
        decreases origins@.len() - i,
    {
        match check_header_value(origins[i].as_str()) {
            Ok(()) => {},
            Err(e) => {
                assert(!all_header_value_bytes(encode_utf8(strings_view(origins@)[i as int])));
                return Err(e);
            },
        }
        list.push(origins[i].clone());
        i = i + 1;
    }
    assert(strings_view(list@) =~= strings_view(origins@));
    Ok(AllowedOrigins::List(list))
}

/// The layers that wrap the router, innermost first: HSTS where the
/// configuration asks for it, then CORS, then rate limiting, then tracing.
pub fn middleware_layers(config: &AppConfig) -> (res: Result<
    Vec<MiddlewareLayer>,
    axum::http::header::InvalidHeaderValue,
>)
    ensures
        res is Ok <==> (config@.cors_origins.len() == 0 || origins_are_header_values(
            config@.cors_origins,
        )),
        res matches Ok(layers) ==> {
            let n = if config@.use_hsts { 4int } else { 3int };
            &&& layers@.len() == n
            &&& config@.use_hsts ==> layers@[0] is Hsts
            &&& is_cors_layer_for(layers@[n - 3], config@.cors_origins)
            &&& layers@[n - 2] is RateLimiting
            &&& layers@[n - 1] is Tracing
        },
{
    let mut layers: Vec<MiddlewareLayer> = Vec::new();
    if config.use_hsts() {
        layers.push(MiddlewareLayer::Hsts);
    }
    let origins = config.cors_origins();
    let cors = match cors_allowed_origins(origins) {
        Ok(a) => a,
        Err(e) => {
            return Err(e);
        },
    };
    layers.push(MiddlewareLayer::Cors(cors));
    layers.push(MiddlewareLayer::RateLimiting);
    layers.push(MiddlewareLayer::Tracing);
    Ok(layers)
}

} // verus!
