use std::path::PathBuf;

use nimbus_auth::config::{AppConfig, AppConfigBuilder, AppConfigRequiredOptions};
use nimbus_auth::web_api::{
    cors_allowed_origins, middleware_layers, AllowedOrigins, MiddlewareLayer, HSTS_HEADER_NAME,
    HSTS_HEADER_VALUE,
};

fn config(hsts: bool, origins: &str) -> AppConfig {
    let mut builder = AppConfigBuilder::new(AppConfigRequiredOptions {
        server_addr: "0.0.0.0:8080".to_string(),
        keypairs_store_path: PathBuf::from("keys"),
        postgres_db_url: "postgres://db/auth".to_string(),
    });
    if hsts {
        builder.with_hsts();
    }
    builder.with_cors_origins_comma_separated(origins);
    builder.build().ok().unwrap()
}

#[test]
fn no_configured_origin_allows_any() {
    assert!(matches!(cors_allowed_origins(&Vec::new()), Ok(AllowedOrigins::Any)));
}

#[test]
fn configured_origins_are_allowed_exactly() {
    let origins = vec!["https://a.example".to_string(), "http://b.example:8080".to_string()];
    match cors_allowed_origins(&origins) {
        Ok(AllowedOrigins::List(list)) => assert_eq!(list, origins),
        _ => panic!("expected the list"),
    }
}

#[test]
fn origin_that_is_no_header_value_is_refused() {
    let origins = vec!["https://a.example".to_string(), "https://b\n.example".to_string()];
    assert!(cors_allowed_origins(&origins).is_err());
}

#[test]
fn layers_without_hsts() {
    let layers = middleware_layers(&config(false, "")).ok().unwrap();
    assert_eq!(layers.len(), 3);
    assert!(matches!(layers[0], MiddlewareLayer::Cors(AllowedOrigins::Any)));
    assert!(matches!(layers[1], MiddlewareLayer::RateLimiting));
    assert!(matches!(layers[2], MiddlewareLayer::Tracing));
}

#[test]
fn layers_with_hsts_and_origins() {
    let layers = middleware_layers(&config(true, "https://a.example, https://b.example")).ok().unwrap();
    assert_eq!(layers.len(), 4);
    assert!(matches!(layers[0], MiddlewareLayer::Hsts));
    match &layers[1] {
        MiddlewareLayer::Cors(AllowedOrigins::List(list)) => {
            assert_eq!(list, &vec!["https://a.example/".to_string(), "https://b.example/".to_string()])
        },
        _ => panic!("expected the origins"),
    }
    assert!(matches!(layers[2], MiddlewareLayer::RateLimiting));
    assert!(matches!(layers[3], MiddlewareLayer::Tracing));
}

#[test]
fn hsts_header() {
    assert_eq!(HSTS_HEADER_NAME, "strict-transport-security");
    assert_eq!(HSTS_HEADER_VALUE, "max-age=31536000; includeSubDomains; preload");
}
