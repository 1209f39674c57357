use std::path::PathBuf;

use nimbus_auth::config::{origin_candidates, AppConfigBuilder, AppConfigRequiredOptions};
use nimbus_auth::constants::{
    ACCESS_TOKEN_EXPIRATION_SECONDS_DEFAULT, POSTGRESDB_MAX_CONNECTIONS_DEFAULT,
    SESSION_EXPIRATION_SECONDS_DEFAULT,
};
use nimbus_auth::errors::{AppConfigBuilderError, UrlParseError};

fn options() -> AppConfigRequiredOptions {
    AppConfigRequiredOptions {
        server_addr: "127.0.0.1:8080".to_string(),
        keypairs_store_path: PathBuf::from("/var/lib/keys"),
        postgres_db_url: "postgres://localhost/auth".to_string(),
    }
}

#[test]
fn default_builder_builds_with_defaults() {
    let config = AppConfigBuilder::new(options()).build().ok().unwrap();
    assert_eq!(config.server_addr(), "127.0.0.1:8080");
    assert_eq!(config.keypairs_store_path(), &PathBuf::from("/var/lib/keys"));
    assert_eq!(config.postgres_db_url(), "postgres://localhost/auth");
    assert_eq!(config.session_expiration_seconds().0, SESSION_EXPIRATION_SECONDS_DEFAULT);
    assert_eq!(config.access_token_expiration_seconds().0, ACCESS_TOKEN_EXPIRATION_SECONDS_DEFAULT);
    assert_eq!(config.postgres_db_max_connections().0, POSTGRESDB_MAX_CONNECTIONS_DEFAULT);
    assert!(!config.use_hsts());
    assert!(config.cors_origins().is_empty());
}

#[test]
fn setters_change_their_setting_only() {
    let mut builder = AppConfigBuilder::new(options());
    builder
        .with_session_expiration_seconds(60)
        .with_access_token_expiration_seconds(30)
        .with_postgres_db_max_connections(3)
        .with_hsts()
        .with_cors_origins_comma_separated("https://example.com");
    let config = builder.build().ok().unwrap();
    assert_eq!(config.session_expiration_seconds().0, 60);
    assert_eq!(config.access_token_expiration_seconds().0, 30);
    assert_eq!(config.postgres_db_max_connections().0, 3);
    assert!(config.use_hsts());
    assert_eq!(config.cors_origins(), &vec!["https://example.com/".to_string()]);
    assert_eq!(config.server_addr(), "127.0.0.1:8080");
}

#[test]
fn cors_origins_are_trimmed_and_blank_ones_skipped() {
    let mut builder = AppConfigBuilder::new(options());
    builder.with_cors_origins_comma_separated(" https://a.example.com , ,http://localhost:3000,");
    let config = builder.build().ok().unwrap();
    assert_eq!(
        config.cors_origins(),
        &vec!["https://a.example.com/".to_string(), "http://localhost:3000/".to_string()]
    );
}

#[test]
fn unicode_white_space_is_trimmed() {
    let mut builder = AppConfigBuilder::new(options());
    builder.with_cors_origins_comma_separated("\u{a0}https://b.example.org\u{3000}\t");
    let config = builder.build().ok().unwrap();
    assert_eq!(config.cors_origins(), &vec!["https://b.example.org/".to_string()]);
}

#[test]
fn origin_that_is_not_a_url_fails_the_build() {
    let mut builder = AppConfigBuilder::new(options());
    builder.with_cors_origins_comma_separated("https://ok.example.com, not a url");
    match builder.build() {
        Err(AppConfigBuilderError::OriginParsingError(e)) => {
            assert_eq!(e, UrlParseError::RelativeUrlWithoutBase)
        }
        Ok(_) => panic!("expected an error"),
    }
}

#[test]
fn parse_cors_origins_directly() {
    let parsed = AppConfigBuilder::parse_cors_origins_comma_separated("http://x.test/path ,");
    assert_eq!(parsed, Ok(vec!["http://x.test/path".to_string()]));
    assert_eq!(AppConfigBuilder::parse_cors_origins_comma_separated(""), Ok(vec![]));
    assert_eq!(AppConfigBuilder::parse_cors_origins_comma_separated(" , , "), Ok(vec![]));
}

#[test]
fn origin_candidates_split_and_trim() {
    assert_eq!(origin_candidates(" a , ,b,"), vec!["a".to_string(), "b".to_string()]);
    assert_eq!(origin_candidates(""), Vec::<String>::new());
    assert_eq!(origin_candidates("x"), vec!["x".to_string()]);
    assert_eq!(origin_candidates(",,x y ,"), vec!["x y".to_string()]);
}

#[test]
fn built_config_can_be_cloned() {
    let config = AppConfigBuilder::new(options()).build().ok().unwrap();
    let copy = config.clone();
    assert_eq!(copy.server_addr(), config.server_addr());
    assert_eq!(copy.keypairs_store_path(), config.keypairs_store_path());
}

#[test]
fn clone_keeps_every_setting() {
    let mut builder = AppConfigBuilder::new(options());
    builder.with_hsts().with_postgres_db_max_connections(7).with_cors_origins_comma_separated("https://a.test, https://b.test");
    let config = builder.build().ok().unwrap();
    let copy = config.clone();
    assert!(copy.use_hsts());
    assert_eq!(copy.postgres_db_max_connections().0, 7);
    assert_eq!(copy.cors_origins(), config.cors_origins());
    assert_eq!(copy.postgres_db_url(), config.postgres_db_url());
    assert_eq!(copy.session_expiration_seconds().0, config.session_expiration_seconds().0);
}

#[test]
fn build_reports_the_error_of_the_first_bad_origin() {
    let mut builder = AppConfigBuilder::new(options());
    builder.with_cors_origins_comma_separated("https://ok.test, http://[::1, https://x.test:99999, not a url");
    match builder.build() {
        Err(AppConfigBuilderError::OriginParsingError(e)) => assert_eq!(e, UrlParseError::InvalidIpv6Address),
        Ok(_) => panic!("expected an error"),
    }
    assert_eq!(
        AppConfigBuilder::parse_cors_origins_comma_separated("https://x.test:99999, not a url"),
        Err(UrlParseError::InvalidPort)
    );
}

#[test]
fn hsts_stays_on_whatever_comes_after_with_hsts() {
    let mut builder = AppConfigBuilder::new(options());
    builder
        .with_postgres_db_max_connections(2)
        .with_hsts()
        .with_session_expiration_seconds(5)
        .with_hsts()
        .with_cors_origins_comma_separated("");
    assert!(builder.build().ok().unwrap().use_hsts());

    let mut builder = AppConfigBuilder::new(options());
    builder.with_session_expiration_seconds(5).with_access_token_expiration_seconds(6);
    assert!(!builder.build().ok().unwrap().use_hsts());
}
