use std::path::PathBuf;

use nimbus_auth::config::{AppConfigBuilder, AppConfigRequiredOptions};
use nimbus_auth::database::{decide_query, pool_max_connections, QueryDecision, QueryDelivery};
use nimbus_auth::errors::ErrorBoxed;

fn config_with_max_connections(n: usize) -> nimbus_auth::config::AppConfig {
    let mut builder = AppConfigBuilder::new(AppConfigRequiredOptions {
        server_addr: "0.0.0.0:80".to_string(),
        keypairs_store_path: PathBuf::from("keys"),
        postgres_db_url: "postgres://db/auth".to_string(),
    });
    builder.with_postgres_db_max_connections(n);
    builder.build().ok().unwrap()
}

#[test]
fn pool_limit_is_the_configured_maximum() {
    assert_eq!(pool_max_connections(&config_with_max_connections(10)).ok(), Some(10));
    assert_eq!(pool_max_connections(&config_with_max_connections(u32::MAX as usize)).ok(), Some(u32::MAX));
}

#[test]
fn pool_limit_that_does_not_fit_is_an_error() {
    if usize::BITS > 32 {
        let big = (u32::MAX as usize) + 1;
        let err = pool_max_connections(&config_with_max_connections(big)).err().unwrap();
        assert_eq!(err.message(), "out of range integral type conversion attempted");
    }
}

#[test]
fn lost_request_rolls_back_with_its_error() {
    match decide_query::<u8, ErrorBoxed>(QueryDelivery::NotSent(ErrorBoxed::from_str("channel closed"))) {
        QueryDecision::RollBackThenFail(e) => assert_eq!(e.message(), "channel closed"),
        QueryDecision::HandBack(_) => panic!("expected a rollback"),
    }
}

#[test]
fn lost_answer_rolls_back() {
    match decide_query::<u8, ErrorBoxed>(QueryDelivery::AnswerLost) {
        QueryDecision::RollBackThenFail(e) => {
            assert_eq!(e.message(), "can not get result back via result receiver")
        },
        QueryDecision::HandBack(_) => panic!("expected a rollback"),
    }
}

#[test]
fn answers_are_handed_back_as_they_came() {
    match decide_query::<u8, ErrorBoxed>(QueryDelivery::Answered(Ok(7u8))) {
        QueryDecision::HandBack(Ok(v)) => assert_eq!(v, 7),
        _ => panic!("expected the answer"),
    }
    match decide_query::<u8, ErrorBoxed>(QueryDelivery::Answered(Err(ErrorBoxed::from_str("no such row")))) {
        QueryDecision::HandBack(Err(e)) => assert_eq!(e.message(), "no such row"),
        _ => panic!("expected the failed answer"),
    }
}
