//! The database pool's settings, and what the holder of a transaction does
//! with the outcome of a query it sent to the transaction's task.

use vstd::prelude::*;

use crate::config::AppConfig;
use crate::errors::ErrorBoxed;

verus! {

/// `TryFromIntError`'s message, as its `Display` writes it.
#[verifier::external_body]
fn conversion_error_message(err: core::num::TryFromIntError) -> (res: String) {
    err.to_string()
}

/// The connection limit of the database pool, which the pool takes as a
/// `u32`: the configured maximum, or an error where it does not fit.
pub fn pool_max_connections(config: &AppConfig) -> (res: Result<u32, ErrorBoxed>)
    ensures
        res is Ok <==> config@.postgres_db_max_connections <= u32::MAX,
        res matches Ok(n) ==> n == config@.postgres_db_max_connections,
{
    match u32::try_from(config.postgres_db_max_connections().0) {
        Ok(n) => Ok(n),
        Err(err) => {
            let message = conversion_error_message(err);
            Err(ErrorBoxed::from_str(message.as_str()))
        },
    }
}

/// How a query request sent to a transaction's task fared.
pub enum QueryDelivery<T, E> {
    /// The request could not be handed to the task.
    NotSent(ErrorBoxed),
    /// The request went out but no answer came back.
    AnswerLost,
    /// The task answered.
    Answered(Result<T, E>),
}

/// What the holder of the transaction does about it.
pub enum QueryDecision<T, E> {
    /// Roll the transaction back, then fail with this error.
    RollBackThenFail(ErrorBoxed),
    /// Keep the transaction and hand back the answer.
    HandBack(Result<T, E>),
}

pub open spec fn answer_lost_message() -> Seq<char> {
    "can not get result back via result receiver"@
}

/// A query whose request or answer was lost rolls the transaction back and
/// fails; an answered query, successful or not, leaves the transaction
/// open and its answer is handed back.
pub fn decide_query<T, E>(delivery: QueryDelivery<T, E>) -> (res: QueryDecision<T, E>)
    ensures
        match delivery {
            QueryDelivery::NotSent(e) => res matches QueryDecision::RollBackThenFail(f) && f.text()
                == e.text(),
            QueryDelivery::AnswerLost => res matches QueryDecision::RollBackThenFail(f) && f.text()
                == answer_lost_message(),
            QueryDelivery::Answered(a) => res == QueryDecision::HandBack(a),
        },
{
    match delivery {
        QueryDelivery::NotSent(e) => QueryDecision::RollBackThenFail(e),
        QueryDelivery::AnswerLost => {
            proof {
                reveal_strlit("can not get result back via result receiver");
            }
            QueryDecision::RollBackThenFail(
                ErrorBoxed::from_str("can not get result back via result receiver"),
            )
        },
        QueryDelivery::Answered(a) => QueryDecision::HandBack(a),
    }
}

} // verus!
