use nimbus_auth::transactions::{
    step, TransactionRequestKind as Kind, TransactionTaskAction as Action, TransactionTaskEvent as Event,
    TransactionTaskState as State,
};

fn drive(events: &[Event]) -> (State, Vec<Action>) {
    let mut state = State::AcquiringConnection;
    let mut actions = Vec::new();
    for event in events {
        let (next, action) = step(state, *event);
        state = next;
        actions.push(action);
    }
    (state, actions)
}

#[test]
fn transaction_serves_queries_then_commits() {
    let (state, actions) = drive(&[
        Event::ConnectionAcquired { ok: true },
        Event::TransactionBegun { ok: true },
        Event::StartReported { delivered: true },
        Event::Received(Kind::Query),
        Event::QueryAnswered { delivered: true },
        Event::Received(Kind::Commit),
    ]);
    assert_eq!(state, State::Finished);
    assert_eq!(
        actions,
        vec![
            Action::BeginTransaction,
            Action::ReportStarted,
            Action::AwaitRequest,
            Action::RunQuery,
            Action::AwaitRequest,
            Action::CommitAndReport,
        ]
    );
}

#[test]
fn rollback_request_ends_the_transaction() {
    let (state, actions) = drive(&[
        Event::ConnectionAcquired { ok: true },
        Event::TransactionBegun { ok: true },
        Event::StartReported { delivered: true },
        Event::Received(Kind::Rollback),
        Event::Received(Kind::Commit),
    ]);
    assert_eq!(state, State::Finished);
    assert_eq!(actions[3], Action::RollbackAndReport);
    assert_eq!(actions[4], Action::Ignore);
}

#[test]
fn closed_channel_rolls_back() {
    let (state, actions) = drive(&[
        Event::ConnectionAcquired { ok: true },
        Event::TransactionBegun { ok: true },
        Event::StartReported { delivered: true },
        Event::ChannelClosed,
    ]);
    assert_eq!(state, State::Finished);
    assert_eq!(actions.last(), Some(&Action::RollbackOnClose));
}

#[test]
fn start_failures_are_reported() {
    assert_eq!(
        step(State::AcquiringConnection, Event::ConnectionAcquired { ok: false }),
        (State::Finished, Action::ReportStartFailure)
    );
    assert_eq!(
        step(State::BeginningTransaction, Event::TransactionBegun { ok: false }),
        (State::Finished, Action::ReportStartFailure)
    );
}

#[test]
fn undelivered_answers_stop_the_task() {
    assert_eq!(
        step(State::ReportingStart, Event::StartReported { delivered: false }),
        (State::Finished, Action::Stop)
    );
    assert_eq!(
        step(State::AnsweringQuery, Event::QueryAnswered { delivered: false }),
        (State::Finished, Action::Stop)
    );
}

#[test]
fn finished_task_ignores_everything() {
    for event in [
        Event::ConnectionAcquired { ok: true },
        Event::TransactionBegun { ok: true },
        Event::StartReported { delivered: true },
        Event::Received(Kind::Query),
        Event::QueryAnswered { delivered: true },
        Event::ChannelClosed,
    ] {
        assert_eq!(step(State::Finished, event), (State::Finished, Action::Ignore));
    }
}

#[test]
fn events_out_of_place_are_ignored() {
    assert_eq!(
        step(State::Serving, Event::ConnectionAcquired { ok: true }),
        (State::Serving, Action::Ignore)
    );
    assert_eq!(step(State::AnsweringQuery, Event::ChannelClosed), (State::AnsweringQuery, Action::Ignore));
}
