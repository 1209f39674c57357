//! The control of a database transaction that runs in a task of its own.
//!
//! The task acquires a connection, begins a transaction, reports to its
//! starter that the transaction is open, then serves requests until one of
//! them commits or rolls back, or until its request channel closes, in
//! which case it rolls back. A failure to deliver an answer stops the task;
//! the transaction it holds is then dropped, which rolls it back.
//!
//! `step` decides, for each event, the task's next state and the action it
//! takes; the task's driver performs the actions and reports the events.

use vstd::prelude::*;

verus! {

/// Where the task stands.
#[derive(PartialEq, Eq, Structural, Clone, Copy, Debug)]
pub enum TransactionTaskState {
    AcquiringConnection,
    BeginningTransaction,
    ReportingStart,
    Serving,
    AnsweringQuery,
    Finished,
}

/// What the task was asked to do.
#[derive(PartialEq, Eq, Structural, Clone, Copy, Debug)]
pub enum TransactionRequestKind {
    Query,
    Commit,
    Rollback,
}

/// What happened to the task.
#[derive(PartialEq, Eq, Structural, Clone, Copy, Debug)]
pub enum TransactionTaskEvent {
    ConnectionAcquired { ok: bool },
    TransactionBegun { ok: bool },
    StartReported { delivered: bool },
    Received(TransactionRequestKind),
    QueryAnswered { delivered: bool },
    ChannelClosed,
}

/// What the task does next.
#[derive(PartialEq, Eq, Structural, Clone, Copy, Debug)]
pub enum TransactionTaskAction {
    /// Begin a transaction on the acquired connection.
    BeginTransaction,
    /// Send the failure to the starter and stop.
    ReportStartFailure,
    /// Tell the starter that the transaction is open.
    ReportStarted,
    /// Wait for the next request.
    AwaitRequest,
    /// Run the query and send its result back.
    RunQuery,
    /// Commit, send the outcome back and stop.
    CommitAndReport,
    /// Roll back, send the outcome back and stop.
    RollbackAndReport,
    /// Roll back because no request can come any more, and stop.
    RollbackOnClose,
    /// Stop, dropping the transaction.
    Stop,
    /// Nothing: the event cannot happen where the task stands.
    Ignore,
}

/// The next state and the action for an event.
pub open spec fn next(
    state: TransactionTaskState,
    event: TransactionTaskEvent,
) -> (TransactionTaskState, TransactionTaskAction) {
    match (state, event) {
        (
            TransactionTaskState::AcquiringConnection,
            TransactionTaskEvent::ConnectionAcquired { ok },
        ) => if ok {
            (TransactionTaskState::BeginningTransaction, TransactionTaskAction::BeginTransaction)
        } else {
            (TransactionTaskState::Finished, TransactionTaskAction::ReportStartFailure)
        },
        (
            TransactionTaskState::BeginningTransaction,
            TransactionTaskEvent::TransactionBegun { ok },
        ) => if ok {
            (TransactionTaskState::ReportingStart, TransactionTaskAction::ReportStarted)
        } else {
            (TransactionTaskState::Finished, TransactionTaskAction::ReportStartFailure)
        },
        (TransactionTaskState::ReportingStart, TransactionTaskEvent::StartReported { delivered }) =>
            if delivered {
            (TransactionTaskState::Serving, TransactionTaskAction::AwaitRequest)
        } else {
            (TransactionTaskState::Finished, TransactionTaskAction::Stop)
        },
        (TransactionTaskState::Serving, TransactionTaskEvent::Received(kind)) => match kind {
            TransactionRequestKind::Query => (
                TransactionTaskState::AnsweringQuery,
                TransactionTaskAction::RunQuery,
            ),
            TransactionRequestKind::Commit => (
                TransactionTaskState::Finished,
                TransactionTaskAction::CommitAndReport,
            ),
            TransactionRequestKind::Rollback => (
                TransactionTaskState::Finished,
                TransactionTaskAction::RollbackAndReport,
            ),
        },
        (TransactionTaskState::Serving, TransactionTaskEvent::ChannelClosed) => (
            TransactionTaskState::Finished,
            TransactionTaskAction::RollbackOnClose,
        ),
        (TransactionTaskState::AnsweringQuery, TransactionTaskEvent::QueryAnswered { delivered }) =>
            if delivered {
            (TransactionTaskState::Serving, TransactionTaskAction::AwaitRequest)
        } else {
            (TransactionTaskState::Finished, TransactionTaskAction::Stop)
        },
        _ => (state, TransactionTaskAction::Ignore),
    }
}

/// The next state and the action for an event.
pub fn step(state: TransactionTaskState, event: TransactionTaskEvent) -> (res: (
    TransactionTaskState,
    TransactionTaskAction,
))
    ensures
        res == next(state, event),
{
    match (state, event) {
        (
            TransactionTaskState::AcquiringConnection,
            TransactionTaskEvent::ConnectionAcquired { ok },
        ) => if ok {
            (TransactionTaskState::BeginningTransaction, TransactionTaskAction::BeginTransaction)
        } else {
            (TransactionTaskState::Finished, TransactionTaskAction::ReportStartFailure)
        },
        (
            TransactionTaskState::BeginningTransaction,
            TransactionTaskEvent::TransactionBegun { ok },
        ) => if ok {
            (TransactionTaskState::ReportingStart, TransactionTaskAction::ReportStarted)
        } else {
            (TransactionTaskState::Finished, TransactionTaskAction::ReportStartFailure)
        },
        (TransactionTaskState::ReportingStart, TransactionTaskEvent::StartReported { delivered }) =>
            if delivered {
            (TransactionTaskState::Serving, TransactionTaskAction::AwaitRequest)
        } else {
            (TransactionTaskState::Finished, TransactionTaskAction::Stop)
        },
        (TransactionTaskState::Serving, TransactionTaskEvent::Received(kind)) => match kind {
            TransactionRequestKind::Query => (
                TransactionTaskState::AnsweringQuery,
                TransactionTaskAction::RunQuery,
            ),
            TransactionRequestKind::Commit => (
                TransactionTaskState::Finished,
                TransactionTaskAction::CommitAndReport,
            ),
            TransactionRequestKind::Rollback => (
                TransactionTaskState::Finished,
                TransactionTaskAction::RollbackAndReport,
            ),
        },
        (TransactionTaskState::Serving, TransactionTaskEvent::ChannelClosed) => (
            TransactionTaskState::Finished,
            TransactionTaskAction::RollbackOnClose,
        ),
        (TransactionTaskState::AnsweringQuery, TransactionTaskEvent::QueryAnswered { delivered }) =>
            if delivered {
            (TransactionTaskState::Serving, TransactionTaskAction::AwaitRequest)
        } else {
            (TransactionTaskState::Finished, TransactionTaskAction::Stop)
        },
        _ => (state, TransactionTaskAction::Ignore),
    }
}

/// Whether an action ends the transaction in the database.
pub open spec fn ends_transaction(action: TransactionTaskAction) -> bool {
    action == TransactionTaskAction::CommitAndReport || action
        == TransactionTaskAction::RollbackAndReport || action
        == TransactionTaskAction::RollbackOnClose
}

/// The state after a run of events, and the actions taken on the way.
pub open spec fn run(state: TransactionTaskState, events: Seq<TransactionTaskEvent>) -> (
    TransactionTaskState,
    Seq<TransactionTaskAction>,
)
    decreases events.len(),
{
    if events.len() == 0 {
        (state, Seq::empty())
    } else {
        let (mid, acts) = run(state, events.drop_last());
        let (last_state, last_action) = next(mid, events.last());
        (last_state, acts.push(last_action))
    }
}

/// The number of actions that end the transaction.
pub open spec fn ending_count(actions: Seq<TransactionTaskAction>) -> nat
    decreases actions.len(),
{
    if actions.len() == 0 {
        0
    } else {
        ending_count(actions.drop_last()) + if ends_transaction(actions.last()) {
            1nat
        } else {
            0nat
        }
    }
}

/// A finished task stays finished and does nothing, whatever happens.
pub proof fn lemma_finished_is_final(event: TransactionTaskEvent)
    ensures
        next(TransactionTaskState::Finished, event) == (
            TransactionTaskState::Finished,
            TransactionTaskAction::Ignore,
        ),
{
}

/// A transaction is committed only on a commit request, rolled back on
/// request only on a rollback request, and rolled back unasked only when the
/// request channel closes; every action that ends it finishes the task.
pub proof fn lemma_endings_have_causes(state: TransactionTaskState, event: TransactionTaskEvent)
    ensures
        next(state, event).1 == TransactionTaskAction::CommitAndReport ==> state
            == TransactionTaskState::Serving && event == TransactionTaskEvent::Received(
            TransactionRequestKind::Commit,
        ),
        next(state, event).1 == TransactionTaskAction::RollbackAndReport ==> state
            == TransactionTaskState::Serving && event == TransactionTaskEvent::Received(
            TransactionRequestKind::Rollback,
        ),
        next(state, event).1 == TransactionTaskAction::RollbackOnClose ==> state
            == TransactionTaskState::Serving && event == TransactionTaskEvent::ChannelClosed,
        ends_transaction(next(state, event).1) ==> next(state, event).0
            == TransactionTaskState::Finished,
{
}

/// The actions of a run's prefix are the prefix of its actions.
pub proof fn lemma_run_prefix(state: TransactionTaskState, events: Seq<TransactionTaskEvent>, k: int)
    requires
        0 <= k <= events.len(),
    ensures
        run(state, events.take(k)).1 == run(state, events).1.take(k),
        run(state, events).1.len() == events.len(),
    decreases events.len(),
{
    if events.len() > 0 {
        lemma_run_prefix(state, events.drop_last(), 0);
        if k < events.len() {
            assert(events.take(k) =~= events.drop_last().take(k));
            lemma_run_prefix(state, events.drop_last(), k);
        } else {
            assert(events.take(k) =~= events);
        }
    }
}

/// Over any run of events, at most one action ends the transaction, and
/// once one has, the task is finished.
pub proof fn lemma_ends_at_most_once(state: TransactionTaskState, events: Seq<TransactionTaskEvent>)
    ensures
        ending_count(run(state, events).1) <= 1,
        ending_count(run(state, events).1) == 1 ==> run(state, events).0
            == TransactionTaskState::Finished,
    decreases events.len(),
{
    if events.len() > 0 {
        lemma_ends_at_most_once(state, events.drop_last());
        let (mid, acts) = run(state, events.drop_last());
        let (last_state, last_action) = next(mid, events.last());
        assert(run(state, events).1.drop_last() =~= acts);
        lemma_endings_have_causes(mid, events.last());
        if mid == TransactionTaskState::Finished {
            lemma_finished_is_final(events.last());
        }
    }
}

/// A finished task, over any run of events, stays finished and does
/// nothing.
pub proof fn lemma_finished_run(events: Seq<TransactionTaskEvent>)
    ensures
        run(TransactionTaskState::Finished, events).0 == TransactionTaskState::Finished,
        forall|i: int|
            0 <= i < events.len() ==> #[trigger] run(TransactionTaskState::Finished, events).1[i]
                == TransactionTaskAction::Ignore,
    decreases events.len(),
{
    if events.len() > 0 {
        lemma_finished_run(events.drop_last());
        lemma_finished_is_final(events.last());
        lemma_run_prefix(TransactionTaskState::Finished, events.drop_last(), 0);
    }
}

/// A run splits into the run of its first events followed by the run of
/// the rest from where the first left off.
pub proof fn lemma_run_split(state: TransactionTaskState, events: Seq<TransactionTaskEvent>, k: int)
    requires
        0 <= k <= events.len(),
    ensures
        run(state, events).0 == run(run(state, events.take(k)).0, events.skip(k)).0,
        run(state, events).1 == run(state, events.take(k)).1 + run(
            run(state, events.take(k)).0,
            events.skip(k),
        ).1,
    decreases events.len(),
{
    if k == events.len() {
        assert(events.take(k) =~= events);
        assert(events.skip(k) =~= Seq::<TransactionTaskEvent>::empty());
        assert(run(state, events).1 =~= run(state, events).1 + Seq::<TransactionTaskAction>::empty());
    } else {
        lemma_run_split(state, events.drop_last(), k);
        assert(events.drop_last().take(k) =~= events.take(k));
        assert(events.skip(k).drop_last() =~= events.drop_last().skip(k));
        assert(events.skip(k).last() == events.last());
        let mid = run(state, events.take(k)).0;
        assert(run(state, events).1 =~= run(state, events.take(k)).1 + run(mid, events.skip(k)).1);
    }
}

/// After the action that ends the transaction, the task does nothing more,
/// whatever requests still come.
pub proof fn lemma_nothing_after_end(
    state: TransactionTaskState,
    events: Seq<TransactionTaskEvent>,
    i: int,
    j: int,
)
    requires
        0 <= i < j < events.len(),
        ends_transaction(run(state, events).1[i]),
    ensures
        run(state, events).1[j] == TransactionTaskAction::Ignore,
{
    let acts = run(state, events).1;
    lemma_run_prefix(state, events, i + 1);
    lemma_run_prefix(state, events, i);
    let before = events.take(i);
    assert(events.take(i + 1).drop_last() =~= before);
    let mid = run(state, before).0;
    assert(run(state, events.take(i + 1)).1[i] == acts[i]);
    lemma_endings_have_causes(mid, events[i]);
    assert(run(state, events.take(i + 1)).0 == TransactionTaskState::Finished);
    lemma_run_split(state, events, i + 1);
    lemma_finished_run(events.skip(i + 1));
    assert(acts[j] == run(TransactionTaskState::Finished, events.skip(i + 1)).1[j - (i + 1)]);
}

/// The events of a transaction that opens: a connection comes, the
/// transaction begins, and its starter is told.
pub open spec fn opening_events() -> Seq<TransactionTaskEvent> {
    seq![
        TransactionTaskEvent::ConnectionAcquired { ok: true },
        TransactionTaskEvent::TransactionBegun { ok: true },
        TransactionTaskEvent::StartReported { delivered: true },
    ]
}

/// The actions the task takes as it opens.
pub open spec fn opening_actions() -> Seq<TransactionTaskAction> {
    seq![
        TransactionTaskAction::BeginTransaction,
        TransactionTaskAction::ReportStarted,
        TransactionTaskAction::AwaitRequest,
    ]
}

/// The events of `n` queries sent one after another, each answered.
pub open spec fn query_events(n: nat) -> Seq<TransactionTaskEvent>
    decreases n,
{
    if n == 0 {
        Seq::empty()
    } else {
        query_events((n - 1) as nat) + seq![
            TransactionTaskEvent::Received(TransactionRequestKind::Query),
            TransactionTaskEvent::QueryAnswered { delivered: true },
        ]
    }
}

/// The actions of serving `n` queries: each is run, then the next request
/// awaited.
pub open spec fn query_actions(n: nat) -> Seq<TransactionTaskAction>
    decreases n,
{
    if n == 0 {
        Seq::empty()
    } else {
        query_actions((n - 1) as nat) + seq![
            TransactionTaskAction::RunQuery,
            TransactionTaskAction::AwaitRequest,
        ]
    }
}

/// A run one event longer takes one more step.
proof fn lemma_run_push(state: TransactionTaskState, events: Seq<TransactionTaskEvent>, e: TransactionTaskEvent)
    ensures
        run(state, events.push(e)) == (
            next(run(state, events).0, e).0,
            run(state, events).1.push(next(run(state, events).0, e).1),
        ),
{
    assert(events.push(e).drop_last() =~= events);
}

proof fn lemma_ending_count_push(actions: Seq<TransactionTaskAction>, a: TransactionTaskAction)
    ensures
        ending_count(actions.push(a)) == ending_count(actions) + if ends_transaction(a) {
            1nat
        } else {
            0nat
        },
{
    assert(actions.push(a).drop_last() =~= actions);
}

proof fn lemma_query_shape(n: nat)
    ensures
        query_events(n).len() == 2 * n,
        query_actions(n).len() == 2 * n,
        forall|i: int|
            0 <= i < n ==> #[trigger] query_events(n)[2 * i] == TransactionTaskEvent::Received(
                TransactionRequestKind::Query,
            ) && query_actions(n)[2 * i] == TransactionTaskAction::RunQuery,
        forall|i: int|
            0 <= i < n ==> #[trigger] query_events(n)[2 * i + 1]
                == (TransactionTaskEvent::QueryAnswered { delivered: true }) && query_actions(n)[2 * i
                + 1] == TransactionTaskAction::AwaitRequest,
    decreases n,
{
    if n > 0 {
        let m = (n - 1) as nat;
        lemma_query_shape(m);
        assert forall|i: int| 0 <= i < n implies #[trigger] query_events(n)[2 * i]
            == TransactionTaskEvent::Received(TransactionRequestKind::Query) && query_actions(n)[2
            * i] == TransactionTaskAction::RunQuery by {
            if i < m {
                assert(query_events(n)[2 * i] == query_events(m)[2 * i]);
                assert(query_actions(n)[2 * i] == query_actions(m)[2 * i]);
            }
        }
        assert forall|i: int| 0 <= i < n implies #[trigger] query_events(n)[2 * i + 1]
            == (TransactionTaskEvent::QueryAnswered { delivered: true }) && query_actions(n)[2 * i
            + 1] == TransactionTaskAction::AwaitRequest by {
            if i < m {
                assert(query_events(n)[2 * i + 1] == query_events(m)[2 * i + 1]);
                assert(query_actions(n)[2 * i + 1] == query_actions(m)[2 * i + 1]);
            }
        }
    }
}

/// Opening and then serving `n` answered queries leaves the task serving,
/// with no action that ends the transaction taken.
proof fn lemma_open_and_query(n: nat)
    ensures
        run(TransactionTaskState::AcquiringConnection, opening_events() + query_events(n)) == (
            TransactionTaskState::Serving,
            opening_actions() + query_actions(n),
        ),
        ending_count(opening_actions() + query_actions(n)) == 0,
    decreases n,
{
    let start = TransactionTaskState::AcquiringConnection;
    if n == 0 {
        let e0 = Seq::<TransactionTaskEvent>::empty();
        let e1 = e0.push(TransactionTaskEvent::ConnectionAcquired { ok: true });
        let e2 = e1.push(TransactionTaskEvent::TransactionBegun { ok: true });
        let e3 = e2.push(TransactionTaskEvent::StartReported { delivered: true });
        lemma_run_push(start, e0, TransactionTaskEvent::ConnectionAcquired { ok: true });
        lemma_run_push(start, e1, TransactionTaskEvent::TransactionBegun { ok: true });
        lemma_run_push(start, e2, TransactionTaskEvent::StartReported { delivered: true });
        assert(opening_events() + query_events(0) =~= e3);
        let a0 = Seq::<TransactionTaskAction>::empty();
        let a1 = a0.push(TransactionTaskAction::BeginTransaction);
        let a2 = a1.push(TransactionTaskAction::ReportStarted);
        let a3 = a2.push(TransactionTaskAction::AwaitRequest);
        assert(opening_actions() + query_actions(0) =~= a3);
        lemma_ending_count_push(a0, TransactionTaskAction::BeginTransaction);
        lemma_ending_count_push(a1, TransactionTaskAction::ReportStarted);
        lemma_ending_count_push(a2, TransactionTaskAction::AwaitRequest);
    } else {
        let m = (n - 1) as nat;
        lemma_open_and_query(m);
        let prev = opening_events() + query_events(m);
        let asked = prev.push(TransactionTaskEvent::Received(TransactionRequestKind::Query));
        assert(opening_events() + query_events(n) =~= asked.push(
            TransactionTaskEvent::QueryAnswered { delivered: true },
        ));
        lemma_run_push(start, prev, TransactionTaskEvent::Received(TransactionRequestKind::Query));
        lemma_run_push(start, asked, TransactionTaskEvent::QueryAnswered { delivered: true });
        let acts = opening_actions() + query_actions(m);
        let ran = acts.push(TransactionTaskAction::RunQuery);
        assert(opening_actions() + query_actions(n) =~= ran.push(TransactionTaskAction::AwaitRequest));
        lemma_ending_count_push(acts, TransactionTaskAction::RunQuery);
        lemma_ending_count_push(ran, TransactionTaskAction::AwaitRequest);
    }
}

/// The run of a transaction that opens, serves `n` answered queries, and
/// then meets an event that ends it while serving.
proof fn lemma_queries_then_end(n: nat, last_event: TransactionTaskEvent, last_action: TransactionTaskAction)
    requires
        next(TransactionTaskState::Serving, last_event) == (
            TransactionTaskState::Finished,
            last_action,
        ),
        ends_transaction(last_action),
        last_event != TransactionTaskEvent::Received(TransactionRequestKind::Query),
    ensures
        ({
            let events = opening_events() + query_events(n) + seq![last_event];
            let actions = opening_actions() + query_actions(n) + seq![last_action];
            &&& run(TransactionTaskState::AcquiringConnection, events) == (
                TransactionTaskState::Finished,
                actions,
            )
            &&& actions.len() == events.len()
            &&& forall|k: int|
                0 <= k < events.len() ==> (#[trigger] actions[k] == TransactionTaskAction::RunQuery
                    <==> events[k] == TransactionTaskEvent::Received(TransactionRequestKind::Query))
            &&& ending_count(actions) == 1
            &&& actions.last() == last_action
        }),
{
    let start = TransactionTaskState::AcquiringConnection;
    let body = opening_events() + query_events(n);
    let body_actions = opening_actions() + query_actions(n);
    let events = body + seq![last_event];
    let actions = body_actions + seq![last_action];
    lemma_open_and_query(n);
    lemma_query_shape(n);
    assert(events =~= body.push(last_event));
    assert(actions =~= body_actions.push(last_action));
    lemma_run_push(start, body, last_event);
    lemma_ending_count_push(body_actions, last_action);
    assert(last_action != TransactionTaskAction::RunQuery);
    assert forall|k: int| 0 <= k < events.len() implies (#[trigger] actions[k]
        == TransactionTaskAction::RunQuery <==> events[k] == TransactionTaskEvent::Received(
        TransactionRequestKind::Query,
    )) by {
        if k < 3 {
            assert(actions[k] == opening_actions()[k]);
            assert(events[k] == opening_events()[k]);
        } else if k < 3 + 2 * n {
            let j = k - 3;
            let i = j / 2;
            assert(actions[k] == query_actions(n)[j]);
            assert(events[k] == query_events(n)[j]);
            if j % 2 == 0 {
                assert(j == 2 * i);
            } else {
                assert(j == 2 * i + 1);
            }
        }
    }
}

/// A transaction that opens, is sent `n` queries one after another, each
/// answered, and then sees its request channel close runs each query once,
/// when and in the order it comes, and then rolls back: nothing it did is
/// committed.
pub proof fn lemma_queries_then_close(n: nat)
    ensures
        ({
            let events = opening_events() + query_events(n) + seq![TransactionTaskEvent::ChannelClosed];
            let actions = opening_actions() + query_actions(n) + seq![
                TransactionTaskAction::RollbackOnClose,
            ];
            &&& run(TransactionTaskState::AcquiringConnection, events) == (
                TransactionTaskState::Finished,
                actions,
            )
            &&& actions.len() == events.len()
            &&& forall|k: int|
                0 <= k < events.len() ==> (#[trigger] actions[k] == TransactionTaskAction::RunQuery
                    <==> events[k] == TransactionTaskEvent::Received(TransactionRequestKind::Query))
            &&& ending_count(actions) == 1
            &&& actions.last() == TransactionTaskAction::RollbackOnClose
        }),
{
    lemma_queries_then_end(
        n,
        TransactionTaskEvent::ChannelClosed,
        TransactionTaskAction::RollbackOnClose,
    );
}

/// A transaction that opens, is sent `n` queries one after another, each
/// answered, and is then asked to commit runs each query once, when and in
/// the order it comes, and then commits them all in one commit, whose
/// outcome it reports: that commit is the one action that ends the
/// transaction, so its queries are committed together or not at all.
pub proof fn lemma_queries_then_commit(n: nat)
    ensures
        ({
            let events = opening_events() + query_events(n) + seq![
                TransactionTaskEvent::Received(TransactionRequestKind::Commit),
            ];
            let actions = opening_actions() + query_actions(n) + seq![
                TransactionTaskAction::CommitAndReport,
            ];
            &&& run(TransactionTaskState::AcquiringConnection, events) == (
                TransactionTaskState::Finished,
                actions,
            )
            &&& actions.len() == events.len()
            &&& forall|k: int|
                0 <= k < events.len() ==> (#[trigger] actions[k] == TransactionTaskAction::RunQuery
                    <==> events[k] == TransactionTaskEvent::Received(TransactionRequestKind::Query))
            &&& ending_count(actions) == 1
            &&& forall|k: int|
                0 <= k < actions.len() - 1 ==> !ends_transaction(#[trigger] actions[k])
            &&& actions.last() == TransactionTaskAction::CommitAndReport
        }),
{
    let last_event = TransactionTaskEvent::Received(TransactionRequestKind::Commit);
    lemma_queries_then_end(n, last_event, TransactionTaskAction::CommitAndReport);
    lemma_open_and_query(n);
    let body_actions = opening_actions() + query_actions(n);
    let actions = body_actions + seq![TransactionTaskAction::CommitAndReport];
    assert forall|k: int| 0 <= k < actions.len() - 1 implies !ends_transaction(
        #[trigger] actions[k],
    ) by {
        assert(actions[k] == body_actions[k]);
        lemma_no_ending_in(body_actions, k);
    }
}

/// No action of a sequence with no ending action ends the transaction.
proof fn lemma_no_ending_in(actions: Seq<TransactionTaskAction>, k: int)
    requires
        ending_count(actions) == 0,
        0 <= k < actions.len(),
    ensures
        !ends_transaction(actions[k]),
    decreases actions.len(),
{
    if k < actions.len() - 1 {
        assert(actions.drop_last()[k] == actions[k]);
        lemma_no_ending_in(actions.drop_last(), k);
    }
}

/// A transaction that opens, is sent `n` queries one after another, each
/// answered, and is then asked to roll back runs each query once, when and
/// in the order it comes, and then rolls back and reports it: nothing it
/// did is committed.
pub proof fn lemma_queries_then_rollback(n: nat)
    ensures
        ({
            let events = opening_events() + query_events(n) + seq![
                TransactionTaskEvent::Received(TransactionRequestKind::Rollback),
            ];
            let actions = opening_actions() + query_actions(n) + seq![
                TransactionTaskAction::RollbackAndReport,
            ];
            &&& run(TransactionTaskState::AcquiringConnection, events) == (
                TransactionTaskState::Finished,
                actions,
            )
            &&& ending_count(actions) == 1
            &&& actions.last() == TransactionTaskAction::RollbackAndReport
        }),
{
    lemma_queries_then_end(
        n,
        TransactionTaskEvent::Received(TransactionRequestKind::Rollback),
        TransactionTaskAction::RollbackAndReport,
    );
}

} // verus!
