//! One operation of the service, taken through its transaction step by step.
//!
//! The crate does no I/O. An operation hands the host one action at a time;
//! the host performs it against the store and reports what happened as an
//! event; the operation answers with the next action. A transaction is
//! committed only after every statement before it has succeeded, and after a
//! failure nothing more is asked of the store: the host drops the transaction,
//! which rolls it back.

use vstd::prelude::*;
use crate::entities::{
    app_of_row, apps_data, apps_of_rows, rows_data, views_data, with_belongings, App, AppData,
    AppRow, AppRowData, ViewData, ViewSummary,
};
use crate::error::{classify, map_storage_error, ServerError, StorageError};
use crate::ident::hyphenated;
use crate::sql::{Statement, StatementData};

verus! {

/// What a successful operation returns.
#[derive(Clone, Debug, PartialEq, Eq)]
pub enum Reply {
    /// Success without a body.
    Done,
    /// One app.
    App(App),
    /// The apps found, in the order in which the store gave their rows.
    Apps(Vec<App>),
}

/// What a reply holds.
#[verifier::ext_equal]
pub ghost enum ReplyData {
    Done,
    App(AppData),
    Apps(Seq<AppData>),
}

impl View for Reply {
    type V = ReplyData;

    open spec fn view(&self) -> ReplyData {
        match self {
            Reply::Done => ReplyData::Done,
            Reply::App(app) => ReplyData::App(app@),
            Reply::Apps(apps) => ReplyData::Apps(apps_data(apps@)),
        }
    }
}

/// What the host is asked to do next.
#[derive(Clone, Debug, PartialEq, Eq)]
pub enum Action {
    /// Acquire a transaction from the pool.
    Begin,
    /// Run a statement that returns no rows.
    Execute(Statement),
    /// Run a statement that must return exactly one row.
    FetchOne(Statement),
    /// Run a statement and collect all the rows it returns.
    FetchAll(Statement),
    /// Ask the view service, inside the same transaction, for the views that
    /// belong to the app with the given identifier.
    ReadViews(String),
    /// Commit the transaction.
    Commit,
    /// The operation succeeded: return the reply to the caller.
    Finish(Reply),
    /// The operation failed: drop the transaction, if there is one, without
    /// committing it, and return the error to the caller.
    Abort(ServerError),
}

/// What an action holds.
#[verifier::ext_equal]
pub ghost enum ActionData {
    Begin,
    Execute(StatementData),
    FetchOne(StatementData),
    FetchAll(StatementData),
    ReadViews(Seq<char>),
    Commit,
    Finish(ReplyData),
    Abort(ServerError),
}

impl View for Action {
    type V = ActionData;

    open spec fn view(&self) -> ActionData {
        match self {
            Action::Begin => ActionData::Begin,
            Action::Execute(s) => ActionData::Execute(s@),
            Action::FetchOne(s) => ActionData::FetchOne(s@),
            Action::FetchAll(s) => ActionData::FetchAll(s@),
            Action::ReadViews(id) => ActionData::ReadViews(id@),
            Action::Commit => ActionData::Commit,
            Action::Finish(reply) => ActionData::Finish(reply@),
            Action::Abort(e) => ActionData::Abort(*e),
        }
    }
}

/// What the host reports after it has performed an action.
#[derive(Clone, Debug, PartialEq, Eq)]
pub enum Event {
    /// The transaction was acquired.
    Begun,
    /// The statement ran.
    Executed,
    /// The row that the statement returned.
    Row(AppRow),
    /// The rows that the statement returned, in the order of the store.
    Rows(Vec<AppRow>),
    /// The views that the view service returned, in its order.
    Views(Vec<ViewSummary>),
    /// The transaction was committed.
    Committed,
    /// The action failed.
    Failed(StorageError),
}

/// What an event holds.
#[verifier::ext_equal]
pub ghost enum EventData {
    Begun,
    Executed,
    Row(AppRowData),
    Rows(Seq<AppRowData>),
    Views(Seq<ViewData>),
    Committed,
    Failed(StorageError),
}

impl View for Event {
    type V = EventData;

    open spec fn view(&self) -> EventData {
        match self {
            Event::Begun => EventData::Begun,
            Event::Executed => EventData::Executed,
            Event::Row(row) => EventData::Row(row@),
            Event::Rows(rows) => EventData::Rows(rows_data(rows@)),
            Event::Views(views) => EventData::Views(views_data(views@)),
            Event::Committed => EventData::Committed,
            Event::Failed(e) => EventData::Failed(*e),
        }
    }
}

/// What an operation does with the result of its statement.
#[derive(Clone, Debug, PartialEq, Eq)]
pub enum Plan {
    /// The statement inserts this app, which is returned as it was written.
    Create(App),
    /// The statement updates or deletes; success has no body.
    Write,
    /// The statement reads one app, with or without its views.
    Read { read_belongings: bool },
}

/// What a plan holds.
#[verifier::ext_equal]
pub ghost enum PlanData {
    Create(AppData),
    Write,
    Read { read_belongings: bool },
}

impl View for Plan {
    type V = PlanData;

    open spec fn view(&self) -> PlanData {
        match self {
            Plan::Create(app) => PlanData::Create(app@),
            Plan::Write => PlanData::Write,
            Plan::Read { read_belongings } => PlanData::Read { read_belongings: *read_belongings },
        }
    }
}

/// How far an operation has come.
#[derive(Clone, Debug, PartialEq, Eq)]
pub enum Operation {
    /// A transaction was asked for; the statement waits for it.
    Opening { statement: Statement, plan: Plan },
    /// The statement was handed out; its result is awaited.
    Running { plan: Plan },
    /// The rows of a listing were asked for inside the caller's transaction.
    Listing,
    /// The app was read; its views were asked for.
    Collecting { app: App },
    /// Everything succeeded; the commit was asked for.
    Closing { reply: Reply },
    /// The operation has returned to its caller.
    Finished,
}

/// What an operation holds.
#[verifier::ext_equal]
pub ghost enum OperationData {
    Opening { statement: StatementData, plan: PlanData },
    Running { plan: PlanData },
    Listing,
    Collecting { app: AppData },
    Closing { reply: ReplyData },
    Finished,
}

impl View for Operation {
    type V = OperationData;

    open spec fn view(&self) -> OperationData {
        match self {
            Operation::Opening { statement, plan } => OperationData::Opening {
                statement: statement@,
                plan: plan@,
            },
            Operation::Running { plan } => OperationData::Running { plan: plan@ },
            Operation::Listing => OperationData::Listing,
            Operation::Collecting { app } => OperationData::Collecting { app: app@ },
            Operation::Closing { reply } => OperationData::Closing { reply: reply@ },
            Operation::Finished => OperationData::Finished,
        }
    }
}

/// An operation together with the action that the host is to perform for it.
#[derive(Clone, Debug, PartialEq, Eq)]
pub struct Step {
    pub operation: Operation,
    pub action: Action,
}

/// What a step holds.
#[verifier::ext_equal]
pub ghost struct StepData {
    pub operation: OperationData,
    pub action: ActionData,
}

impl View for Step {
    type V = StepData;

    open spec fn view(&self) -> StepData {
        StepData { operation: self.operation@, action: self.action@ }
    }
}

/// The step that ends an operation with an error.
pub open spec fn abort(e: ServerError) -> StepData {
    StepData { operation: OperationData::Finished, action: ActionData::Abort(e) }
}

/// The step that asks for the commit and keeps the reply for after it.
pub open spec fn close(reply: ReplyData) -> StepData {
    StepData { operation: OperationData::Closing { reply }, action: ActionData::Commit }
}

/// The error for an event that is no answer to the action that was asked for:
/// a failure is classified, anything else is a fault of the host.
pub open spec fn statement_failure(event: EventData) -> ServerError {
    match event {
        EventData::Failed(e) => classify(e),
        _ => ServerError::Unclassified,
    }
}

/// The error for an event other than success while a transaction is acquired
/// or committed.
pub open spec fn transaction_failure(event: EventData) -> ServerError {
    match event {
        EventData::Failed(_) => ServerError::TransportFailure,
        _ => ServerError::Unclassified,
    }
}

/// The next step of an operation, given what the host reports.
pub open spec fn next_step(operation: OperationData, event: EventData) -> StepData {
    match operation {
        OperationData::Opening { statement, plan } => match event {
            EventData::Begun => StepData {
                operation: OperationData::Running { plan },
                action: match plan {
                    PlanData::Read { .. } => ActionData::FetchOne(statement),
                    _ => ActionData::Execute(statement),
                },
            },
            _ => abort(transaction_failure(event)),
        },
        OperationData::Running { plan } => match (plan, event) {
            (PlanData::Create(app), EventData::Executed) => close(ReplyData::App(app)),
            (PlanData::Write, EventData::Executed) => close(ReplyData::Done),
            (PlanData::Read { read_belongings }, EventData::Row(row)) => if read_belongings {
                StepData {
                    operation: OperationData::Collecting { app: app_of_row(row) },
                    action: ActionData::ReadViews(hyphenated(row.id)),
                }
            } else {
                close(ReplyData::App(app_of_row(row)))
            },
            _ => abort(statement_failure(event)),
        },
        OperationData::Listing => match event {
            EventData::Rows(rows) => StepData {
                operation: OperationData::Finished,
                action: ActionData::Finish(ReplyData::Apps(apps_of_rows(rows))),
            },
            _ => abort(statement_failure(event)),
        },
        OperationData::Collecting { app } => match event {
            EventData::Views(views) => close(ReplyData::App(with_belongings(app, views))),
            _ => abort(statement_failure(event)),
        },
        OperationData::Closing { reply } => match event {
            EventData::Committed => StepData {
                operation: OperationData::Finished,
                action: ActionData::Finish(reply),
            },
            _ => abort(transaction_failure(event)),
        },
        OperationData::Finished => abort(ServerError::Unclassified),
    }
}

fn fail(e: ServerError) -> (step: Step)
    ensures
        step@ == abort(e),
{
    Step { operation: Operation::Finished, action: Action::Abort(e) }
}

fn commit(reply: Reply) -> (step: Step)
    ensures
        step@ == close(reply@),
{
    Step { operation: Operation::Closing { reply }, action: Action::Commit }
}

fn statement_error(event: Event) -> (e: ServerError)
    ensures
        e == statement_failure(event@),
{
    match event {
        Event::Failed(raw) => map_storage_error(raw),
        _ => ServerError::Unclassified,
    }
}

fn transaction_error(event: Event) -> (e: ServerError)
    ensures
        e == transaction_failure(event@),
{
    match event {
        Event::Failed(_) => ServerError::TransportFailure,
        _ => ServerError::Unclassified,
    }
}

impl Operation {
    /// Takes the operation one step further: from what the host reports to
    /// the action it is to perform next.
    pub fn advance(self, event: Event) -> (step: Step)
        ensures
            step@ == next_step(self@, event@),
    {
        match self {
            Operation::Opening { statement, plan } => match event {
                Event::Begun => {
                    let action = match plan {
                        Plan::Read { .. } => Action::FetchOne(statement),
                        _ => Action::Execute(statement),
                    };
                    Step { operation: Operation::Running { plan }, action }
                },
                _ => fail(transaction_error(event)),
            },
            Operation::Running { plan } => match plan {
                Plan::Create(app) => match event {
                    Event::Executed => commit(Reply::App(app)),
                    _ => fail(statement_error(event)),
                },
                Plan::Write => match event {
                    Event::Executed => commit(Reply::Done),
                    _ => fail(statement_error(event)),
                },
                Plan::Read { read_belongings } => match event {
                    Event::Row(row) => {
                        let app = App::from_row(row);
                        if read_belongings {
                            let id = app.id.clone();
                            Step {
                                operation: Operation::Collecting { app },
                                action: Action::ReadViews(id),
                            }
                        } else {
                            commit(Reply::App(app))
                        }
                    },
                    _ => fail(statement_error(event)),
                },
            },
            Operation::Listing => match event {
                Event::Rows(rows) => Step {
                    operation: Operation::Finished,
                    action: Action::Finish(Reply::Apps(App::from_rows(rows))),
                },
                _ => fail(statement_error(event)),
            },
            Operation::Collecting { app } => match event {
                Event::Views(views) => {
                    let App { id, workspace_id, name, desc, belongings: _, version } = app;
                    let full = App { id, workspace_id, name, desc, belongings: views, version };
                    commit(Reply::App(full))
                },
                _ => fail(statement_error(event)),
            },
            Operation::Closing { reply } => match event {
                Event::Committed => Step {
                    operation: Operation::Finished,
                    action: Action::Finish(reply),
                },
                _ => fail(transaction_error(event)),
            },
            Operation::Finished => fail(ServerError::Unclassified),
        }
    }
}

/// The operation after the host has reported the events, one after another.
pub open spec fn after(operation: OperationData, events: Seq<EventData>) -> OperationData
    decreases events.len(),
{
    if events.len() == 0 {
        operation
    } else {
        next_step(after(operation, events.drop_last()), events.last()).operation
    }
}

/// The action that answers the `i`-th of the events.
pub open spec fn action_at(operation: OperationData, events: Seq<EventData>, i: int) -> ActionData {
    next_step(after(operation, events.take(i)), events[i]).action
}

/// A failure ends the operation at once: the answer is to abort, with an
/// error that is never `InvalidParameter`, and nothing is left to do.
pub proof fn lemma_failure_aborts(operation: OperationData, e: StorageError)
    ensures
        next_step(operation, EventData::Failed(e)).operation == OperationData::Finished,
        next_step(operation, EventData::Failed(e)).action matches ActionData::Abort(error)
            && !(error is InvalidParameter),
        operation is Running || operation is Listing || operation is Collecting ==> next_step(
            operation,
            EventData::Failed(e),
        ) == abort(classify(e)),
        operation is Opening || operation is Closing ==> next_step(
            operation,
            EventData::Failed(e),
        ) == abort(ServerError::TransportFailure),
{
}

/// A commit is asked for only in answer to the success of the last thing that
/// the operation needed from the store: its statement, or the views of the
/// app it read.
pub proof fn lemma_commit_follows_success(operation: OperationData, event: EventData)
    requires
        next_step(operation, event).action == ActionData::Commit,
    ensures
        (operation is Running && (event is Executed || event is Row)) || (operation is Collecting
            && event is Views),
        next_step(operation, event).operation is Closing,
{
}

/// Success is returned only after the commit has succeeded, or, for a
/// listing, which lives in its caller's transaction, after the rows have
/// come.
pub proof fn lemma_success_follows_commit(operation: OperationData, event: EventData)
    requires
        next_step(operation, event).action is Finish,
    ensures
        (operation is Closing && event is Committed) || (operation is Listing && event is Rows),
        next_step(operation, event).operation is Finished,
{
}

/// No statement is handed out before the transaction is there: a statement
/// leaves an operation only in answer to `Begun`.
pub proof fn lemma_statement_follows_begin(operation: OperationData, event: EventData)
    requires
        ({
            let action = next_step(operation, event).action;
            action is Execute || action is FetchOne || action is FetchAll
        }),
    ensures
        operation is Opening,
        event is Begun,
{
}

proof fn lemma_finished_stays(events: Seq<EventData>)
    ensures
        after(OperationData::Finished, events) == OperationData::Finished,
    decreases events.len(),
{
    if events.len() > 0 {
        lemma_finished_stays(events.drop_last());
    }
}

proof fn lemma_after_split(operation: OperationData, events: Seq<EventData>, i: int)
    requires
        0 <= i <= events.len(),
    ensures
        after(operation, events) == after(after(operation, events.take(i)), events.skip(i)),
    decreases events.len() - i,
{
    if i == events.len() {
        assert(events.take(i) =~= events);
        assert(events.skip(i).len() == 0);
    } else {
        let tail = events.skip(i);
        assert(tail.drop_last() =~= events.drop_last().skip(i));
        assert(events.drop_last().take(i) =~= events.take(i));
        assert(tail.last() == events.last());
        lemma_after_split(operation, events.drop_last(), i);
    }
}

/// Once the host has reported a failure, the operation asks nothing more of
/// the store: whatever is reported afterwards, the answer is to abort. In
/// particular nothing is committed after a failure.
pub proof fn lemma_nothing_after_failure(
    operation: OperationData,
    events: Seq<EventData>,
    i: int,
    j: int,
)
    requires
        0 <= i < j < events.len(),
        events[i] is Failed,
    ensures
        action_at(operation, events, i) is Abort,
        action_at(operation, events, j) == ActionData::Abort(ServerError::Unclassified),
{
    let upto = events.take(j);
    lemma_after_split(operation, upto, i + 1);
    let head = upto.take(i + 1);
    assert(head.drop_last() =~= events.take(i));
    assert(head.last() == events[i]);
    assert(after(operation, head) == OperationData::Finished);
    lemma_finished_stays(upto.skip(i + 1));
}

} // verus!
