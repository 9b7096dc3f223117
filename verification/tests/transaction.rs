use app_service::app::{create_app, delete_app, read_app, read_apps_belong_to_workspace, update_app};
use app_service::clock::Timestamp;
use app_service::entities::{
    App, AppRow, CreateAppParams, QueryAppParams, UpdateAppParams, ViewSummary,
};
use app_service::error::{DatabaseErrorKind, ServerError, StorageError};
use app_service::sql::Statement;
use app_service::transaction::{Action, Event, Operation, Plan, Reply, Step};

const ID_TEXT: &str = "550e8400-e29b-41d4-a716-446655440000";
const ID: u128 = 0x550e8400_e29b_41d4_a716_446655440000;

fn row(id: u128, workspace: &str, name: &str) -> AppRow {
    AppRow {
        id,
        workspace_id: workspace.to_string(),
        name: name.to_string(),
        description: format!("about {}", name),
        color_style: vec![1],
        modified_time: Timestamp { secs: 2, nanos: 0 },
        create_time: Timestamp { secs: 1, nanos: 0 },
        user_id: "u".to_string(),
        is_trash: false,
    }
}

fn view(id: &str) -> ViewSummary {
    ViewSummary {
        id: id.to_string(),
        belong_to_id: ID_TEXT.to_string(),
        name: format!("view {}", id),
        desc: String::new(),
    }
}

fn read(read_belongings: bool) -> Step {
    read_app(QueryAppParams { app_id: ID_TEXT.to_string(), read_belongings }).unwrap()
}

fn create() -> Step {
    create_app(CreateAppParams {
        workspace_id: "ws-1".to_string(),
        user_id: "user-1".to_string(),
        name: "Notes".to_string(),
        desc: "d".to_string(),
        color_style: vec![],
    })
    .unwrap()
}

fn update() -> Step {
    update_app(UpdateAppParams {
        app_id: ID_TEXT.to_string(),
        name: Some("x".to_string()),
        workspace_id: None,
        color_style: None,
        desc: None,
        is_trash: None,
    })
    .unwrap()
}

fn aborted(e: ServerError) -> Step {
    Step { operation: Operation::Finished, action: Action::Abort(e) }
}

fn statement_of(step: &Step) -> Statement {
    match &step.operation {
        Operation::Opening { statement, .. } => {
            Statement { sql: statement.sql.clone(), args: vec![] }
        }
        other => panic!("not opening: {:?}", other),
    }
}

#[test]
fn create_runs_begin_execute_commit_finish() {
    let step = create();
    assert_eq!(step.action, Action::Begin);
    let insert = statement_of(&step);
    let app = match &step.operation {
        Operation::Opening { plan: Plan::Create(app), .. } => App {
            id: app.id.clone(),
            workspace_id: app.workspace_id.clone(),
            name: app.name.clone(),
            desc: app.desc.clone(),
            belongings: vec![],
            version: app.version,
        },
        other => panic!("not a create: {:?}", other),
    };
    let step = step.operation.advance(Event::Begun);
    match &step.action {
        Action::Execute(statement) => assert_eq!(statement.sql, insert.sql),
        other => panic!("not an execute: {:?}", other),
    }
    let step = step.operation.advance(Event::Executed);
    assert_eq!(step.action, Action::Commit);
    let step = step.operation.advance(Event::Committed);
    assert_eq!(step.operation, Operation::Finished);
    match step.action {
        Action::Finish(Reply::App(returned)) => {
            assert_eq!(returned, app);
            assert_eq!(returned.name, "Notes");
            assert_eq!(returned.workspace_id, "ws-1");
            assert_eq!(returned.version, 0);
            assert!(returned.belongings.is_empty());
        }
        other => panic!("not a reply: {:?}", other),
    }
}

#[test]
fn update_and_delete_return_no_body() {
    for first in [update(), delete_app(ID_TEXT).unwrap()] {
        assert_eq!(first.action, Action::Begin);
        let step = first.operation.advance(Event::Begun);
        assert!(matches!(step.action, Action::Execute(_)));
        let step = step.operation.advance(Event::Executed);
        assert_eq!(step.action, Action::Commit);
        let step = step.operation.advance(Event::Committed);
        assert_eq!(step, Step { operation: Operation::Finished, action: Action::Finish(Reply::Done) });
    }
}

#[test]
fn read_without_belongings() {
    let step = read(false).operation.advance(Event::Begun);
    match &step.action {
        Action::FetchOne(statement) => {
            assert_eq!(statement.sql, "SELECT * FROM app_table WHERE id = $1;")
        }
        other => panic!("not a fetch: {:?}", other),
    }
    let step = step.operation.advance(Event::Row(row(ID, "ws-1", "Notes")));
    assert_eq!(step.action, Action::Commit);
    let step = step.operation.advance(Event::Committed);
    let expected = App {
        id: ID_TEXT.to_string(),
        workspace_id: "ws-1".to_string(),
        name: "Notes".to_string(),
        desc: "about Notes".to_string(),
        belongings: vec![],
        version: 0,
    };
    assert_eq!(
        step,
        Step { operation: Operation::Finished, action: Action::Finish(Reply::App(expected)) }
    );
}

#[test]
fn read_with_belongings_asks_for_the_views_before_it_commits() {
    let step = read(true).operation.advance(Event::Begun);
    let step = step.operation.advance(Event::Row(row(ID, "ws-1", "Notes")));
    assert_eq!(step.action, Action::ReadViews(ID_TEXT.to_string()));
    let step = step.operation.advance(Event::Views(vec![view("b"), view("a"), view("c")]));
    assert_eq!(step.action, Action::Commit);
    let step = step.operation.advance(Event::Committed);
    match step.action {
        Action::Finish(Reply::App(app)) => {
            assert_eq!(app.id, ID_TEXT);
            assert_eq!(app.name, "Notes");
            assert_eq!(app.belongings, vec![view("b"), view("a"), view("c")]);
        }
        other => panic!("not a reply: {:?}", other),
    }
}

#[test]
fn read_with_belongings_of_an_app_without_views() {
    let step = read(true).operation.advance(Event::Begun);
    let step = step.operation.advance(Event::Row(row(ID, "ws-1", "Notes")));
    let step = step.operation.advance(Event::Views(vec![]));
    let step = step.operation.advance(Event::Committed);
    match step.action {
        Action::Finish(Reply::App(app)) => assert!(app.belongings.is_empty()),
        other => panic!("not a reply: {:?}", other),
    }
}

#[test]
fn read_of_a_missing_app_is_not_found() {
    for belongings in [false, true] {
        let step = read(belongings).operation.advance(Event::Begun);
        let step = step.operation.advance(Event::Failed(StorageError::RowNotFound));
        assert_eq!(step, aborted(ServerError::NotFound));
    }
}

#[test]
fn failure_to_begin_is_a_transport_failure() {
    for raw in [StorageError::PoolTimedOut, StorageError::RowNotFound, StorageError::Other] {
        assert_eq!(
            create().operation.advance(Event::Failed(raw)),
            aborted(ServerError::TransportFailure)
        );
        assert_eq!(
            read(true).operation.advance(Event::Failed(raw)),
            aborted(ServerError::TransportFailure)
        );
    }
}

#[test]
fn failure_of_the_statement_is_classified() {
    let cases = [
        (StorageError::Database(DatabaseErrorKind::UniqueViolation), ServerError::ConstraintViolation),
        (StorageError::Database(DatabaseErrorKind::ForeignKeyViolation), ServerError::ConstraintViolation),
        (StorageError::Database(DatabaseErrorKind::Other), ServerError::Unclassified),
        (StorageError::Io, ServerError::TransportFailure),
        (StorageError::RowNotFound, ServerError::NotFound),
        (StorageError::Other, ServerError::Unclassified),
    ];
    for (raw, expected) in cases {
        let step = create().operation.advance(Event::Begun);
        assert_eq!(step.operation.advance(Event::Failed(raw)), aborted(expected));
        let step = update().operation.advance(Event::Begun);
        assert_eq!(step.operation.advance(Event::Failed(raw)), aborted(expected));
    }
}

#[test]
fn failure_of_the_view_service_is_classified() {
    let step = read(true).operation.advance(Event::Begun);
    let step = step.operation.advance(Event::Row(row(ID, "ws-1", "Notes")));
    assert_eq!(
        step.operation.advance(Event::Failed(StorageError::Io)),
        aborted(ServerError::TransportFailure)
    );
}

#[test]
fn failure_to_commit_is_a_transport_failure() {
    let step = create().operation.advance(Event::Begun);
    let step = step.operation.advance(Event::Executed);
    assert_eq!(step.action, Action::Commit);
    assert_eq!(
        step.operation.advance(Event::Failed(StorageError::Io)),
        aborted(ServerError::TransportFailure)
    );
}

#[test]
fn nothing_is_committed_after_a_failure() {
    let step = update().operation.advance(Event::Begun);
    let mut step = step.operation.advance(Event::Failed(StorageError::Io));
    assert_eq!(step.action, Action::Abort(ServerError::TransportFailure));
    for _ in 0..3 {
        for event in [Event::Begun, Event::Executed, Event::Committed, Event::Rows(vec![])] {
            step = step.operation.advance(event);
            assert_eq!(step, aborted(ServerError::Unclassified));
        }
    }
}

#[test]
fn an_event_that_answers_nothing_aborts() {
    assert_eq!(create().operation.advance(Event::Executed), aborted(ServerError::Unclassified));
    assert_eq!(create().operation.advance(Event::Committed), aborted(ServerError::Unclassified));
    let running = create().operation.advance(Event::Begun);
    assert_eq!(
        running.operation.advance(Event::Row(row(1, "w", "n"))),
        aborted(ServerError::Unclassified)
    );
    let running = read(false).operation.advance(Event::Begun);
    assert_eq!(running.operation.advance(Event::Executed), aborted(ServerError::Unclassified));
    let running = read(true).operation.advance(Event::Begun);
    let collecting = running.operation.advance(Event::Row(row(1, "w", "n")));
    assert_eq!(collecting.operation.advance(Event::Committed), aborted(ServerError::Unclassified));
    let closing = update().operation.advance(Event::Begun).operation.advance(Event::Executed);
    assert_eq!(closing.operation.advance(Event::Executed), aborted(ServerError::Unclassified));
    assert_eq!(
        Operation::Finished.advance(Event::Committed),
        aborted(ServerError::Unclassified)
    );
}

#[test]
fn listing_returns_the_apps_in_the_order_of_the_rows() {
    let step = read_apps_belong_to_workspace("ws-1").unwrap();
    let rows = vec![row(3, "ws-1", "c"), row(1, "ws-1", "a"), row(2, "ws-1", "b")];
    let step = step.operation.advance(Event::Rows(rows));
    assert_eq!(step.operation, Operation::Finished);
    match step.action {
        Action::Finish(Reply::Apps(apps)) => {
            let names: Vec<&str> = apps.iter().map(|a| a.name.as_str()).collect();
            assert_eq!(names, vec!["c", "a", "b"]);
            assert_eq!(apps[0].id, "00000000-0000-0000-0000-000000000003");
            assert_eq!(apps[1].desc, "about a");
            assert!(apps.iter().all(|a| a.belongings.is_empty() && a.version == 0));
            assert!(apps.iter().all(|a| a.workspace_id == "ws-1"));
        }
        other => panic!("not a reply: {:?}", other),
    }
}

#[test]
fn listing_of_an_empty_workspace() {
    let step = read_apps_belong_to_workspace("ws-1").unwrap();
    let step = step.operation.advance(Event::Rows(vec![]));
    assert_eq!(
        step,
        Step { operation: Operation::Finished, action: Action::Finish(Reply::Apps(vec![])) }
    );
}

#[test]
fn listing_never_begins_or_commits() {
    let step = read_apps_belong_to_workspace("ws-1").unwrap();
    assert!(matches!(step.action, Action::FetchAll(_)));
    let step = step.operation.advance(Event::Rows(vec![row(1, "ws-1", "a")]));
    assert!(matches!(step.action, Action::Finish(_)));
}

#[test]
fn listing_failure_is_classified() {
    let step = read_apps_belong_to_workspace("ws-1").unwrap();
    assert_eq!(
        step.operation.advance(Event::Failed(StorageError::PoolClosed)),
        aborted(ServerError::TransportFailure)
    );
    let step = read_apps_belong_to_workspace("ws-1").unwrap();
    assert_eq!(step.operation.advance(Event::Begun), aborted(ServerError::Unclassified));
}

#[test]
fn app_from_row_copies_the_shared_fields() {
    let app = App::from_row(row(ID, "ws-9", "Plans"));
    assert_eq!(
        app,
        App {
            id: ID_TEXT.to_string(),
            workspace_id: "ws-9".to_string(),
            name: "Plans".to_string(),
            desc: "about Plans".to_string(),
            belongings: vec![],
            version: 0,
        }
    );
    assert_eq!(App::from_row(row(u128::MAX, "w", "n")).id, "ffffffff-ffff-ffff-ffff-ffffffffffff");
    assert_eq!(App::from_row(row(0, "w", "n")).id, "00000000-0000-0000-0000-000000000000");
}

#[test]
fn apps_from_rows_keep_the_order() {
    let apps = App::from_rows(vec![row(2, "w", "b"), row(1, "w", "a")]);
    assert_eq!(apps.len(), 2);
    assert_eq!(apps[0], App::from_row(row(2, "w", "b")));
    assert_eq!(apps[1], App::from_row(row(1, "w", "a")));
    assert!(App::from_rows(vec![]).is_empty());
}
