use app_service::app::{
    create_app, delete_app, read_app, read_apps_belong_to_workspace, update_app,
};
use app_service::clock::Timestamp;
use app_service::entities::{
    App, AppRow, CreateAppParams, QueryAppParams, UpdateAppParams, ViewSummary,
};
use app_service::error::{Field, ServerError, StorageError};
use app_service::sql::{SqlValue, Statement};
use app_service::transaction::{Action, Event, Reply, Step};

/// A table in memory that runs the statements of the service, and counts the
/// transactions it was asked for.
struct Host {
    rows: Vec<AppRow>,
    pending: Option<Vec<AppRow>>,
    begun: usize,
    committed: usize,
    views: Vec<ViewSummary>,
}

fn blank() -> AppRow {
    AppRow {
        id: 0,
        workspace_id: String::new(),
        name: String::new(),
        description: String::new(),
        color_style: vec![],
        modified_time: Timestamp { secs: 0, nanos: 0 },
        create_time: Timestamp { secs: 0, nanos: 0 },
        user_id: String::new(),
        is_trash: false,
    }
}

fn set(row: &mut AppRow, column: &str, value: &SqlValue) {
    match (column, value) {
        ("id", SqlValue::Uuid(v)) => row.id = *v,
        ("workspace_id", SqlValue::Text(v)) => row.workspace_id = v.clone(),
        ("name", SqlValue::Text(v)) => row.name = v.clone(),
        ("description", SqlValue::Text(v)) => row.description = v.clone(),
        ("color_style", SqlValue::Bytes(v)) => row.color_style = v.clone(),
        ("modified_time", SqlValue::Time(v)) => row.modified_time = *v,
        ("create_time", SqlValue::Time(v)) => row.create_time = *v,
        ("user_id", SqlValue::Text(v)) => row.user_id = v.clone(),
        ("is_trash", SqlValue::Bool(v)) => row.is_trash = *v,
        other => panic!("no such column: {:?}", other),
    }
}

fn holds(row: &AppRow, column: &str, value: &SqlValue) -> bool {
    match (column, value) {
        ("id", SqlValue::Uuid(v)) => row.id == *v,
        ("workspace_id", SqlValue::Text(v)) => row.workspace_id == *v,
        other => panic!("no such filter: {:?}", other),
    }
}

/// Splits `a = $1, b = $2` into the column names, checking the numbering.
fn assigned(list: &str, separator: &str, first: usize) -> Vec<String> {
    let mut names = vec![];
    for (i, part) in list.split(separator).enumerate() {
        let (name, mark) = part.split_once(" = ").unwrap();
        assert_eq!(mark, format!("${}", first + i));
        names.push(name.to_string());
    }
    names
}

fn filter_of(tail: &str, first: usize) -> Vec<String> {
    match tail.strip_prefix(" WHERE ") {
        Some(list) => assigned(list, " AND ", first),
        None => {
            assert_eq!(tail, "");
            vec![]
        }
    }
}

impl Host {
    fn new() -> Host {
        Host { rows: vec![], pending: None, begun: 0, committed: 0, views: vec![] }
    }

    fn table(&mut self) -> &mut Vec<AppRow> {
        self.pending.as_mut().unwrap_or(&mut self.rows)
    }

    fn execute(&mut self, statement: &Statement) -> Event {
        let sql = statement.sql.strip_suffix(';').unwrap();
        let args = &statement.args;
        if let Some(rest) = sql.strip_prefix("INSERT INTO app_table (") {
            let (columns, marks) = rest.split_once(") VALUES (").unwrap();
            let columns: Vec<&str> = columns.split(", ").collect();
            let marks: Vec<&str> = marks.strip_suffix(')').unwrap().split(", ").collect();
            assert_eq!(columns.len(), args.len());
            let mut row = blank();
            for (i, column) in columns.iter().enumerate() {
                assert_eq!(marks[i], format!("${}", i + 1));
                set(&mut row, column, &args[i]);
            }
            if self.table().iter().any(|r| r.id == row.id) {
                return Event::Failed(StorageError::Database(
                    app_service::error::DatabaseErrorKind::UniqueViolation,
                ));
            }
            self.table().push(row);
            Event::Executed
        } else if let Some(rest) = sql.strip_prefix("UPDATE app_table SET ") {
            let (sets, tail) = match rest.find(" WHERE ") {
                Some(at) => rest.split_at(at),
                None => (rest, ""),
            };
            let columns = assigned(sets, ", ", 1);
            let filters = filter_of(tail, columns.len() + 1);
            assert_eq!(columns.len() + filters.len(), args.len());
            for row in self.table().iter_mut() {
                if filters.iter().enumerate().all(|(j, f)| holds(row, f, &args[columns.len() + j])) {
                    for (i, column) in columns.iter().enumerate() {
                        set(row, column, &args[i]);
                    }
                }
            }
            Event::Executed
        } else if let Some(tail) = sql.strip_prefix("DELETE FROM app_table") {
            let filters = filter_of(tail, 1);
            assert_eq!(filters.len(), args.len());
            self.table().retain(|row| !filters.iter().enumerate().all(|(j, f)| holds(row, f, &args[j])));
            Event::Executed
        } else {
            panic!("not a write: {}", statement.sql)
        }
    }

    fn select(&mut self, statement: &Statement) -> Vec<AppRow> {
        let sql = statement.sql.strip_suffix(';').unwrap();
        let tail = sql.strip_prefix("SELECT * FROM app_table").unwrap();
        let filters = filter_of(tail, 1);
        assert_eq!(filters.len(), statement.args.len());
        self.table()
            .iter()
            .filter(|row| filters.iter().enumerate().all(|(j, f)| holds(row, f, &statement.args[j])))
            .cloned()
            .collect()
    }

    /// Performs the actions of an operation until it returns.
    fn drive(&mut self, mut step: Step) -> Result<Reply, ServerError> {
        loop {
            let event = match &step.action {
                Action::Begin => {
                    self.begun += 1;
                    self.pending = Some(self.rows.clone());
                    Event::Begun
                }
                Action::Execute(statement) => self.execute(statement),
                Action::FetchOne(statement) => {
                    let mut found = self.select(statement);
                    if found.is_empty() {
                        Event::Failed(StorageError::RowNotFound)
                    } else {
                        Event::Row(found.remove(0))
                    }
                }
                Action::FetchAll(statement) => Event::Rows(self.select(statement)),
                Action::ReadViews(app_id) => Event::Views(
                    self.views.iter().filter(|v| v.belong_to_id == *app_id).cloned().collect(),
                ),
                Action::Commit => {
                    self.committed += 1;
                    self.rows = self.pending.take().unwrap();
                    Event::Committed
                }
                Action::Finish(reply) => return Ok(reply.clone()),
                Action::Abort(e) => {
                    self.pending = None;
                    return Err(*e);
                }
            };
            step = step.operation.advance(event);
        }
    }

    fn create(&mut self, workspace: &str, name: &str, desc: &str) -> Result<App, ServerError> {
        let step = create_app(CreateAppParams {
            workspace_id: workspace.to_string(),
            user_id: "user-1".to_string(),
            name: name.to_string(),
            desc: desc.to_string(),
            color_style: vec![7, 7],
        })?;
        match self.drive(step)? {
            Reply::App(app) => Ok(app),
            other => panic!("not an app: {:?}", other),
        }
    }

    fn read(&mut self, id: &str, read_belongings: bool) -> Result<App, ServerError> {
        let step = read_app(QueryAppParams { app_id: id.to_string(), read_belongings })?;
        match self.drive(step)? {
            Reply::App(app) => Ok(app),
            other => panic!("not an app: {:?}", other),
        }
    }

    fn update(&mut self, params: UpdateAppParams) -> Result<(), ServerError> {
        let step = update_app(params)?;
        assert_eq!(self.drive(step)?, Reply::Done);
        Ok(())
    }

    fn delete(&mut self, id: &str) -> Result<(), ServerError> {
        let step = delete_app(id)?;
        assert_eq!(self.drive(step)?, Reply::Done);
        Ok(())
    }

    fn list(&mut self, workspace: &str) -> Result<Vec<App>, ServerError> {
        let step = read_apps_belong_to_workspace(workspace)?;
        match self.drive(step)? {
            Reply::Apps(apps) => Ok(apps),
            other => panic!("not a list: {:?}", other),
        }
    }

    fn row(&self, id: &str) -> AppRow {
        let id = uuid::Uuid::parse_str(id).unwrap().as_u128();
        self.rows.iter().find(|r| r.id == id).unwrap().clone()
    }
}

fn changes(id: &str) -> UpdateAppParams {
    UpdateAppParams {
        app_id: id.to_string(),
        name: None,
        workspace_id: None,
        color_style: None,
        desc: None,
        is_trash: None,
    }
}

#[test]
fn read_after_create_returns_what_was_created() {
    let mut host = Host::new();
    let created = host.create("ws-1", "Notes", "All my notes").unwrap();
    let read = host.read(&created.id, false).unwrap();
    assert_eq!(read, created);
    assert_eq!(read.name, "Notes");
    assert_eq!(read.desc, "All my notes");
    assert_eq!(read.workspace_id, "ws-1");
    assert!(read.belongings.is_empty());
    assert_eq!(host.begun, 2);
    assert_eq!(host.committed, 2);
}

#[test]
fn created_row_holds_one_time_and_is_not_trash() {
    let mut host = Host::new();
    let created = host.create("ws-1", "Notes", "").unwrap();
    let row = host.row(&created.id);
    assert_eq!(row.modified_time, row.create_time);
    assert!(!row.is_trash);
    assert_eq!(row.user_id, "user-1");
    assert_eq!(row.color_style, vec![7, 7]);
    assert_eq!(row.description, "");
}

#[test]
fn read_with_belongings_attaches_the_views_of_the_app() {
    let mut host = Host::new();
    let a = host.create("ws-1", "A", "").unwrap();
    let b = host.create("ws-1", "B", "").unwrap();
    let view = |id: &str, of: &App| ViewSummary {
        id: id.to_string(),
        belong_to_id: of.id.clone(),
        name: id.to_string(),
        desc: String::new(),
    };
    host.views = vec![view("v2", &a), view("x", &b), view("v1", &a)];
    let read = host.read(&a.id, true).unwrap();
    assert_eq!(read.belongings, vec![view("v2", &a), view("v1", &a)]);
    assert!(host.read(&a.id, false).unwrap().belongings.is_empty());
}

#[test]
fn invalid_name_writes_nothing() {
    let mut host = Host::new();
    host.create("ws-1", "Kept", "").unwrap();
    let e = host.create("ws-1", "", "d").unwrap_err();
    assert_eq!(e, ServerError::InvalidParameter(Field::Name));
    assert_eq!(Field::Name.name(), "name");
    let listed = host.list("ws-1").unwrap();
    assert_eq!(listed.len(), 1);
    assert_eq!(listed[0].name, "Kept");
    assert_eq!(host.begun, 1);
}

#[test]
fn update_of_the_name_leaves_the_other_fields() {
    let mut host = Host::new();
    let created = host.create("ws-1", "Notes", "All my notes").unwrap();
    let other = host.create("ws-1", "Other", "").unwrap();
    let before = host.row(&created.id);
    let other_before = host.row(&other.id);
    let mut params = changes(&created.id);
    params.name = Some("Renamed".to_string());
    host.update(params).unwrap();
    let after = host.row(&created.id);
    assert_eq!(after.name, "Renamed");
    assert_eq!(after.description, before.description);
    assert_eq!(after.color_style, before.color_style);
    assert_eq!(after.workspace_id, before.workspace_id);
    assert_eq!(after.is_trash, before.is_trash);
    assert_eq!(after.create_time, before.create_time);
    assert_eq!(after.user_id, before.user_id);
    assert_eq!(after.id, before.id);
    assert!(after.modified_time.secs >= before.modified_time.secs);
    assert_eq!(host.row(&other.id), other_before);
    assert_eq!(host.read(&created.id, false).unwrap().name, "Renamed");
}

#[test]
fn update_of_nothing_succeeds() {
    let mut host = Host::new();
    let created = host.create("ws-1", "Notes", "d").unwrap();
    let before = host.row(&created.id);
    host.update(changes(&created.id)).unwrap();
    let after = host.row(&created.id);
    let same_but_time = AppRow { modified_time: before.modified_time, ..after.clone() };
    assert_eq!(same_but_time, before);
    assert_eq!(host.committed, 2);
}

#[test]
fn update_can_move_to_trash_and_back() {
    let mut host = Host::new();
    let created = host.create("ws-1", "Notes", "d").unwrap();
    let mut params = changes(&created.id);
    params.is_trash = Some(true);
    host.update(params).unwrap();
    assert!(host.row(&created.id).is_trash);
    host.update(changes(&created.id)).unwrap();
    assert!(host.row(&created.id).is_trash);
    let mut params = changes(&created.id);
    params.is_trash = Some(false);
    host.update(params).unwrap();
    assert!(!host.row(&created.id).is_trash);
}

#[test]
fn read_after_delete_is_not_found() {
    let mut host = Host::new();
    let created = host.create("ws-1", "Notes", "d").unwrap();
    let kept = host.create("ws-1", "Kept", "d").unwrap();
    host.delete(&created.id).unwrap();
    assert_eq!(host.read(&created.id, false), Err(ServerError::NotFound));
    assert_eq!(host.read(&created.id, true), Err(ServerError::NotFound));
    assert_eq!(host.read(&kept.id, false).unwrap().name, "Kept");
}

#[test]
fn read_of_an_id_that_never_was_is_not_found() {
    let mut host = Host::new();
    assert_eq!(
        host.read("550e8400-e29b-41d4-a716-446655440000", false),
        Err(ServerError::NotFound)
    );
    assert_eq!(host.committed, 0);
}

#[test]
fn read_of_an_invalid_id_opens_no_transaction() {
    let mut host = Host::new();
    assert_eq!(host.read("not-an-id", false), Err(ServerError::InvalidParameter(Field::AppId)));
    assert_eq!(host.read("", true), Err(ServerError::InvalidParameter(Field::AppId)));
    assert_eq!(host.begun, 0);
}

#[test]
fn listing_holds_exactly_the_apps_of_the_workspace() {
    let mut host = Host::new();
    let a1 = host.create("ws-a", "a1", "").unwrap();
    let b1 = host.create("ws-b", "b1", "").unwrap();
    let a2 = host.create("ws-a", "a2", "").unwrap();
    let b2 = host.create("ws-b", "b2", "").unwrap();
    let a3 = host.create("ws-a", "a3", "").unwrap();
    host.delete(&a2.id).unwrap();
    let mut listed = host.list("ws-a").unwrap();
    listed.sort_by(|x, y| x.name.cmp(&y.name));
    assert_eq!(listed, vec![a1, a3]);
    let mut listed = host.list("ws-b").unwrap();
    listed.sort_by(|x, y| x.name.cmp(&y.name));
    assert_eq!(listed, vec![b1, b2]);
    assert!(host.list("ws-c").unwrap().is_empty());
}

#[test]
fn listing_does_not_commit() {
    let mut host = Host::new();
    host.create("ws-a", "a1", "").unwrap();
    let committed = host.committed;
    let begun = host.begun;
    host.list("ws-a").unwrap();
    assert_eq!(host.committed, committed);
    assert_eq!(host.begun, begun);
}

#[test]
fn a_failed_statement_commits_nothing() {
    let mut host = Host::new();
    let created = host.create("ws-1", "Notes", "d").unwrap();
    let id = uuid::Uuid::parse_str(&created.id).unwrap().as_u128();
    // the same identifier again: the store refuses the second insert
    let step = app_service::app::NewApp::parse(CreateAppParams {
        workspace_id: "ws-1".to_string(),
        user_id: "user-1".to_string(),
        name: "Twice".to_string(),
        desc: String::new(),
        color_style: vec![],
    })
    .unwrap()
    .begin(id, Timestamp { secs: 1, nanos: 0 });
    assert_eq!(host.drive(step), Err(ServerError::ConstraintViolation));
    assert_eq!(host.committed, 1);
    assert_eq!(host.rows.len(), 1);
    assert_eq!(host.rows[0].name, "Notes");
}

#[test]
fn listing_shows_apps_in_the_trash_until_they_are_deleted() {
    let mut host = Host::new();
    let a = host.create("ws-a", "a", "").unwrap();
    let mut params = changes(&a.id);
    params.is_trash = Some(true);
    host.update(params).unwrap();
    assert_eq!(host.list("ws-a").unwrap(), vec![a.clone()]);
    host.delete(&a.id).unwrap();
    assert!(host.list("ws-a").unwrap().is_empty());
}
