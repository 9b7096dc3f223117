//! The operations on apps: create, read, update, delete, and the listing of
//! the apps of a workspace.
//!
//! Each function validates its request and builds the one statement of the
//! operation. A request that fails validation is answered with the error at
//! once: no step is returned, so no transaction is ever asked for.

use vstd::prelude::*;
use crate::clock::{is_clock_reading, utc_now, Timestamp};
use crate::entities::{
    opt_bytes, App, AppData, CreateAppData, CreateAppParams, QueryAppParams, UpdateAppData,
    UpdateAppParams,
};
use crate::error::{Field, ServerError};
use crate::ident::{
    hyphenated, is_random_uuid, new_uuid, parse_uuid, uuid_parse_str, uuid_to_string,
};
use crate::parser::{
    is_app_desc, is_app_name, is_identifier, AppDesc, AppId, AppName, UserId, WorkspaceId,
};
use crate::sql::{
    build_outcome, lemma_placeholders_match_arguments, lemma_plain_names_stay, plain,
    statement_of, BuilderType, Description, SqlBuilder, SqlData, SqlValue, Statement,
};
use crate::text::{count, lemma_count_none};
use crate::transaction::{
    action_at, Action, ActionData, EventData, Operation, OperationData, Plan, PlanData, ReplyData,
    Step, StepData,
};

verus! {

/// The table that holds the apps.
pub open spec fn app_table() -> Seq<char> {
    "app_table"@
}

/// The identifier that the text of an app id stands for: the text must have
/// the shape of an identifier and must read as a UUID.
pub open spec fn app_id_of(text: Seq<char>) -> Result<u128, ServerError> {
    if !is_identifier(text) {
        Err(ServerError::InvalidParameter(Field::AppId))
    } else {
        match uuid_parse_str(text) {
            Some(id) => Ok(id),
            None => Err(ServerError::InvalidParameter(Field::AppId)),
        }
    }
}

/// Validates the text of an app id and reads the identifier from it.
pub fn check_app_id(id: String) -> (r: Result<u128, ServerError>)
    ensures
        r == app_id_of(id@),
{
    match AppId::parse(id) {
        Ok(app_id) => match parse_uuid(app_id.as_str()) {
            Ok(uuid) => Ok(uuid),
            Err(_) => Err(ServerError::InvalidParameter(Field::AppId)),
        },
        Err(e) => Err(e),
    }
}

fn build(builder: SqlBuilder) -> (statement: Statement)
    requires
        build_outcome(builder@) is Ok,
    ensures
        statement@ == statement_of(builder@),
{
    match builder.build() {
        Ok(statement) => statement,
        Err(_) => vstd::pervasive::unreached(),
    }
}

proof fn lemma_app_table_is_named()
    ensures
        app_table().len() > 0,
{
    reveal_strlit("app_table");
}

/// The field that makes a create request invalid, if there is one. The name
/// is checked first, then the workspace, the user and the description.
pub open spec fn create_error(p: CreateAppData) -> Option<ServerError> {
    if !is_app_name(p.name) {
        Some(ServerError::InvalidParameter(Field::Name))
    } else if !is_identifier(p.workspace_id) {
        Some(ServerError::InvalidParameter(Field::WorkspaceId))
    } else if !is_identifier(p.user_id) {
        Some(ServerError::InvalidParameter(Field::UserId))
    } else if !is_app_desc(p.desc) {
        Some(ServerError::InvalidParameter(Field::Desc))
    } else {
        None
    }
}

/// The insert that writes a new app: every column but `is_trash`, with one
/// time for both timestamps.
pub open spec fn insert_app(p: CreateAppData, id: u128, now: Timestamp) -> Description {
    Description::empty(BuilderType::Create, app_table()).with_value(
        "id"@,
        SqlData::Uuid(id),
    ).with_value("workspace_id"@, SqlData::Text(p.workspace_id)).with_value(
        "name"@,
        SqlData::Text(p.name),
    ).with_value("description"@, SqlData::Text(p.desc)).with_value(
        "color_style"@,
        SqlData::Bytes(p.color_style),
    ).with_value("modified_time"@, SqlData::Time(now)).with_value(
        "create_time"@,
        SqlData::Time(now),
    ).with_value("user_id"@, SqlData::Text(p.user_id))
}

/// The app that a create request returns: what was asked for, under the new
/// identifier, without belongings and at the baseline version.
pub open spec fn created_app(p: CreateAppData, id: u128) -> AppData {
    AppData {
        id: hyphenated(id),
        workspace_id: p.workspace_id,
        name: p.name,
        desc: p.desc,
        belongings: Seq::empty(),
        version: 0,
    }
}

/// The first step of a create: ask for a transaction, with the insert ready.
pub open spec fn create_step(p: CreateAppData, id: u128, now: Timestamp) -> StepData {
    StepData {
        operation: OperationData::Opening {
            statement: statement_of(insert_app(p, id, now)),
            plan: PlanData::Create(created_app(p, id)),
        },
        action: ActionData::Begin,
    }
}

/// A create request whose fields have all passed their validators.
#[derive(Debug)]
pub struct NewApp {
    workspace_id: WorkspaceId,
    user_id: UserId,
    name: AppName,
    desc: AppDesc,
    color_style: Vec<u8>,
}

impl View for NewApp {
    type V = CreateAppData;

    closed spec fn view(&self) -> CreateAppData {
        CreateAppData {
            workspace_id: self.workspace_id@,
            user_id: self.user_id@,
            name: self.name@,
            desc: self.desc@,
            color_style: self.color_style@,
        }
    }
}

impl NewApp {
    /// Validates a create request. The first invalid field, in the order
    /// name, workspace, user, description, is reported.
    pub fn parse(params: CreateAppParams) -> (r: Result<NewApp, ServerError>)
        ensures
            match create_error(params@) {
                Some(e) => r matches Err(x) && x == e,
                None => r matches Ok(valid) && valid@ == params@,
            },
    {
        let CreateAppParams { workspace_id, user_id, name, desc, color_style } = params;
        let name = match AppName::parse(name) {
            Ok(v) => v,
            Err(e) => return Err(e),
        };
        let workspace_id = match WorkspaceId::parse(workspace_id) {
            Ok(v) => v,
            Err(e) => return Err(e),
        };
        let user_id = match UserId::parse(user_id) {
            Ok(v) => v,
            Err(e) => return Err(e),
        };
        let desc = match AppDesc::parse(desc) {
            Ok(v) => v,
            Err(e) => return Err(e),
        };
        Ok(NewApp { workspace_id, user_id, name, desc, color_style })
    }

    /// Starts the create under the given identifier and time. The app that
    /// will be returned carries the identifier in a form that reads back as
    /// the same identifier.
    pub fn begin(self, id: u128, now: Timestamp) -> (step: Step)
        ensures
            create_error(self@) is None,
            step@ == create_step(self@, id, now),
            app_id_of(hyphenated(id)) == Ok::<u128, ServerError>(id),
    {
        let NewApp { workspace_id, user_id, name, desc, color_style } = self;
        let app = App {
            id: uuid_to_string(id),
            workspace_id: workspace_id.as_str().to_owned(),
            name: name.as_str().to_owned(),
            desc: desc.as_str().to_owned(),
            belongings: Vec::new(),
            version: 0,
        };
        proof {
            lemma_hyphenated_is_identifier(id);
            lemma_app_table_is_named();
        }
        let builder = SqlBuilder::create("app_table").add_arg("id", SqlValue::Uuid(id)).add_arg(
            "workspace_id",
            SqlValue::Text(workspace_id.into_inner()),
        ).add_arg("name", SqlValue::Text(name.into_inner())).add_arg(
            "description",
            SqlValue::Text(desc.into_inner()),
        ).add_arg("color_style", SqlValue::Bytes(color_style)).add_arg(
            "modified_time",
            SqlValue::Time(now),
        ).add_arg("create_time", SqlValue::Time(now)).add_arg(
            "user_id",
            SqlValue::Text(user_id.into_inner()),
        );
        let statement = build(builder);
        let step = Step {
            operation: Operation::Opening { statement, plan: Plan::Create(app) },
            action: Action::Begin,
        };
        assert(step@ =~= create_step(self@, id, now));
        step
    }
}

/// The hyphenated form of any identifier has the shape of an identifier.
pub proof fn lemma_hyphenated_is_identifier(id: u128)
    ensures
        is_identifier(hyphenated(id)),
{
    let s = hyphenated(id);
    assert(s.len() == 36);
    assert forall|i: int| 0 <= i < s.len() implies crate::parser::is_id_char(#[trigger] s[i]) by {}
}

/// Creates an app: validates the request, draws a fresh identifier, reads the
/// clock once, and starts the transaction that inserts the row.
pub fn create_app(params: CreateAppParams) -> (r: Result<Step, ServerError>)
    ensures
        match create_error(params@) {
            Some(e) => r matches Err(x) && x == e,
            None => r matches Ok(step) && exists|id: u128, now: Timestamp|
                is_random_uuid(id) && is_clock_reading(now) && app_id_of(hyphenated(id)) == Ok::<
                    u128,
                    ServerError,
                >(id) && #[trigger] create_step(params@, id, now) == step@,
        },
{
    match NewApp::parse(params) {
        Ok(valid) => {
            let id = new_uuid();
            let now = utc_now();
            let step = valid.begin(id, now);
            assert(create_step(params@, id, now) == step@);
            Ok(step)
        },
        Err(e) => Err(e),
    }
}

/// The select that reads the app with the given identifier.
pub open spec fn select_app(id: u128) -> Description {
    Description::empty(BuilderType::Select, app_table()).with_field("*"@).with_filter(
        "id"@,
        SqlData::Uuid(id),
    )
}

/// The first step of a read: ask for a transaction, with the select ready.
pub open spec fn read_step(id: u128, read_belongings: bool) -> StepData {
    StepData {
        operation: OperationData::Opening {
            statement: statement_of(select_app(id)),
            plan: PlanData::Read { read_belongings },
        },
        action: ActionData::Begin,
    }
}

/// Reads an app: validates its identifier and starts the transaction that
/// selects its row and, where asked for, its views.
pub fn read_app(params: QueryAppParams) -> (r: Result<Step, ServerError>)
    ensures
        match app_id_of(params@.app_id) {
            Ok(id) => r matches Ok(step) && step@ == read_step(id, params.read_belongings),
            Err(e) => r matches Err(x) && x == e,
        },
{
    let QueryAppParams { app_id, read_belongings } = params;
    let id = match check_app_id(app_id) {
        Ok(id) => id,
        Err(e) => return Err(e),
    };
    proof {
        lemma_app_table_is_named();
    }
    let builder = SqlBuilder::select("app_table").add_field("*").and_where_eq(
        "id",
        SqlValue::Uuid(id),
    );
    let statement = build(builder);
    let step = Step {
        operation: Operation::Opening { statement, plan: Plan::Read { read_belongings } },
        action: Action::Begin,
    };
    assert(step@ =~= read_step(id, read_belongings));
    Ok(step)
}

/// What an update changes, after validation: the identifier of the app and
/// the fields that were supplied.
pub ghost struct ChangesData {
    pub app_id: u128,
    pub name: Option<Seq<char>>,
    pub workspace_id: Option<Seq<char>>,
    pub color_style: Option<Seq<u8>>,
    pub desc: Option<Seq<char>>,
    pub is_trash: Option<bool>,
}

/// Whether a value is supplied and fails the rule for app names.
pub open spec fn bad_name(name: Option<Seq<char>>) -> bool {
    name matches Some(n) && !is_app_name(n)
}

/// Whether a value is supplied and fails the rule for identifiers.
pub open spec fn bad_identifier(id: Option<Seq<char>>) -> bool {
    id matches Some(i) && !is_identifier(i)
}

/// Whether a value is supplied and fails the rule for descriptions.
pub open spec fn bad_desc(desc: Option<Seq<char>>) -> bool {
    desc matches Some(d) && !is_app_desc(d)
}

/// The field that makes an update request invalid, if there is one. The app
/// id is always checked; the name, the workspace and the description are
/// checked, in this order, only where they are supplied.
pub open spec fn update_error(p: UpdateAppData) -> Option<ServerError> {
    if app_id_of(p.app_id) is Err {
        Some(ServerError::InvalidParameter(Field::AppId))
    } else if bad_name(p.name) {
        Some(ServerError::InvalidParameter(Field::Name))
    } else if bad_identifier(p.workspace_id) {
        Some(ServerError::InvalidParameter(Field::WorkspaceId))
    } else if bad_desc(p.desc) {
        Some(ServerError::InvalidParameter(Field::Desc))
    } else {
        None
    }
}

/// The changes that a request asks for, on the app with identifier `id`.
pub open spec fn changes_of(p: UpdateAppData, id: u128) -> ChangesData {
    ChangesData {
        app_id: id,
        name: p.name,
        workspace_id: p.workspace_id,
        color_style: p.color_style,
        desc: p.desc,
        is_trash: p.is_trash,
    }
}

/// Optional text as an optional bound value.
pub open spec fn text_value(o: Option<Seq<char>>) -> Option<SqlData> {
    match o {
        Some(s) => Some(SqlData::Text(s)),
        None => None,
    }
}

/// Optional bytes as an optional bound value.
pub open spec fn bytes_value(o: Option<Seq<u8>>) -> Option<SqlData> {
    match o {
        Some(b) => Some(SqlData::Bytes(b)),
        None => None,
    }
}

/// An optional flag as an optional bound value.
pub open spec fn bool_value(o: Option<bool>) -> Option<SqlData> {
    match o {
        Some(b) => Some(SqlData::Bool(b)),
        None => None,
    }
}

/// The update that writes the changes: the supplied fields, and always the
/// modification time, on the row with the app's identifier.
pub open spec fn update_app_row(c: ChangesData, now: Timestamp) -> Description {
    Description::empty(BuilderType::Update, app_table()).with_optional(
        "name"@,
        text_value(c.name),
    ).with_optional("workspace_id"@, text_value(c.workspace_id)).with_optional(
        "color_style"@,
        bytes_value(c.color_style),
    ).with_optional("description"@, text_value(c.desc)).with_value(
        "modified_time"@,
        SqlData::Time(now),
    ).with_optional("is_trash"@, bool_value(c.is_trash)).with_filter(
        "id"@,
        SqlData::Uuid(c.app_id),
    )
}

/// The first step of an update: ask for a transaction, with the update
/// ready.
pub open spec fn update_step(c: ChangesData, now: Timestamp) -> StepData {
    StepData {
        operation: OperationData::Opening {
            statement: statement_of(update_app_row(c, now)),
            plan: PlanData::Write,
        },
        action: ActionData::Begin,
    }
}

/// An update request whose app id and supplied fields have passed their
/// validators.
#[derive(Debug)]
pub struct AppChanges {
    app_id: u128,
    name: Option<AppName>,
    workspace_id: Option<WorkspaceId>,
    color_style: Option<Vec<u8>>,
    desc: Option<AppDesc>,
    is_trash: Option<bool>,
}

impl View for AppChanges {
    type V = ChangesData;

    closed spec fn view(&self) -> ChangesData {
        ChangesData {
            app_id: self.app_id,
            name: match self.name {
                Some(n) => Some(n@),
                None => None,
            },
            workspace_id: match self.workspace_id {
                Some(w) => Some(w@),
                None => None,
            },
            color_style: opt_bytes(self.color_style),
            desc: match self.desc {
                Some(d) => Some(d@),
                None => None,
            },
            is_trash: self.is_trash,
        }
    }
}

impl AppChanges {
    /// Validates an update request. The app id is checked first; then, of the
    /// supplied fields, the name, the workspace and the description. A field
    /// that is not supplied is not an error.
    pub fn parse(params: UpdateAppParams) -> (r: Result<AppChanges, ServerError>)
        ensures
            match update_error(params@) {
                Some(e) => r matches Err(x) && x == e,
                None => r matches Ok(changes) && app_id_of(params@.app_id) matches Ok(id)
                    && changes@ == changes_of(params@, id),
            },
    {
        let UpdateAppParams { app_id, name, workspace_id, color_style, desc, is_trash } = params;
        let app_id = match check_app_id(app_id) {
            Ok(id) => id,
            Err(e) => return Err(e),
        };
        let name = match name {
            Some(text) => match AppName::parse(text) {
                Ok(v) => Some(v),
                Err(e) => return Err(e),
            },
            None => None,
        };
        let workspace_id = match workspace_id {
            Some(text) => match WorkspaceId::parse(text) {
                Ok(v) => Some(v),
                Err(e) => return Err(e),
            },
            None => None,
        };
        let desc = match desc {
            Some(text) => match AppDesc::parse(text) {
                Ok(v) => Some(v),
                Err(e) => return Err(e),
            },
            None => None,
        };
        let changes = AppChanges { app_id, name, workspace_id, color_style, desc, is_trash };
        assert(changes@ =~= changes_of(params@, app_id));
        Ok(changes)
    }

    /// Starts the update at the given time, which becomes the modification
    /// time of the row.
    pub fn begin(self, now: Timestamp) -> (step: Step)
        ensures
            step@ == update_step(self@, now),
    {
        let AppChanges { app_id, name, workspace_id, color_style, desc, is_trash } = self;
        let name = match name {
            Some(v) => Some(SqlValue::Text(v.into_inner())),
            None => None,
        };
        let workspace_id = match workspace_id {
            Some(v) => Some(SqlValue::Text(v.into_inner())),
            None => None,
        };
        let color_style = match color_style {
            Some(v) => Some(SqlValue::Bytes(v)),
            None => None,
        };
        let desc = match desc {
            Some(v) => Some(SqlValue::Text(v.into_inner())),
            None => None,
        };
        let trash = match is_trash {
            Some(flag) => flag,
            None => false,
        };
        proof {
            lemma_app_table_is_named();
        }
        let builder = SqlBuilder::update("app_table").add_some_arg("name", name).add_some_arg(
            "workspace_id",
            workspace_id,
        ).add_some_arg("color_style", color_style).add_some_arg("description", desc).add_some_arg(
            "modified_time",
            Some(SqlValue::Time(now)),
        ).add_arg_if(is_trash.is_some(), "is_trash", SqlValue::Bool(trash)).and_where_eq(
            "id",
            SqlValue::Uuid(app_id),
        );
        assert(builder@ =~= update_app_row(self@, now));
        let statement = build(builder);
        Step { operation: Operation::Opening { statement, plan: Plan::Write }, action: Action::Begin }
    }
}

/// Updates an app: validates the request, reads the clock, and starts the
/// transaction that writes the supplied fields and the modification time.
pub fn update_app(params: UpdateAppParams) -> (r: Result<Step, ServerError>)
    ensures
        match update_error(params@) {
            Some(e) => r matches Err(x) && x == e,
            None => r matches Ok(step) && app_id_of(params@.app_id) matches Ok(id)
                && exists|now: Timestamp|
                is_clock_reading(now) && #[trigger] update_step(changes_of(params@, id), now)
                    == step@,
        },
{
    match AppChanges::parse(params) {
        Ok(changes) => {
            let now = utc_now();
            let step = changes.begin(now);
            assert(update_step(changes@, now) == step@);
            Ok(step)
        },
        Err(e) => Err(e),
    }
}

/// The delete that removes the app with the given identifier.
pub open spec fn delete_app_row(id: u128) -> Description {
    Description::empty(BuilderType::Delete, app_table()).with_filter("id"@, SqlData::Uuid(id))
}

/// The first step of a delete: ask for a transaction, with the delete ready.
pub open spec fn delete_step(id: u128) -> StepData {
    StepData {
        operation: OperationData::Opening {
            statement: statement_of(delete_app_row(id)),
            plan: PlanData::Write,
        },
        action: ActionData::Begin,
    }
}

/// Deletes an app: validates its identifier and starts the transaction that
/// removes its row.
pub fn delete_app(app_id: &str) -> (r: Result<Step, ServerError>)
    ensures
        match app_id_of(app_id@) {
            Ok(id) => r matches Ok(step) && step@ == delete_step(id),
            Err(e) => r matches Err(x) && x == e,
        },
{
    let id = match check_app_id(app_id.to_owned()) {
        Ok(id) => id,
        Err(e) => return Err(e),
    };
    proof {
        lemma_app_table_is_named();
    }
    let builder = SqlBuilder::delete("app_table").and_where_eq("id", SqlValue::Uuid(id));
    let statement = build(builder);
    let step = Step {
        operation: Operation::Opening { statement, plan: Plan::Write },
        action: Action::Begin,
    };
    assert(step@ =~= delete_step(id));
    Ok(step)
}

/// The select that reads the apps of a workspace.
pub open spec fn select_apps_of(workspace_id: Seq<char>) -> Description {
    Description::empty(BuilderType::Select, app_table()).with_field("*"@).with_filter(
        "workspace_id"@,
        SqlData::Text(workspace_id),
    )
}

/// The only step of a listing that asks anything of the store: fetch the
/// rows. No transaction is asked for and none is committed.
pub open spec fn list_step(workspace_id: Seq<char>) -> StepData {
    StepData {
        operation: OperationData::Listing,
        action: ActionData::FetchAll(statement_of(select_apps_of(workspace_id))),
    }
}

/// Lists the apps of a workspace inside a transaction that the caller owns:
/// validates the workspace id and hands out the select. The operation never
/// begins or commits a transaction; the caller commits.
pub fn read_apps_belong_to_workspace(workspace_id: &str) -> (r: Result<Step, ServerError>)
    ensures
        is_identifier(workspace_id@) ==> (r matches Ok(step) && step@ == list_step(
            workspace_id@,
        )),
        !is_identifier(workspace_id@) ==> (r matches Err(e) && e
            == ServerError::InvalidParameter(Field::WorkspaceId)),
{
    let workspace_id = match WorkspaceId::parse(workspace_id.to_owned()) {
        Ok(v) => v,
        Err(e) => return Err(e),
    };
    proof {
        lemma_app_table_is_named();
    }
    let builder = SqlBuilder::select("app_table").add_field("*").and_where_eq(
        "workspace_id",
        SqlValue::Text(workspace_id.into_inner()),
    );
    let statement = build(builder);
    let step = Step { operation: Operation::Listing, action: Action::FetchAll(statement) };
    assert(step@ =~= list_step(workspace_id@));
    Ok(step)
}

/// A create request with an empty name is rejected as `InvalidParameter`
/// naming the name, whatever its other fields hold. The request is answered
/// with the error alone, so nothing is written.
pub proof fn lemma_empty_name_is_rejected(p: CreateAppData)
    requires
        p.name.len() == 0,
    ensures
        create_error(p) == Some(ServerError::InvalidParameter(Field::Name)),
{
}

/// An app id that is refused is refused as `InvalidParameter` naming the app
/// id; a text that has not the shape of an identifier is always refused.
pub proof fn lemma_bad_app_id(text: Seq<char>)
    ensures
        app_id_of(text) is Err ==> app_id_of(text) == Err::<u128, ServerError>(
            ServerError::InvalidParameter(Field::AppId),
        ),
        !is_identifier(text) ==> app_id_of(text) is Err,
{
}

/// An update with no optional field supplied is valid as soon as its app id
/// is, and it writes the modification time alone.
pub proof fn lemma_bare_update_is_valid(p: UpdateAppData, id: u128, now: Timestamp)
    requires
        app_id_of(p.app_id) == Ok::<u128, ServerError>(id),
        p.name is None,
        p.workspace_id is None,
        p.color_style is None,
        p.desc is None,
        p.is_trash is None,
    ensures
        update_error(p) is None,
        update_app_row(changes_of(p, id), now).fields == seq!["modified_time"@],
        update_app_row(changes_of(p, id), now).values == seq![SqlData::Time(now)],
{
    let d = update_app_row(changes_of(p, id), now);
    assert(d.fields =~= seq!["modified_time"@]);
    assert(d.values =~= seq![SqlData::Time(now)]);
}

/// An update with only the name supplied writes the name and the
/// modification time, in this order, and no other column.
pub proof fn lemma_name_update_writes_two_columns(c: ChangesData, now: Timestamp)
    requires
        c.name is Some,
        c.workspace_id is None,
        c.color_style is None,
        c.desc is None,
        c.is_trash is None,
    ensures
        update_app_row(c, now).fields == seq!["name"@, "modified_time"@],
        update_app_row(c, now).values == seq![SqlData::Text(c.name->0), SqlData::Time(now)],
        update_app_row(c, now).filters == seq!["id"@],
        update_app_row(c, now).filter_values == seq![SqlData::Uuid(c.app_id)],
{
    let d = update_app_row(c, now);
    assert(d.fields =~= seq!["name"@, "modified_time"@]);
    assert(d.values =~= seq![SqlData::Text(c.name->0), SqlData::Time(now)]);
    assert(d.filters =~= seq!["id"@]);
    assert(d.filter_values =~= seq![SqlData::Uuid(c.app_id)]);
}

proof fn lemma_names_are_plain()
    ensures
        plain(app_table()),
        plain("*"@),
        plain("id"@),
        plain("workspace_id"@),
        plain("name"@),
        plain("description"@),
        plain("color_style"@),
        plain("modified_time"@),
        plain("create_time"@),
        plain("user_id"@),
        plain("is_trash"@),
{
    reveal_strlit("app_table");
    reveal_strlit("*");
    reveal_strlit("id");
    reveal_strlit("workspace_id");
    reveal_strlit("name");
    reveal_strlit("description");
    reveal_strlit("color_style");
    reveal_strlit("modified_time");
    reveal_strlit("create_time");
    reveal_strlit("user_id");
    reveal_strlit("is_trash");
    lemma_count_none("app_table"@, '$');
    lemma_count_none("*"@, '$');
    lemma_count_none("id"@, '$');
    lemma_count_none("workspace_id"@, '$');
    lemma_count_none("name"@, '$');
    lemma_count_none("description"@, '$');
    lemma_count_none("color_style"@, '$');
    lemma_count_none("modified_time"@, '$');
    lemma_count_none("create_time"@, '$');
    lemma_count_none("user_id"@, '$');
    lemma_count_none("is_trash"@, '$');
}

/// In the insert of a create, the dollar signs of the text are exactly the
/// placeholders of the eight bound values, whatever the request holds.
pub proof fn lemma_insert_binds_every_value(p: CreateAppData, id: u128, now: Timestamp)
    ensures
        insert_app(p, id, now).well_formed(),
        count(statement_of(insert_app(p, id, now)).sql, '$') == 8,
        statement_of(insert_app(p, id, now)).args.len() == 8,
{
    lemma_names_are_plain();
    let d0 = Description::empty(BuilderType::Create, app_table());
    let d1 = d0.with_value("id"@, SqlData::Uuid(id));
    let d2 = d1.with_value("workspace_id"@, SqlData::Text(p.workspace_id));
    let d3 = d2.with_value("name"@, SqlData::Text(p.name));
    let d4 = d3.with_value("description"@, SqlData::Text(p.desc));
    let d5 = d4.with_value("color_style"@, SqlData::Bytes(p.color_style));
    let d6 = d5.with_value("modified_time"@, SqlData::Time(now));
    let d7 = d6.with_value("create_time"@, SqlData::Time(now));
    let d8 = d7.with_value("user_id"@, SqlData::Text(p.user_id));
    lemma_plain_names_stay(d0, "id"@);
    lemma_plain_names_stay(d1, "workspace_id"@);
    lemma_plain_names_stay(d2, "name"@);
    lemma_plain_names_stay(d3, "description"@);
    lemma_plain_names_stay(d4, "color_style"@);
    lemma_plain_names_stay(d5, "modified_time"@);
    lemma_plain_names_stay(d6, "create_time"@);
    lemma_plain_names_stay(d7, "user_id"@);
    assert(d8 == insert_app(p, id, now));
    lemma_placeholders_match_arguments(d8);
}

/// In the update of an app, the dollar signs of the text are exactly the
/// placeholders of the bound values: one for each supplied field, one for
/// the modification time and one for the identifier.
pub proof fn lemma_update_binds_every_value(c: ChangesData, now: Timestamp)
    ensures
        update_app_row(c, now).well_formed(),
        count(statement_of(update_app_row(c, now)).sql, '$') == statement_of(
            update_app_row(c, now),
        ).args.len(),
        update_app_row(c, now).fields.len() >= 1,
{
    lemma_names_are_plain();
    let d0 = Description::empty(BuilderType::Update, app_table());
    let d1 = d0.with_optional("name"@, text_value(c.name));
    let d2 = d1.with_optional("workspace_id"@, text_value(c.workspace_id));
    let d3 = d2.with_optional("color_style"@, bytes_value(c.color_style));
    let d4 = d3.with_optional("description"@, text_value(c.desc));
    let d5 = d4.with_value("modified_time"@, SqlData::Time(now));
    let d6 = d5.with_optional("is_trash"@, bool_value(c.is_trash));
    let d7 = d6.with_filter("id"@, SqlData::Uuid(c.app_id));
    lemma_plain_names_stay(d0, "name"@);
    lemma_plain_names_stay(d1, "workspace_id"@);
    lemma_plain_names_stay(d2, "color_style"@);
    lemma_plain_names_stay(d3, "description"@);
    lemma_plain_names_stay(d4, "modified_time"@);
    lemma_plain_names_stay(d5, "is_trash"@);
    lemma_plain_names_stay(d6, "id"@);
    assert(d7 == update_app_row(c, now));
    lemma_placeholders_match_arguments(d7);
}

/// In the statements that read or delete, the one dollar sign of the text is
/// the placeholder of the one bound value.
pub proof fn lemma_filters_bind_every_value(id: u128, workspace_id: Seq<char>)
    ensures
        count(statement_of(select_app(id)).sql, '$') == 1,
        statement_of(select_app(id)).args == seq![SqlData::Uuid(id)],
        count(statement_of(delete_app_row(id)).sql, '$') == 1,
        statement_of(delete_app_row(id)).args == seq![SqlData::Uuid(id)],
        count(statement_of(select_apps_of(workspace_id)).sql, '$') == 1,
        statement_of(select_apps_of(workspace_id)).args == seq![SqlData::Text(workspace_id)],
{
    lemma_names_are_plain();
    let s0 = Description::empty(BuilderType::Select, app_table());
    let s1 = s0.with_field("*"@);
    lemma_plain_names_stay(s0, "*"@);
    lemma_plain_names_stay(s1, "id"@);
    lemma_plain_names_stay(s1, "workspace_id"@);
    lemma_placeholders_match_arguments(select_app(id));
    lemma_placeholders_match_arguments(select_apps_of(workspace_id));
    let e0 = Description::empty(BuilderType::Delete, app_table());
    lemma_plain_names_stay(e0, "id"@);
    lemma_placeholders_match_arguments(delete_app_row(id));
    assert(statement_of(select_app(id)).args =~= seq![SqlData::Uuid(id)]);
    assert(statement_of(delete_app_row(id)).args =~= seq![SqlData::Uuid(id)]);
    assert(statement_of(select_apps_of(workspace_id)).args =~= seq![
        SqlData::Text(workspace_id),
    ]);
}

/// A create whose transaction, insert and commit all succeed hands out the
/// insert once, asks for the commit once, and then returns the app as it was
/// written, without reading it back.
pub proof fn lemma_create_runs_to_its_reply(p: CreateAppData, id: u128, now: Timestamp)
    ensures
        ({
            let first = create_step(p, id, now);
            let events = seq![EventData::Begun, EventData::Executed, EventData::Committed];
            &&& first.action == ActionData::Begin
            &&& action_at(first.operation, events, 0) == ActionData::Execute(
                statement_of(insert_app(p, id, now)),
            )
            &&& action_at(first.operation, events, 1) == ActionData::Commit
            &&& action_at(first.operation, events, 2) == ActionData::Finish(
                ReplyData::App(created_app(p, id)),
            )
        }),
{
    let first = create_step(p, id, now);
    let events = seq![EventData::Begun, EventData::Executed, EventData::Committed];
    reveal_with_fuel(crate::transaction::after, 4);
    assert(events.take(0) =~= Seq::<EventData>::empty());
    assert(events.take(1) =~= seq![EventData::Begun]);
    assert(events.take(2) =~= seq![EventData::Begun, EventData::Executed]);
    assert(events.take(1).drop_last() =~= Seq::<EventData>::empty());
    assert(events.take(2).drop_last() =~= events.take(1));
}

} // verus!
