//! The entities of the service: apps as callers see them, app rows as the
//! store keeps them, and the parameters of the requests.

use vstd::prelude::*;
use crate::clock::Timestamp;
use crate::ident::{hyphenated, uuid_to_string};

verus! {

/// A summary of a view that belongs to an app.
#[derive(Clone, Debug, PartialEq, Eq)]
pub struct ViewSummary {
    pub id: String,
    pub belong_to_id: String,
    pub name: String,
    pub desc: String,
}

/// What a view summary holds.
pub ghost struct ViewData {
    pub id: Seq<char>,
    pub belong_to_id: Seq<char>,
    pub name: Seq<char>,
    pub desc: Seq<char>,
}

impl View for ViewSummary {
    type V = ViewData;

    open spec fn view(&self) -> ViewData {
        ViewData {
            id: self.id@,
            belong_to_id: self.belong_to_id@,
            name: self.name@,
            desc: self.desc@,
        }
    }
}

/// What a sequence of view summaries holds.
pub open spec fn views_data(views: Seq<ViewSummary>) -> Seq<ViewData> {
    Seq::new(views.len(), |i: int| views[i]@)
}

/// An app as callers see it.
#[derive(Clone, Debug, PartialEq, Eq)]
pub struct App {
    pub id: String,
    pub workspace_id: String,
    pub name: String,
    pub desc: String,
    /// The views of the app, filled only where a read asks for them.
    pub belongings: Vec<ViewSummary>,
    pub version: i64,
}

/// What an app holds.
#[verifier::ext_equal]
pub ghost struct AppData {
    pub id: Seq<char>,
    pub workspace_id: Seq<char>,
    pub name: Seq<char>,
    pub desc: Seq<char>,
    pub belongings: Seq<ViewData>,
    pub version: i64,
}

impl View for App {
    type V = AppData;

    open spec fn view(&self) -> AppData {
        AppData {
            id: self.id@,
            workspace_id: self.workspace_id@,
            name: self.name@,
            desc: self.desc@,
            belongings: views_data(self.belongings@),
            version: self.version,
        }
    }
}

/// What a sequence of apps holds.
pub open spec fn apps_data(apps: Seq<App>) -> Seq<AppData> {
    Seq::new(apps.len(), |i: int| apps[i]@)
}

/// An app as the store keeps it.
#[derive(Clone, Debug, PartialEq, Eq)]
pub struct AppRow {
    pub id: u128,
    pub workspace_id: String,
    pub name: String,
    pub description: String,
    pub color_style: Vec<u8>,
    pub modified_time: Timestamp,
    pub create_time: Timestamp,
    pub user_id: String,
    pub is_trash: bool,
}

/// What an app row holds.
#[verifier::ext_equal]
pub ghost struct AppRowData {
    pub id: u128,
    pub workspace_id: Seq<char>,
    pub name: Seq<char>,
    pub description: Seq<char>,
    pub color_style: Seq<u8>,
    pub modified_time: Timestamp,
    pub create_time: Timestamp,
    pub user_id: Seq<char>,
    pub is_trash: bool,
}

impl View for AppRow {
    type V = AppRowData;

    open spec fn view(&self) -> AppRowData {
        AppRowData {
            id: self.id,
            workspace_id: self.workspace_id@,
            name: self.name@,
            description: self.description@,
            color_style: self.color_style@,
            modified_time: self.modified_time,
            create_time: self.create_time,
            user_id: self.user_id@,
            is_trash: self.is_trash,
        }
    }
}

/// What a sequence of app rows holds.
pub open spec fn rows_data(rows: Seq<AppRow>) -> Seq<AppRowData> {
    Seq::new(rows.len(), |i: int| rows[i]@)
}

/// The app that a row stands for: the shared fields are copied, the
/// identifier is written in its hyphenated form, there are no belongings yet,
/// and the version is the baseline.
pub open spec fn app_of_row(row: AppRowData) -> AppData {
    AppData {
        id: hyphenated(row.id),
        workspace_id: row.workspace_id,
        name: row.name,
        desc: row.description,
        belongings: Seq::empty(),
        version: 0,
    }
}

/// The apps that the rows stand for, in the order of the rows.
pub open spec fn apps_of_rows(rows: Seq<AppRowData>) -> Seq<AppData> {
    Seq::new(rows.len(), |i: int| app_of_row(rows[i]))
}

/// The app with the given views as its belongings.
pub open spec fn with_belongings(app: AppData, views: Seq<ViewData>) -> AppData {
    AppData {
        id: app.id,
        workspace_id: app.workspace_id,
        name: app.name,
        desc: app.desc,
        belongings: views,
        version: app.version,
    }
}

impl App {
    /// Derives the app from its row.
    pub fn from_row(row: AppRow) -> (app: App)
        ensures
            app@ == app_of_row(row@),
    {
        let app = App {
            id: uuid_to_string(row.id),
            workspace_id: row.workspace_id,
            name: row.name,
            desc: row.description,
            belongings: Vec::new(),
            version: 0,
        };
        assert(app@ =~= app_of_row(row@));
        app
    }

    /// Derives the apps from their rows, keeping the order.
    pub fn from_rows(rows: Vec<AppRow>) -> (apps: Vec<App>)
        ensures
            apps_data(apps@) == apps_of_rows(rows_data(rows@)),
    {
        let ghost all = rows@;
        let mut apps: Vec<App> = Vec::new();
        for row in it: rows
            invariant
                it.seq() == all,
                apps.len() == it.index(),
                forall|j: int|
                    0 <= j < apps.len() ==> (#[trigger] apps[j])@ == app_of_row(all[j]@),
        {
            apps.push(App::from_row(row));
        }
        assert(apps_data(apps@) =~= apps_of_rows(rows_data(all)));
        apps
    }
}

/// The parameters of a request to create an app.
#[derive(Clone, Debug, PartialEq, Eq)]
pub struct CreateAppParams {
    pub workspace_id: String,
    pub user_id: String,
    pub name: String,
    pub desc: String,
    /// The presentation settings, already serialised.
    pub color_style: Vec<u8>,
}

/// What a create request holds.
pub ghost struct CreateAppData {
    pub workspace_id: Seq<char>,
    pub user_id: Seq<char>,
    pub name: Seq<char>,
    pub desc: Seq<char>,
    pub color_style: Seq<u8>,
}

impl View for CreateAppParams {
    type V = CreateAppData;

    open spec fn view(&self) -> CreateAppData {
        CreateAppData {
            workspace_id: self.workspace_id@,
            user_id: self.user_id@,
            name: self.name@,
            desc: self.desc@,
            color_style: self.color_style@,
        }
    }
}

/// The parameters of a request to read an app.
#[derive(Clone, Debug, PartialEq, Eq)]
pub struct QueryAppParams {
    pub app_id: String,
    /// Whether the views of the app are to be read with it.
    pub read_belongings: bool,
}

/// What a read request holds.
pub ghost struct QueryAppData {
    pub app_id: Seq<char>,
    pub read_belongings: bool,
}

impl View for QueryAppParams {
    type V = QueryAppData;

    open spec fn view(&self) -> QueryAppData {
        QueryAppData { app_id: self.app_id@, read_belongings: self.read_belongings }
    }
}

/// The parameters of a request to update an app. A field that is `None` is
/// not supplied and stays as it is in the store.
#[derive(Clone, Debug, PartialEq, Eq)]
pub struct UpdateAppParams {
    pub app_id: String,
    pub name: Option<String>,
    pub workspace_id: Option<String>,
    /// The presentation settings, already serialised.
    pub color_style: Option<Vec<u8>>,
    pub desc: Option<String>,
    pub is_trash: Option<bool>,
}

/// What an update request holds.
pub ghost struct UpdateAppData {
    pub app_id: Seq<char>,
    pub name: Option<Seq<char>>,
    pub workspace_id: Option<Seq<char>>,
    pub color_style: Option<Seq<u8>>,
    pub desc: Option<Seq<char>>,
    pub is_trash: Option<bool>,
}

/// What an optional string holds.
pub open spec fn opt_text(o: Option<String>) -> Option<Seq<char>> {
    match o {
        Some(s) => Some(s@),
        None => None,
    }
}

/// What optional bytes hold.
pub open spec fn opt_bytes(o: Option<Vec<u8>>) -> Option<Seq<u8>> {
    match o {
        Some(b) => Some(b@),
        None => None,
    }
}

impl View for UpdateAppParams {
    type V = UpdateAppData;

    open spec fn view(&self) -> UpdateAppData {
        UpdateAppData {
            app_id: self.app_id@,
            name: opt_text(self.name),
            workspace_id: opt_text(self.workspace_id),
            color_style: opt_bytes(self.color_style),
            desc: opt_text(self.desc),
            is_trash: self.is_trash,
        }
    }
}

} // verus!
