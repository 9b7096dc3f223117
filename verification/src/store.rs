//! An abstract table of apps: the meaning that this crate gives to the
//! statements it emits, and what follows from it for operations that come one
//! after another.
//!
//! The table is a mathematical map from identifiers to rows. Nothing here is
//! executed, and nothing here is claimed of a database: the functions say
//! what a statement asks for, and the lemmas say what the service's own
//! statements then amount to.

use vstd::prelude::*;
use crate::app::{
    app_table, created_app, delete_app_row, insert_app, select_app, select_apps_of,
    update_app_row, ChangesData,
};
use crate::clock::Timestamp;
use crate::entities::{app_of_row, apps_of_rows, AppRowData, CreateAppData};
use crate::error::{ServerError, StorageError};
use crate::sql::{BuilderType, Description, SqlData};
use crate::transaction::{
    abort, close, next_step, ActionData, EventData, OperationData, PlanData, ReplyData, StepData,
};

verus! {

/// The value that a row holds in the named column, if the table has that
/// column.
pub open spec fn column(row: AppRowData, name: Seq<char>) -> Option<SqlData> {
    if name == "id"@ {
        Some(SqlData::Uuid(row.id))
    } else if name == "workspace_id"@ {
        Some(SqlData::Text(row.workspace_id))
    } else if name == "name"@ {
        Some(SqlData::Text(row.name))
    } else if name == "description"@ {
        Some(SqlData::Text(row.description))
    } else if name == "color_style"@ {
        Some(SqlData::Bytes(row.color_style))
    } else if name == "modified_time"@ {
        Some(SqlData::Time(row.modified_time))
    } else if name == "create_time"@ {
        Some(SqlData::Time(row.create_time))
    } else if name == "user_id"@ {
        Some(SqlData::Text(row.user_id))
    } else if name == "is_trash"@ {
        Some(SqlData::Bool(row.is_trash))
    } else {
        None
    }
}

/// The row with the named column set to the value. A column that the table
/// does not have, or a value of another type than the column's, changes
/// nothing.
pub open spec fn set_column(row: AppRowData, name: Seq<char>, value: SqlData) -> AppRowData {
    if name == "id"@ {
        match value {
            SqlData::Uuid(id) => AppRowData { id, ..row },
            _ => row,
        }
    } else if name == "workspace_id"@ {
        match value {
            SqlData::Text(workspace_id) => AppRowData { workspace_id, ..row },
            _ => row,
        }
    } else if name == "name"@ {
        match value {
            SqlData::Text(name) => AppRowData { name, ..row },
            _ => row,
        }
    } else if name == "description"@ {
        match value {
            SqlData::Text(description) => AppRowData { description, ..row },
            _ => row,
        }
    } else if name == "color_style"@ {
        match value {
            SqlData::Bytes(color_style) => AppRowData { color_style, ..row },
            _ => row,
        }
    } else if name == "modified_time"@ {
        match value {
            SqlData::Time(modified_time) => AppRowData { modified_time, ..row },
            _ => row,
        }
    } else if name == "create_time"@ {
        match value {
            SqlData::Time(create_time) => AppRowData { create_time, ..row },
            _ => row,
        }
    } else if name == "user_id"@ {
        match value {
            SqlData::Text(user_id) => AppRowData { user_id, ..row },
            _ => row,
        }
    } else if name == "is_trash"@ {
        match value {
            SqlData::Bool(is_trash) => AppRowData { is_trash, ..row },
            _ => row,
        }
    } else {
        row
    }
}

/// The row after the fields have been set to the values, one after another.
pub open spec fn assign(row: AppRowData, fields: Seq<Seq<char>>, values: Seq<SqlData>) -> AppRowData
    decreases fields.len(),
{
    if fields.len() == 0 || values.len() == 0 {
        row
    } else {
        set_column(
            assign(row, fields.drop_last(), values.drop_last()),
            fields.last(),
            values.last(),
        )
    }
}

/// Whether the row holds, in every filter column, the value asked for.
pub open spec fn passes(row: AppRowData, filters: Seq<Seq<char>>, values: Seq<SqlData>) -> bool {
    forall|j: int|
        0 <= j < filters.len() ==> column(row, #[trigger] filters[j]) == Some(values[j])
}

/// A row before anything is written to it. The flag `is_trash` has its
/// default, `false`.
pub open spec fn blank_row() -> AppRowData {
    AppRowData {
        id: 0,
        workspace_id: Seq::empty(),
        name: Seq::empty(),
        description: Seq::empty(),
        color_style: Seq::empty(),
        modified_time: Timestamp { secs: 0, nanos: 0 },
        create_time: Timestamp { secs: 0, nanos: 0 },
        user_id: Seq::empty(),
        is_trash: false,
    }
}

/// Every row is kept under its own identifier.
pub open spec fn keyed(table: Map<u128, AppRowData>) -> bool {
    forall|k: u128| table.dom().contains(k) ==> (#[trigger] table[k]).id == k
}

/// The table after the statement. An insert adds its row unless the
/// identifier is taken; an update overwrites the fields of the rows that
/// pass the filters; a delete removes those rows; a select changes nothing.
pub open spec fn run(table: Map<u128, AppRowData>, d: Description) -> Map<u128, AppRowData> {
    match d.kind {
        BuilderType::Create => {
            let row = assign(blank_row(), d.fields, d.values);
            if table.dom().contains(row.id) {
                table
            } else {
                table.insert(row.id, row)
            }
        },
        BuilderType::Select => table,
        BuilderType::Update => Map::new(
            |k: u128| table.dom().contains(k),
            |k: u128|
                if passes(table[k], d.filters, d.filter_values) {
                    assign(table[k], d.fields, d.values)
                } else {
                    table[k]
                },
        ),
        BuilderType::Delete => Map::new(
            |k: u128| table.dom().contains(k) && !passes(table[k], d.filters, d.filter_values),
            |k: u128| table[k],
        ),
    }
}

/// Whether the row is in the table and passes the filters of the statement.
pub open spec fn found(table: Map<u128, AppRowData>, d: Description, row: AppRowData) -> bool {
    &&& table.dom().contains(row.id)
    &&& table[row.id] == row
    &&& passes(row, d.filters, d.filter_values)
}

/// Whether `rows` is an answer to the select: the rows found, each once, in
/// any order.
pub open spec fn answers(
    table: Map<u128, AppRowData>,
    d: Description,
    rows: Seq<AppRowData>,
) -> bool {
    &&& rows.no_duplicates()
    &&& forall|row: AppRowData| #[trigger] rows.contains(row) <==> found(table, d, row)
}

/// The row that a create request writes.
pub open spec fn written_row(p: CreateAppData, id: u128, now: Timestamp) -> AppRowData {
    AppRowData {
        id,
        workspace_id: p.workspace_id,
        name: p.name,
        description: p.desc,
        color_style: p.color_style,
        modified_time: now,
        create_time: now,
        user_id: p.user_id,
        is_trash: false,
    }
}

/// The row after an update: each supplied field has its new value, the
/// modification time is the time of the update, and everything else is as
/// before.
pub open spec fn updated_row(row: AppRowData, c: ChangesData, now: Timestamp) -> AppRowData {
    AppRowData {
        id: row.id,
        workspace_id: match c.workspace_id {
            Some(w) => w,
            None => row.workspace_id,
        },
        name: match c.name {
            Some(n) => n,
            None => row.name,
        },
        description: match c.desc {
            Some(d) => d,
            None => row.description,
        },
        color_style: match c.color_style {
            Some(s) => s,
            None => row.color_style,
        },
        modified_time: now,
        create_time: row.create_time,
        user_id: row.user_id,
        is_trash: match c.is_trash {
            Some(t) => t,
            None => row.is_trash,
        },
    }
}

proof fn lemma_column_names()
    ensures
        "id"@.len() == 2,
        "workspace_id"@.len() == 12,
        "name"@.len() == 4,
        "description"@.len() == 11,
        "color_style"@.len() == 11,
        "modified_time"@.len() == 13,
        "create_time"@.len() == 11,
        "user_id"@.len() == 7,
        "is_trash"@.len() == 8,
        "description"@[0] == 'd',
        "color_style"@[0] == 'c',
        "create_time"@[0] == 'c',
        "color_style"@[1] == 'o',
        "create_time"@[1] == 'r',
{
    reveal_strlit("id");
    reveal_strlit("workspace_id");
    reveal_strlit("name");
    reveal_strlit("description");
    reveal_strlit("color_style");
    reveal_strlit("modified_time");
    reveal_strlit("create_time");
    reveal_strlit("user_id");
    reveal_strlit("is_trash");
}

proof fn lemma_assign_one_more(
    row: AppRowData,
    fields: Seq<Seq<char>>,
    values: Seq<SqlData>,
    field: Seq<char>,
    value: SqlData,
)
    ensures
        assign(row, fields.push(field), values.push(value)) == set_column(
            assign(row, fields, values),
            field,
            value,
        ),
{
    assert(fields.push(field).drop_last() =~= fields);
    assert(values.push(value).drop_last() =~= values);
}

proof fn lemma_assign_optional(row: AppRowData, d: Description, field: Seq<char>, value: Option<SqlData>)
    requires
        d.writes(),
    ensures
        assign(row, d.with_optional(field, value).fields, d.with_optional(field, value).values)
            == match value {
            Some(v) => set_column(assign(row, d.fields, d.values), field, v),
            None => assign(row, d.fields, d.values),
        },
        d.with_optional(field, value).writes(),
        d.with_optional(field, value).filters == d.filters,
        d.with_optional(field, value).filter_values == d.filter_values,
        d.with_optional(field, value).kind == d.kind,
{
    match value {
        Some(v) => lemma_assign_one_more(row, d.fields, d.values, field, v),
        None => {},
    }
}

/// The insert of a create request writes exactly the requested row.
pub proof fn lemma_insert_writes_row(p: CreateAppData, id: u128, now: Timestamp)
    ensures
        assign(blank_row(), insert_app(p, id, now).fields, insert_app(p, id, now).values)
            == written_row(p, id, now),
{
    lemma_column_names();
    let d0 = Description::empty(BuilderType::Create, app_table());
    let d1 = d0.with_optional("id"@, Some(SqlData::Uuid(id)));
    let d2 = d1.with_optional("workspace_id"@, Some(SqlData::Text(p.workspace_id)));
    let d3 = d2.with_optional("name"@, Some(SqlData::Text(p.name)));
    let d4 = d3.with_optional("description"@, Some(SqlData::Text(p.desc)));
    let d5 = d4.with_optional("color_style"@, Some(SqlData::Bytes(p.color_style)));
    let d6 = d5.with_optional("modified_time"@, Some(SqlData::Time(now)));
    let d7 = d6.with_optional("create_time"@, Some(SqlData::Time(now)));
    let d8 = d7.with_optional("user_id"@, Some(SqlData::Text(p.user_id)));
    let b = blank_row();
    lemma_assign_optional(b, d0, "id"@, Some(SqlData::Uuid(id)));
    lemma_assign_optional(b, d1, "workspace_id"@, Some(SqlData::Text(p.workspace_id)));
    lemma_assign_optional(b, d2, "name"@, Some(SqlData::Text(p.name)));
    lemma_assign_optional(b, d3, "description"@, Some(SqlData::Text(p.desc)));
    lemma_assign_optional(b, d4, "color_style"@, Some(SqlData::Bytes(p.color_style)));
    lemma_assign_optional(b, d5, "modified_time"@, Some(SqlData::Time(now)));
    lemma_assign_optional(b, d6, "create_time"@, Some(SqlData::Time(now)));
    lemma_assign_optional(b, d7, "user_id"@, Some(SqlData::Text(p.user_id)));
    assert(d8 == insert_app(p, id, now));
    assert(assign(b, d8.fields, d8.values) =~= written_row(p, id, now));
}

/// The update of an app writes the supplied fields and the modification
/// time, and nothing else, to the rows it reaches; it reaches the rows with
/// the app's identifier.
pub proof fn lemma_update_writes_row(c: ChangesData, now: Timestamp, row: AppRowData)
    ensures
        assign(row, update_app_row(c, now).fields, update_app_row(c, now).values) == updated_row(
            row,
            c,
            now,
        ),
        passes(row, update_app_row(c, now).filters, update_app_row(c, now).filter_values) <==> row.id
            == c.app_id,
{
    lemma_column_names();
    let d0 = Description::empty(BuilderType::Update, app_table());
    let d1 = d0.with_optional("name"@, crate::app::text_value(c.name));
    let d2 = d1.with_optional("workspace_id"@, crate::app::text_value(c.workspace_id));
    let d3 = d2.with_optional("color_style"@, crate::app::bytes_value(c.color_style));
    let d4 = d3.with_optional("description"@, crate::app::text_value(c.desc));
    let d5 = d4.with_optional("modified_time"@, Some(SqlData::Time(now)));
    let d6 = d5.with_optional("is_trash"@, crate::app::bool_value(c.is_trash));
    lemma_assign_optional(row, d0, "name"@, crate::app::text_value(c.name));
    lemma_assign_optional(row, d1, "workspace_id"@, crate::app::text_value(c.workspace_id));
    lemma_assign_optional(row, d2, "color_style"@, crate::app::bytes_value(c.color_style));
    lemma_assign_optional(row, d3, "description"@, crate::app::text_value(c.desc));
    lemma_assign_optional(row, d4, "modified_time"@, Some(SqlData::Time(now)));
    lemma_assign_optional(row, d5, "is_trash"@, crate::app::bool_value(c.is_trash));
    let d = update_app_row(c, now);
    assert(d == d6.with_filter("id"@, SqlData::Uuid(c.app_id)));
    assert(assign(row, d.fields, d.values) =~= updated_row(row, c, now));
    assert(d.filters =~= seq!["id"@]);
    assert(d.filter_values =~= seq![SqlData::Uuid(c.app_id)]);
    assert(d.filters[0] == "id"@);
}

proof fn lemma_filter_by_id(d: Description, id: u128, row: AppRowData)
    requires
        d.filters == seq!["id"@],
        d.filter_values == seq![SqlData::Uuid(id)],
    ensures
        passes(row, d.filters, d.filter_values) <==> row.id == id,
{
    assert(d.filters[0] == "id"@);
}

proof fn lemma_filter_by_workspace(d: Description, workspace_id: Seq<char>, row: AppRowData)
    requires
        d.filters == seq!["workspace_id"@],
        d.filter_values == seq![SqlData::Text(workspace_id)],
    ensures
        passes(row, d.filters, d.filter_values) <==> row.workspace_id == workspace_id,
{
    lemma_column_names();
    assert(d.filters[0] == "workspace_id"@);
}

proof fn lemma_select_app_filters(id: u128)
    ensures
        select_app(id).filters == seq!["id"@],
        select_app(id).filter_values == seq![SqlData::Uuid(id)],
        delete_app_row(id).filters == seq!["id"@],
        delete_app_row(id).filter_values == seq![SqlData::Uuid(id)],
{
    assert(select_app(id).filters =~= seq!["id"@]);
    assert(select_app(id).filter_values =~= seq![SqlData::Uuid(id)]);
    assert(delete_app_row(id).filters =~= seq!["id"@]);
    assert(delete_app_row(id).filter_values =~= seq![SqlData::Uuid(id)]);
}

proof fn lemma_select_apps_filters(workspace_id: Seq<char>)
    ensures
        select_apps_of(workspace_id).filters == seq!["workspace_id"@],
        select_apps_of(workspace_id).filter_values == seq![SqlData::Text(workspace_id)],
{
    assert(select_apps_of(workspace_id).filters =~= seq!["workspace_id"@]);
    assert(select_apps_of(workspace_id).filter_values =~= seq![SqlData::Text(workspace_id)]);
}

/// Reading an app right after it was created finds the row that was written,
/// and only that row; the read then returns the app that the create
/// returned: the requested name, description and workspace, and no
/// belongings where none are asked for.
pub proof fn lemma_read_after_create(
    table: Map<u128, AppRowData>,
    p: CreateAppData,
    id: u128,
    now: Timestamp,
)
    requires
        !table.dom().contains(id),
    ensures
        forall|row: AppRowData|
            found(run(table, insert_app(p, id, now)), select_app(id), row) <==> row == written_row(
                p,
                id,
                now,
            ),
        app_of_row(written_row(p, id, now)) == created_app(p, id),
        next_step(
            OperationData::Running { plan: PlanData::Read { read_belongings: false } },
            EventData::Row(written_row(p, id, now)),
        ) == close(ReplyData::App(created_app(p, id))),
        created_app(p, id).name == p.name,
        created_app(p, id).desc == p.desc,
        created_app(p, id).workspace_id == p.workspace_id,
        created_app(p, id).belongings.len() == 0,
{
    lemma_insert_writes_row(p, id, now);
    lemma_select_app_filters(id);
    let after = run(table, insert_app(p, id, now));
    assert(after == table.insert(id, written_row(p, id, now)));
    assert forall|row: AppRowData| found(after, select_app(id), row) <==> row == written_row(
        p,
        id,
        now,
    ) by {
        lemma_filter_by_id(select_app(id), id, row);
    }
}

/// An update with only the name supplied changes the name and the
/// modification time of the app's row and leaves its description, colour
/// style, workspace and trash flag as they were; no other row changes.
pub proof fn lemma_update_of_name_only(
    table: Map<u128, AppRowData>,
    c: ChangesData,
    now: Timestamp,
    k: u128,
)
    requires
        keyed(table),
        table.dom().contains(k),
        c.name is Some,
        c.workspace_id is None,
        c.color_style is None,
        c.desc is None,
        c.is_trash is None,
    ensures
        run(table, update_app_row(c, now)).dom() == table.dom(),
        k != c.app_id ==> run(table, update_app_row(c, now))[k] == table[k],
        k == c.app_id ==> run(table, update_app_row(c, now))[k] == (AppRowData {
            name: c.name->0,
            modified_time: now,
            ..table[k]
        }),
{
    lemma_update_reaches_one_row(table, c, now, k);
}

/// An update with no field supplied changes the modification time of the
/// app's row and nothing else.
pub proof fn lemma_update_of_nothing(
    table: Map<u128, AppRowData>,
    c: ChangesData,
    now: Timestamp,
    k: u128,
)
    requires
        keyed(table),
        table.dom().contains(k),
        c.name is None,
        c.workspace_id is None,
        c.color_style is None,
        c.desc is None,
        c.is_trash is None,
    ensures
        run(table, update_app_row(c, now)).dom() == table.dom(),
        k != c.app_id ==> run(table, update_app_row(c, now))[k] == table[k],
        k == c.app_id ==> run(table, update_app_row(c, now))[k] == (AppRowData {
            modified_time: now,
            ..table[k]
        }),
{
    lemma_update_reaches_one_row(table, c, now, k);
}

/// An update changes the row of its app as `updated_row` says and leaves
/// every other row, and the set of rows, as it was.
pub proof fn lemma_update_reaches_one_row(
    table: Map<u128, AppRowData>,
    c: ChangesData,
    now: Timestamp,
    k: u128,
)
    requires
        keyed(table),
        table.dom().contains(k),
    ensures
        run(table, update_app_row(c, now)).dom() == table.dom(),
        run(table, update_app_row(c, now))[k] == if k == c.app_id {
            updated_row(table[k], c, now)
        } else {
            table[k]
        },
        keyed(run(table, update_app_row(c, now))),
{
    let d = update_app_row(c, now);
    assert(d.kind == BuilderType::Update);
    lemma_update_writes_row(c, now, table[k]);
    assert(run(table, d).dom() =~= table.dom());
    assert forall|j: u128| run(table, d).dom().contains(j) implies (#[trigger] run(table, d)[j]).id
        == j by {
        lemma_update_writes_row(c, now, table[j]);
    }
}

/// After an app was deleted, a read of the same identifier finds no row, and
/// the read that is told so fails with `NotFound`.
pub proof fn lemma_read_after_delete(table: Map<u128, AppRowData>, id: u128, read_belongings: bool)
    requires
        keyed(table),
    ensures
        forall|row: AppRowData| !found(run(table, delete_app_row(id)), select_app(id), row),
        next_step(
            OperationData::Running { plan: PlanData::Read { read_belongings } },
            EventData::Failed(StorageError::RowNotFound),
        ) == abort(ServerError::NotFound),
{
    lemma_select_app_filters(id);
    let after = run(table, delete_app_row(id));
    assert forall|row: AppRowData| !found(after, select_app(id), row) by {
        lemma_filter_by_id(select_app(id), id, row);
        if after.dom().contains(row.id) && after[row.id] == row {
            lemma_filter_by_id(delete_app_row(id), id, table[row.id]);
        }
    }
}

/// A listing returns the apps of exactly those rows of the table that belong
/// to the workspace, each once, whatever the order in which the store hands
/// them over.
pub proof fn lemma_listing_is_exact(
    table: Map<u128, AppRowData>,
    workspace_id: Seq<char>,
    rows: Seq<AppRowData>,
)
    requires
        answers(table, select_apps_of(workspace_id), rows),
    ensures
        rows.no_duplicates(),
        forall|row: AppRowData| #[trigger]
            rows.contains(row) <==> (table.dom().contains(row.id) && table[row.id] == row
                && row.workspace_id == workspace_id),
        next_step(OperationData::Listing, EventData::Rows(rows)) == (StepData {
            operation: OperationData::Finished,
            action: ActionData::Finish(ReplyData::Apps(apps_of_rows(rows))),
        }),
{
    lemma_select_apps_filters(workspace_id);
    assert forall|row: AppRowData| #[trigger]
        rows.contains(row) <==> (table.dom().contains(row.id) && table[row.id] == row
            && row.workspace_id == workspace_id) by {
        lemma_filter_by_workspace(select_apps_of(workspace_id), workspace_id, row);
        assert(rows.contains(row) <==> found(table, select_apps_of(workspace_id), row));
    }
}

/// Creating an app in one workspace does not change what a listing of
/// another workspace finds.
pub proof fn lemma_listing_ignores_other_workspaces(
    table: Map<u128, AppRowData>,
    p: CreateAppData,
    id: u128,
    now: Timestamp,
    workspace_id: Seq<char>,
    row: AppRowData,
)
    requires
        p.workspace_id != workspace_id,
    ensures
        found(run(table, insert_app(p, id, now)), select_apps_of(workspace_id), row) <==> found(
            table,
            select_apps_of(workspace_id),
            row,
        ),
{
    lemma_insert_writes_row(p, id, now);
    lemma_select_apps_filters(workspace_id);
    lemma_filter_by_workspace(select_apps_of(workspace_id), workspace_id, row);
}

/// Deleting an app removes it from the listing of its workspace and leaves
/// the rest of every listing as it was.
pub proof fn lemma_listing_after_delete(
    table: Map<u128, AppRowData>,
    id: u128,
    workspace_id: Seq<char>,
    row: AppRowData,
)
    requires
        keyed(table),
    ensures
        found(run(table, delete_app_row(id)), select_apps_of(workspace_id), row) <==> (row.id != id
            && found(table, select_apps_of(workspace_id), row)),
{
    lemma_select_app_filters(id);
    lemma_select_apps_filters(workspace_id);
    if table.dom().contains(row.id) {
        lemma_filter_by_id(delete_app_row(id), id, table[row.id]);
    }
}

} // verus!
