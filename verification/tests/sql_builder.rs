use app_service::clock::Timestamp;
use app_service::sql::{BuildError, SqlBuilder, SqlValue};

fn text(s: &str) -> SqlValue {
    SqlValue::Text(s.to_string())
}

#[test]
fn insert_numbers_placeholders_in_field_order() {
    let statement = SqlBuilder::create("app_table")
        .add_arg("id", SqlValue::Uuid(7))
        .add_arg("name", text("Notes"))
        .build()
        .unwrap();
    assert_eq!(statement.sql, "INSERT INTO app_table (id, name) VALUES ($1, $2);");
    assert_eq!(statement.args, vec![SqlValue::Uuid(7), text("Notes")]);
}

#[test]
fn insert_with_one_field() {
    let statement = SqlBuilder::create("t").add_arg("a", SqlValue::Bool(true)).build().unwrap();
    assert_eq!(statement.sql, "INSERT INTO t (a) VALUES ($1);");
    assert_eq!(statement.args, vec![SqlValue::Bool(true)]);
}

#[test]
fn insert_without_fields_is_an_error() {
    assert_eq!(SqlBuilder::create("app_table").build(), Err(BuildError::NoFields));
}

#[test]
fn update_without_fields_is_an_error() {
    let builder = SqlBuilder::update("app_table").and_where_eq("id", SqlValue::Uuid(1));
    assert_eq!(builder.build(), Err(BuildError::NoFields));
}

#[test]
fn update_with_only_absent_fields_is_an_error() {
    let builder = SqlBuilder::update("app_table")
        .add_some_arg("name", None)
        .add_arg_if(false, "is_trash", SqlValue::Bool(true));
    assert_eq!(builder.build(), Err(BuildError::NoFields));
}

#[test]
fn every_kind_needs_a_table_name() {
    assert_eq!(
        SqlBuilder::create("").add_arg("a", SqlValue::Bool(true)).build(),
        Err(BuildError::MissingTable)
    );
    assert_eq!(SqlBuilder::select("").add_field("*").build(), Err(BuildError::MissingTable));
    assert_eq!(
        SqlBuilder::update("").add_arg("a", SqlValue::Bool(true)).build(),
        Err(BuildError::MissingTable)
    );
    assert_eq!(SqlBuilder::delete("").build(), Err(BuildError::MissingTable));
}

#[test]
fn missing_table_is_reported_before_missing_fields() {
    assert_eq!(SqlBuilder::create("").build(), Err(BuildError::MissingTable));
}

#[test]
fn select_with_a_filter() {
    let statement = SqlBuilder::select("app_table")
        .add_field("*")
        .and_where_eq("id", SqlValue::Uuid(9))
        .build()
        .unwrap();
    assert_eq!(statement.sql, "SELECT * FROM app_table WHERE id = $1;");
    assert_eq!(statement.args, vec![SqlValue::Uuid(9)]);
}

#[test]
fn select_without_fields_reads_every_column() {
    let statement = SqlBuilder::select("app_table").build().unwrap();
    assert_eq!(statement.sql, "SELECT * FROM app_table;");
    assert!(statement.args.is_empty());
}

#[test]
fn select_with_columns_and_two_filters() {
    let statement = SqlBuilder::select("app_table")
        .add_field("id")
        .add_field("name")
        .and_where_eq("workspace_id", text("w1"))
        .and_where_eq("is_trash", SqlValue::Bool(false))
        .build()
        .unwrap();
    assert_eq!(
        statement.sql,
        "SELECT id, name FROM app_table WHERE workspace_id = $1 AND is_trash = $2;"
    );
    assert_eq!(statement.args, vec![text("w1"), SqlValue::Bool(false)]);
}

#[test]
fn update_numbers_filters_after_fields() {
    let now = Timestamp { secs: 10, nanos: 5 };
    let statement = SqlBuilder::update("app_table")
        .add_arg("name", text("n"))
        .add_arg("modified_time", SqlValue::Time(now))
        .and_where_eq("id", SqlValue::Uuid(3))
        .build()
        .unwrap();
    assert_eq!(statement.sql, "UPDATE app_table SET name = $1, modified_time = $2 WHERE id = $3;");
    assert_eq!(statement.args, vec![text("n"), SqlValue::Time(now), SqlValue::Uuid(3)]);
}

#[test]
fn arguments_follow_the_placeholders_whatever_the_call_order() {
    let statement = SqlBuilder::update("t")
        .and_where_eq("id", SqlValue::Uuid(3))
        .add_arg("name", text("n"))
        .build()
        .unwrap();
    assert_eq!(statement.sql, "UPDATE t SET name = $1 WHERE id = $2;");
    assert_eq!(statement.args, vec![text("n"), SqlValue::Uuid(3)]);
}

#[test]
fn update_without_filter() {
    let statement = SqlBuilder::update("t").add_arg("a", SqlValue::Bool(true)).build().unwrap();
    assert_eq!(statement.sql, "UPDATE t SET a = $1;");
}

#[test]
fn delete_with_and_without_filter() {
    let one = SqlBuilder::delete("app_table").and_where_eq("id", SqlValue::Uuid(4)).build().unwrap();
    assert_eq!(one.sql, "DELETE FROM app_table WHERE id = $1;");
    assert_eq!(one.args, vec![SqlValue::Uuid(4)]);
    let all = SqlBuilder::delete("app_table").build().unwrap();
    assert_eq!(all.sql, "DELETE FROM app_table;");
    assert!(all.args.is_empty());
}

#[test]
fn add_some_arg_contributes_only_present_values() {
    let statement = SqlBuilder::update("t")
        .add_some_arg("a", None)
        .add_some_arg("b", Some(text("x")))
        .add_some_arg("c", None)
        .build()
        .unwrap();
    assert_eq!(statement.sql, "UPDATE t SET b = $1;");
    assert_eq!(statement.args, vec![text("x")]);
}

#[test]
fn add_arg_if_follows_its_guard() {
    let with = SqlBuilder::update("t")
        .add_arg("a", SqlValue::Uuid(1))
        .add_arg_if(true, "is_trash", SqlValue::Bool(false))
        .build()
        .unwrap();
    assert_eq!(with.sql, "UPDATE t SET a = $1, is_trash = $2;");
    assert_eq!(with.args, vec![SqlValue::Uuid(1), SqlValue::Bool(false)]);
    let without = SqlBuilder::update("t")
        .add_arg("a", SqlValue::Uuid(1))
        .add_arg_if(false, "is_trash", SqlValue::Bool(false))
        .build()
        .unwrap();
    assert_eq!(without.sql, "UPDATE t SET a = $1;");
    assert_eq!(without.args, vec![SqlValue::Uuid(1)]);
}

#[test]
fn contributions_without_a_place_are_not_recorded() {
    let insert = SqlBuilder::create("t")
        .add_field("x")
        .add_arg("a", SqlValue::Uuid(1))
        .and_where_eq("id", SqlValue::Uuid(2))
        .build()
        .unwrap();
    assert_eq!(insert.sql, "INSERT INTO t (a) VALUES ($1);");
    assert_eq!(insert.args, vec![SqlValue::Uuid(1)]);
    let select = SqlBuilder::select("t").add_arg("a", SqlValue::Uuid(1)).build().unwrap();
    assert_eq!(select.sql, "SELECT * FROM t;");
    assert!(select.args.is_empty());
    let delete = SqlBuilder::delete("t")
        .add_field("x")
        .add_arg("a", SqlValue::Uuid(1))
        .and_where_eq("id", SqlValue::Uuid(2))
        .build()
        .unwrap();
    assert_eq!(delete.sql, "DELETE FROM t WHERE id = $1;");
    assert_eq!(delete.args, vec![SqlValue::Uuid(2)]);
    let update = SqlBuilder::update("t").add_field("x").add_arg("a", SqlValue::Uuid(1)).build();
    assert_eq!(update.unwrap().sql, "UPDATE t SET a = $1;");
}

#[test]
fn placeholders_with_two_digits() {
    let mut builder = SqlBuilder::create("t");
    for i in 0..12u128 {
        builder = builder.add_arg("c", SqlValue::Uuid(i));
    }
    let statement = builder.build().unwrap();
    assert_eq!(
        statement.sql,
        "INSERT INTO t (c, c, c, c, c, c, c, c, c, c, c, c) \
         VALUES ($1, $2, $3, $4, $5, $6, $7, $8, $9, $10, $11, $12);"
    );
    assert_eq!(statement.args.len(), 12);
}

#[test]
fn placeholders_with_three_digits() {
    let mut builder = SqlBuilder::delete("t");
    for i in 0..105u128 {
        builder = builder.and_where_eq("c", SqlValue::Uuid(i));
    }
    let statement = builder.build().unwrap();
    assert!(statement.sql.ends_with("c = $99 AND c = $100 AND c = $101 AND c = $102 AND c = $103 AND c = $104 AND c = $105;"));
    assert_eq!(statement.args[104], SqlValue::Uuid(104));
}

#[test]
fn as_many_placeholders_as_arguments() {
    let now = Timestamp { secs: 1, nanos: 2 };
    let statements = vec![
        SqlBuilder::create("t").add_arg("a", text("$1")).add_arg("b", SqlValue::Bytes(vec![36])).build().unwrap(),
        SqlBuilder::select("t").add_field("a").and_where_eq("b", text("x")).build().unwrap(),
        SqlBuilder::update("t")
            .add_arg("a", SqlValue::Time(now))
            .add_some_arg("b", Some(SqlValue::Bool(true)))
            .and_where_eq("c", SqlValue::Uuid(1))
            .and_where_eq("d", SqlValue::Uuid(2))
            .build()
            .unwrap(),
        SqlBuilder::delete("t").and_where_eq("c", SqlValue::Uuid(1)).build().unwrap(),
        SqlBuilder::delete("t").build().unwrap(),
    ];
    for statement in statements {
        let dollars = statement.sql.chars().filter(|c| *c == '$').count();
        assert_eq!(dollars, statement.args.len());
    }
}

#[test]
fn values_never_reach_the_text() {
    let evil = "'; DROP TABLE app_table; --";
    let a = SqlBuilder::update("app_table")
        .add_arg("name", text(evil))
        .and_where_eq("id", text(evil))
        .build()
        .unwrap();
    let b = SqlBuilder::update("app_table")
        .add_arg("name", text("plain"))
        .and_where_eq("id", SqlValue::Uuid(1))
        .build()
        .unwrap();
    assert_eq!(a.sql, b.sql);
    assert!(!a.sql.contains("DROP"));
    assert_eq!(a.args, vec![text(evil), text(evil)]);
}
