//! The statement builder: from a table name, contributed fields and equality
//! filters to one parameterised statement and its bound arguments.
//!
//! Values never become part of the statement text. The text is a function of
//! the statement kind and of the table, field and filter names alone; every
//! value is bound to a numbered placeholder, in the order of the argument
//! list.

use vstd::prelude::*;
use vstd::string::*;
use crate::clock::Timestamp;
use crate::text::{
    append_assignments, append_joined, append_placeholders, assignments, count, join,
    lemma_count_concat, lemma_count_none, lemma_join_count, lemma_placeholder_dollar, placeholder,
    placeholders, texts,
};

verus! {

/// A value bound to a placeholder.
#[derive(Clone, Debug, PartialEq, Eq)]
pub enum SqlValue {
    Uuid(u128),
    Text(String),
    Bytes(Vec<u8>),
    Time(Timestamp),
    Bool(bool),
}

/// What a bound value holds.
pub ghost enum SqlData {
    Uuid(u128),
    Text(Seq<char>),
    Bytes(Seq<u8>),
    Time(Timestamp),
    Bool(bool),
}

impl View for SqlValue {
    type V = SqlData;

    open spec fn view(&self) -> SqlData {
        match self {
            SqlValue::Uuid(id) => SqlData::Uuid(*id),
            SqlValue::Text(s) => SqlData::Text(s@),
            SqlValue::Bytes(b) => SqlData::Bytes(b@),
            SqlValue::Time(t) => SqlData::Time(*t),
            SqlValue::Bool(b) => SqlData::Bool(*b),
        }
    }
}

/// What an optional bound value holds.
pub open spec fn opt_data(value: Option<SqlValue>) -> Option<SqlData> {
    match value {
        Some(v) => Some(v@),
        None => None,
    }
}

/// What a sequence of bound values holds.
pub open spec fn data(values: Seq<SqlValue>) -> Seq<SqlData> {
    Seq::new(values.len(), |i: int| values[i]@)
}

/// The four kinds of statement.
#[derive(Clone, Copy, Debug, PartialEq, Eq, Hash, Structural)]
pub enum BuilderType {
    /// `INSERT`: writes one new row.
    Create,
    /// `SELECT`: reads the rows that pass the filters.
    Select,
    /// `UPDATE`: overwrites the contributed fields of the rows that pass the
    /// filters.
    Update,
    /// `DELETE`: removes the rows that pass the filters.
    Delete,
}

/// Why no statement could be built.
#[derive(Clone, Copy, Debug, PartialEq, Eq, Hash, Structural)]
pub enum BuildError {
    /// The table name is empty.
    MissingTable,
    /// An insert or update has no field to write.
    NoFields,
}

/// A statement before it is put into text: its kind, the names it mentions,
/// and the values to bind.
#[verifier::ext_equal]
pub ghost struct Description {
    pub kind: BuilderType,
    pub table: Seq<char>,
    /// The columns to write (insert, update) or to read (select).
    pub fields: Seq<Seq<char>>,
    /// The values to write, one for each field of an insert or update.
    pub values: Seq<SqlData>,
    /// The columns that the rows are filtered by.
    pub filters: Seq<Seq<char>>,
    /// The values that the filter columns must equal, one for each filter.
    pub filter_values: Seq<SqlData>,
}

impl Description {
    /// Every part holds just what its kind of statement has a place for: an
    /// insert has no filters, a select binds no field values, a delete has no
    /// fields, and values and names come in pairs.
    pub open spec fn well_formed(self) -> bool {
        &&& self.filters.len() == self.filter_values.len()
        &&& match self.kind {
            BuilderType::Create => self.fields.len() == self.values.len() && self.filters.len()
                == 0,
            BuilderType::Select => self.values.len() == 0,
            BuilderType::Update => self.fields.len() == self.values.len(),
            BuilderType::Delete => self.fields.len() == 0 && self.values.len() == 0,
        }
    }

    /// The number of placeholders that the statement text holds.
    pub open spec fn placeholder_count(self) -> nat {
        match self.kind {
            BuilderType::Create => self.fields.len(),
            BuilderType::Select => self.filters.len(),
            BuilderType::Update => self.fields.len() + self.filters.len(),
            BuilderType::Delete => self.filters.len(),
        }
    }

    /// The arguments of the statement, in the order of its placeholders.
    pub open spec fn args(self) -> Seq<SqlData> {
        self.values + self.filter_values
    }

    /// A statement of the given kind on `table`, with nothing contributed.
    pub open spec fn empty(kind: BuilderType, table: Seq<char>) -> Description {
        Description {
            kind,
            table,
            fields: Seq::empty(),
            values: Seq::empty(),
            filters: Seq::empty(),
            filter_values: Seq::empty(),
        }
    }

    /// Whether the statement writes fields.
    pub open spec fn writes(self) -> bool {
        self.kind is Create || self.kind is Update
    }

    /// One more field to write, with its value. Only an insert or an update
    /// has a place for it; any other statement stays as it is.
    pub open spec fn with_value(self, field: Seq<char>, value: SqlData) -> Description {
        if self.writes() {
            Description {
                kind: self.kind,
                table: self.table,
                fields: self.fields.push(field),
                values: self.values.push(value),
                filters: self.filters,
                filter_values: self.filter_values,
            }
        } else {
            self
        }
    }

    /// One more field to write if a value is present; nothing changes if it
    /// is absent.
    pub open spec fn with_optional(self, field: Seq<char>, value: Option<SqlData>) -> Description {
        match value {
            Some(v) => self.with_value(field, v),
            None => self,
        }
    }

    /// One more column to read. Only a select has a place for it; any other
    /// statement stays as it is.
    pub open spec fn with_field(self, field: Seq<char>) -> Description {
        if self.kind is Select {
            Description {
                kind: self.kind,
                table: self.table,
                fields: self.fields.push(field),
                values: self.values,
                filters: self.filters,
                filter_values: self.filter_values,
            }
        } else {
            self
        }
    }

    /// One more filter: the column `field` must equal `value`. An insert has
    /// no place for it and stays as it is.
    pub open spec fn with_filter(self, field: Seq<char>, value: SqlData) -> Description {
        if self.kind is Create {
            self
        } else {
            Description {
                kind: self.kind,
                table: self.table,
                fields: self.fields,
                values: self.values,
                filters: self.filters.push(field),
                filter_values: self.filter_values.push(value),
            }
        }
    }
}

/// The `WHERE` clause for the filter columns, or nothing where there is no
/// filter. The placeholders are numbered from `first` on.
pub open spec fn where_clause(filters: Seq<Seq<char>>, first: nat) -> Seq<char> {
    if filters.len() == 0 {
        Seq::empty()
    } else {
        " WHERE "@ + join(assignments(filters, first), " AND "@)
    }
}

/// The text of an insert of the given columns.
pub open spec fn insert_text(table: Seq<char>, fields: Seq<Seq<char>>) -> Seq<char> {
    "INSERT INTO "@ + table + " ("@ + join(fields, ", "@) + ") VALUES ("@ + join(
        placeholders(1, fields.len()),
        ", "@,
    ) + ");"@
}

/// The columns that a select reads: the contributed ones, or all of them
/// where none was contributed.
pub open spec fn projection(fields: Seq<Seq<char>>) -> Seq<char> {
    if fields.len() == 0 {
        "*"@
    } else {
        join(fields, ", "@)
    }
}

/// The text of a select.
pub open spec fn select_text(
    table: Seq<char>,
    fields: Seq<Seq<char>>,
    filters: Seq<Seq<char>>,
) -> Seq<char> {
    "SELECT "@ + projection(fields) + " FROM "@ + table + where_clause(filters, 1) + ";"@
}

/// The text of an update of the given columns.
pub open spec fn update_text(
    table: Seq<char>,
    fields: Seq<Seq<char>>,
    filters: Seq<Seq<char>>,
) -> Seq<char> {
    "UPDATE "@ + table + " SET "@ + join(assignments(fields, 1), ", "@) + where_clause(
        filters,
        fields.len() + 1,
    ) + ";"@
}

/// The text of a delete.
pub open spec fn delete_text(table: Seq<char>, filters: Seq<Seq<char>>) -> Seq<char> {
    "DELETE FROM "@ + table + where_clause(filters, 1) + ";"@
}

/// The text of a statement. It depends on the kind and on the names only.
pub open spec fn statement_text(
    kind: BuilderType,
    table: Seq<char>,
    fields: Seq<Seq<char>>,
    filters: Seq<Seq<char>>,
) -> Seq<char> {
    match kind {
        BuilderType::Create => insert_text(table, fields),
        BuilderType::Select => select_text(table, fields, filters),
        BuilderType::Update => update_text(table, fields, filters),
        BuilderType::Delete => delete_text(table, filters),
    }
}

/// A statement ready to be run: its text and the arguments to bind, the
/// `k`-th argument to the placeholder `$k`.
#[derive(Clone, Debug, PartialEq, Eq)]
pub struct Statement {
    pub sql: String,
    pub args: Vec<SqlValue>,
}

/// What a statement holds.
#[verifier::ext_equal]
pub ghost struct StatementData {
    pub sql: Seq<char>,
    pub args: Seq<SqlData>,
}

impl View for Statement {
    type V = StatementData;

    open spec fn view(&self) -> StatementData {
        StatementData { sql: self.sql@, args: data(self.args@) }
    }
}

/// The statement that a description stands for: its text, and its values in
/// the order of the placeholders.
pub open spec fn statement_of(d: Description) -> StatementData {
    StatementData { sql: statement_text(d.kind, d.table, d.fields, d.filters), args: d.args() }
}

/// What building a described statement gives.
pub open spec fn build_outcome(d: Description) -> Result<StatementData, BuildError> {
    if d.table.len() == 0 {
        Err(BuildError::MissingTable)
    } else if d.writes() && d.fields.len() == 0 {
        Err(BuildError::NoFields)
    } else {
        Ok(statement_of(d))
    }
}

/// Appends the `WHERE` clause for the filter columns.
fn append_where(out: &mut String, filters: &Vec<String>, first: u128)
    requires
        first + filters.len() <= u128::MAX,
    ensures
        final(out)@ == old(out)@ + where_clause(texts(filters@), first as nat),
{
    if filters.len() == 0 {
        assert(out@ =~= old(out)@ + where_clause(texts(filters@), first as nat));
    } else {
        out.append(" WHERE ");
        append_assignments(out, filters, first, " AND ");
        assert(out@ =~= old(out)@ + where_clause(texts(filters@), first as nat));
    }
}

/// Puts the text of a statement together.
fn render(kind: BuilderType, table: &str, fields: &Vec<String>, filters: &Vec<String>) -> (sql:
    String)
    ensures
        sql@ == statement_text(kind, table@, texts(fields@), texts(filters@)),
{
    let mut out = String::new();
    match kind {
        BuilderType::Create => {
            out.append("INSERT INTO ");
            assert(out@ =~= "INSERT INTO "@);
            out.append(table);
            out.append(" (");
            append_joined(&mut out, fields, ", ");
            out.append(") VALUES (");
            append_placeholders(&mut out, 1, fields.len(), ", ");
            out.append(");");
        },
        BuilderType::Select => {
            out.append("SELECT ");
            assert(out@ =~= "SELECT "@);
            if fields.len() == 0 {
                out.append("*");
            } else {
                append_joined(&mut out, fields, ", ");
            }
            out.append(" FROM ");
            out.append(table);
            append_where(&mut out, filters, 1);
            out.append(";");
        },
        BuilderType::Update => {
            out.append("UPDATE ");
            assert(out@ =~= "UPDATE "@);
            out.append(table);
            out.append(" SET ");
            append_assignments(&mut out, fields, 1, ", ");
            append_where(&mut out, filters, fields.len() as u128 + 1);
            out.append(";");
        },
        BuilderType::Delete => {
            out.append("DELETE FROM ");
            assert(out@ =~= "DELETE FROM "@);
            out.append(table);
            append_where(&mut out, filters, 1);
            out.append(";");
        },
    }
    out
}

/// Collects the parts of one statement. Contributions are kept in the order
/// in which they are made.
#[derive(Debug)]
pub struct SqlBuilder {
    ty: BuilderType,
    table: String,
    fields: Vec<String>,
    values: Vec<SqlValue>,
    filters: Vec<String>,
    filter_values: Vec<SqlValue>,
}

impl View for SqlBuilder {
    type V = Description;

    closed spec fn view(&self) -> Description {
        Description {
            kind: self.ty,
            table: self.table@,
            fields: texts(self.fields@),
            values: data(self.values@),
            filters: texts(self.filters@),
            filter_values: data(self.filter_values@),
        }
    }
}

impl SqlBuilder {
    #[verifier::type_invariant]
    spec fn consistent(self) -> bool {
        self@.well_formed()
    }

    fn new(ty: BuilderType, table: &str) -> (b: SqlBuilder)
        ensures
            b@ == Description::empty(ty, table@),
    {
        let b = SqlBuilder {
            ty,
            table: table.to_owned(),
            fields: Vec::new(),
            values: Vec::new(),
            filters: Vec::new(),
            filter_values: Vec::new(),
        };
        assert(b@ =~= Description::empty(ty, table@));
        b
    }

    /// Starts an insert into `table`.
    pub fn create(table: &str) -> (b: SqlBuilder)
        ensures
            b@ == Description::empty(BuilderType::Create, table@),
    {
        SqlBuilder::new(BuilderType::Create, table)
    }

    /// Starts a select from `table`.
    pub fn select(table: &str) -> (b: SqlBuilder)
        ensures
            b@ == Description::empty(BuilderType::Select, table@),
    {
        SqlBuilder::new(BuilderType::Select, table)
    }

    /// Starts an update of `table`.
    pub fn update(table: &str) -> (b: SqlBuilder)
        ensures
            b@ == Description::empty(BuilderType::Update, table@),
    {
        SqlBuilder::new(BuilderType::Update, table)
    }

    /// Starts a delete from `table`.
    pub fn delete(table: &str) -> (b: SqlBuilder)
        ensures
            b@ == Description::empty(BuilderType::Delete, table@),
    {
        SqlBuilder::new(BuilderType::Delete, table)
    }

    /// Contributes a field to write and binds its value. A select or delete
    /// writes nothing and is left as it is.
    pub fn add_arg(self, field: &str, arg: SqlValue) -> (b: SqlBuilder)
        ensures
            b@ == self@.with_value(field@, arg@),
            b@.well_formed(),
    {
        proof {
            use_type_invariant(&self);
        }
        let SqlBuilder { ty, table, mut fields, mut values, filters, filter_values } = self;
        match ty {
            BuilderType::Create | BuilderType::Update => {
                fields.push(field.to_owned());
                values.push(arg);
            },
            _ => {},
        }
        let b = SqlBuilder { ty, table, fields, values, filters, filter_values };
        assert(b@ =~= self@.with_value(field@, arg@)) by {
            assert(b@.fields =~= self@.with_value(field@, arg@).fields);
            assert(b@.values =~= self@.with_value(field@, arg@).values);
        }
        b
    }

    /// Contributes the field if a value is present; absence leaves the
    /// statement as it is.
    pub fn add_some_arg(self, field: &str, arg: Option<SqlValue>) -> (b: SqlBuilder)
        ensures
            b@ == self@.with_optional(field@, opt_data(arg)),
            b@.well_formed(),
    {
        match arg {
            Some(value) => self.add_arg(field, value),
            None => {
                proof {
                    use_type_invariant(&self);
                }
                self
            },
        }
    }

    /// Contributes the field if `add` holds; otherwise leaves the statement
    /// as it is.
    pub fn add_arg_if(self, add: bool, field: &str, arg: SqlValue) -> (b: SqlBuilder)
        ensures
            b@ == if add {
                self@.with_value(field@, arg@)
            } else {
                self@
            },
            b@.well_formed(),
    {
        if add {
            self.add_arg(field, arg)
        } else {
            proof {
                use_type_invariant(&self);
            }
            self
        }
    }

    /// Contributes a column to read. A statement other than a select is left
    /// as it is.
    pub fn add_field(self, field: &str) -> (b: SqlBuilder)
        ensures
            b@ == self@.with_field(field@),
            b@.well_formed(),
    {
        proof {
            use_type_invariant(&self);
        }
        let SqlBuilder { ty, table, mut fields, values, filters, filter_values } = self;
        match ty {
            BuilderType::Select => {
                fields.push(field.to_owned());
            },
            _ => {},
        }
        let b = SqlBuilder { ty, table, fields, values, filters, filter_values };
        assert(b@ =~= self@.with_field(field@)) by {
            assert(b@.fields =~= self@.with_field(field@).fields);
        }
        b
    }

    /// Adds the filter that column `field` equals `arg`, and binds `arg`. An
    /// insert has no filters and is left as it is.
    pub fn and_where_eq(self, field: &str, arg: SqlValue) -> (b: SqlBuilder)
        ensures
            b@ == self@.with_filter(field@, arg@),
            b@.well_formed(),
    {
        proof {
            use_type_invariant(&self);
        }
        let SqlBuilder { ty, table, fields, values, mut filters, mut filter_values } = self;
        match ty {
            BuilderType::Create => {},
            _ => {
                filters.push(field.to_owned());
                filter_values.push(arg);
            },
        }
        let b = SqlBuilder { ty, table, fields, values, filters, filter_values };
        assert(b@ =~= self@.with_filter(field@, arg@)) by {
            assert(b@.filters =~= self@.with_filter(field@, arg@).filters);
            assert(b@.filter_values =~= self@.with_filter(field@, arg@).filter_values);
        }
        b
    }

    /// Builds the statement. An empty table name is an error, and so is an
    /// insert or update without a field; everything else gives the statement
    /// text and the arguments in the order of its placeholders.
    pub fn build(self) -> (r: Result<Statement, BuildError>)
        ensures
            self@.well_formed(),
            match build_outcome(self@) {
                Ok(s) => r matches Ok(statement) && statement@ == s,
                Err(e) => r matches Err(x) && x == e,
            },
    {
        proof {
            use_type_invariant(&self);
        }
        let SqlBuilder { ty, table, fields, mut values, filters, mut filter_values } = self;
        if table.as_str().is_empty() {
            return Err(BuildError::MissingTable);
        }
        let writes = match ty {
            BuilderType::Create | BuilderType::Update => true,
            _ => false,
        };
        if writes && fields.len() == 0 {
            return Err(BuildError::NoFields);
        }
        let sql = render(ty, table.as_str(), &fields, &filters);
        let ghost first = values@;
        let ghost second = filter_values@;
        values.append(&mut filter_values);
        let statement = Statement { sql, args: values };
        assert(statement@.args =~= data(first) + data(second));
        Ok(statement)
    }
}

/// A name without a dollar sign: it cannot be taken for a placeholder.
pub open spec fn plain(name: Seq<char>) -> bool {
    count(name, '$') == 0
}

/// Names without a dollar sign.
pub open spec fn all_plain(names: Seq<Seq<char>>) -> bool {
    forall|i: int| 0 <= i < names.len() ==> plain(#[trigger] names[i])
}

proof fn lemma_fixed_text_is_plain()
    ensures
        plain("INSERT INTO "@),
        plain(" ("@),
        plain(") VALUES ("@),
        plain(", "@),
        plain(");"@),
        plain("SELECT "@),
        plain("*"@),
        plain(" FROM "@),
        plain(";"@),
        plain(" WHERE "@),
        plain(" AND "@),
        plain(" = "@),
        plain("UPDATE "@),
        plain(" SET "@),
        plain("DELETE FROM "@),
{
    reveal_strlit("INSERT INTO ");
    reveal_strlit(" (");
    reveal_strlit(") VALUES (");
    reveal_strlit(", ");
    reveal_strlit(");");
    reveal_strlit("SELECT ");
    reveal_strlit("*");
    reveal_strlit(" FROM ");
    reveal_strlit(";");
    reveal_strlit(" WHERE ");
    reveal_strlit(" AND ");
    reveal_strlit(" = ");
    reveal_strlit("UPDATE ");
    reveal_strlit(" SET ");
    reveal_strlit("DELETE FROM ");
    lemma_count_none("INSERT INTO "@, '$');
    lemma_count_none(" ("@, '$');
    lemma_count_none(") VALUES ("@, '$');
    lemma_count_none(", "@, '$');
    lemma_count_none(");"@, '$');
    lemma_count_none("SELECT "@, '$');
    lemma_count_none("*"@, '$');
    lemma_count_none(" FROM "@, '$');
    lemma_count_none(";"@, '$');
    lemma_count_none(" WHERE "@, '$');
    lemma_count_none(" AND "@, '$');
    lemma_count_none(" = "@, '$');
    lemma_count_none("UPDATE "@, '$');
    lemma_count_none(" SET "@, '$');
    lemma_count_none("DELETE FROM "@, '$');
}

proof fn lemma_assignments_dollars(names: Seq<Seq<char>>, first: nat, sep: Seq<char>)
    requires
        all_plain(names),
        plain(sep),
    ensures
        count(join(assignments(names, first), sep), '$') == names.len(),
{
    lemma_fixed_text_is_plain();
    let parts = assignments(names, first);
    assert forall|i: int| 0 <= i < parts.len() implies count(#[trigger] parts[i], '$') == 1 by {
        assert(plain(names[i]));
        lemma_placeholder_dollar((first + i) as nat);
        lemma_count_concat(names[i], " = "@, '$');
        lemma_count_concat(names[i] + " = "@, placeholder((first + i) as nat), '$');
    }
    lemma_join_count(parts, sep, '$', 1);
}

proof fn lemma_where_dollars(filters: Seq<Seq<char>>, first: nat)
    requires
        all_plain(filters),
    ensures
        count(where_clause(filters, first), '$') == filters.len(),
{
    lemma_fixed_text_is_plain();
    if filters.len() > 0 {
        lemma_assignments_dollars(filters, first, " AND "@);
        lemma_count_concat(" WHERE "@, join(assignments(filters, first), " AND "@), '$');
    }
}

/// The text of a statement holds one dollar sign for each bound argument,
/// provided that no table, field or filter name holds a dollar sign: the
/// placeholders are all that stands for values.
pub proof fn lemma_placeholders_match_arguments(d: Description)
    requires
        d.well_formed(),
        plain(d.table),
        all_plain(d.fields),
        all_plain(d.filters),
    ensures
        count(statement_of(d).sql, '$') == statement_of(d).args.len(),
        statement_of(d).args.len() == d.placeholder_count(),
{
    lemma_fixed_text_is_plain();
    match d.kind {
        BuilderType::Create => {
            let names = join(d.fields, ", "@);
            let marks = join(placeholders(1, d.fields.len()), ", "@);
            lemma_join_count(d.fields, ", "@, '$', 0);
            assert forall|i: int| 0 <= i < d.fields.len() implies count(
                #[trigger] placeholders(1, d.fields.len())[i],
                '$',
            ) == 1 by {
                lemma_placeholder_dollar((1 + i) as nat);
            }
            lemma_join_count(placeholders(1, d.fields.len()), ", "@, '$', 1);
            let a = "INSERT INTO "@ + d.table;
            let b = a + " ("@;
            let c = b + names;
            let e = c + ") VALUES ("@;
            let f = e + marks;
            lemma_count_concat("INSERT INTO "@, d.table, '$');
            lemma_count_concat(a, " ("@, '$');
            lemma_count_concat(b, names, '$');
            lemma_count_concat(c, ") VALUES ("@, '$');
            lemma_count_concat(e, marks, '$');
            lemma_count_concat(f, ");"@, '$');
        },
        BuilderType::Select => {
            if d.fields.len() > 0 {
                lemma_join_count(d.fields, ", "@, '$', 0);
            }
            lemma_where_dollars(d.filters, 1);
            let a = "SELECT "@ + projection(d.fields);
            let b = a + " FROM "@;
            let c = b + d.table;
            let e = c + where_clause(d.filters, 1);
            lemma_count_concat("SELECT "@, projection(d.fields), '$');
            lemma_count_concat(a, " FROM "@, '$');
            lemma_count_concat(b, d.table, '$');
            lemma_count_concat(c, where_clause(d.filters, 1), '$');
            lemma_count_concat(e, ";"@, '$');
        },
        BuilderType::Update => {
            let sets = join(assignments(d.fields, 1), ", "@);
            let filter = where_clause(d.filters, d.fields.len() + 1);
            lemma_assignments_dollars(d.fields, 1, ", "@);
            lemma_where_dollars(d.filters, d.fields.len() + 1);
            let a = "UPDATE "@ + d.table;
            let b = a + " SET "@;
            let c = b + sets;
            let e = c + filter;
            lemma_count_concat("UPDATE "@, d.table, '$');
            lemma_count_concat(a, " SET "@, '$');
            lemma_count_concat(b, sets, '$');
            lemma_count_concat(c, filter, '$');
            lemma_count_concat(e, ";"@, '$');
        },
        BuilderType::Delete => {
            lemma_where_dollars(d.filters, 1);
            let a = "DELETE FROM "@ + d.table;
            let b = a + where_clause(d.filters, 1);
            lemma_count_concat("DELETE FROM "@, d.table, '$');
            lemma_count_concat(a, where_clause(d.filters, 1), '$');
            lemma_count_concat(b, ";"@, '$');
        },
    }
}

/// Whether the table, the fields and the filters all have plain names.
pub open spec fn plain_names(d: Description) -> bool {
    plain(d.table) && all_plain(d.fields) && all_plain(d.filters)
}

/// Contributing under a plain name keeps the names plain.
pub proof fn lemma_plain_names_stay(d: Description, field: Seq<char>)
    requires
        plain_names(d),
        plain(field),
    ensures
        forall|value: SqlData| plain_names(#[trigger] d.with_value(field, value)),
        forall|value: Option<SqlData>| plain_names(#[trigger] d.with_optional(field, value)),
        forall|value: SqlData| plain_names(#[trigger] d.with_filter(field, value)),
        plain_names(d.with_field(field)),
{
}

/// The text of a statement does not depend on the values that are bound: two
/// statements of one kind with the same names have the same text.
pub proof fn lemma_text_is_free_of_values(a: Description, b: Description)
    requires
        a.kind == b.kind,
        a.table == b.table,
        a.fields == b.fields,
        a.filters == b.filters,
    ensures
        statement_of(a).sql == statement_of(b).sql,
{
}

/// An insert or update with no field to write cannot be built, and neither
/// can a statement without a table name: both fail before any statement
/// exists that could be sent to the store.
pub proof fn lemma_nothing_to_write(d: Description)
    ensures
        d.table.len() == 0 ==> build_outcome(d) == Err::<StatementData, BuildError>(
            BuildError::MissingTable,
        ),
        d.table.len() > 0 && d.writes() && d.fields.len() == 0 ==> build_outcome(d) == Err::<
            StatementData,
            BuildError,
        >(BuildError::NoFields),
        d.table.len() > 0 && !(d.writes() && d.fields.len() == 0) ==> build_outcome(d) is Ok,
{
}

} // verus!
