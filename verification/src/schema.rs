//! The schema of a table.
//!
//! A schema is not declared: it is derived from the first record of a
//! stream. Every later record of the stream must have as many fields as the
//! first, since values are bound to the insert statement by position.

use crate::column::sanitize_key;
use crate::error::IngestError;
use crate::sql_utils::{
    bind_stmt, bindings_of, column_names_of, column_types_of, create_statement,
    create_statement_tail, insert_statement, insert_statement_tail, record_view, strings_view,
    Field, FieldView, SqlType,
};
use crate::text::concat_str;
use vstd::prelude::*;

verus! {

/// The columns of a table, in order, derived from a record.
#[derive(Debug, Clone, PartialEq, Eq)]
pub struct RecordSchema {
    table_name: String,
    /// The name and the type of each column.
    columns: Vec<(String, SqlType)>,
}

/// What a `RecordSchema` holds.
pub struct RecordSchemaView {
    pub table_name: Seq<char>,
    pub names: Seq<Seq<char>>,
    pub types: Seq<SqlType>,
}

/// The schema of the table `table` for records shaped like `record`: one
/// column for each field, named after the field and typed by its value.
pub open spec fn schema_of(table: Seq<char>, record: Seq<FieldView>) -> RecordSchemaView {
    RecordSchemaView {
        table_name: table,
        names: column_names_of(record),
        types: column_types_of(record),
    }
}

impl RecordSchemaView {
    /// The number of columns.
    pub open spec fn column_count(self) -> nat {
        self.names.len()
    }

    /// Whether a record fits the schema: it has one field for each column.
    pub open spec fn accepts(self, record: Seq<FieldView>) -> bool {
        record.len() == self.names.len()
    }
}

impl View for RecordSchema {
    type V = RecordSchemaView;

    closed spec fn view(&self) -> RecordSchemaView {
        RecordSchemaView {
            table_name: self.table_name@,
            names: Seq::new(self.columns@.len(), |i: int| self.columns@[i].0@),
            types: Seq::new(self.columns@.len(), |i: int| self.columns@[i].1),
        }
    }
}

impl RecordSchema {
    /// The schema of the table `table_name` for records shaped like `record`.
    pub fn derive(record: &Vec<Field>, table_name: &str) -> (s: RecordSchema)
        ensures
            s@ == schema_of(table_name@, record_view(record@)),
    {
        let ghost rv = record_view(record@);
        let mut columns: Vec<(String, SqlType)> = Vec::new();
        let mut i: usize = 0;
        while i < record.len()
            invariant
                i <= record.len(),
                rv == record_view(record@),
                columns.len() == i,
                forall|j: int|
                    0 <= j < i ==> (#[trigger] columns@[j]).0@ == column_names_of(rv)[j]
                        && columns@[j].1 == column_types_of(rv)[j],
            decreases record.len() - i,
        {
            assert(rv[i as int] == record@[i as int]@);
            let name = sanitize_key(record[i].name.as_str());
            let value = record[i].value.to_sql_value();
            columns.push((name, value.sql_type()));
            i += 1;
        }
        let s = RecordSchema { table_name: table_name.to_owned(), columns };
        assert(s@.names =~= column_names_of(rv));
        assert(s@.types =~= column_types_of(rv));
        s
    }

    /// The names and the types of the columns, each in a list of its own.
    fn parts(&self) -> (r: (Vec<String>, Vec<SqlType>))
        ensures
            r.0.len() == r.1.len(),
            strings_view(r.0@) == self@.names,
            r.1@ == self@.types,
    {
        let mut names: Vec<String> = Vec::new();
        let mut types: Vec<SqlType> = Vec::new();
        let mut i: usize = 0;
        while i < self.columns.len()
            invariant
                i <= self.columns.len(),
                names.len() == i,
                types.len() == i,
                forall|j: int| 0 <= j < i ==> (#[trigger] names@[j])@ == self.columns@[j].0@,
                forall|j: int| 0 <= j < i ==> (#[trigger] types@[j]) == self.columns@[j].1,
            decreases self.columns.len() - i,
        {
            let name = self.columns[i].0.clone();
            names.push(name);
            types.push(self.columns[i].1);
            i += 1;
        }
        assert(strings_view(names@) =~= self@.names);
        assert(types@ =~= self@.types);
        (names, types)
    }

    /// The number of columns.
    pub fn column_count(&self) -> (n: usize)
        ensures
            n == self@.column_count(),
    {
        self.columns.len()
    }

    /// The name of the table.
    pub fn table_name(&self) -> (r: String)
        ensures
            r@ == self@.table_name,
    {
        self.table_name.clone()
    }

    /// The statement that creates the table, if it does not exist yet.
    pub fn create_statement(&self) -> (r: String)
        ensures
            r@ == create_statement(self@.table_name, self@.names, self@.types),
    {
        let mut r = concat_str("CREATE TABLE IF NOT EXISTS [", self.table_name.as_str());
        r.append("] (");
        let (names, types) = self.parts();
        let tail = create_statement_tail(&names, &types);
        r.append(tail.as_str());
        r
    }

    /// The statement that inserts one row, with a placeholder for each
    /// column.
    pub fn insert_statement(&self) -> (r: String)
        ensures
            r@ == insert_statement(self@.table_name, self@.names),
    {
        let mut r = concat_str("INSERT INTO [", self.table_name.as_str());
        r.append("] (");
        let (names, _) = self.parts();
        let tail = insert_statement_tail(&names);
        r.append(tail.as_str());
        r
    }

    /// Whether a record fits the schema.
    pub fn accepts(&self, record: &Vec<Field>) -> (r: bool)
        ensures
            r == self@.accepts(record_view(record@)),
    {
        record.len() == self.columns.len()
    }

    /// The texts to bind for `record`, one for each column. A record with
    /// another number of fields than the table has columns is rejected, so
    /// that no value is bound to a column it does not belong to.
    pub fn bind(&self, record: &Vec<Field>) -> (r: Result<Vec<String>, IngestError>)
        ensures
            self@.accepts(record_view(record@)) ==> (r matches Ok(b) && strings_view(b@)
                == bindings_of(record_view(record@)) && b.len() == self@.column_count()),
            !self@.accepts(record_view(record@)) ==> r == Err::<Vec<String>, IngestError>(
                IngestError::FieldCountMismatch {
                    expected: self@.column_count() as usize,
                    found: record.len(),
                },
            ),
    {
        if record.len() != self.columns.len() {
            return Err(
                IngestError::FieldCountMismatch {
                    expected: self.columns.len(),
                    found: record.len(),
                },
            );
        }
        Ok(bind_stmt(record))
    }
}

/// Schema and binding arity. For every record of a stream that the schema
/// of the stream's first record accepts, the texts bound are exactly as many
/// as the columns; and the schema accepts a record exactly when it has as
/// many fields as the first.
pub proof fn lemma_schema_binding_arity(
    table: Seq<char>,
    first: Seq<FieldView>,
    record: Seq<FieldView>,
)
    ensures
        schema_of(table, first).column_count() == first.len(),
        schema_of(table, first).accepts(record) <==> record.len() == first.len(),
        schema_of(table, first).accepts(record) ==> bindings_of(record).len() == schema_of(
            table,
            first,
        ).column_count(),
        schema_of(table, first).accepts(first),
{
}

} // verus!
