//! Loading one file of records into its table, inside one transaction.
//!
//! The transaction is opened before the first record and closed after the
//! last. The first record of the file gives the table its schema: the table
//! is created and the insert statement prepared from it. Every record, the
//! first one too, is then bound to the insert statement by position. The
//! caller reads the records and talks to the store; this module says what
//! to execute.

use crate::error::IngestError;
use crate::schema::{schema_of, RecordSchema, RecordSchemaView};
use crate::sql_utils::{
    bind_stmt, bindings_of, create_statement, insert_statement, record_view, strings_view, Field,
    FieldValue, FieldView,
};
use crate::text::concat_str;
use vstd::prelude::*;

verus! {

/// What to execute for one record.
#[derive(Debug, Clone, PartialEq, Eq)]
pub enum LoadStep {
    /// The record is the first of its file: execute `create`, prepare
    /// `insert`, then insert a row with `bindings`.
    First { create: String, insert: String, bindings: Vec<String> },
    /// Insert a row with `bindings` through the prepared statement.
    Row { bindings: Vec<String> },
}

/// Where the transaction of a file stands.
#[derive(Debug, Clone, Copy, PartialEq, Eq, Structural)]
pub enum LoadPhase {
    /// The transaction is not open yet.
    Idle,
    /// The transaction is open: records are taken.
    Open,
    /// The transaction is closed.
    Closed,
}

/// The loading of one file into one table.
pub struct TableLoader {
    table_name: String,
    schema: Option<RecordSchema>,
    rows: u64,
    phase: LoadPhase,
}

/// What a `TableLoader` holds.
pub struct TableLoaderView {
    pub table_name: Seq<char>,
    pub phase: LoadPhase,
    /// The schema, once the first record was seen.
    pub schema: Option<RecordSchemaView>,
    /// The number of records taken so far.
    pub rows: nat,
}

/// The count of records after one more: it stops at the greatest 64-bit
/// number.
pub open spec fn next_count(rows: nat) -> nat {
    if rows >= u64::MAX {
        rows
    } else {
        rows + 1
    }
}

/// The text of a record's element: the element's content between `<` and
/// `/>`.
pub open spec fn row_element_spec(content: Seq<char>) -> Seq<char> {
    "<"@ + content + "/>"@
}

/// The text of a record's element, from the content that the reader hands
/// over for it.
pub fn row_element(content: &str) -> (r: String)
    ensures
        r@ == row_element_spec(content@),
{
    let mut r = concat_str("<", content);
    r.append("/>");
    r
}

/// The statement that opens the transaction of a file.
pub open spec fn begin_statement() -> Seq<char> {
    "BEGIN TRANSACTION;"@
}

/// The statement that closes the transaction of a file.
pub open spec fn end_statement() -> Seq<char> {
    "END TRANSACTION;"@
}

/// Whether a record begins with an absent value. A table is never created
/// from such a record: an absent value does not tell the type of its column.
pub open spec fn starts_absent(record: Seq<FieldView>) -> bool {
    record.len() > 0 && record[0].value is Absent
}

/// The words of the error for a first record that begins with an absent
/// value.
pub open spec fn starts_absent_text() -> Seq<char> {
    "the first record begins with an absent value"@
}

/// The words of the error for a record that comes while no transaction is
/// open.
pub open spec fn not_open_text() -> Seq<char> {
    "no transaction is open"@
}

/// The query that tells whether a table exists: it gives a row exactly when
/// the table whose name is bound to its placeholder does.
pub fn table_exists_query() -> (r: String)
    ensures
        r@ == "SELECT name FROM sqlite_master WHERE type = 'table' AND name = ?;"@,
{
    "SELECT name FROM sqlite_master WHERE type = 'table' AND name = ?;".to_owned()
}

/// The statement that lets readers go on while one writer writes.
pub fn write_ahead_log_statement() -> (r: String)
    ensures
        r@ == "PRAGMA journal_mode = wal;"@,
{
    "PRAGMA journal_mode = wal;".to_owned()
}

impl View for TableLoader {
    type V = TableLoaderView;

    closed spec fn view(&self) -> TableLoaderView {
        TableLoaderView {
            table_name: self.table_name@,
            phase: self.phase,
            schema: match self.schema {
                Some(s) => Some(s@),
                None => None,
            },
            rows: self.rows as nat,
        }
    }
}

impl TableLoader {
    /// A loader for the table `table_name` that has seen no record.
    pub fn new(table_name: &str) -> (l: TableLoader)
        ensures
            l@ == (TableLoaderView {
                table_name: table_name@,
                phase: LoadPhase::Idle,
                schema: None,
                rows: 0,
            }),
    {
        TableLoader {
            table_name: table_name.to_owned(),
            schema: None,
            rows: 0,
            phase: LoadPhase::Idle,
        }
    }

    /// Where the transaction stands.
    pub fn phase(&self) -> (p: LoadPhase)
        ensures
            p == self@.phase,
    {
        self.phase
    }

    /// Opens the transaction: gives the statement to execute before the
    /// first record. Gives nothing, and changes nothing, where the
    /// transaction was opened before.
    pub fn begin(&mut self) -> (r: Option<String>)
        ensures
            old(self)@.phase == LoadPhase::Idle ==> (r matches Some(s) && s@ == begin_statement()
                && final(self)@ == (TableLoaderView { phase: LoadPhase::Open, ..old(self)@ })),
            old(self)@.phase != LoadPhase::Idle ==> (r is None && final(self)@ == old(self)@),
    {
        match self.phase {
            LoadPhase::Idle => {
                self.phase = LoadPhase::Open;
                Some("BEGIN TRANSACTION;".to_owned())
            },
            _ => None,
        }
    }

    /// Closes the transaction: gives the statement to execute after the last
    /// record. Gives nothing, and changes nothing, where no transaction is
    /// open.
    pub fn finish(&mut self) -> (r: Option<String>)
        ensures
            old(self)@.phase == LoadPhase::Open ==> (r matches Some(s) && s@ == end_statement()
                && final(self)@ == (TableLoaderView { phase: LoadPhase::Closed, ..old(self)@ })),
            old(self)@.phase != LoadPhase::Open ==> (r is None && final(self)@ == old(self)@),
    {
        match self.phase {
            LoadPhase::Open => {
                self.phase = LoadPhase::Closed;
                Some("END TRANSACTION;".to_owned())
            },
            _ => None,
        }
    }

    /// The number of records taken so far.
    pub fn rows(&self) -> (n: u64)
        ensures
            n as nat == self@.rows,
    {
        self.rows
    }

    /// Whether the first record was seen.
    pub fn has_schema(&self) -> (r: bool)
        ensures
            r == self@.schema is Some,
    {
        self.schema.is_some()
    }

    /// Takes the next record of the file and says what to execute for it.
    /// A record is only taken while the transaction is open. The first
    /// record fixes the schema, unless it begins with an absent value: the
    /// table is not created from such a record. A later record with another
    /// number of fields than the first is rejected. A rejected record
    /// changes nothing. The count of records stops at the greatest 64-bit
    /// number.
    pub fn on_record(&mut self, record: &Vec<Field>) -> (r: Result<LoadStep, IngestError>)
        ensures
            final(self)@.table_name == old(self)@.table_name,
            final(self)@.phase == old(self)@.phase,
            old(self)@.phase != LoadPhase::Open ==> (r matches Err(IngestError::Store(m)) && m@
                == not_open_text() && final(self)@ == old(self)@),
            old(self)@.phase == LoadPhase::Open ==> match old(self)@.schema {
                None => if starts_absent(record_view(record@)) {
                    &&& r matches Err(IngestError::Decode(m))
                    &&& m@ == starts_absent_text()
                    &&& final(self)@ == old(self)@
                } else {
                    &&& r matches Ok(LoadStep::First { create, insert, bindings })
                    &&& create@ == create_statement(
                        old(self)@.table_name,
                        schema_of(old(self)@.table_name, record_view(record@)).names,
                        schema_of(old(self)@.table_name, record_view(record@)).types,
                    )
                    &&& insert@ == insert_statement(
                        old(self)@.table_name,
                        schema_of(old(self)@.table_name, record_view(record@)).names,
                    )
                    &&& strings_view(bindings@) == bindings_of(record_view(record@))
                    &&& final(self)@.schema == Some(
                        schema_of(old(self)@.table_name, record_view(record@)),
                    )
                    &&& final(self)@.rows == next_count(old(self)@.rows)
                },
                Some(schema) => if schema.accepts(record_view(record@)) {
                    &&& r matches Ok(LoadStep::Row { bindings })
                    &&& strings_view(bindings@) == bindings_of(record_view(record@))
                    &&& bindings.len() == schema.column_count()
                    &&& final(self)@.schema == old(self)@.schema
                    &&& final(self)@.rows == next_count(old(self)@.rows)
                } else {
                    &&& r == Err::<LoadStep, IngestError>(
                        IngestError::FieldCountMismatch {
                            expected: schema.column_count() as usize,
                            found: record.len(),
                        },
                    )
                    &&& final(self)@ == old(self)@
                },
            },
    {
        match self.phase {
            LoadPhase::Open => {},
            _ => {
                return Err(IngestError::Store("no transaction is open".to_owned()));
            },
        }
        match &self.schema {
            None => {
                if record.len() > 0 {
                    assert(record_view(record@)[0] == record@[0]@);
                    match &record[0].value {
                        FieldValue::Absent => {
                            return Err(
                                IngestError::Decode(
                                    "the first record begins with an absent value".to_owned(),
                                ),
                            );
                        },
                        _ => {},
                    }
                }
                let schema = RecordSchema::derive(record, self.table_name.as_str());
                let create = schema.create_statement();
                let insert = schema.insert_statement();
                let bindings = bind_stmt(record);
                self.schema = Some(schema);
                self.rows = if self.rows == u64::MAX {
                    u64::MAX
                } else {
                    self.rows + 1
                };
                Ok(LoadStep::First { create, insert, bindings })
            },
            Some(schema) => {
                let bound = schema.bind(record);
                match bound {
                    Ok(bindings) => {
                        self.rows = if self.rows == u64::MAX {
                    u64::MAX
                } else {
                    self.rows + 1
                };
                        Ok(LoadStep::Row { bindings })
                    },
                    Err(e) => Err(e),
                }
            },
        }
    }
}

} // verus!
