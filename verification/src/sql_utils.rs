//! The write side of the codec: from a record, given as its fields in
//! declaration order, to the statement that creates its table, the statement
//! that inserts a row, and the values bound to that statement.
//!
//! Fields are bound by position, never by name: the order of a record's
//! fields is part of what is stored.

use crate::column::{sanitize_key, spec_sanitize_key};
use crate::decimal::{decimal_int, decimal_nat, i64_to_decimal, u64_to_decimal};
use crate::text::string_of;
use vstd::prelude::*;

verus! {

/// The type of a column.
#[derive(Debug, Clone, Copy, PartialEq, Eq, Structural)]
pub enum SqlType {
    Integer,
    Real,
    Text,
}

/// A value as the store holds it. A real number is carried as its decimal
/// text. An absent value is the text `NULL`.
#[derive(Debug, Clone, PartialEq, Eq)]
pub enum SqlValue {
    Integer(i64),
    Real(String),
    Text(String),
}

/// What a `SqlValue` holds.
pub enum SqlValueView {
    Integer(i64),
    Real(Seq<char>),
    Text(Seq<char>),
}

impl View for SqlValue {
    type V = SqlValueView;

    open spec fn view(&self) -> SqlValueView {
        match *self {
            SqlValue::Integer(i) => SqlValueView::Integer(i),
            SqlValue::Real(t) => SqlValueView::Real(t@),
            SqlValue::Text(t) => SqlValueView::Text(t@),
        }
    }
}

/// The value of one field of a record, by its native kind. Narrower integers
/// are widened to `Int` or `UInt`. A real number is carried as its decimal
/// text. `Variant` is a variant of an enumeration, written by its name.
#[derive(Debug, Clone, PartialEq, Eq)]
pub enum FieldValue {
    Bool(bool),
    Int(i64),
    UInt(u64),
    Real(String),
    Char(char),
    Str(String),
    Absent,
    Variant(String),
}

/// What a `FieldValue` holds.
pub enum FieldValueView {
    Bool(bool),
    Int(i64),
    UInt(u64),
    Real(Seq<char>),
    Char(char),
    Str(Seq<char>),
    Absent,
    Variant(Seq<char>),
}

impl View for FieldValue {
    type V = FieldValueView;

    open spec fn view(&self) -> FieldValueView {
        match *self {
            FieldValue::Bool(b) => FieldValueView::Bool(b),
            FieldValue::Int(i) => FieldValueView::Int(i),
            FieldValue::UInt(u) => FieldValueView::UInt(u),
            FieldValue::Real(t) => FieldValueView::Real(t@),
            FieldValue::Char(c) => FieldValueView::Char(c),
            FieldValue::Str(s) => FieldValueView::Str(s@),
            FieldValue::Absent => FieldValueView::Absent,
            FieldValue::Variant(n) => FieldValueView::Variant(n@),
        }
    }
}

/// One field of a record: its attribute name and its value.
#[derive(Debug, Clone, PartialEq, Eq)]
pub struct Field {
    pub name: String,
    pub value: FieldValue,
}

/// What a `Field` holds.
pub struct FieldView {
    pub name: Seq<char>,
    pub value: FieldValueView,
}

impl View for Field {
    type V = FieldView;

    open spec fn view(&self) -> FieldView {
        FieldView { name: self.name@, value: self.value@ }
    }
}

/// What the fields of a record hold, in order.
pub open spec fn record_view(fields: Seq<Field>) -> Seq<FieldView> {
    Seq::new(fields.len(), |i: int| fields[i]@)
}

/// What the strings of a sequence hold, in order.
pub open spec fn strings_view(v: Seq<String>) -> Seq<Seq<char>> {
    Seq::new(v.len(), |i: int| v[i]@)
}

/// The signed number with the bits of `u`.
pub open spec fn wrap_i64(u: u64) -> i64 {
    if u <= i64::MAX {
        u as i64
    } else {
        (u - 0x1_0000_0000_0000_0000) as i64
    }
}

/// The text of a boolean.
pub open spec fn bool_text(b: bool) -> Seq<char> {
    if b {
        "true"@
    } else {
        "false"@
    }
}

/// The value stored for a field: a boolean, a character, a string or a
/// variant's name as text, an integer as an integer, a real number as a real
/// number, an absent value as the text `NULL`.
pub open spec fn sql_value_of(v: FieldValueView) -> SqlValueView {
    match v {
        FieldValueView::Bool(b) => SqlValueView::Text(bool_text(b)),
        FieldValueView::Int(i) => SqlValueView::Integer(i),
        FieldValueView::UInt(u) => SqlValueView::Integer(wrap_i64(u)),
        FieldValueView::Real(t) => SqlValueView::Real(t),
        FieldValueView::Char(c) => SqlValueView::Text(seq![c]),
        FieldValueView::Str(s) => SqlValueView::Text(s),
        FieldValueView::Absent => SqlValueView::Text("NULL"@),
        FieldValueView::Variant(n) => SqlValueView::Text(n),
    }
}

/// The column type that holds a value.
pub open spec fn sql_type_of(v: SqlValueView) -> SqlType {
    match v {
        SqlValueView::Integer(_) => SqlType::Integer,
        SqlValueView::Real(_) => SqlType::Real,
        SqlValueView::Text(_) => SqlType::Text,
    }
}

/// The text bound to the insert statement for a field.
pub open spec fn binding_of(v: FieldValueView) -> Seq<char> {
    match v {
        FieldValueView::Bool(b) => bool_text(b),
        FieldValueView::Int(i) => decimal_int(i as int),
        FieldValueView::UInt(u) => decimal_nat(u as nat),
        FieldValueView::Real(t) => t,
        FieldValueView::Char(c) => seq![c],
        FieldValueView::Str(s) => s,
        FieldValueView::Absent => "NULL"@,
        FieldValueView::Variant(n) => n,
    }
}

/// The texts bound for the fields of a record, one for each field, in order.
pub open spec fn bindings_of(record: Seq<FieldView>) -> Seq<Seq<char>> {
    Seq::new(record.len(), |i: int| binding_of(record[i].value))
}

/// The parts of `parts` written one after the other with `sep` between them.
pub open spec fn join(parts: Seq<Seq<char>>, sep: Seq<char>) -> Seq<char>
    decreases parts.len(),
{
    if parts.len() == 0 {
        Seq::empty()
    } else if parts.len() == 1 {
        parts[0]
    } else {
        join(parts.drop_last(), sep) + sep + parts.last()
    }
}

/// The keyword that names a column type in a statement.
pub open spec fn type_keyword(t: SqlType) -> Seq<char> {
    match t {
        SqlType::Integer => "INTEGER"@,
        SqlType::Real => "REAL"@,
        SqlType::Text => "TEXT"@,
    }
}

/// The declaration of a column: its name, a space and its type. The column
/// named `id` is the table's unique primary key, whatever its value was.
pub open spec fn column_decl(name: Seq<char>, t: SqlType) -> Seq<char> {
    if name == "id"@ {
        name + " "@ + "INTEGER PRIMARY KEY UNIQUE"@
    } else {
        name + " "@ + type_keyword(t)
    }
}

/// The declarations of the columns `names` of the types `types`.
pub open spec fn column_decls(names: Seq<Seq<char>>, types: Seq<SqlType>) -> Seq<Seq<char>> {
    Seq::new(names.len(), |i: int| column_decl(names[i], types[i]))
}

/// The column types that hold `values`, in order.
pub open spec fn types_of(values: Seq<SqlValueView>) -> Seq<SqlType> {
    Seq::new(values.len(), |i: int| sql_type_of(values[i]))
}

/// `n` question marks: one placeholder for each bound value.
pub open spec fn placeholders(n: nat) -> Seq<Seq<char>> {
    Seq::new(n, |i: int| "?"@)
}

/// The beginning of an insert statement, up to the list of columns.
pub open spec fn insert_head(table: Seq<char>) -> Seq<char> {
    "INSERT INTO ["@ + table + "] ("@
}

/// The beginning of a create statement, up to the list of columns.
pub open spec fn create_head(table: Seq<char>) -> Seq<char> {
    "CREATE TABLE IF NOT EXISTS ["@ + table + "] ("@
}

/// The end of an insert statement, from the list of columns on.
pub open spec fn insert_tail(names: Seq<Seq<char>>) -> Seq<char> {
    join(names, ","@) + ") VALUES ("@ + join(placeholders(names.len()), ","@) + ");"@
}

/// The end of a create statement, from the list of columns on.
pub open spec fn create_tail(names: Seq<Seq<char>>, types: Seq<SqlType>) -> Seq<char> {
    join(column_decls(names, types), ","@) + ");"@
}

/// The statement that inserts one row into `table`, with one placeholder for
/// each of the columns `names`.
pub open spec fn insert_statement(table: Seq<char>, names: Seq<Seq<char>>) -> Seq<char> {
    insert_head(table) + insert_tail(names)
}

/// The statement that creates `table` with the columns `names` of the types
/// `types`, if it does not exist yet.
pub open spec fn create_statement(
    table: Seq<char>,
    names: Seq<Seq<char>>,
    types: Seq<SqlType>,
) -> Seq<char> {
    create_head(table) + create_tail(names, types)
}

/// The column names of a record, in order.
pub open spec fn column_names_of(record: Seq<FieldView>) -> Seq<Seq<char>> {
    Seq::new(record.len(), |i: int| spec_sanitize_key(record[i].name))
}

/// The stored values of a record, in order.
pub open spec fn sql_values_of(record: Seq<FieldView>) -> Seq<SqlValueView> {
    Seq::new(record.len(), |i: int| sql_value_of(record[i].value))
}

/// The column types of a record, in order: each is the type that holds the
/// field's value.
pub open spec fn column_types_of(record: Seq<FieldView>) -> Seq<SqlType> {
    Seq::new(record.len(), |i: int| sql_type_of(sql_value_of(record[i].value)))
}

/// The text of one character.
pub fn char_to_string(c: char) -> (s: String)
    ensures
        s@ == seq![c],
{
    let mut v: Vec<char> = Vec::new();
    v.push(c);
    string_of(&v)
}

/// The text of a boolean: `true` or `false`.
pub fn bool_to_string(b: bool) -> (s: String)
    ensures
        s@ == bool_text(b),
{
    if b {
        "true".to_owned()
    } else {
        "false".to_owned()
    }
}

/// The signed number with the bits of `u`.
pub fn u64_to_i64(u: u64) -> (i: i64)
    ensures
        i == wrap_i64(u),
{
    if u <= 9223372036854775807u64 {
        u as i64
    } else {
        let low: u64 = u - 9223372036854775808u64;
        (low as i64) + i64::MIN
    }
}

/// The parts of `parts` written one after the other with `sep` between them.
pub fn join_strings(parts: &Vec<String>, sep: &str) -> (r: String)
    ensures
        r@ == join(strings_view(parts@), sep@),
{
    let mut r = String::new();
    let mut i: usize = 0;
    let ghost all = strings_view(parts@);
    while i < parts.len()
        invariant
            i <= parts.len(),
            all == strings_view(parts@),
            r@ == join(all.take(i as int), sep@),
        decreases parts.len() - i,
    {
        let ghost prefix = all.take(i + 1);
        assert(prefix.drop_last() == all.take(i as int));
        assert(prefix.last() == parts@[i as int]@);
        if i > 0 {
            r.append(sep);
        } else {
            assert(Seq::<char>::empty() + parts@[i as int]@ == parts@[i as int]@);
        }
        r.append(parts[i].as_str());
        i += 1;
    }
    assert(all.take(parts.len() as int) == all);
    r
}

impl SqlValue {
    /// The column type that holds this value.
    pub fn sql_type(&self) -> (t: SqlType)
        ensures
            t == sql_type_of(self@),
    {
        match self {
            SqlValue::Integer(_) => SqlType::Integer,
            SqlValue::Real(_) => SqlType::Real,
            SqlValue::Text(_) => SqlType::Text,
        }
    }

    /// A copy of this value.
    pub fn duplicate(&self) -> (r: SqlValue)
        ensures
            r@ == self@,
    {
        match self {
            SqlValue::Integer(i) => SqlValue::Integer(*i),
            SqlValue::Real(t) => SqlValue::Real(t.clone()),
            SqlValue::Text(t) => SqlValue::Text(t.clone()),
        }
    }
}

impl SqlType {
    /// The keyword that names this type in a statement.
    pub fn keyword(&self) -> (s: String)
        ensures
            s@ == type_keyword(*self),
    {
        match self {
            SqlType::Integer => "INTEGER".to_owned(),
            SqlType::Real => "REAL".to_owned(),
            SqlType::Text => "TEXT".to_owned(),
        }
    }
}

impl FieldValue {
    /// The value stored for this field.
    pub fn to_sql_value(&self) -> (r: SqlValue)
        ensures
            r@ == sql_value_of(self@),
    {
        match self {
            FieldValue::Bool(b) => SqlValue::Text(bool_to_string(*b)),
            FieldValue::Int(i) => SqlValue::Integer(*i),
            FieldValue::UInt(u) => SqlValue::Integer(u64_to_i64(*u)),
            FieldValue::Real(t) => SqlValue::Real(t.clone()),
            FieldValue::Char(c) => SqlValue::Text(char_to_string(*c)),
            FieldValue::Str(s) => SqlValue::Text(s.clone()),
            FieldValue::Absent => SqlValue::Text("NULL".to_owned()),
            FieldValue::Variant(n) => SqlValue::Text(n.clone()),
        }
    }

    /// The text bound to the insert statement for this field.
    pub fn binding(&self) -> (r: String)
        ensures
            r@ == binding_of(self@),
    {
        match self {
            FieldValue::Bool(b) => bool_to_string(*b),
            FieldValue::Int(i) => i64_to_decimal(*i),
            FieldValue::UInt(u) => u64_to_decimal(*u),
            FieldValue::Real(t) => t.clone(),
            FieldValue::Char(c) => char_to_string(*c),
            FieldValue::Str(s) => s.clone(),
            FieldValue::Absent => "NULL".to_owned(),
            FieldValue::Variant(n) => n.clone(),
        }
    }
}

/// The declaration of a column in a create statement.
pub fn column_declaration(name: &str, t: SqlType) -> (r: String)
    ensures
        r@ == column_decl(name@, t),
{
    let mut r = name.to_owned();
    r.append(" ");
    if crate::text::str_equal(name, "id") {
        r.append("INTEGER PRIMARY KEY UNIQUE");
    } else {
        let k = t.keyword();
        r.append(k.as_str());
    }
    r
}

/// The end of an insert statement, from the list of columns on.
pub(crate) fn insert_statement_tail(names: &Vec<String>) -> (r: String)
    ensures
        r@ == insert_tail(strings_view(names@)),
{
    let mut marks: Vec<String> = Vec::new();
    let mut i: usize = 0;
    while i < names.len()
        invariant
            i <= names.len(),
            strings_view(marks@) == placeholders(i as nat),
        decreases names.len() - i,
    {
        let ghost before = strings_view(marks@);
        marks.push("?".to_owned());
        assert(strings_view(marks@) =~= before.push("?"@));
        assert(before.push("?"@) =~= placeholders((i + 1) as nat));
        i += 1;
    }
    let mut r = join_strings(names, ",");
    r.append(") VALUES (");
    let m = join_strings(&marks, ",");
    r.append(m.as_str());
    r.append(");");
    r
}

/// The end of a create statement, from the list of columns on.
pub(crate) fn create_statement_tail(names: &Vec<String>, types: &Vec<SqlType>) -> (r: String)
    requires
        names.len() == types.len(),
    ensures
        r@ == create_tail(strings_view(names@), types@),
{
    let mut decls: Vec<String> = Vec::new();
    let mut i: usize = 0;
    while i < names.len()
        invariant
            i <= names.len(),
            names.len() == types.len(),
            strings_view(decls@) == column_decls(strings_view(names@), types@).take(i as int),
        decreases names.len() - i,
    {
        let ghost before = strings_view(decls@);
        let ghost all = column_decls(strings_view(names@), types@);
        let d = column_declaration(names[i].as_str(), types[i]);
        assert(d@ == all[i as int]);
        decls.push(d);
        assert(strings_view(decls@) =~= before.push(all[i as int]));
        assert(before.push(all[i as int]) =~= all.take(i + 1));
        i += 1;
    }
    assert(column_decls(strings_view(names@), types@).take(names.len() as int) == column_decls(
        strings_view(names@),
        types@,
    ));
    let mut r = join_strings(&decls, ",");
    r.append(");");
    r
}

/// Derives the two statements of a table from one record: it keeps the
/// table's name, the column names and the stored values of the fields it is
/// given, and writes the statements when the record ends.
pub struct Serializer {
    sql_value: Option<SqlValue>,
    insert_stmt: String,
    create_stmt: String,
    table_name: String,
    /// The column name and the stored value of each field seen so far.
    columns: Vec<(String, SqlValue)>,
}

/// What a `Serializer` holds.
pub struct SerializerView {
    /// The value serialized last, if any.
    pub sql_value: Option<SqlValueView>,
    pub insert_stmt: Seq<char>,
    pub create_stmt: Seq<char>,
    pub table_name: Seq<char>,
    /// The column names of the fields seen so far.
    pub keys: Seq<Seq<char>>,
    /// The stored values of the fields seen so far.
    pub values: Seq<SqlValueView>,
}

impl SerializerView {
    /// A serializer for `table` that has seen nothing yet.
    pub open spec fn start(table: Seq<char>) -> SerializerView {
        SerializerView {
            sql_value: None,
            insert_stmt: Seq::empty(),
            create_stmt: Seq::empty(),
            table_name: table,
            keys: Seq::empty(),
            values: Seq::empty(),
        }
    }

    /// After a value was serialized.
    pub open spec fn with_value(self, v: FieldValueView) -> SerializerView {
        SerializerView { sql_value: Some(sql_value_of(v)), ..self }
    }

    /// After a record was begun: both statements have their beginning.
    pub open spec fn with_struct(self) -> SerializerView {
        SerializerView {
            insert_stmt: self.insert_stmt + insert_head(self.table_name),
            create_stmt: self.create_stmt + create_head(self.table_name),
            ..self
        }
    }

    /// After a field was serialized.
    pub open spec fn with_field(self, key: Seq<char>, v: FieldValueView) -> SerializerView {
        SerializerView {
            keys: self.keys.push(spec_sanitize_key(key)),
            values: self.values.push(sql_value_of(v)),
            ..self
        }
    }

    /// After the record ended: both statements are complete.
    pub open spec fn with_end(self) -> SerializerView {
        SerializerView {
            insert_stmt: self.insert_stmt + insert_tail(self.keys),
            create_stmt: self.create_stmt + create_tail(self.keys, types_of(self.values)),
            ..self
        }
    }
}

/// What the values of a sequence hold, in order.
pub open spec fn sql_values_view(v: Seq<SqlValue>) -> Seq<SqlValueView> {
    Seq::new(v.len(), |i: int| v[i]@)
}

/// The names of a sequence of named values, in order.
pub open spec fn stored_names(v: Seq<(String, SqlValue)>) -> Seq<Seq<char>> {
    Seq::new(v.len(), |i: int| v[i].0@)
}

/// The values of a sequence of named values, in order.
pub open spec fn stored_values(v: Seq<(String, SqlValue)>) -> Seq<SqlValueView> {
    Seq::new(v.len(), |i: int| v[i].1@)
}

impl View for Serializer {
    type V = SerializerView;

    closed spec fn view(&self) -> SerializerView {
        SerializerView {
            sql_value: match self.sql_value {
                Some(v) => Some(v@),
                None => None,
            },
            insert_stmt: self.insert_stmt@,
            create_stmt: self.create_stmt@,
            table_name: self.table_name@,
            keys: stored_names(self.columns@),
            values: stored_values(self.columns@),
        }
    }
}

impl Serializer {
    /// A serializer for the table `table_name` that has seen nothing yet.
    pub fn new(table_name: &str) -> (s: Serializer)
        ensures
            s@ == SerializerView::start(table_name@),
    {
        let s = Serializer {
            sql_value: None,
            insert_stmt: String::new(),
            create_stmt: String::new(),
            table_name: table_name.to_owned(),
            columns: Vec::new(),
        };
        assert(stored_names(s.columns@) == Seq::<Seq<char>>::empty());
        assert(stored_values(s.columns@) == Seq::<SqlValueView>::empty());
        s
    }

    /// Serializes a value of any kind: it becomes the value serialized last.
    pub fn serialize_value(&mut self, value: &FieldValue)
        ensures
            final(self)@ == old(self)@.with_value(value@),
    {
        self.sql_value = Some(value.to_sql_value());
    }

    /// A boolean is stored as the text `true` or `false`.
    pub fn serialize_bool(&mut self, v: bool)
        ensures
            final(self)@ == old(self)@.with_value(FieldValueView::Bool(v)),
    {
        self.serialize_value(&FieldValue::Bool(v));
    }

    /// An integer of any width is stored as an integer.
    pub fn serialize_i8(&mut self, v: i8)
        ensures
            final(self)@ == old(self)@.with_value(FieldValueView::Int(v as i64)),
    {
        self.serialize_i64(v as i64);
    }

    /// An integer of any width is stored as an integer.
    pub fn serialize_i16(&mut self, v: i16)
        ensures
            final(self)@ == old(self)@.with_value(FieldValueView::Int(v as i64)),
    {
        self.serialize_i64(v as i64);
    }

    /// An integer of any width is stored as an integer.
    pub fn serialize_i32(&mut self, v: i32)
        ensures
            final(self)@ == old(self)@.with_value(FieldValueView::Int(v as i64)),
    {
        self.serialize_i64(v as i64);
    }

    /// An integer of any width is stored as an integer.
    pub fn serialize_i64(&mut self, v: i64)
        ensures
            final(self)@ == old(self)@.with_value(FieldValueView::Int(v)),
    {
        self.serialize_value(&FieldValue::Int(v));
    }

    /// An unsigned integer of any width is stored as an integer.
    pub fn serialize_u8(&mut self, v: u8)
        ensures
            final(self)@ == old(self)@.with_value(FieldValueView::UInt(v as u64)),
    {
        self.serialize_u64(v as u64);
    }

    /// An unsigned integer of any width is stored as an integer.
    pub fn serialize_u16(&mut self, v: u16)
        ensures
            final(self)@ == old(self)@.with_value(FieldValueView::UInt(v as u64)),
    {
        self.serialize_u64(v as u64);
    }

    /// An unsigned integer of any width is stored as an integer.
    pub fn serialize_u32(&mut self, v: u32)
        ensures
            final(self)@ == old(self)@.with_value(FieldValueView::UInt(v as u64)),
    {
        self.serialize_u64(v as u64);
    }

    /// An unsigned number is stored as the signed number with the same bits.
    pub fn serialize_u64(&mut self, v: u64)
        ensures
            final(self)@ == old(self)@.with_value(FieldValueView::UInt(v)),
    {
        self.serialize_value(&FieldValue::UInt(v));
    }

    /// Serializes a real number, given as its decimal text.
    pub fn serialize_real(&mut self, text: &str)
        ensures
            final(self)@ == old(self)@.with_value(FieldValueView::Real(text@)),
    {
        self.serialize_value(&FieldValue::Real(text.to_owned()));
    }

    /// A character is stored as the text of that one character.
    pub fn serialize_char(&mut self, v: char)
        ensures
            final(self)@ == old(self)@.with_value(FieldValueView::Char(v)),
    {
        self.serialize_value(&FieldValue::Char(v));
    }

    /// A string is stored as text.
    pub fn serialize_str(&mut self, v: &str)
        ensures
            final(self)@ == old(self)@.with_value(FieldValueView::Str(v@)),
    {
        self.serialize_value(&FieldValue::Str(v.to_owned()));
    }

    /// An absent value is stored as the text `NULL`.
    pub fn serialize_none(&mut self)
        ensures
            final(self)@ == old(self)@.with_value(FieldValueView::Absent),
    {
        self.serialize_value(&FieldValue::Absent);
    }

    /// A present optional value is stored as the value itself.
    pub fn serialize_some(&mut self, value: &FieldValue)
        ensures
            final(self)@ == old(self)@.with_value(value@),
    {
        self.serialize_value(value);
    }

    /// A variant of an enumeration is stored as its name.
    pub fn serialize_unit_variant(&mut self, variant: &str)
        ensures
            final(self)@ == old(self)@.with_value(FieldValueView::Variant(variant@)),
    {
        self.serialize_value(&FieldValue::Variant(variant.to_owned()));
    }

    /// Begins a record: writes the beginning of both statements.
    pub fn serialize_struct(&mut self)
        ensures
            final(self)@ == old(self)@.with_struct(),
    {
        self.insert_stmt.append("INSERT INTO [");
        self.insert_stmt.append(self.table_name.as_str());
        self.insert_stmt.append("] (");
        self.create_stmt.append("CREATE TABLE IF NOT EXISTS [");
        self.create_stmt.append(self.table_name.as_str());
        self.create_stmt.append("] (");
        assert(self.insert_stmt@ =~= old(self).insert_stmt@ + insert_head(self.table_name@));
        assert(self.create_stmt@ =~= old(self).create_stmt@ + create_head(self.table_name@));
    }

    /// Takes one field of the record: keeps its column name and its stored
    /// value.
    pub fn serialize_field(&mut self, key: &str, value: &FieldValue)
        ensures
            final(self)@ == old(self)@.with_field(key@, value@),
    {
        let column_name = sanitize_key(key);
        let sql_value = value.to_sql_value();
        self.columns.push((column_name, sql_value));
        assert(stored_names(self.columns@) == stored_names(old(self).columns@).push(
            spec_sanitize_key(key@),
        ));
        assert(stored_values(self.columns@) == stored_values(old(self).columns@).push(
            sql_value_of(value@),
        ));
    }

    /// Ends the record: completes both statements from the fields taken.
    pub fn end(&mut self)
        ensures
            final(self)@ == old(self)@.with_end(),
    {
        let ghost keys = stored_names(self.columns@);
        let ghost kinds = types_of(stored_values(self.columns@));
        let mut names: Vec<String> = Vec::new();
        let mut types: Vec<SqlType> = Vec::new();
        let mut i: usize = 0;
        while i < self.columns.len()
            invariant
                i <= self.columns.len(),
                names.len() == i,
                types.len() == i,
                keys == stored_names(self.columns@),
                kinds == types_of(stored_values(self.columns@)),
                strings_view(names@) == keys.take(i as int),
                types@ == kinds.take(i as int),
            decreases self.columns.len() - i,
        {
            let ghost before = strings_view(names@);
            let name = self.columns[i].0.clone();
            names.push(name);
            types.push(self.columns[i].1.sql_type());
            assert(strings_view(names@) =~= before.push(keys[i as int]));
            assert(before.push(keys[i as int]) =~= keys.take(i + 1));
            assert(types@ =~= kinds.take(i + 1));
            i += 1;
        }
        assert(keys.take(self.columns.len() as int) == keys);
        assert(kinds.take(self.columns.len() as int) == kinds);
        let insert_rest = insert_statement_tail(&names);
        let create_rest = create_statement_tail(&names, &types);
        self.insert_stmt.append(insert_rest.as_str());
        self.create_stmt.append(create_rest.as_str());
    }

    /// The statement that creates the table, as far as it is written.
    pub fn create_statement(&self) -> (r: String)
        ensures
            r@ == self@.create_stmt,
    {
        self.create_stmt.clone()
    }

    /// The statement that inserts a row, as far as it is written.
    pub fn insert_statement(&self) -> (r: String)
        ensures
            r@ == self@.insert_stmt,
    {
        self.insert_stmt.clone()
    }

    /// The value serialized last, if any.
    pub fn sql_value(&self) -> (r: Option<SqlValue>)
        ensures
            match r {
                Some(v) => self@.sql_value == Some(v@),
                None => self@.sql_value is None,
            },
    {
        match &self.sql_value {
            Some(v) => Some(v.duplicate()),
            None => None,
        }
    }
}

/// The statements of the table `table_name` for records shaped like `record`:
/// first the statement that creates the table, then the statement that inserts
/// one row, with a placeholder for each field. The columns are the record's
/// fields in their order, each typed by the value that the record holds.
pub fn to_init_table(record: &Vec<Field>, table_name: &str) -> (r: (String, String))
    ensures
        r.0@ == create_statement(
            table_name@,
            column_names_of(record_view(record@)),
            column_types_of(record_view(record@)),
        ),
        r.1@ == insert_statement(table_name@, column_names_of(record_view(record@))),
{
    let ghost rv = record_view(record@);
    let mut serializer = Serializer::new(table_name);
    serializer.serialize_struct();
    assert(serializer@.insert_stmt =~= insert_head(table_name@));
    assert(serializer@.create_stmt =~= create_head(table_name@));
    let mut i: usize = 0;
    while i < record.len()
        invariant
            i <= record.len(),
            rv == record_view(record@),
            serializer@.table_name == table_name@,
            serializer@.insert_stmt == insert_head(table_name@),
            serializer@.create_stmt == create_head(table_name@),
            serializer@.keys == column_names_of(rv).take(i as int),
            serializer@.values == sql_values_of(rv).take(i as int),
        decreases record.len() - i,
    {
        serializer.serialize_field(record[i].name.as_str(), &record[i].value);
        assert(rv[i as int] == record@[i as int]@);
        assert(serializer@.keys =~= column_names_of(rv).take(i + 1));
        assert(serializer@.values =~= sql_values_of(rv).take(i + 1));
        i += 1;
    }
    assert(column_names_of(rv).take(record.len() as int) == column_names_of(rv));
    assert(sql_values_of(rv).take(record.len() as int) == sql_values_of(rv));
    assert(types_of(sql_values_of(rv)) =~= column_types_of(rv));
    serializer.end();
    (serializer.create_statement(), serializer.insert_statement())
}

/// Collects the texts bound to the insert statement, one for each field of a
/// record, in the order of the fields.
pub struct Binder {
    output: Vec<String>,
}

impl View for Binder {
    type V = Seq<Seq<char>>;

    closed spec fn view(&self) -> Seq<Seq<char>> {
        strings_view(self.output@)
    }
}

impl Binder {
    /// A binder that holds nothing yet.
    pub fn new() -> (b: Binder)
        ensures
            b@ == Seq::<Seq<char>>::empty(),
    {
        let b = Binder { output: Vec::new() };
        assert(strings_view(b.output@) =~= Seq::<Seq<char>>::empty());
        b
    }

    /// Binds a value of any kind: its text is added at the end.
    pub fn serialize_value(&mut self, value: &FieldValue)
        ensures
            final(self)@ == old(self)@.push(binding_of(value@)),
    {
        let text = value.binding();
        self.output.push(text);
        assert(strings_view(self.output@) =~= strings_view(old(self).output@).push(
            binding_of(value@),
        ));
    }

    /// A boolean is bound as the text `true` or `false`.
    pub fn serialize_bool(&mut self, v: bool)
        ensures
            final(self)@ == old(self)@.push(bool_text(v)),
    {
        self.serialize_value(&FieldValue::Bool(v));
    }

    /// An integer of any width is bound as its decimal text.
    pub fn serialize_i8(&mut self, v: i8)
        ensures
            final(self)@ == old(self)@.push(decimal_int(v as int)),
    {
        self.serialize_i64(v as i64);
    }

    /// An integer of any width is bound as its decimal text.
    pub fn serialize_i16(&mut self, v: i16)
        ensures
            final(self)@ == old(self)@.push(decimal_int(v as int)),
    {
        self.serialize_i64(v as i64);
    }

    /// An integer of any width is bound as its decimal text.
    pub fn serialize_i32(&mut self, v: i32)
        ensures
            final(self)@ == old(self)@.push(decimal_int(v as int)),
    {
        self.serialize_i64(v as i64);
    }

    /// An integer of any width is bound as its decimal text.
    pub fn serialize_i64(&mut self, v: i64)
        ensures
            final(self)@ == old(self)@.push(decimal_int(v as int)),
    {
        self.serialize_value(&FieldValue::Int(v));
    }

    /// An unsigned integer of any width is bound as its decimal text.
    pub fn serialize_u8(&mut self, v: u8)
        ensures
            final(self)@ == old(self)@.push(decimal_nat(v as nat)),
    {
        self.serialize_u64(v as u64);
    }

    /// An unsigned integer of any width is bound as its decimal text.
    pub fn serialize_u16(&mut self, v: u16)
        ensures
            final(self)@ == old(self)@.push(decimal_nat(v as nat)),
    {
        self.serialize_u64(v as u64);
    }

    /// An unsigned integer of any width is bound as its decimal text.
    pub fn serialize_u32(&mut self, v: u32)
        ensures
            final(self)@ == old(self)@.push(decimal_nat(v as nat)),
    {
        self.serialize_u64(v as u64);
    }

    /// An unsigned integer of any width is bound as its decimal text.
    pub fn serialize_u64(&mut self, v: u64)
        ensures
            final(self)@ == old(self)@.push(decimal_nat(v as nat)),
    {
        self.serialize_value(&FieldValue::UInt(v));
    }

    /// Binds a real number, given as its decimal text.
    pub fn serialize_real(&mut self, text: &str)
        ensures
            final(self)@ == old(self)@.push(text@),
    {
        self.serialize_value(&FieldValue::Real(text.to_owned()));
    }

    /// A character is bound as the text of that one character.
    pub fn serialize_char(&mut self, v: char)
        ensures
            final(self)@ == old(self)@.push(seq![v]),
    {
        self.serialize_value(&FieldValue::Char(v));
    }

    /// A string is bound as it is.
    pub fn serialize_str(&mut self, v: &str)
        ensures
            final(self)@ == old(self)@.push(v@),
    {
        self.serialize_value(&FieldValue::Str(v.to_owned()));
    }

    /// An absent value is bound as the text `NULL`.
    pub fn serialize_none(&mut self)
        ensures
            final(self)@ == old(self)@.push("NULL"@),
    {
        self.serialize_value(&FieldValue::Absent);
    }

    /// A present optional value is bound as the value itself.
    pub fn serialize_some(&mut self, value: &FieldValue)
        ensures
            final(self)@ == old(self)@.push(binding_of(value@)),
    {
        self.serialize_value(value);
    }

    /// A variant of an enumeration is bound as its name.
    pub fn serialize_unit_variant(&mut self, variant: &str)
        ensures
            final(self)@ == old(self)@.push(variant@),
    {
        self.serialize_value(&FieldValue::Variant(variant.to_owned()));
    }

    /// Takes one field of the record: binds its value. The name plays no
    /// part, since values are bound by position.
    pub fn serialize_field(&mut self, _key: &str, value: &FieldValue)
        ensures
            final(self)@ == old(self)@.push(binding_of(value@)),
    {
        let mut binder = Binder::new();
        binder.serialize_value(value);
        let ghost inner = binder.output@;
        assert(strings_view(inner).len() == 1);
        assert(strings_view(inner)[0] == binding_of(value@));
        assert(inner.len() == 1 && inner[0]@ == binding_of(value@));
        self.output.append(&mut binder.output);
        assert(strings_view(self.output@) =~= strings_view(old(self).output@).push(
            binding_of(value@),
        ));
    }

    /// The texts bound so far.
    pub fn into_output(self) -> (r: Vec<String>)
        ensures
            strings_view(r@) == self@,
    {
        self.output
    }
}

/// The texts to bind to the insert statement for `record`: one for each
/// field, in the order of the fields.
pub fn bind_stmt(record: &Vec<Field>) -> (r: Vec<String>)
    ensures
        strings_view(r@) == bindings_of(record_view(record@)),
        r.len() == record.len(),
{
    let ghost rv = record_view(record@);
    let mut binder = Binder::new();
    let mut i: usize = 0;
    while i < record.len()
        invariant
            i <= record.len(),
            rv == record_view(record@),
            binder@ == bindings_of(rv).take(i as int),
        decreases record.len() - i,
    {
        binder.serialize_field(record[i].name.as_str(), &record[i].value);
        assert(rv[i as int] == record@[i as int]@);
        assert(binder@ =~= bindings_of(rv).take(i + 1));
        i += 1;
    }
    assert(bindings_of(rv).take(record.len() as int) == bindings_of(rv));
    let r = binder.into_output();
    assert(strings_view(r@).len() == r@.len());
    r
}

/// Primary key convention. Whatever value a record holds in a field whose
/// column is named `id`, the create statement declares that column
/// `id INTEGER PRIMARY KEY UNIQUE`.
pub proof fn lemma_id_is_primary_key(record: Seq<FieldView>, i: int)
    requires
        0 <= i < record.len(),
        spec_sanitize_key(record[i].name) == "id"@,
    ensures
        column_decls(column_names_of(record), column_types_of(record))[i]
            == "id INTEGER PRIMARY KEY UNIQUE"@,
{
    reveal_strlit("id");
    reveal_strlit(" ");
    reveal_strlit("INTEGER PRIMARY KEY UNIQUE");
    reveal_strlit("id INTEGER PRIMARY KEY UNIQUE");
    assert("id"@ + " "@ + "INTEGER PRIMARY KEY UNIQUE"@ =~= "id INTEGER PRIMARY KEY UNIQUE"@);
}

} // verus!
