//! The read side of the codec: from a stored row back to the values of a
//! record.
//!
//! A row is read column by column, in the order of the columns. The name of
//! each column is turned back into the name of the attribute it was made
//! from; the value is then read as the kind that the record expects. An
//! absent value is stored as the text `NULL`. An enumeration is stored as
//! the number of its variant, as an integer or as its decimal text.

use crate::column::{spec_to_pascal_case, to_pascal_case};
use crate::decimal::{parse_u64, parse_u64_spec};
use crate::error::Error;
use crate::sql_utils::{
    record_view, sql_values_view, strings_view, Field, FieldValue, FieldValueView, FieldView,
    SqlValue, SqlValueView,
};
use crate::text::str_equal;
use vstd::prelude::*;
use vstd::utf8::encode_utf8;

verus! {

/// The whole number that a stored value holds, where it lies from `lo` to
/// `hi`.
pub open spec fn int_in_range(v: Option<SqlValueView>, lo: int, hi: int) -> Result<int, Error> {
    match v {
        None => Err(Error::Eof),
        Some(SqlValueView::Integer(i)) => if lo <= i <= hi {
            Ok(i as int)
        } else {
            Err(Error::ExpectedInteger)
        },
        Some(_) => Err(Error::ExpectedInteger),
    }
}

/// The boolean that a stored value holds: the text `true` is true, every
/// other text is false.
pub open spec fn bool_of(v: Option<SqlValueView>) -> Result<bool, Error> {
    match v {
        None => Err(Error::Eof),
        Some(SqlValueView::Text(t)) => Ok(t == "true"@),
        Some(_) => Err(Error::ExpectedBoolean),
    }
}

/// The text that a stored value holds.
pub open spec fn text_of(v: Option<SqlValueView>) -> Result<Seq<char>, Error> {
    match v {
        None => Err(Error::Eof),
        Some(SqlValueView::Text(t)) => Ok(t),
        Some(_) => Err(Error::ExpectedString),
    }
}

/// The decimal text of the real number that a stored value holds.
pub open spec fn real_of(v: Option<SqlValueView>) -> Result<Seq<char>, Error> {
    match v {
        None => Err(Error::Eof),
        Some(SqlValueView::Real(t)) => Ok(t),
        Some(_) => Err(Error::Syntax),
    }
}

/// Whether a stored value is present: every value but the text `NULL` is.
pub open spec fn present_of(v: Option<SqlValueView>) -> Result<bool, Error> {
    match v {
        None => Err(Error::Eof),
        Some(SqlValueView::Text(t)) => Ok(t != "NULL"@),
        Some(_) => Ok(true),
    }
}

/// The number of the variant that a stored value holds: an integer, or a
/// text that writes one in decimal, within 32 bits.
pub open spec fn variant_of(v: Option<SqlValueView>) -> Result<u32, Error> {
    match v {
        None => Err(Error::Eof),
        Some(SqlValueView::Integer(i)) => if 0 <= i <= u32::MAX {
            Ok(i as u32)
        } else {
            Err(Error::ExpectedEnum)
        },
        Some(SqlValueView::Text(t)) => match parse_u64_spec(t) {
            Some(n) => if n <= u32::MAX {
                Ok(n as u32)
            } else {
                Err(Error::ExpectedEnum)
            },
            None => Err(Error::ExpectedEnum),
        },
        Some(_) => Err(Error::ExpectedEnum),
    }
}

/// The value of a field that was stored as `v`.
pub open spec fn field_value_of(v: SqlValueView) -> FieldValueView {
    match v {
        SqlValueView::Integer(i) => FieldValueView::Int(i),
        SqlValueView::Real(t) => FieldValueView::Real(t),
        SqlValueView::Text(t) => if t == "NULL"@ {
            FieldValueView::Absent
        } else {
            FieldValueView::Str(t)
        },
    }
}

/// The fields of the record that was stored as the row `values` in the
/// columns `names`.
pub open spec fn fields_of_row(values: Seq<SqlValueView>, names: Seq<Seq<char>>) -> Seq<FieldView> {
    Seq::new(
        names.len(),
        |i: int|
            FieldView {
                name: spec_to_pascal_case(encode_utf8(names[i])),
                value: field_value_of(values[i]),
            },
    )
}

/// Reads the values of one row, column by column.
pub struct SqlDeserializer {
    row: Vec<SqlValue>,
    field_name: String,
    column_names: Vec<String>,
    column_index: usize,
}

/// What a `SqlDeserializer` holds.
pub struct SqlDeserializerView {
    /// The values of the row, in the order of the columns.
    pub row: Seq<SqlValueView>,
    /// The attribute name of the column read last.
    pub field_name: Seq<char>,
    pub column_names: Seq<Seq<char>>,
    /// The number of columns whose name was read.
    pub column_index: nat,
}

impl SqlDeserializerView {
    /// The value of the column whose name was read last, if a name was read
    /// and the row reaches that far.
    pub open spec fn current(self) -> Option<SqlValueView> {
        if 1 <= self.column_index <= self.row.len() {
            Some(self.row[self.column_index - 1])
        } else {
            None
        }
    }

    /// After the name of the next column was read.
    pub open spec fn after_key(self) -> SqlDeserializerView {
        if self.column_index < self.column_names.len() {
            SqlDeserializerView {
                field_name: spec_to_pascal_case(
                    encode_utf8(self.column_names[self.column_index as int]),
                ),
                column_index: self.column_index + 1,
                ..self
            }
        } else {
            self
        }
    }
}

impl View for SqlDeserializer {
    type V = SqlDeserializerView;

    closed spec fn view(&self) -> SqlDeserializerView {
        SqlDeserializerView {
            row: sql_values_view(self.row@),
            field_name: self.field_name@,
            column_names: strings_view(self.column_names@),
            column_index: self.column_index as nat,
        }
    }
}

/// A copy of a list of stored values.
fn copy_values(values: &Vec<SqlValue>) -> (r: Vec<SqlValue>)
    ensures
        sql_values_view(r@) == sql_values_view(values@),
{
    let mut r: Vec<SqlValue> = Vec::new();
    let mut i: usize = 0;
    while i < values.len()
        invariant
            i <= values.len(),
            sql_values_view(r@) == sql_values_view(values@).take(i as int),
        decreases values.len() - i,
    {
        let ghost before = sql_values_view(r@);
        let v = values[i].duplicate();
        r.push(v);
        assert(sql_values_view(r@) =~= before.push(values@[i as int]@));
        assert(before.push(values@[i as int]@) =~= sql_values_view(values@).take(i + 1));
        i += 1;
    }
    assert(sql_values_view(values@).take(values.len() as int) == sql_values_view(values@));
    r
}

/// A copy of a list of strings.
fn copy_strings(values: &Vec<String>) -> (r: Vec<String>)
    ensures
        strings_view(r@) == strings_view(values@),
{
    let mut r: Vec<String> = Vec::new();
    let mut i: usize = 0;
    while i < values.len()
        invariant
            i <= values.len(),
            strings_view(r@) == strings_view(values@).take(i as int),
        decreases values.len() - i,
    {
        let ghost before = strings_view(r@);
        let v = values[i].clone();
        r.push(v);
        assert(strings_view(r@) =~= before.push(values@[i as int]@));
        assert(before.push(values@[i as int]@) =~= strings_view(values@).take(i + 1));
        i += 1;
    }
    assert(strings_view(values@).take(values.len() as int) == strings_view(values@));
    r
}

impl SqlDeserializer {
    /// A reader of the row `row`, whose columns are named `column_names`,
    /// that has read nothing yet.
    pub fn from_row(row: &Vec<SqlValue>, column_names: &Vec<String>) -> (d: SqlDeserializer)
        ensures
            d@ == (SqlDeserializerView {
                row: sql_values_view(row@),
                field_name: Seq::empty(),
                column_names: strings_view(column_names@),
                column_index: 0,
            }),
    {
        SqlDeserializer {
            row: copy_values(row),
            field_name: String::new(),
            column_names: copy_strings(column_names),
            column_index: 0,
        }
    }

    /// Goes on to the next column and gives the name of the attribute it was
    /// made from; gives nothing, and changes nothing, after the last column.
    pub fn next_key(&mut self) -> (r: Option<String>)
        ensures
            final(self)@ == old(self)@.after_key(),
            match r {
                Some(key) => old(self)@.column_index < old(self)@.column_names.len() && key@
                    == final(self)@.field_name,
                None => old(self)@.column_index >= old(self)@.column_names.len(),
            },
    {
        if self.column_index >= self.column_names.len() {
            return None;
        }
        self.field_name = to_pascal_case(self.column_names[self.column_index].as_str());
        self.column_index = self.column_index + 1;
        Some(self.field_name.clone())
    }

    /// The whole number in the current column, where it lies from `lo` to
    /// `hi`.
    fn integer(&self, lo: i64, hi: i64) -> (r: Result<i64, Error>)
        ensures
            match int_in_range(self@.current(), lo as int, hi as int) {
                Ok(v) => r == Ok::<i64, Error>(v as i64),
                Err(e) => r == Err::<i64, Error>(e),
            },
    {
        if self.column_index < 1 || self.column_index > self.row.len() {
            return Err(Error::Eof);
        }
        assert(self@.current() == Some(self.row@[self.column_index - 1]@));
        match &self.row[self.column_index - 1] {
            SqlValue::Integer(i) => if lo <= *i && *i <= hi {
                Ok(*i)
            } else {
                Err(Error::ExpectedInteger)
            },
            _ => Err(Error::ExpectedInteger),
        }
    }

    /// The whole number in the current column, where it fits 8 bits.
    pub fn deserialize_i8(&self) -> (r: Result<i8, Error>)
        ensures
            match int_in_range(self@.current(), i8::MIN as int, i8::MAX as int) {
                Ok(v) => r == Ok::<i8, Error>(v as i8),
                Err(e) => r == Err::<i8, Error>(e),
            },
    {
        match self.integer(-128, 127) {
            Ok(v) => Ok(v as i8),
            Err(e) => Err(e),
        }
    }

    /// The whole number in the current column, where it fits 16 bits.
    pub fn deserialize_i16(&self) -> (r: Result<i16, Error>)
        ensures
            match int_in_range(self@.current(), i16::MIN as int, i16::MAX as int) {
                Ok(v) => r == Ok::<i16, Error>(v as i16),
                Err(e) => r == Err::<i16, Error>(e),
            },
    {
        match self.integer(-32768, 32767) {
            Ok(v) => Ok(v as i16),
            Err(e) => Err(e),
        }
    }

    /// The whole number in the current column, where it fits 32 bits.
    pub fn deserialize_i32(&self) -> (r: Result<i32, Error>)
        ensures
            match int_in_range(self@.current(), i32::MIN as int, i32::MAX as int) {
                Ok(v) => r == Ok::<i32, Error>(v as i32),
                Err(e) => r == Err::<i32, Error>(e),
            },
    {
        match self.integer(-2147483648, 2147483647) {
            Ok(v) => Ok(v as i32),
            Err(e) => Err(e),
        }
    }

    /// The whole number in the current column.
    pub fn deserialize_i64(&self) -> (r: Result<i64, Error>)
        ensures
            match int_in_range(self@.current(), i64::MIN as int, i64::MAX as int) {
                Ok(v) => r == Ok::<i64, Error>(v as i64),
                Err(e) => r == Err::<i64, Error>(e),
            },
    {
        self.integer(i64::MIN, i64::MAX)
    }

    /// The whole number in the current column, where it is not negative and fits
    /// 8 bits.
    pub fn deserialize_u8(&self) -> (r: Result<u8, Error>)
        ensures
            match int_in_range(self@.current(), 0, u8::MAX as int) {
                Ok(v) => r == Ok::<u8, Error>(v as u8),
                Err(e) => r == Err::<u8, Error>(e),
            },
    {
        match self.integer(0, 255) {
            Ok(v) => Ok(v as u8),
            Err(e) => Err(e),
        }
    }

    /// The whole number in the current column, where it is not negative and fits
    /// 16 bits.
    pub fn deserialize_u16(&self) -> (r: Result<u16, Error>)
        ensures
            match int_in_range(self@.current(), 0, u16::MAX as int) {
                Ok(v) => r == Ok::<u16, Error>(v as u16),
                Err(e) => r == Err::<u16, Error>(e),
            },
    {
        match self.integer(0, 65535) {
            Ok(v) => Ok(v as u16),
            Err(e) => Err(e),
        }
    }

    /// The whole number in the current column, where it is not negative and fits
    /// 32 bits.
    pub fn deserialize_u32(&self) -> (r: Result<u32, Error>)
        ensures
            match int_in_range(self@.current(), 0, u32::MAX as int) {
                Ok(v) => r == Ok::<u32, Error>(v as u32),
                Err(e) => r == Err::<u32, Error>(e),
            },
    {
        match self.integer(0, 4294967295) {
            Ok(v) => Ok(v as u32),
            Err(e) => Err(e),
        }
    }

    /// A stored integer is signed: an unsigned number is read where it is
    /// not negative.
    pub fn deserialize_u64(&self) -> (r: Result<u64, Error>)
        ensures
            match int_in_range(self@.current(), 0, i64::MAX as int) {
                Ok(v) => r == Ok::<u64, Error>(v as u64),
                Err(e) => r == Err::<u64, Error>(e),
            },
    {
        match self.integer(0, i64::MAX) {
            Ok(v) => Ok(v as u64),
            Err(e) => Err(e),
        }
    }

    /// The boolean in the current column.
    pub fn deserialize_bool(&self) -> (r: Result<bool, Error>)
        ensures
            r == bool_of(self@.current()),
    {
        if self.column_index < 1 || self.column_index > self.row.len() {
            return Err(Error::Eof);
        }
        assert(self@.current() == Some(self.row@[self.column_index - 1]@));
        match &self.row[self.column_index - 1] {
            SqlValue::Text(t) => Ok(str_equal(t.as_str(), "true")),
            _ => Err(Error::ExpectedBoolean),
        }
    }

    /// The text in the current column.
    pub fn deserialize_str(&self) -> (r: Result<String, Error>)
        ensures
            match text_of(self@.current()) {
                Ok(t) => r matches Ok(s) && s@ == t,
                Err(e) => r == Err::<String, Error>(e),
            },
    {
        if self.column_index < 1 || self.column_index > self.row.len() {
            return Err(Error::Eof);
        }
        assert(self@.current() == Some(self.row@[self.column_index - 1]@));
        match &self.row[self.column_index - 1] {
            SqlValue::Text(t) => Ok(t.clone()),
            _ => Err(Error::ExpectedString),
        }
    }

    /// The text in the current column.
    pub fn deserialize_string(&self) -> (r: Result<String, Error>)
        ensures
            match text_of(self@.current()) {
                Ok(t) => r matches Ok(s) && s@ == t,
                Err(e) => r == Err::<String, Error>(e),
            },
    {
        self.deserialize_str()
    }

    /// The real number in the current column, as its decimal text.
    pub fn deserialize_real(&self) -> (r: Result<String, Error>)
        ensures
            match real_of(self@.current()) {
                Ok(t) => r matches Ok(s) && s@ == t,
                Err(e) => r == Err::<String, Error>(e),
            },
    {
        if self.column_index < 1 || self.column_index > self.row.len() {
            return Err(Error::Eof);
        }
        assert(self@.current() == Some(self.row@[self.column_index - 1]@));
        match &self.row[self.column_index - 1] {
            SqlValue::Real(t) => Ok(t.clone()),
            _ => Err(Error::Syntax),
        }
    }

    /// Whether the current column holds a value: the text `NULL` stands for
    /// none.
    pub fn deserialize_option(&self) -> (r: Result<bool, Error>)
        ensures
            r == present_of(self@.current()),
    {
        if self.column_index < 1 || self.column_index > self.row.len() {
            return Err(Error::Eof);
        }
        assert(self@.current() == Some(self.row@[self.column_index - 1]@));
        match &self.row[self.column_index - 1] {
            SqlValue::Text(t) => Ok(!str_equal(t.as_str(), "NULL")),
            _ => Ok(true),
        }
    }

    /// The number of the variant in the current column.
    pub fn deserialize_enum(&self) -> (r: Result<u32, Error>)
        ensures
            r == variant_of(self@.current()),
    {
        if self.column_index < 1 || self.column_index > self.row.len() {
            return Err(Error::Eof);
        }
        assert(self@.current() == Some(self.row@[self.column_index - 1]@));
        match &self.row[self.column_index - 1] {
            SqlValue::Integer(i) => if 0 <= *i && *i <= 4294967295 {
                Ok(*i as u32)
            } else {
                Err(Error::ExpectedEnum)
            },
            SqlValue::Text(t) => match parse_u64(t.as_str()) {
                Some(n) => if n <= 4294967295 {
                    Ok(n as u32)
                } else {
                    Err(Error::ExpectedEnum)
                },
                None => Err(Error::ExpectedEnum),
            },
            _ => Err(Error::ExpectedEnum),
        }
    }
}

/// The value of a field that was stored as `v`.
pub fn field_value(v: &SqlValue) -> (r: FieldValue)
    ensures
        r@ == field_value_of(v@),
{
    match v {
        SqlValue::Integer(i) => FieldValue::Int(*i),
        SqlValue::Real(t) => FieldValue::Real(t.clone()),
        SqlValue::Text(t) => if str_equal(t.as_str(), "NULL") {
            FieldValue::Absent
        } else {
            FieldValue::Str(t.clone())
        },
    }
}

/// The fields of the record that was stored as `row` in the columns
/// `column_names`: each named as the attribute that its column was made
/// from. A row with fewer values than columns ends too early; one with more
/// has values left over.
pub fn from_row(row: &Vec<SqlValue>, column_names: &Vec<String>) -> (r: Result<Vec<Field>, Error>)
    ensures
        row.len() < column_names.len() ==> r == Err::<Vec<Field>, Error>(Error::Eof),
        row.len() > column_names.len() ==> r == Err::<Vec<Field>, Error>(
            Error::TrailingCharacters,
        ),
        row.len() == column_names.len() ==> (r matches Ok(fields) && record_view(fields@)
            == fields_of_row(sql_values_view(row@), strings_view(column_names@))),
{
    if row.len() < column_names.len() {
        return Err(Error::Eof);
    }
    if row.len() > column_names.len() {
        return Err(Error::TrailingCharacters);
    }
    let ghost all = fields_of_row(sql_values_view(row@), strings_view(column_names@));
    let mut fields: Vec<Field> = Vec::new();
    let mut i: usize = 0;
    while i < column_names.len()
        invariant
            i <= column_names.len(),
            row.len() == column_names.len(),
            all == fields_of_row(sql_values_view(row@), strings_view(column_names@)),
            record_view(fields@) == all.take(i as int),
        decreases column_names.len() - i,
    {
        let name = to_pascal_case(column_names[i].as_str());
        let value = field_value(&row[i]);
        let ghost before = record_view(fields@);
        let field = Field { name, value };
        assert(field@ == all[i as int]) by {
            assert(sql_values_view(row@)[i as int] == row@[i as int]@);
            assert(strings_view(column_names@)[i as int] == column_names@[i as int]@);
        }
        fields.push(field);
        assert(record_view(fields@) =~= before.push(all[i as int]));
        assert(before.push(all[i as int]) =~= all.take(i + 1));
        i += 1;
    }
    assert(all.take(column_names.len() as int) == all);
    Ok(fields)
}

} // verus!
