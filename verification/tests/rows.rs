use dlrs::error::Error;
use dlrs::row::{field_value, from_row, SqlDeserializer};
use dlrs::sql_utils::{Field, FieldValue, SqlValue};

#[derive(Debug, PartialEq)]
enum TestEnum {
    Foo,
    Bar,
}

#[derive(Debug, PartialEq)]
struct Test {
    int: u32,
    name: String,
    test_enum: TestEnum,
}

fn test_enum(number: u32) -> Option<TestEnum> {
    match number {
        1 => Some(TestEnum::Foo),
        2 => Some(TestEnum::Bar),
        _ => None,
    }
}

fn columns(names: &[&str]) -> Vec<String> {
    names.iter().map(|n| n.to_string()).collect()
}

fn text(s: &str) -> SqlValue {
    SqlValue::Text(s.to_string())
}

#[test]
fn test_struct() {
    let expected = Test { int: 1, name: String::from("Jules"), test_enum: TestEnum::Bar };

    // the row of: INSERT INTO test VALUES (1, "Jules", "2");
    // in: CREATE TABLE test (int INTEGER NOT NULL, name TEXT NOT NULL, test_enum TEXT);
    let row = vec![SqlValue::Integer(1), text("Jules"), text("2")];
    let column_names = columns(&["int", "name", "test_enum"]);
    let mut de = SqlDeserializer::from_row(&row, &column_names);
    assert_eq!(de.next_key(), Some("@Int".to_string()));
    let int = de.deserialize_u32().unwrap();
    assert_eq!(de.next_key(), Some("@Name".to_string()));
    let name = de.deserialize_string().unwrap();
    assert_eq!(de.next_key(), Some("@TestEnum".to_string()));
    let number = de.deserialize_enum().unwrap();
    assert_eq!(de.next_key(), None);
    let test = Test { int, name, test_enum: test_enum(number).unwrap() };
    assert_eq!(expected, test);
}

#[test]
fn reading_before_the_first_key_ends_early() {
    let row = vec![SqlValue::Integer(1)];
    let de = SqlDeserializer::from_row(&row, &columns(&["a"]));
    assert_eq!(de.deserialize_i64(), Err(Error::Eof));
    assert_eq!(de.deserialize_str(), Err(Error::Eof));
    assert_eq!(de.deserialize_bool(), Err(Error::Eof));
    assert_eq!(de.deserialize_option(), Err(Error::Eof));
    assert_eq!(de.deserialize_enum(), Err(Error::Eof));
    assert_eq!(de.deserialize_real(), Err(Error::Eof));
}

#[test]
fn reading_past_the_row_ends_early() {
    let row = vec![SqlValue::Integer(1)];
    let mut de = SqlDeserializer::from_row(&row, &columns(&["a", "b"]));
    assert_eq!(de.next_key(), Some("@A".to_string()));
    assert_eq!(de.deserialize_i64(), Ok(1));
    assert_eq!(de.next_key(), Some("@B".to_string()));
    assert_eq!(de.deserialize_i64(), Err(Error::Eof));
    assert_eq!(de.next_key(), None);
    assert_eq!(de.next_key(), None);
}

#[test]
fn integers_are_read_within_their_range() {
    let row = vec![SqlValue::Integer(300), SqlValue::Integer(-1), text("5")];
    let mut de = SqlDeserializer::from_row(&row, &columns(&["a", "b", "c"]));
    de.next_key();
    assert_eq!(de.deserialize_i64(), Ok(300));
    assert_eq!(de.deserialize_i32(), Ok(300));
    assert_eq!(de.deserialize_i16(), Ok(300));
    assert_eq!(de.deserialize_u16(), Ok(300));
    assert_eq!(de.deserialize_u32(), Ok(300));
    assert_eq!(de.deserialize_u64(), Ok(300));
    assert_eq!(de.deserialize_i8(), Err(Error::ExpectedInteger));
    assert_eq!(de.deserialize_u8(), Err(Error::ExpectedInteger));
    de.next_key();
    assert_eq!(de.deserialize_i8(), Ok(-1));
    assert_eq!(de.deserialize_u8(), Err(Error::ExpectedInteger));
    assert_eq!(de.deserialize_u16(), Err(Error::ExpectedInteger));
    assert_eq!(de.deserialize_u32(), Err(Error::ExpectedInteger));
    assert_eq!(de.deserialize_u64(), Err(Error::ExpectedInteger));
    de.next_key();
    assert_eq!(de.deserialize_i64(), Err(Error::ExpectedInteger));
}

#[test]
fn integer_limits() {
    let row = vec![
        SqlValue::Integer(127),
        SqlValue::Integer(128),
        SqlValue::Integer(-128),
        SqlValue::Integer(-129),
        SqlValue::Integer(255),
        SqlValue::Integer(256),
        SqlValue::Integer(i64::MAX),
        SqlValue::Integer(i64::MIN),
    ];
    let names = columns(&["a", "b", "c", "d", "e", "f", "g", "h"]);
    let mut de = SqlDeserializer::from_row(&row, &names);
    de.next_key();
    assert_eq!(de.deserialize_i8(), Ok(127));
    de.next_key();
    assert_eq!(de.deserialize_i8(), Err(Error::ExpectedInteger));
    de.next_key();
    assert_eq!(de.deserialize_i8(), Ok(-128));
    de.next_key();
    assert_eq!(de.deserialize_i8(), Err(Error::ExpectedInteger));
    de.next_key();
    assert_eq!(de.deserialize_u8(), Ok(255));
    de.next_key();
    assert_eq!(de.deserialize_u8(), Err(Error::ExpectedInteger));
    de.next_key();
    assert_eq!(de.deserialize_u64(), Ok(i64::MAX as u64));
    assert_eq!(de.deserialize_i32(), Err(Error::ExpectedInteger));
    de.next_key();
    assert_eq!(de.deserialize_i64(), Ok(i64::MIN));
    assert_eq!(de.deserialize_u64(), Err(Error::ExpectedInteger));
}

#[test]
fn texts_booleans_and_absent_values() {
    let row = vec![text("true"), text("false"), text("NULL"), text("x"), SqlValue::Integer(0), SqlValue::Real("1.5".to_string())];
    let names = columns(&["a", "b", "c", "d", "e", "f"]);
    let mut de = SqlDeserializer::from_row(&row, &names);
    de.next_key();
    assert_eq!(de.deserialize_bool(), Ok(true));
    assert_eq!(de.deserialize_option(), Ok(true));
    de.next_key();
    assert_eq!(de.deserialize_bool(), Ok(false));
    de.next_key();
    assert_eq!(de.deserialize_option(), Ok(false));
    assert_eq!(de.deserialize_str(), Ok("NULL".to_string()));
    assert_eq!(de.deserialize_bool(), Ok(false));
    de.next_key();
    assert_eq!(de.deserialize_str(), Ok("x".to_string()));
    assert_eq!(de.deserialize_real(), Err(Error::Syntax));
    de.next_key();
    assert_eq!(de.deserialize_bool(), Err(Error::ExpectedBoolean));
    assert_eq!(de.deserialize_str(), Err(Error::ExpectedString));
    assert_eq!(de.deserialize_string(), Err(Error::ExpectedString));
    assert_eq!(de.deserialize_option(), Ok(true));
    de.next_key();
    assert_eq!(de.deserialize_real(), Ok("1.5".to_string()));
    assert_eq!(de.deserialize_option(), Ok(true));
    assert_eq!(de.deserialize_enum(), Err(Error::ExpectedEnum));
}

#[test]
fn variants_are_read_from_numbers_and_numeric_texts() {
    let row = vec![
        text("2"),
        SqlValue::Integer(3),
        text("Gold"),
        SqlValue::Integer(-1),
        text("4294967295"),
        text("4294967296"),
        SqlValue::Integer(4294967296),
        text(""),
    ];
    let names = columns(&["a", "b", "c", "d", "e", "f", "g", "h"]);
    let mut de = SqlDeserializer::from_row(&row, &names);
    let mut read = Vec::new();
    while de.next_key().is_some() {
        read.push(de.deserialize_enum());
    }
    assert_eq!(
        read,
        vec![
            Ok(2),
            Ok(3),
            Err(Error::ExpectedEnum),
            Err(Error::ExpectedEnum),
            Ok(u32::MAX),
            Err(Error::ExpectedEnum),
            Err(Error::ExpectedEnum),
            Err(Error::ExpectedEnum),
        ]
    );
}

#[test]
fn from_row_names_the_fields_as_attributes() {
    let row = vec![SqlValue::Integer(3), text("rust"), text("NULL"), SqlValue::Real("0.5".to_string())];
    let names = columns(&["id", "tag_name", "wiki_post_id", "weight"]);
    assert_eq!(
        from_row(&row, &names),
        Ok(vec![
            Field { name: "@Id".to_string(), value: FieldValue::Int(3) },
            Field { name: "@TagName".to_string(), value: FieldValue::Str("rust".to_string()) },
            Field { name: "@WikiPostId".to_string(), value: FieldValue::Absent },
            Field { name: "@Weight".to_string(), value: FieldValue::Real("0.5".to_string()) },
        ])
    );
    assert_eq!(from_row(&Vec::new(), &Vec::new()), Ok(Vec::new()));
}

#[test]
fn from_row_wants_one_value_for_each_column() {
    let names = columns(&["id", "tag_name"]);
    assert_eq!(from_row(&vec![SqlValue::Integer(3)], &names), Err(Error::Eof));
    assert_eq!(
        from_row(&vec![SqlValue::Integer(3), text("a"), text("b")], &names),
        Err(Error::TrailingCharacters)
    );
}

#[test]
fn stored_values_come_back_as_field_values() {
    assert_eq!(field_value(&SqlValue::Integer(-4)), FieldValue::Int(-4));
    assert_eq!(field_value(&text("NULL")), FieldValue::Absent);
    assert_eq!(field_value(&text("null")), FieldValue::Str("null".to_string()));
    assert_eq!(field_value(&text("")), FieldValue::Str("".to_string()));
    assert_eq!(field_value(&SqlValue::Real("2".to_string())), FieldValue::Real("2".to_string()));
}
