use lumus_sql_builder::sqlite::create::{Column, CreateTable};
use lumus_sql_builder::sqlite::{ColumnOption, ColumnType};

#[test]
fn lenient_column_with_type_and_options() {
    assert_eq!(
        Column::new("id").integer().primary_key().auto_increment().build(),
        "id INTEGER PRIMARY KEY AUTOINCREMENT"
    );
    assert_eq!(Column::new("name").text().not_null().unique().build(), "name TEXT NOT NULL UNIQUE");
    assert_eq!(Column::new("price").real_().default("0").build(), "price REAL DEFAULT 0");
}

#[test]
fn lenient_column_with_type_only() {
    assert_eq!(Column::new("a").integer().build(), "a INTEGER");
    assert_eq!(Column::new("a").text().build(), "a TEXT");
    assert_eq!(Column::new("a").real_().build(), "a REAL");
    assert_eq!(Column::new("a").boolean().build(), "a BOOLEAN");
    assert_eq!(Column::new("a").blob().build(), "a BLOB");
    assert_eq!(Column::new("a").numeric().build(), "a NUMERIC");
    assert_eq!(Column::new("a").date().build(), "a DATE");
    assert_eq!(Column::new("a").time().build(), "a TIME");
    assert_eq!(Column::new("a").datetime().build(), "a DATETIME");
}

#[test]
fn lenient_column_without_type_is_written_with_an_empty_type() {
    assert_eq!(Column::new("a").not_null().build(), "a  NOT NULL");
    assert_eq!(Column::new("a").build(), "a ");
    assert_eq!(Column::new("").build(), " ");
}

#[test]
fn lenient_column_literal_is_written_only_without_type_and_options() {
    assert_eq!(Column::new("a").literal("VARCHAR(20) NOT NULL").build(), "a VARCHAR(20) NOT NULL");
    assert_eq!(Column::new("a").literal("X").integer().build(), "a INTEGER");
    assert_eq!(Column::new("a").literal("X").unique().build(), "a  UNIQUE");
    assert_eq!(Column::new("a").literal("X").literal("Y").build(), "a Y");
    assert_eq!(Column::new("a").literal("").build(), "a ");
}

#[test]
fn lenient_column_option_with_empty_default() {
    assert_eq!(Column::new("a").text().default("").build(), "a TEXT DEFAULT ");
    assert_eq!(Column::new("a").default("''").build(), "a  DEFAULT ''");
}

#[test]
fn the_last_type_wins() {
    assert_eq!(Column::new("a").integer().text().build(), "a TEXT");
}

#[test]
fn lenient_create_table_lists_the_columns() {
    let create = CreateTable::new(
        "users",
        vec![Column::new("id").integer().primary_key(), Column::new("name").text()],
    );
    assert_eq!(create.build(), "CREATE TABLE users (id INTEGER PRIMARY KEY, name TEXT);");
    assert_eq!(
        create.if_not_exists().build(),
        "CREATE TABLE IF NOT EXISTS users (id INTEGER PRIMARY KEY, name TEXT);"
    );
}

#[test]
fn lenient_create_table_checks_nothing() {
    assert_eq!(CreateTable::new("t", vec![]).build(), "CREATE TABLE t ();");
    assert_eq!(CreateTable::new("", vec![]).build(), "CREATE TABLE  ();");
    assert_eq!(CreateTable::new("t", vec![Column::new("c")]).build(), "CREATE TABLE t (c );");
}

#[test]
fn lenient_create_table_is_repeatable() {
    let create = CreateTable::new("t", vec![Column::new("c").literal("INT")]);
    assert_eq!(create.build(), create.build());
    assert_eq!(create.build(), "CREATE TABLE t (c INT);");
}

#[test]
fn column_types_have_their_keywords() {
    assert_eq!(ColumnType::Integer.build(), "INTEGER");
    assert_eq!(ColumnType::Text.build(), "TEXT");
    assert_eq!(ColumnType::Real.build(), "REAL");
    assert_eq!(ColumnType::Boolean.build(), "BOOLEAN");
    assert_eq!(ColumnType::Blob.build(), "BLOB");
    assert_eq!(ColumnType::Numeric.build(), "NUMERIC");
    assert_eq!(ColumnType::Date.build(), "DATE");
    assert_eq!(ColumnType::Time.build(), "TIME");
    assert_eq!(ColumnType::Datetime.build(), "DATETIME");
}

#[test]
fn column_options_have_their_text() {
    assert_eq!(ColumnOption::NotNull.build(), "NOT NULL");
    assert_eq!(ColumnOption::Unique.build(), "UNIQUE");
    assert_eq!(ColumnOption::Default("CURRENT_DATE".to_string()).build(), "DEFAULT CURRENT_DATE");
    assert_eq!(ColumnOption::AutoIncrement.build(), "AUTOINCREMENT");
    assert_eq!(ColumnOption::PrimaryKey.build(), "PRIMARY KEY");
}
