use lumus_sql_builder::errors::SqlBuilderError;
use lumus_sql_builder::sqlite::{Column, CreateTable, Delete, Insert, Join, JoinType, Select, Update, Where};

#[test]
fn every_error_has_its_message() {
    assert_eq!(SqlBuilderError::EmptyTableName.message(), "Table name cannot be empty.");
    assert_eq!(SqlBuilderError::EmptyColumnName.message(), "Column name cannot be empty.");
    assert_eq!(
        SqlBuilderError::EmptyColumnAndValue.message(),
        "The column and the value to be inserted cannot be empty."
    );
    assert_eq!(SqlBuilderError::EmptyValue.message(), "The value cannot be empty.");
    assert_eq!(SqlBuilderError::NoColumnsSpecified.message(), "No columns specified for table.");
    assert_eq!(
        SqlBuilderError::InvalidColumnType.message(),
        "The specified column type is invalid."
    );
    assert_eq!(SqlBuilderError::InvalidQuery.message(), "The query is invalid.");
    assert_eq!(SqlBuilderError::EmptyCondition.message(), "The conditions cannot be empty.");
    assert_eq!(SqlBuilderError::EmptyOnClause.message(), "The on clause cannot be empty.");
}

#[test]
fn empty_table_name_is_reported_by_every_statement() {
    assert_eq!(Select::new("").build(), Err(SqlBuilderError::EmptyTableName));
    assert_eq!(
        Insert::new("").values(vec![("a", "b")]).build(),
        Err(SqlBuilderError::EmptyTableName)
    );
    assert_eq!(
        Update::new("").set(vec![("a", "b")]).build(),
        Err(SqlBuilderError::EmptyTableName)
    );
    assert_eq!(Delete::new("").build(), Err(SqlBuilderError::EmptyTableName));
    assert_eq!(
        CreateTable::new("", vec![Column::new("id").integer()]).build(),
        Err(SqlBuilderError::EmptyTableName)
    );
    assert_eq!(
        Join::new("", JoinType::Inner, "a = b").build(),
        Err(SqlBuilderError::EmptyTableName)
    );
}

#[test]
fn table_name_is_checked_before_anything_else() {
    assert_eq!(Insert::new("").build(), Err(SqlBuilderError::EmptyTableName));
    assert_eq!(Insert::new("").values(vec![("", "")]).build(), Err(SqlBuilderError::EmptyTableName));
    assert_eq!(Update::new("").build(), Err(SqlBuilderError::EmptyTableName));
    assert_eq!(CreateTable::new("", vec![]).build(), Err(SqlBuilderError::EmptyTableName));
    assert_eq!(
        Delete::new("").condition(String::new()).build(),
        Err(SqlBuilderError::EmptyTableName)
    );
    assert_eq!(Join::new("", JoinType::Left, "").build(), Err(SqlBuilderError::EmptyTableName));
}

#[test]
fn empty_pair_list_is_reported() {
    assert_eq!(Insert::new("t").build(), Err(SqlBuilderError::EmptyColumnAndValue));
    assert_eq!(Insert::new("t").values(vec![]).build(), Err(SqlBuilderError::EmptyColumnAndValue));
    assert_eq!(Update::new("t").build(), Err(SqlBuilderError::EmptyColumnAndValue));
    assert_eq!(Update::new("t").set(vec![]).build(), Err(SqlBuilderError::EmptyColumnAndValue));
}

#[test]
fn pairs_are_checked_in_order_and_the_first_failure_wins() {
    assert_eq!(
        Insert::new("t").values(vec![("", "")]).build(),
        Err(SqlBuilderError::EmptyColumnName)
    );
    assert_eq!(
        Insert::new("t").values(vec![("a", ""), ("", "b")]).build(),
        Err(SqlBuilderError::EmptyValue)
    );
    assert_eq!(
        Insert::new("t").values(vec![("a", "1"), ("", "b"), ("c", "")]).build(),
        Err(SqlBuilderError::EmptyColumnName)
    );
    assert_eq!(
        Update::new("t").set(vec![("a", "1"), ("b", ""), ("", "c")]).build(),
        Err(SqlBuilderError::EmptyValue)
    );
    assert_eq!(
        Update::new("t").set(vec![("", "")]).build(),
        Err(SqlBuilderError::EmptyColumnName)
    );
}

#[test]
fn empty_condition_is_reported_by_delete() {
    assert_eq!(
        Delete::new("t").condition(String::new()).build(),
        Err(SqlBuilderError::EmptyCondition)
    );
}

#[test]
fn empty_on_clause_is_reported_by_join() {
    assert_eq!(Join::new("t", JoinType::Inner, "").build(), Err(SqlBuilderError::EmptyOnClause));
}

#[test]
fn table_without_columns_is_reported() {
    assert_eq!(CreateTable::new("t", vec![]).build(), Err(SqlBuilderError::NoColumnsSpecified));
    assert_eq!(
        CreateTable::new("t", vec![]).if_not_exists().build(),
        Err(SqlBuilderError::NoColumnsSpecified)
    );
}

#[test]
fn column_without_type_or_literal_is_reported() {
    assert_eq!(Column::new("c").build(), Err(SqlBuilderError::InvalidColumnType));
    assert_eq!(Column::new("c").not_null().build(), Err(SqlBuilderError::InvalidColumnType));
    assert_eq!(
        CreateTable::new("t", vec![Column::new("c")]).build(),
        Err(SqlBuilderError::InvalidColumnType)
    );
    assert_eq!(
        CreateTable::new("t", vec![Column::new("id").integer(), Column::new("c").unique()]).build(),
        Err(SqlBuilderError::InvalidColumnType)
    );
}

#[test]
fn column_name_is_checked_before_the_type() {
    assert_eq!(Column::new("").build(), Err(SqlBuilderError::EmptyColumnName));
    assert_eq!(Column::new("").integer().build(), Err(SqlBuilderError::EmptyColumnName));
    assert_eq!(
        CreateTable::new("t", vec![Column::new("").text(), Column::new("c")]).build(),
        Err(SqlBuilderError::EmptyColumnName)
    );
    assert_eq!(
        CreateTable::new("t", vec![Column::new("c"), Column::new("").text()]).build(),
        Err(SqlBuilderError::InvalidColumnType)
    );
}

#[test]
fn predicate_without_field_or_value_is_refused_and_leaves_the_condition() {
    let mut condition = Where::from("a = 'b'");
    assert_eq!(
        condition.add_predicate("", "=", "'x'").err(),
        Some(SqlBuilderError::EmptyColumnName)
    );
    assert_eq!(condition.add_predicate("", "IS NULL", "").err(), Some(SqlBuilderError::EmptyColumnName));
    assert_eq!(condition.add_predicate("f", "=", "").err(), Some(SqlBuilderError::EmptyValue));
    assert_eq!(condition.add_predicate("", "=", "").err(), Some(SqlBuilderError::EmptyColumnName));
    assert_eq!(condition.build(), "a = 'b'");
}

#[test]
fn invalid_query_is_reported_when_reading_a_select() {
    assert_eq!(Select::from("").err(), Some(SqlBuilderError::InvalidQuery));
    assert_eq!(Select::from("DELETE * FROM t").err(), Some(SqlBuilderError::InvalidQuery));
}
