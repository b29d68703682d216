//! The validation failures that the statement builders report.

use vstd::prelude::*;
use vstd::string::*;

verus! {

/// Why a builder refused to render a statement.
#[derive(Debug, Clone, Copy, PartialEq, Eq, Structural)]
pub enum SqlBuilderError {
    /// The target table name is empty.
    EmptyTableName,
    /// A column (or field) name is empty.
    EmptyColumnName,
    /// The list of column/value pairs is empty.
    EmptyColumnAndValue,
    /// A value is empty.
    EmptyValue,
    /// A table is to be created without any column.
    NoColumnsSpecified,
    /// A column definition has neither a type nor a literal definition.
    InvalidColumnType,
    /// A query string could not be read back into a builder.
    InvalidQuery,
    /// A condition was set, but it is empty.
    EmptyCondition,
    /// The `ON` expression of a join is empty.
    EmptyOnClause,
}

impl SqlBuilderError {
    /// The human-readable message of each error kind.
    pub open spec fn message_text(self) -> Seq<char> {
        match self {
            SqlBuilderError::EmptyTableName => "Table name cannot be empty."@,
            SqlBuilderError::EmptyColumnName => "Column name cannot be empty."@,
            SqlBuilderError::EmptyColumnAndValue =>
                "The column and the value to be inserted cannot be empty."@,
            SqlBuilderError::EmptyValue => "The value cannot be empty."@,
            SqlBuilderError::NoColumnsSpecified => "No columns specified for table."@,
            SqlBuilderError::InvalidColumnType => "The specified column type is invalid."@,
            SqlBuilderError::InvalidQuery => "The query is invalid."@,
            SqlBuilderError::EmptyCondition => "The conditions cannot be empty."@,
            SqlBuilderError::EmptyOnClause => "The on clause cannot be empty."@,
        }
    }

    /// Returns the message for display.
    pub fn message(&self) -> (text: String)
        ensures
            text@ == self.message_text(),
    {
        match self {
            SqlBuilderError::EmptyTableName => String::from_str("Table name cannot be empty."),
            SqlBuilderError::EmptyColumnName => String::from_str("Column name cannot be empty."),
            SqlBuilderError::EmptyColumnAndValue => String::from_str(
                "The column and the value to be inserted cannot be empty.",
            ),
            SqlBuilderError::EmptyValue => String::from_str("The value cannot be empty."),
            SqlBuilderError::NoColumnsSpecified => String::from_str(
                "No columns specified for table.",
            ),
            SqlBuilderError::InvalidColumnType => String::from_str(
                "The specified column type is invalid.",
            ),
            SqlBuilderError::InvalidQuery => String::from_str("The query is invalid."),
            SqlBuilderError::EmptyCondition => String::from_str("The conditions cannot be empty."),
            SqlBuilderError::EmptyOnClause => String::from_str("The on clause cannot be empty."),
        }
    }
}

} // verus!
