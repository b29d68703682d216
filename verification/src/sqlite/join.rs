//! The `JOIN` clause.

use vstd::prelude::*;
use vstd::string::*;
use crate::errors::SqlBuilderError;
use crate::text::built_text;

verus! {

/// The kind of a join.
#[derive(Debug, Clone, Copy, PartialEq, Eq, Structural)]
pub enum JoinType {
    Inner,
    Left,
    Right,
    RightOuter,
    LeftOuter,
    Full,
}

impl JoinType {
    /// The keywords that stand for the kind, before `JOIN`.
    pub open spec fn keyword(self) -> Seq<char> {
        match self {
            JoinType::Inner => "INNER"@,
            JoinType::Left => "LEFT"@,
            JoinType::Right => "RIGHT"@,
            JoinType::RightOuter => "RIGHT OUTER"@,
            JoinType::LeftOuter => "LEFT OUTER"@,
            JoinType::Full => "FULL"@,
        }
    }

    /// Renders the kind.
    pub fn build(&self) -> (out: String)
        ensures
            out@ == self.keyword(),
    {
        String::from_str(
            match self {
                JoinType::Inner => "INNER",
                JoinType::Left => "LEFT",
                JoinType::Right => "RIGHT",
                JoinType::RightOuter => "RIGHT OUTER",
                JoinType::LeftOuter => "LEFT OUTER",
                JoinType::Full => "FULL",
            },
        )
    }
}

/// Builds a `JOIN` clause from a table, a kind and an `ON` expression.
#[derive(Debug)]
pub struct Join {
    table: String,
    join_type: JoinType,
    on: String,
}

/// What a [`Join`] holds.
pub struct JoinView {
    pub table: Seq<char>,
    pub join_type: JoinType,
    pub on: Seq<char>,
}

impl JoinView {
    /// What `build` returns. The table is checked first, then the `ON`
    /// expression; neither may be empty.
    pub open spec fn built(self) -> Result<Seq<char>, SqlBuilderError> {
        if self.table.len() == 0 {
            Err(SqlBuilderError::EmptyTableName)
        } else if self.on.len() == 0 {
            Err(SqlBuilderError::EmptyOnClause)
        } else {
            Ok(self.join_type.keyword() + " JOIN "@ + self.table + " ON "@ + self.on)
        }
    }
}

impl View for Join {
    type V = JoinView;

    closed spec fn view(&self) -> JoinView {
        JoinView { table: self.table@, join_type: self.join_type, on: self.on@ }
    }
}

impl Join {
    /// Describes a join with `table` on the expression `on`.
    pub fn new(table: &str, join_type: JoinType, on: &str) -> (join: Self)
        ensures
            join@ == (JoinView { table: table@, join_type, on: on@ }),
    {
        Self { table: String::from_str(table), join_type, on: String::from_str(on) }
    }

    /// Renders the clause.
    pub fn build(self) -> (r: Result<String, SqlBuilderError>)
        ensures
            built_text(r) == self@.built(),
    {
        if self.table.as_str().is_empty() {
            return Err(SqlBuilderError::EmptyTableName);
        }
        if self.on.as_str().is_empty() {
            return Err(SqlBuilderError::EmptyOnClause);
        }
        let mut clause = self.join_type.build();
        clause.append(" JOIN ");
        clause.append(self.table.as_str());
        clause.append(" ON ");
        clause.append(self.on.as_str());
        Ok(clause)
    }
}

} // verus!
