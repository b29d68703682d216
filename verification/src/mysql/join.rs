//! The `JOIN` clause.

use vstd::prelude::*;
use vstd::string::*;

verus! {

/// The kind of a join.
#[derive(Debug, Clone, Copy, PartialEq, Eq, Structural)]
pub enum JoinType {
    Inner,
    Left,
    Right,
    RightOuter,
    LeftOuter,
    Full,
}

impl JoinType {
    /// The keywords that stand for the kind, before `JOIN`.
    pub open spec fn keyword(self) -> Seq<char> {
        match self {
            JoinType::Inner => "INNER"@,
            JoinType::Left => "LEFT"@,
            JoinType::Right => "RIGHT"@,
            JoinType::Full => "FULL"@,
            JoinType::LeftOuter => "LEFT OUTER"@,
            JoinType::RightOuter => "RIGHT OUTER"@,
        }
    }
}

/// Builds a `JOIN` clause from a table, an `ON` expression and a kind.
#[derive(Debug)]
pub struct Join {
    table: String,
    join_type: JoinType,
    on: String,
}

/// What a [`Join`] holds.
pub struct JoinView {
    pub table: Seq<char>,
    pub join_type: JoinType,
    pub on: Seq<char>,
}

impl JoinView {
    /// The clause text. It ends with a space, so that clauses can follow one
    /// another directly.
    pub open spec fn rendered(self) -> Seq<char> {
        self.join_type.keyword() + " JOIN "@ + self.table + " ON "@ + self.on + " "@
    }
}

impl View for Join {
    type V = JoinView;

    closed spec fn view(&self) -> JoinView {
        JoinView { table: self.table@, join_type: self.join_type, on: self.on@ }
    }
}

impl Join {
    /// Describes a join with `table` on the expression `on`.
    pub fn new(table: String, on: String, join_type: JoinType) -> (join: Join)
        ensures
            join@ == (JoinView { table: table@, join_type, on: on@ }),
    {
        Join { table, on, join_type }
    }

    /// Building is repeatable: whatever two calls of `build` on one unchanged
    /// builder return, it is the same text.
    pub proof fn lemma_build_repeatable(&self, first: String, second: String)
        requires
            first@ == self@.rendered(),
            second@ == self@.rendered(),
        ensures
            first@ == second@,
    {
    }

    /// Renders the clause. The builder is left as it is, so the call can be
    /// repeated.
    pub fn build(&self) -> (out: String)
        ensures
            out@ == self@.rendered(),
    {
        let join_type = match self.join_type {
            JoinType::Inner => "INNER",
            JoinType::Left => "LEFT",
            JoinType::Right => "RIGHT",
            JoinType::Full => "FULL",
            JoinType::LeftOuter => "LEFT OUTER",
            JoinType::RightOuter => "RIGHT OUTER",
        };
        let mut statement = String::from_str(join_type);
        statement.append(" JOIN ");
        statement.append(self.table.as_str());
        statement.append(" ON ");
        statement.append(self.on.as_str());
        statement.append(" ");
        statement
    }
}

} // verus!
