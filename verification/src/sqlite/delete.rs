//! The `DELETE` statement.

use vstd::prelude::*;
use vstd::string::*;
use crate::errors::SqlBuilderError;
use crate::text::{built_text, optional_text, trim, trimmed};

verus! {

/// Builds a `DELETE` statement from a table and an optional condition.
#[derive(Debug)]
pub struct Delete {
    table: String,
    condition: Option<String>,
}

/// What a [`Delete`] holds.
pub struct DeleteView {
    pub table: Seq<char>,
    pub condition: Option<Seq<char>>,
}

impl DeleteView {
    /// The statement before it is trimmed and closed: the table, then the
    /// condition if one was set.
    pub open spec fn body(self) -> Seq<char> {
        match self.condition {
            Some(condition) => "DELETE FROM "@ + self.table + " WHERE "@ + condition,
            None => "DELETE FROM "@ + self.table,
        }
    }

    /// The statement text: the body without surrounding whitespace, and `;`.
    pub open spec fn rendered(self) -> Seq<char> {
        trimmed(self.body()) + ";"@
    }

    /// What `build` returns. The table name must not be empty, and a
    /// condition that was set must not be empty either.
    pub open spec fn built(self) -> Result<Seq<char>, SqlBuilderError> {
        if self.table.len() == 0 {
            Err(SqlBuilderError::EmptyTableName)
        } else if self.condition is Some && self.condition->Some_0.len() == 0 {
            Err(SqlBuilderError::EmptyCondition)
        } else {
            Ok(self.rendered())
        }
    }
}

impl View for Delete {
    type V = DeleteView;

    closed spec fn view(&self) -> DeleteView {
        DeleteView { table: self.table@, condition: optional_text(self.condition) }
    }
}

impl Delete {
    /// Starts a deletion from `table`, with no condition yet.
    pub fn new(table: &str) -> (delete: Self)
        ensures
            delete@ == (DeleteView { table: table@, condition: None }),
    {
        Self { table: String::from_str(table), condition: None }
    }

    /// Sets the condition of the `WHERE` clause.
    pub fn condition(&mut self, condition: String) -> (ret: &mut Self)
        ensures
            ret@ == (DeleteView { condition: Some(condition@), ..old(self)@ }),
            *final(self) == *final(ret),
    {
        self.condition = Some(condition);
        self
    }

    /// Building is repeatable: whatever two calls of `build` on one unchanged
    /// builder return, it is the same.
    pub proof fn lemma_build_repeatable(
        &self,
        first: Result<String, SqlBuilderError>,
        second: Result<String, SqlBuilderError>,
    )
        requires
            built_text(first) == self@.built(),
            built_text(second) == self@.built(),
        ensures
            built_text(first) == built_text(second),
    {
    }

    /// Renders the statement. The builder is left as it is, so the call can be
    /// repeated.
    pub fn build(&self) -> (r: Result<String, SqlBuilderError>)
        ensures
            built_text(r) == self@.built(),
    {
        if self.table.as_str().is_empty() {
            return Err(SqlBuilderError::EmptyTableName);
        }
        let mut statement = String::from_str("DELETE FROM ");
        statement.append(self.table.as_str());
        match &self.condition {
            Some(condition) => {
                if condition.as_str().is_empty() {
                    return Err(SqlBuilderError::EmptyCondition);
                }
                statement.append(" WHERE ");
                statement.append(condition.as_str());
            },
            None => {},
        }
        let mut out = trim(statement.as_str());
        out.append(";");
        Ok(out)
    }
}

} // verus!
