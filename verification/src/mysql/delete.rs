//! The `DELETE` statement.

use vstd::prelude::*;
use vstd::string::*;
use crate::mysql::where_::{Combiner, Where, WhereView};
use crate::text::{trim, trimmed};

verus! {

/// Builds a `DELETE` statement from a table and a condition.
pub struct Delete<'a> {
    table: &'a str,
    where_: Where,
}

/// What a [`Delete`] holds.
pub struct DeleteView {
    pub table: Seq<char>,
    pub where_: WhereView,
}

impl DeleteView {
    /// The statement before it is trimmed and closed: the table, a space and
    /// the `WHERE` clause, which is empty for an empty condition.
    pub open spec fn body(self) -> Seq<char> {
        "DELETE FROM "@ + self.table + " "@ + self.where_.built()
    }

    /// The statement text: the body without surrounding whitespace, and `;`.
    pub open spec fn rendered(self) -> Seq<char> {
        trimmed(self.body()) + ";"@
    }
}

impl<'a> View for Delete<'a> {
    type V = DeleteView;

    closed spec fn view(&self) -> DeleteView {
        DeleteView { table: self.table@, where_: self.where_@ }
    }
}

impl<'a> Delete<'a> {
    /// Starts a deletion from `table`, with an empty condition.
    pub fn new(table: &'a str) -> (delete: Delete<'a>)
        ensures
            delete@ == (DeleteView {
                table: table@,
                where_: WhereView { statement: Seq::empty(), combined_by: Combiner::And },
            }),
    {
        Delete { table, where_: Where::new(Combiner::And) }
    }

    /// Sets the condition.
    pub fn where_(&mut self, where_: Where) -> (ret: &mut Delete<'a>)
        ensures
            ret@ == (DeleteView { where_: where_@, ..old(self)@ }),
            *final(self) == *final(ret),
    {
        self.where_ = where_;
        self
    }

    /// Building is repeatable: whatever two calls of `build` on one unchanged
    /// builder return, it is the same text.
    pub proof fn lemma_build_repeatable(&self, first: String, second: String)
        requires
            first@ == self@.rendered(),
            second@ == self@.rendered(),
        ensures
            first@ == second@,
    {
    }

    /// Renders the statement. The builder is left as it is, so the call can be
    /// repeated.
    pub fn build(&self) -> (out: String)
        ensures
            out@ == self@.rendered(),
    {
        let mut statement = String::from_str("DELETE FROM ");
        statement.append(self.table);
        statement.append(" ");
        statement.append(self.where_.build().as_str());
        let mut out = trim(statement.as_str());
        out.append(";");
        out
    }
}

} // verus!
