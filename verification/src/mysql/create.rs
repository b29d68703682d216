//! The `CREATE TABLE` statement, with the column list given as text.

use vstd::prelude::*;
use vstd::string::*;
use crate::text::{trim, trimmed};

verus! {

/// Builds a `CREATE TABLE IF NOT EXISTS` statement from a table name and the
/// text of its column list.
pub struct Create<'a> {
    columns: &'a str,
    table: &'a str,
}

/// What a [`Create`] holds.
pub struct CreateView {
    pub table: Seq<char>,
    pub columns: Seq<char>,
}

impl CreateView {
    /// The statement before it is trimmed and closed: the table name, and the
    /// column list in parentheses unless it is empty.
    pub open spec fn body(self) -> Seq<char> {
        "CREATE TABLE IF NOT EXISTS "@ + self.table + (if self.columns.len() > 0 {
            " ("@ + self.columns + ")"@
        } else {
            Seq::empty()
        })
    }

    /// The statement text: the body without surrounding whitespace, and `;`.
    pub open spec fn rendered(self) -> Seq<char> {
        trimmed(self.body()) + ";"@
    }
}

impl<'a> View for Create<'a> {
    type V = CreateView;

    closed spec fn view(&self) -> CreateView {
        CreateView { table: self.table@, columns: self.columns@ }
    }
}

impl<'a> Create<'a> {
    /// Describes the table `table`, with no columns yet.
    pub fn new(table: &'a str) -> (create: Create<'a>)
        ensures
            create@ == (CreateView { table: table@, columns: Seq::empty() }),
    {
        proof {
            reveal_strlit("");
        }
        let create = Create { table, columns: "" };
        assert(create.columns@ =~= Seq::empty());
        create
    }

    /// Sets the column list.
    pub fn columns(&mut self, columns: &'a str) -> (ret: &Create<'a>)
        ensures
            ret@ == (CreateView { columns: columns@, ..old(self)@ }),
            *final(self) == *ret,
    {
        self.columns = columns;
        self
    }

    /// Building is repeatable: whatever two calls of `build` on one unchanged
    /// builder return, it is the same text.
    pub proof fn lemma_build_repeatable(&self, first: String, second: String)
        requires
            first@ == self@.rendered(),
            second@ == self@.rendered(),
        ensures
            first@ == second@,
    {
    }

    /// Renders the statement. The builder is left as it is, so the call can be
    /// repeated.
    pub fn build(&self) -> (out: String)
        ensures
            out@ == self@.rendered(),
    {
        let mut statement = String::from_str("CREATE TABLE IF NOT EXISTS ");
        statement.append(self.table);
        if !self.columns.is_empty() {
            let mut list = String::from_str(" (");
            list.append(self.columns);
            list.append(")");
            statement.append(list.as_str());
        } else {
            assert(statement@ + Seq::<char>::empty() =~= statement@);
        }
        let mut out = trim(statement.as_str());
        out.append(";");
        out
    }
}

} // verus!
