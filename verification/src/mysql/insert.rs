//! The `INSERT` statement.

use vstd::prelude::*;
use vstd::string::*;
use crate::format_value;
use crate::sniffed;
use crate::text::{join, joined, views};

verus! {

/// A column name with the value for it.
pub type Pair = (Seq<char>, Seq<char>);

/// The views of a vector of column/value pairs, each given as an array of the
/// column and the value.
pub open spec fn pair_views(pairs: Seq<[&str; 2]>) -> Seq<Pair> {
    pairs.map_values(|p: [&str; 2]| (p@[0]@, p@[1]@))
}

/// The column names of the pairs, in order.
pub open spec fn column_names(pairs: Seq<Pair>) -> Seq<Seq<char>> {
    pairs.map_values(|p: Pair| p.0)
}

/// The values of the pairs, each as numeric-sniffing mode renders it, in
/// order.
pub open spec fn sniffed_values(pairs: Seq<Pair>) -> Seq<Seq<char>> {
    pairs.map_values(|p: Pair| sniffed(p.1))
}

/// Builds an `INSERT` statement from a table and column/value pairs.
pub struct Insert<'a> {
    table: &'a str,
    values: Vec<[&'a str; 2]>,
}

/// What an [`Insert`] holds.
pub struct InsertView {
    pub table: Seq<char>,
    pub values: Seq<Pair>,
}

impl InsertView {
    /// The statement text: the column names and the values, each list in the
    /// order of the pairs with `,` between its items.
    pub open spec fn rendered(self) -> Seq<char> {
        "INSERT INTO "@ + self.table + " ("@ + joined(column_names(self.values), ","@)
            + ") VALUES ("@ + joined(sniffed_values(self.values), ","@) + ");"@
    }
}

impl<'a> View for Insert<'a> {
    type V = InsertView;

    closed spec fn view(&self) -> InsertView {
        InsertView { table: self.table@, values: pair_views(self.values@) }
    }
}

impl<'a> Insert<'a> {
    /// Starts an insertion into `table`, with no pairs yet.
    pub fn new(table: &'a str) -> (insert: Insert<'a>)
        ensures
            insert@ == (InsertView { table: table@, values: Seq::empty() }),
    {
        let insert = Insert { table, values: Vec::new() };
        assert(pair_views(insert.values@) =~= Seq::empty());
        insert
    }

    /// Sets the column/value pairs, replacing those set before.
    pub fn values(&mut self, values: Vec<[&'a str; 2]>)
        ensures
            final(self)@ == (InsertView { values: pair_views(values@), ..old(self)@ }),
    {
        self.values = values;
    }

    /// Building is repeatable: whatever two calls of `build` on one unchanged
    /// builder return, it is the same text.
    pub proof fn lemma_build_repeatable(&self, first: String, second: String)
        requires
            first@ == self@.rendered(),
            second@ == self@.rendered(),
        ensures
            first@ == second@,
    {
    }

    /// Renders the statement. The builder is left as it is, so the call can be
    /// repeated.
    pub fn build(&self) -> (out: String)
        ensures
            out@ == self@.rendered(),
    {
        let ghost pairs = self@.values;
        let mut columns: Vec<String> = Vec::new();
        let mut values: Vec<String> = Vec::new();
        let mut i: usize = 0;
        while i < self.values.len()
            invariant
                i <= self.values.len(),
                pairs == pair_views(self.values@),
                views(columns@) == column_names(pairs).take(i as int),
                views(values@) == sniffed_values(pairs).take(i as int),
            decreases self.values.len() - i,
        {
            let pair = &self.values[i];
            let column = String::from_str(pair[0]);
            let value = format_value(pair[1]);
            proof {
                assert(pairs[i as int] == (pair@[0]@, pair@[1]@));
                assert(views(columns@.push(column)) =~= views(columns@).push(column@));
                assert(views(values@.push(value)) =~= views(values@).push(value@));
                assert(column_names(pairs).take(i + 1) =~= column_names(pairs).take(
                    i as int,
                ).push(column@));
                assert(sniffed_values(pairs).take(i + 1) =~= sniffed_values(pairs).take(
                    i as int,
                ).push(value@));
            }
            columns.push(column);
            values.push(value);
            i = i + 1;
        }
        proof {
            assert(column_names(pairs).take(i as int) =~= column_names(pairs));
            assert(sniffed_values(pairs).take(i as int) =~= sniffed_values(pairs));
        }
        let mut statement = String::from_str("INSERT INTO ");
        statement.append(self.table);
        statement.append(" (");
        statement.append(join(&columns, ",").as_str());
        statement.append(") VALUES (");
        statement.append(join(&values, ",").as_str());
        statement.append(");");
        statement
    }
}

} // verus!
