//! The `UPDATE` statement.

use vstd::prelude::*;
use vstd::string::*;
use crate::format_value;
use crate::mysql::insert::{pair_views, Pair};
use crate::mysql::where_::{Combiner, Where, WhereView};
use crate::sniffed;
use crate::text::{join, joined, trim, trimmed, views};

verus! {

/// One assignment: a space, the column, ` = ` and the value as
/// numeric-sniffing mode renders it.
pub open spec fn assignment(pair: Pair) -> Seq<char> {
    " "@ + pair.0 + " = "@ + sniffed(pair.1)
}

/// The assignments of the pairs, in order.
pub open spec fn assignments(pairs: Seq<Pair>) -> Seq<Seq<char>> {
    pairs.map_values(|p: Pair| assignment(p))
}

/// Builds an `UPDATE` statement from a table, column/value pairs and a
/// condition.
pub struct Update<'a> {
    table: &'a str,
    set: Vec<[&'a str; 2]>,
    where_: Where,
}

/// What an [`Update`] holds.
pub struct UpdateView {
    pub table: Seq<char>,
    pub set: Seq<Pair>,
    pub where_: WhereView,
}

impl UpdateView {
    /// The statement before it is trimmed and closed: the assignments in the
    /// order of the pairs with `,` between them, then a space and the `WHERE`
    /// clause, which is empty for an empty condition.
    pub open spec fn body(self) -> Seq<char> {
        "UPDATE "@ + self.table + " SET"@ + joined(assignments(self.set), ","@) + " "@
            + self.where_.built()
    }

    /// The statement text: the body without surrounding whitespace, and `;`.
    pub open spec fn rendered(self) -> Seq<char> {
        trimmed(self.body()) + ";"@
    }
}

impl<'a> View for Update<'a> {
    type V = UpdateView;

    closed spec fn view(&self) -> UpdateView {
        UpdateView { table: self.table@, set: pair_views(self.set@), where_: self.where_@ }
    }
}

impl<'a> Update<'a> {
    /// Starts an update of `table`, with no pairs and an empty condition.
    pub fn new(table: &'a str) -> (update: Update<'a>)
        ensures
            update@ == (UpdateView {
                table: table@,
                set: Seq::empty(),
                where_: WhereView { statement: Seq::empty(), combined_by: Combiner::And },
            }),
    {
        let update = Update { table, set: Vec::new(), where_: Where::new(Combiner::And) };
        assert(pair_views(update.set@) =~= Seq::empty());
        update
    }

    /// Sets the column/value pairs, replacing those set before.
    pub fn set(&mut self, set: Vec<[&'a str; 2]>) -> (ret: &mut Update<'a>)
        ensures
            ret@ == (UpdateView { set: pair_views(set@), ..old(self)@ }),
            *final(self) == *final(ret),
    {
        self.set = set;
        self
    }

    /// Sets the condition.
    pub fn where_(&mut self, where_: Where) -> (ret: &mut Update<'a>)
        ensures
            ret@ == (UpdateView { where_: where_@, ..old(self)@ }),
            *final(self) == *final(ret),
    {
        self.where_ = where_;
        self
    }

    /// Building is repeatable: whatever two calls of `build` on one unchanged
    /// builder return, it is the same text.
    pub proof fn lemma_build_repeatable(&self, first: String, second: String)
        requires
            first@ == self@.rendered(),
            second@ == self@.rendered(),
        ensures
            first@ == second@,
    {
    }

    /// Renders the statement. The builder is left as it is, so the call can be
    /// repeated.
    pub fn build(&self) -> (out: String)
        ensures
            out@ == self@.rendered(),
    {
        let ghost pairs = self@.set;
        let mut sets: Vec<String> = Vec::new();
        let mut i: usize = 0;
        while i < self.set.len()
            invariant
                i <= self.set.len(),
                pairs == pair_views(self.set@),
                views(sets@) == assignments(pairs).take(i as int),
            decreases self.set.len() - i,
        {
            let pair = &self.set[i];
            let mut one = String::from_str(" ");
            one.append(pair[0]);
            one.append(" = ");
            one.append(format_value(pair[1]).as_str());
            proof {
                assert(pairs[i as int] == (pair@[0]@, pair@[1]@));
                assert(views(sets@.push(one)) =~= views(sets@).push(one@));
                assert(assignments(pairs).take(i + 1) =~= assignments(pairs).take(i as int).push(
                    one@,
                ));
            }
            sets.push(one);
            i = i + 1;
        }
        proof {
            assert(assignments(pairs).take(i as int) =~= assignments(pairs));
        }
        let mut statement = String::from_str("UPDATE ");
        statement.append(self.table);
        statement.append(" SET");
        statement.append(join(&sets, ",").as_str());
        statement.append(" ");
        statement.append(self.where_.build().as_str());
        let mut out = trim(statement.as_str());
        out.append(";");
        out
    }
}

} // verus!
