//! The `UPDATE` statement.

use vstd::prelude::*;
use vstd::string::*;
use crate::errors::SqlBuilderError;
use crate::escape_value;
use crate::quoted;
use crate::sqlite::insert::{check_pairs, owned_pairs, pair_views, pairs_error, slice_pair_views, Pair};
use crate::text::{built_text, join, joined, optional_text, trim, trimmed, views};

verus! {

/// One assignment: the column, ` = ` and the quoted value.
pub open spec fn assignment(pair: Pair) -> Seq<char> {
    pair.0 + " = "@ + quoted(pair.1)
}

/// The assignments of the pairs, in order.
pub open spec fn assignments(pairs: Seq<Pair>) -> Seq<Seq<char>> {
    pairs.map_values(|p: Pair| assignment(p))
}

/// Builds an `UPDATE` statement from a table, column/value pairs and an
/// optional condition.
#[derive(Debug)]
pub struct Update {
    table: String,
    pub set: Vec<(String, String)>,
    condition: Option<String>,
}

/// What an [`Update`] holds.
pub struct UpdateView {
    pub table: Seq<char>,
    pub set: Seq<Pair>,
    pub condition: Option<Seq<char>>,
}

impl UpdateView {
    /// The statement before it is trimmed and closed: the assignments in the
    /// order of the pairs with `, ` between them, then the condition if one
    /// was set.
    pub open spec fn body(self) -> Seq<char> {
        "UPDATE "@ + self.table + " SET "@ + joined(assignments(self.set), ", "@) + (
        match self.condition {
            Some(condition) => " WHERE "@ + condition,
            None => Seq::empty(),
        })
    }

    /// The statement text: the body without surrounding whitespace, and `;`.
    pub open spec fn rendered(self) -> Seq<char> {
        trimmed(self.body()) + ";"@
    }

    /// What `build` returns. The table name is checked first, then that there
    /// is a pair at all, then the pairs in order.
    pub open spec fn built(self) -> Result<Seq<char>, SqlBuilderError> {
        if self.table.len() == 0 {
            Err(SqlBuilderError::EmptyTableName)
        } else if self.set.len() == 0 {
            Err(SqlBuilderError::EmptyColumnAndValue)
        } else {
            match pairs_error(self.set) {
                Some(e) => Err(e),
                None => Ok(self.rendered()),
            }
        }
    }
}

impl View for Update {
    type V = UpdateView;

    closed spec fn view(&self) -> UpdateView {
        UpdateView {
            table: self.table@,
            set: pair_views(self.set@),
            condition: optional_text(self.condition),
        }
    }
}

impl Update {
    /// Starts an update of `table`, with no pairs and no condition yet.
    pub fn new(table: &str) -> (update: Self)
        ensures
            update@ == (UpdateView { table: table@, set: Seq::empty(), condition: None }),
    {
        let update = Self { table: String::from_str(table), set: Vec::new(), condition: None };
        assert(pair_views(update.set@) =~= Seq::empty());
        update
    }

    /// Sets the column/value pairs, replacing those set before.
    pub fn set(self, set: Vec<(&str, &str)>) -> (update: Self)
        ensures
            update@ == (UpdateView { set: slice_pair_views(set@), ..self@ }),
    {
        let mut update = self;
        update.set = owned_pairs(set);
        update
    }

    /// Sets the condition of the `WHERE` clause.
    pub fn condition(&mut self, condition: String) -> (ret: &mut Self)
        ensures
            ret@ == (UpdateView { condition: Some(condition@), ..old(self)@ }),
            *final(self) == *final(ret),
    {
        self.condition = Some(condition);
        self
    }

    /// Building is repeatable: whatever two calls of `build` on one unchanged
    /// builder return, it is the same.
    pub proof fn lemma_build_repeatable(
        &self,
        first: Result<String, SqlBuilderError>,
        second: Result<String, SqlBuilderError>,
    )
        requires
            built_text(first) == self@.built(),
            built_text(second) == self@.built(),
        ensures
            built_text(first) == built_text(second),
    {
    }

    /// Renders the statement. The builder is left as it is, so the call can be
    /// repeated.
    pub fn build(&self) -> (r: Result<String, SqlBuilderError>)
        ensures
            built_text(r) == self@.built(),
    {
        if self.table.as_str().is_empty() {
            return Err(SqlBuilderError::EmptyTableName);
        }
        if self.set.len() == 0 {
            return Err(SqlBuilderError::EmptyColumnAndValue);
        }
        match check_pairs(&self.set) {
            Some(e) => {
                return Err(e);
            },
            None => {},
        }
        let ghost pairs = self@.set;
        let mut sets: Vec<String> = Vec::new();
        let mut i: usize = 0;
        while i < self.set.len()
            invariant
                i <= self.set.len(),
                pairs == pair_views(self.set@),
                views(sets@) == assignments(pairs).take(i as int),
            decreases self.set.len() - i,
        {
            let mut one = self.set[i].0.clone();
            one.append(" = ");
            one.append(escape_value(self.set[i].1.as_str()).as_str());
            proof {
                assert(views(sets@.push(one)) =~= views(sets@).push(one@));
                assert(assignments(pairs).take(i + 1) =~= assignments(pairs).take(i as int).push(
                    one@,
                ));
            }
            sets.push(one);
            i = i + 1;
        }
        proof {
            assert(assignments(pairs).take(i as int) =~= assignments(pairs));
        }
        let mut statement = String::from_str("UPDATE ");
        statement.append(self.table.as_str());
        statement.append(" SET ");
        statement.append(join(&sets, ", ").as_str());
        match &self.condition {
            Some(condition) => {
                let mut clause = String::from_str(" WHERE ");
                clause.append(condition.as_str());
                statement.append(clause.as_str());
            },
            None => {
                assert(statement@ + Seq::<char>::empty() =~= statement@);
            },
        }
        let mut out = trim(statement.as_str());
        out.append(";");
        Ok(out)
    }
}

} // verus!
