//! Conditions for `WHERE` clauses, with one combinator for the whole
//! condition.

use vstd::prelude::*;
use vstd::string::*;
use crate::format_value;
use crate::sniffed;
use crate::text::{join, joined, trim, trimmed, views};

verus! {

/// The operator that joins the predicates of a condition.
#[derive(Debug, Clone, Copy, PartialEq, Eq, Structural)]
pub enum Combiner {
    And,
    Or,
}

impl Combiner {
    /// The keyword that stands for the combinator.
    pub open spec fn keyword(self) -> Seq<char> {
        match self {
            Combiner::And => "AND"@,
            Combiner::Or => "OR"@,
        }
    }
}

/// Accumulates the predicates of a condition. The combinator is chosen once
/// and comes before every predicate but the first.
#[derive(Debug)]
pub struct Where {
    statement: String,
    combined_by: Combiner,
}

/// What a [`Where`] holds: the text of its predicates, and its combinator.
pub struct WhereView {
    pub statement: Seq<char>,
    pub combined_by: Combiner,
}

/// The views of a vector of string slices.
pub open spec fn slice_views(values: Seq<&str>) -> Seq<Seq<char>> {
    values.map_values(|v: &str| v@)
}

/// A list of values for `IN`: each value as numeric-sniffing mode renders it,
/// with `, ` between them, in parentheses.
pub open spec fn value_list(values: Seq<Seq<char>>) -> Seq<char> {
    "("@ + joined(values.map_values(|v: Seq<char>| sniffed(v)), ", "@) + ")"@
}

impl WhereView {
    /// What comes before the next predicate: the combinator, unless the
    /// condition is still empty.
    pub open spec fn link(self) -> Seq<char> {
        if self.statement.len() > 0 {
            self.combined_by.keyword()
        } else {
            Seq::empty()
        }
    }

    /// The condition with one more predicate. A predicate sits between two
    /// spaces.
    pub open spec fn with_predicate(self, predicate: Seq<char>) -> WhereView {
        WhereView {
            statement: self.statement + self.link() + (" "@ + predicate + " "@),
            ..self
        }
    }

    /// The condition with a comparison of a field with a value, which is
    /// rendered in numeric-sniffing mode.
    pub open spec fn with_comparison(self, operator: Seq<char>, field: Seq<char>, value: Seq<char>) -> WhereView {
        self.with_predicate(field + " "@ + operator + " "@ + sniffed(value))
    }

    /// The condition with a predicate on a field alone.
    pub open spec fn with_check(self, operator: Seq<char>, field: Seq<char>) -> WhereView {
        self.with_predicate(field + " "@ + operator)
    }

    /// The condition with a test of a field against a list of values.
    pub open spec fn with_list(self, operator: Seq<char>, field: Seq<char>, values: Seq<Seq<char>>) -> WhereView {
        self.with_predicate(field + " "@ + operator + " "@ + value_list(values))
    }

    /// What `build` returns: nothing for an empty condition, else `WHERE` and
    /// the predicates, without surrounding whitespace.
    pub open spec fn built(self) -> Seq<char> {
        if self.statement.len() > 0 {
            trimmed("WHERE"@ + self.statement)
        } else {
            Seq::empty()
        }
    }
}

impl View for Where {
    type V = WhereView;

    closed spec fn view(&self) -> WhereView {
        WhereView { statement: self.statement@, combined_by: self.combined_by }
    }
}

impl Where {
    /// Starts an empty condition whose predicates `combined_by` will join.
    pub fn new(combined_by: Combiner) -> (condition: Where)
        ensures
            condition@ == (WhereView { statement: Seq::empty(), combined_by }),
    {
        Where { statement: String::new(), combined_by }
    }

    /// Adds `field = value`.
    pub fn equal_to(&mut self, field: &str, value: &str) -> (ret: &mut Where)
        ensures
            ret@ == old(self)@.with_comparison("="@, field@, value@),
            *final(self) == *final(ret),
    {
        self.add_comparative_predicate("=", field, value)
    }

    /// Adds `field != value`.
    pub fn not_equal_to(&mut self, field: &str, value: &str) -> (ret: &mut Where)
        ensures
            ret@ == old(self)@.with_comparison("!="@, field@, value@),
            *final(self) == *final(ret),
    {
        self.add_comparative_predicate("!=", field, value)
    }

    /// Adds `field > value`.
    pub fn greater_than(&mut self, field: &str, value: &str) -> (ret: &mut Where)
        ensures
            ret@ == old(self)@.with_comparison(">"@, field@, value@),
            *final(self) == *final(ret),
    {
        self.add_comparative_predicate(">", field, value)
    }

    /// Adds `field >= value`.
    pub fn greater_than_equal(&mut self, field: &str, value: &str) -> (ret: &mut Where)
        ensures
            ret@ == old(self)@.with_comparison(">="@, field@, value@),
            *final(self) == *final(ret),
    {
        self.add_comparative_predicate(">=", field, value)
    }

    /// Adds `field < value`.
    pub fn less_than(&mut self, field: &str, value: &str) -> (ret: &mut Where)
        ensures
            ret@ == old(self)@.with_comparison("<"@, field@, value@),
            *final(self) == *final(ret),
    {
        self.add_comparative_predicate("<", field, value)
    }

    /// Adds `field <= value`.
    pub fn less_than_equal(&mut self, field: &str, value: &str) -> (ret: &mut Where)
        ensures
            ret@ == old(self)@.with_comparison("<="@, field@, value@),
            *final(self) == *final(ret),
    {
        self.add_comparative_predicate("<=", field, value)
    }

    /// Adds `field IS NULL`.
    pub fn is_null(&mut self, field: &str) -> (ret: &mut Where)
        ensures
            ret@ == old(self)@.with_check("IS NULL"@, field@),
            *final(self) == *final(ret),
    {
        self.add_self_comparative_predicate("IS NULL", field)
    }

    /// Adds `field IS NOT NULL`.
    pub fn is_not_null(&mut self, field: &str) -> (ret: &mut Where)
        ensures
            ret@ == old(self)@.with_check("IS NOT NULL"@, field@),
            *final(self) == *final(ret),
    {
        self.add_self_comparative_predicate("IS NOT NULL", field)
    }

    /// Adds `field IN (v1, v2, ...)`.
    pub fn in_(&mut self, field: &str, fields: Vec<&str>) -> (ret: &mut Where)
        ensures
            ret@ == old(self)@.with_list("IN"@, field@, slice_views(fields@)),
            *final(self) == *final(ret),
    {
        self.add_multiple_values_comparative_predicate("IN", field, fields)
    }

    /// Adds `field NOT IN (v1, v2, ...)`.
    pub fn not_in(&mut self, field: &str, fields: Vec<&str>) -> (ret: &mut Where)
        ensures
            ret@ == old(self)@.with_list("NOT IN"@, field@, slice_views(fields@)),
            *final(self) == *final(ret),
    {
        self.add_multiple_values_comparative_predicate("NOT IN", field, fields)
    }

    /// Building is repeatable: whatever two calls of `build` on one unchanged
    /// builder return, it is the same text.
    pub proof fn lemma_build_repeatable(&self, first: String, second: String)
        requires
            first@ == self@.built(),
            second@ == self@.built(),
        ensures
            first@ == second@,
    {
    }

    /// Renders the clause, with its `WHERE` keyword. An empty condition gives
    /// an empty text. The builder is left as it is, so the call can be
    /// repeated.
    pub fn build(&self) -> (out: String)
        ensures
            out@ == self@.built(),
    {
        if !self.statement.as_str().is_empty() {
            let mut clause = String::from_str("WHERE");
            clause.append(self.statement.as_str());
            return trim(clause.as_str());
        }
        String::new()
    }

    fn add_combiner(&mut self)
        ensures
            final(self)@ == (WhereView {
                statement: old(self)@.statement + old(self)@.link(),
                ..old(self)@
            }),
    {
        let combined = match self.combined_by {
            Combiner::And => "AND",
            Combiner::Or => "OR",
        };
        if !self.statement.as_str().is_empty() {
            self.statement.append(combined);
        } else {
            assert(self.statement@ + Seq::<char>::empty() =~= self.statement@);
        }
    }

    fn add_predicate_text(&mut self, predicate: &str) -> (ret: &mut Where)
        ensures
            ret@ == old(self)@.with_predicate(predicate@),
            *final(self) == *final(ret),
    {
        self.add_combiner();
        let mut padded = String::from_str(" ");
        padded.append(predicate);
        padded.append(" ");
        self.statement.append(padded.as_str());
        self
    }

    fn add_comparative_predicate(&mut self, operator: &str, field: &str, value: &str) -> (ret:
        &mut Where)
        ensures
            ret@ == old(self)@.with_comparison(operator@, field@, value@),
            *final(self) == *final(ret),
    {
        let mut predicate = String::from_str(field);
        predicate.append(" ");
        predicate.append(operator);
        predicate.append(" ");
        predicate.append(format_value(value).as_str());
        self.add_predicate_text(predicate.as_str())
    }

    fn add_self_comparative_predicate(&mut self, operator: &str, field: &str) -> (ret: &mut Where)
        ensures
            ret@ == old(self)@.with_check(operator@, field@),
            *final(self) == *final(ret),
    {
        let mut predicate = String::from_str(field);
        predicate.append(" ");
        predicate.append(operator);
        self.add_predicate_text(predicate.as_str())
    }

    fn add_multiple_values_comparative_predicate(
        &mut self,
        operator: &str,
        field: &str,
        fields: Vec<&str>,
    ) -> (ret: &mut Where)
        ensures
            ret@ == old(self)@.with_list(operator@, field@, slice_views(fields@)),
            *final(self) == *final(ret),
    {
        let ghost all = slice_views(fields@).map_values(|v: Seq<char>| sniffed(v));
        let mut rendered: Vec<String> = Vec::new();
        let mut i: usize = 0;
        while i < fields.len()
            invariant
                i <= fields.len(),
                all == slice_views(fields@).map_values(|v: Seq<char>| sniffed(v)),
                views(rendered@) == all.take(i as int),
            decreases fields.len() - i,
        {
            let one = format_value(fields[i]);
            proof {
                assert(views(rendered@.push(one)) =~= views(rendered@).push(one@));
                assert(all.take(i + 1) =~= all.take(i as int).push(one@));
            }
            rendered.push(one);
            i = i + 1;
        }
        assert(all.take(i as int) =~= all);
        let mut list = String::from_str("(");
        list.append(join(&rendered, ", ").as_str());
        list.append(")");
        let mut predicate = String::from_str(field);
        predicate.append(" ");
        predicate.append(operator);
        predicate.append(" ");
        predicate.append(list.as_str());
        self.add_predicate_text(predicate.as_str())
    }
}

} // verus!
