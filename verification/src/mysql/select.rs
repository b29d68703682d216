//! The `SELECT` statement.

use vstd::prelude::*;
use vstd::string::*;
use crate::mysql::join::{Join, JoinType, JoinView};
use crate::mysql::where_::{Combiner, Where, WhereView};
use crate::numeric::{decimal, decimal_string, lemma_decimal_digits};
use crate::text::{
    lemma_trimmed_end_keeps_start, lemma_trimmed_of_padded, lemma_trimmed_start_skip, trim, trim_end,
    trimmed, trimmed_end,
};

verus! {

/// Builds a `SELECT` statement.
pub struct Select<'a> {
    distinct: bool,
    from: &'a str,
    limit: u32,
    offset: u32,
    columns: &'a str,
    where_: Where,
    group: &'a str,
    order: &'a str,
    joins: Vec<Join>,
}

/// What a [`Select`] holds. An empty text and a zero number stand for a clause
/// that was not set.
pub struct SelectView {
    pub distinct: bool,
    pub from: Seq<char>,
    pub limit: u32,
    pub offset: u32,
    pub columns: Seq<char>,
    pub where_: WhereView,
    pub group: Seq<char>,
    pub order: Seq<char>,
    pub joins: Seq<JoinView>,
}

/// The views of a vector of joins.
pub open spec fn join_views(joins: Seq<Join>) -> Seq<JoinView> {
    joins.map_values(|j: Join| j@)
}

/// The `JOIN` clauses one after the other, in the order in which they were
/// added.
pub open spec fn joins_text(joins: Seq<JoinView>) -> Seq<char>
    decreases joins.len(),
{
    if joins.len() == 0 {
        Seq::empty()
    } else {
        joins_text(joins.drop_last()) + joins.last().rendered()
    }
}

/// A clause that takes text: the keyword, the text without trailing
/// whitespace, and a space; nothing when the text is empty.
pub open spec fn text_clause(keyword: Seq<char>, text: Seq<char>) -> Seq<char> {
    if text.len() > 0 {
        keyword + trimmed_end(text) + " "@
    } else {
        Seq::empty()
    }
}

/// A clause that takes a number: the keyword, the number in decimal, and a
/// space; nothing when the clause is not present.
pub open spec fn number_clause(present: bool, keyword: Seq<char>, number: u32) -> Seq<char> {
    if present {
        keyword + decimal(number as nat) + " "@
    } else {
        Seq::empty()
    }
}

impl SelectView {
    /// A selection with nothing set.
    pub open spec fn empty() -> SelectView {
        SelectView {
            distinct: false,
            from: Seq::empty(),
            limit: 0,
            offset: 0,
            columns: Seq::empty(),
            where_: WhereView { statement: Seq::empty(), combined_by: Combiner::And },
            group: Seq::empty(),
            order: Seq::empty(),
            joins: Seq::empty(),
        }
    }

    /// The projection: the columns without trailing whitespace, or `*` when
    /// none were given; then a space.
    pub open spec fn projection(self) -> Seq<char> {
        if self.columns.len() > 0 {
            trimmed_end(self.columns) + " "@
        } else {
            "* "@
        }
    }

    /// `FROM`, the table as it was given, and a space; nothing when no table
    /// was set.
    pub open spec fn source(self) -> Seq<char> {
        if self.from.len() > 0 {
            "FROM "@ + self.from + " "@
        } else {
            Seq::empty()
        }
    }

    /// The `WHERE` clause and a space, or nothing for an empty condition.
    pub open spec fn condition(self) -> Seq<char> {
        if self.where_.built().len() > 0 {
            self.where_.built() + " "@
        } else {
            Seq::empty()
        }
    }

    /// The statement before it is trimmed and closed. The clauses come in one
    /// fixed order, each followed by a space. The limit is written when it is
    /// not zero, the offset when neither it nor the limit is zero.
    pub open spec fn body(self) -> Seq<char> {
        "SELECT "@ + (if self.distinct {
            "DISTINCT "@
        } else {
            Seq::empty()
        }) + self.projection() + self.source() + joins_text(self.joins)
            + self.condition() + text_clause("GROUP BY "@, self.group) + text_clause(
            "ORDER BY "@,
            self.order,
        ) + number_clause(self.limit > 0, "LIMIT "@, self.limit) + number_clause(
            self.offset > 0 && self.limit > 0,
            "OFFSET "@,
            self.offset,
        )
    }

    /// The statement text: the body without surrounding whitespace, and `;`.
    pub open spec fn rendered(self) -> Seq<char> {
        trimmed(self.body()) + ";"@
    }
}

/// With every clause set, the clauses come in this order: `SELECT`,
/// `DISTINCT`, the columns, `FROM`, the joins, `WHERE`, `GROUP BY`,
/// `ORDER BY`, `LIMIT`, `OFFSET`, and the closing `;`, which follows the
/// offset directly.
pub proof fn lemma_clause_order(select: SelectView)
    requires
        select.distinct,
        select.columns.len() > 0,
        select.from.len() > 0,
        select.where_.statement.len() > 0,
        select.group.len() > 0,
        select.order.len() > 0,
        select.limit > 0,
        select.offset > 0,
    ensures
        select.rendered() == "SELECT "@ + "DISTINCT "@ + (trimmed_end(select.columns) + " "@) + (
        "FROM "@ + select.from + " "@) + joins_text(select.joins) + (select.where_.built() + " "@)
            + ("GROUP BY "@ + trimmed_end(select.group) + " "@) + ("ORDER BY "@ + trimmed_end(
            select.order,
        ) + " "@) + ("LIMIT "@ + decimal(select.limit as nat) + " "@) + ("OFFSET "@ + decimal(
            select.offset as nat,
        )) + ";"@,
{
    let front = "SELECT "@ + "DISTINCT "@ + (trimmed_end(select.columns) + " "@) + ("FROM "@
        + select.from + " "@) + joins_text(select.joins) + (select.where_.built() + " "@) + (
    "GROUP BY "@ + trimmed_end(select.group) + " "@) + ("ORDER BY "@ + trimmed_end(select.order)
        + " "@) + ("LIMIT "@ + decimal(select.limit as nat) + " "@);
    let last = "OFFSET "@ + decimal(select.offset as nat);
    let core = front + last;
    reveal_strlit("SELECT ");
    reveal_strlit("WHERE");
    reveal_strlit(" ");
    lemma_decimal_digits(select.offset as nat);
    let condition = "WHERE"@ + select.where_.statement;
    assert(condition.first() == 'W');
    lemma_trimmed_start_skip(condition, 0);
    assert(condition.skip(0) =~= condition);
    lemma_trimmed_end_keeps_start(condition);
    assert(select.where_.built().len() > 0);
    assert(select.body() == front + (last + " "@));
    assert(front + (last + " "@) =~= Seq::<char>::empty() + core + " "@);
    assert(core.first() == 'S');
    let digits = decimal(select.offset as nat);
    assert(core.last() == digits.last());
    assert(digits.last() == digits[digits.len() - 1]);
    lemma_trimmed_of_padded(Seq::empty(), core, " "@);
}

impl<'a> View for Select<'a> {
    type V = SelectView;

    closed spec fn view(&self) -> SelectView {
        SelectView {
            distinct: self.distinct,
            from: self.from@,
            limit: self.limit,
            offset: self.offset,
            columns: self.columns@,
            where_: self.where_@,
            group: self.group@,
            order: self.order@,
            joins: join_views(self.joins@),
        }
    }
}

fn text_clause_string(keyword: &str, text: &str) -> (out: String)
    ensures
        out@ == text_clause(keyword@, text@),
{
    if !text.is_empty() {
        let mut out = String::from_str(keyword);
        out.append(trim_end(text).as_str());
        out.append(" ");
        out
    } else {
        String::new()
    }
}

fn number_clause_string(present: bool, keyword: &str, number: u32) -> (out: String)
    ensures
        out@ == number_clause(present, keyword@, number),
{
    if present {
        let mut out = String::from_str(keyword);
        out.append(decimal_string(number).as_str());
        out.append(" ");
        out
    } else {
        String::new()
    }
}

impl<'a> Select<'a> {
    /// Starts a selection with nothing set.
    pub fn new() -> (select: Select<'a>)
        ensures
            select@ == SelectView::empty(),
    {
        proof {
            reveal_strlit("");
        }
        let select = Select {
            distinct: false,
            from: "",
            limit: 0,
            offset: 0,
            columns: "",
            where_: Where::new(Combiner::And),
            group: "",
            order: "",
            joins: Vec::new(),
        };
        assert(select@.from =~= Seq::empty());
        assert(join_views(select.joins@) =~= Seq::empty());
        select
    }

    /// Asks for distinct rows.
    pub fn distinct(&mut self) -> (ret: &mut Select<'a>)
        ensures
            ret@ == (SelectView { distinct: true, ..old(self)@ }),
            *final(self) == *final(ret),
    {
        self.distinct = true;
        self
    }

    /// Sets the table to select from.
    pub fn from(&mut self, from: &'a str) -> (ret: &mut Select<'a>)
        ensures
            ret@ == (SelectView { from: from@, ..old(self)@ }),
            *final(self) == *final(ret),
    {
        self.from = from;
        self
    }

    /// Sets the projection.
    pub fn columns(&mut self, columns: &'a str) -> (ret: &mut Select<'a>)
        ensures
            ret@ == (SelectView { columns: columns@, ..old(self)@ }),
            *final(self) == *final(ret),
    {
        self.columns = columns;
        self
    }

    /// Sets the condition.
    pub fn where_(&mut self, where_: Where) -> (ret: &mut Select<'a>)
        ensures
            ret@ == (SelectView { where_: where_@, ..old(self)@ }),
            *final(self) == *final(ret),
    {
        self.where_ = where_;
        self
    }

    /// Adds a join, after those added before.
    pub fn join(&mut self, table: &str, on: &str, join_type: JoinType) -> (ret: &mut Select<'a>)
        ensures
            ret@ == (SelectView {
                joins: old(self)@.joins.push(JoinView { table: table@, join_type, on: on@ }),
                ..old(self)@
            }),
            *final(self) == *final(ret),
    {
        let join = Join::new(String::from_str(table), String::from_str(on), join_type);
        assert(join_views(self.joins@.push(join)) =~= join_views(self.joins@).push(join@));
        self.joins.push(join);
        self
    }

    /// Sets the `GROUP BY` clause.
    pub fn group(&mut self, group: &'a str) -> (ret: &mut Select<'a>)
        ensures
            ret@ == (SelectView { group: group@, ..old(self)@ }),
            *final(self) == *final(ret),
    {
        self.group = group;
        self
    }

    /// Sets the `ORDER BY` clause.
    pub fn order(&mut self, order: &'a str) -> (ret: &mut Select<'a>)
        ensures
            ret@ == (SelectView { order: order@, ..old(self)@ }),
            *final(self) == *final(ret),
    {
        self.order = order;
        self
    }

    /// Sets the limit; zero stands for none.
    pub fn limit(&mut self, limit: u32) -> (ret: &mut Select<'a>)
        ensures
            ret@ == (SelectView { limit, ..old(self)@ }),
            *final(self) == *final(ret),
    {
        self.limit = limit;
        self
    }

    /// Sets the offset; zero stands for none.
    pub fn offset(&mut self, offset: u32) -> (ret: &mut Select<'a>)
        ensures
            ret@ == (SelectView { offset, ..old(self)@ }),
            *final(self) == *final(ret),
    {
        self.offset = offset;
        self
    }

    /// Building is repeatable: whatever two calls of `build` on one unchanged
    /// builder return, it is the same text.
    pub proof fn lemma_build_repeatable(&self, first: String, second: String)
        requires
            first@ == self@.rendered(),
            second@ == self@.rendered(),
        ensures
            first@ == second@,
    {
    }

    /// Renders the statement. The builder is left as it is, so the call can be
    /// repeated.
    pub fn build(&self) -> (out: String)
        ensures
            out@ == self@.rendered(),
    {
        let mut statement = String::from_str("SELECT ");
        if self.distinct {
            statement.append("DISTINCT ");
        } else {
            assert(statement@ + Seq::<char>::empty() =~= statement@);
        }
        if !self.columns.is_empty() {
            let mut projection = trim_end(self.columns);
            projection.append(" ");
            statement.append(projection.as_str());
        } else {
            statement.append("* ");
        }
        if !self.from.is_empty() {
            let mut source = String::from_str("FROM ");
            source.append(self.from);
            source.append(" ");
            statement.append(source.as_str());
        } else {
            assert(statement@ + Seq::<char>::empty() =~= statement@);
        }
        statement.append(self.joins_string().as_str());
        let condition = self.where_.build();
        if !condition.as_str().is_empty() {
            let mut clause = condition;
            clause.append(" ");
            statement.append(clause.as_str());
        } else {
            assert(statement@ + Seq::<char>::empty() =~= statement@);
        }
        statement.append(text_clause_string("GROUP BY ", self.group).as_str());
        statement.append(text_clause_string("ORDER BY ", self.order).as_str());
        statement.append(number_clause_string(self.limit > 0, "LIMIT ", self.limit).as_str());
        statement.append(
            number_clause_string(self.offset > 0 && self.limit > 0, "OFFSET ", self.offset).as_str(),
        );
        let mut out = trim(statement.as_str());
        out.append(";");
        out
    }

    fn joins_string(&self) -> (out: String)
        ensures
            out@ == joins_text(self@.joins),
    {
        let ghost all = self@.joins;
        let mut out = String::new();
        let mut i: usize = 0;
        while i < self.joins.len()
            invariant
                i <= self.joins.len(),
                all == join_views(self.joins@),
                out@ == joins_text(all.take(i as int)),
            decreases self.joins.len() - i,
        {
            out.append(self.joins[i].build().as_str());
            proof {
                let next = all.take(i + 1);
                assert(next.drop_last() =~= all.take(i as int));
                assert(next.last() == self.joins@[i as int]@);
            }
            i = i + 1;
        }
        assert(all.take(i as int) =~= all);
        out
    }
}

} // verus!
