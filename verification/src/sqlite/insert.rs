//! The `INSERT` statement.

use vstd::prelude::*;
use vstd::string::*;
use crate::errors::SqlBuilderError;
use crate::escape_value;
use crate::quoted;
use crate::text::{built_text, join, joined, views};

verus! {

/// A column name with the value for it.
pub type Pair = (Seq<char>, Seq<char>);

/// The views of a vector of column/value pairs.
pub open spec fn pair_views(pairs: Seq<(String, String)>) -> Seq<Pair> {
    pairs.map_values(|p: (String, String)| (p.0@, p.1@))
}

/// The views of a vector of column/value pairs that are given as slices.
pub open spec fn slice_pair_views(pairs: Seq<(&str, &str)>) -> Seq<Pair> {
    pairs.map_values(|p: (&str, &str)| (p.0@, p.1@))
}

/// The first failure among the pairs, in list order: a pair with an empty
/// column name, or else with an empty value. `None` when every pair is
/// complete.
pub open spec fn pairs_error(pairs: Seq<Pair>) -> Option<SqlBuilderError>
    decreases pairs.len(),
{
    if pairs.len() == 0 {
        None
    } else if pairs.first().0.len() == 0 {
        Some(SqlBuilderError::EmptyColumnName)
    } else if pairs.first().1.len() == 0 {
        Some(SqlBuilderError::EmptyValue)
    } else {
        pairs_error(pairs.drop_first())
    }
}

/// The column names of the pairs, in order.
pub open spec fn column_names(pairs: Seq<Pair>) -> Seq<Seq<char>> {
    pairs.map_values(|p: Pair| p.0)
}

/// The values of the pairs, each quoted, in order.
pub open spec fn quoted_values(pairs: Seq<Pair>) -> Seq<Seq<char>> {
    pairs.map_values(|p: Pair| quoted(p.1))
}

/// Builds an `INSERT` statement from a table and column/value pairs.
#[derive(Debug)]
pub struct Insert {
    pub table: String,
    pub values: Vec<(String, String)>,
}

/// What an [`Insert`] holds.
pub struct InsertView {
    pub table: Seq<char>,
    pub values: Seq<Pair>,
}

impl InsertView {
    /// The statement text: the column names and the quoted values, each list
    /// in the order of the pairs with `, ` between its items.
    pub open spec fn rendered(self) -> Seq<char> {
        "INSERT INTO "@ + self.table + " ("@ + joined(column_names(self.values), ", "@)
            + ") VALUES ("@ + joined(quoted_values(self.values), ", "@) + ");"@
    }

    /// What `build` returns. The table name is checked first, then that there
    /// is a pair at all, then the pairs in order.
    pub open spec fn built(self) -> Result<Seq<char>, SqlBuilderError> {
        if self.table.len() == 0 {
            Err(SqlBuilderError::EmptyTableName)
        } else if self.values.len() == 0 {
            Err(SqlBuilderError::EmptyColumnAndValue)
        } else {
            match pairs_error(self.values) {
                Some(e) => Err(e),
                None => Ok(self.rendered()),
            }
        }
    }
}

impl View for Insert {
    type V = InsertView;

    open spec fn view(&self) -> InsertView {
        InsertView { table: self.table@, values: pair_views(self.values@) }
    }
}

/// Copies column/value pairs into owned strings.
pub fn owned_pairs(pairs: Vec<(&str, &str)>) -> (out: Vec<(String, String)>)
    ensures
        pair_views(out@) == slice_pair_views(pairs@),
{
    let mut out: Vec<(String, String)> = Vec::new();
    let ghost all = slice_pair_views(pairs@);
    let mut i: usize = 0;
    while i < pairs.len()
        invariant
            i <= pairs.len(),
            all == slice_pair_views(pairs@),
            pair_views(out@) == all.take(i as int),
        decreases pairs.len() - i,
    {
        let pair = (String::from_str(pairs[i].0), String::from_str(pairs[i].1));
        proof {
            assert(pair_views(out@.push(pair)) =~= pair_views(out@).push((pair.0@, pair.1@)));
            assert(all.take(i + 1) =~= all.take(i as int).push(all[i as int]));
        }
        out.push(pair);
        i = i + 1;
    }
    assert(all.take(i as int) =~= all);
    out
}

/// The error of the pairs is that of the pairs from `k` on when the first `k`
/// pairs are complete.
pub proof fn lemma_pairs_error_skip(pairs: Seq<Pair>, k: int)
    requires
        0 <= k <= pairs.len(),
        forall|i: int| 0 <= i < k ==> (#[trigger] pairs[i]).0.len() > 0 && pairs[i].1.len() > 0,
    ensures
        pairs_error(pairs) == pairs_error(pairs.skip(k)),
    decreases k,
{
    if k == 0 {
        assert(pairs.skip(0) =~= pairs);
    } else {
        assert(pairs.first() == pairs[0]);
        lemma_pairs_error_skip(pairs.drop_first(), k - 1);
        assert(pairs.drop_first().skip(k - 1) =~= pairs.skip(k));
    }
}

/// Checks the pairs and returns the first failure, if there is one.
pub fn check_pairs(pairs: &Vec<(String, String)>) -> (r: Option<SqlBuilderError>)
    ensures
        r == pairs_error(pair_views(pairs@)),
{
    let ghost all = pair_views(pairs@);
    let mut i: usize = 0;
    while i < pairs.len()
        invariant
            i <= pairs.len(),
            all == pair_views(pairs@),
            forall|k: int| 0 <= k < i ==> (#[trigger] all[k]).0.len() > 0 && all[k].1.len() > 0,
        decreases pairs.len() - i,
    {
        proof {
            lemma_pairs_error_skip(all, i as int);
            assert(all.skip(i as int).first() == all[i as int]);
        }
        if pairs[i].0.as_str().is_empty() {
            return Some(SqlBuilderError::EmptyColumnName);
        }
        if pairs[i].1.as_str().is_empty() {
            return Some(SqlBuilderError::EmptyValue);
        }
        i = i + 1;
    }
    proof {
        lemma_pairs_error_skip(all, i as int);
    }
    None
}

/// With a table name and at least one pair, every pair complete, the
/// statement is rendered, and it lists as many column names and as many
/// quoted values as there are pairs, each list in the order of the pairs.
pub proof fn lemma_insert_lists_every_pair(insert: InsertView)
    requires
        insert.table.len() > 0,
        insert.values.len() > 0,
        forall|i: int|
            0 <= i < insert.values.len() ==> (#[trigger] insert.values[i]).0.len() > 0
                && insert.values[i].1.len() > 0,
    ensures
        insert.built() == Ok::<Seq<char>, SqlBuilderError>(
            "INSERT INTO "@ + insert.table + " ("@ + joined(column_names(insert.values), ", "@)
                + ") VALUES ("@ + joined(quoted_values(insert.values), ", "@) + ");"@,
        ),
        column_names(insert.values).len() == insert.values.len(),
        quoted_values(insert.values).len() == insert.values.len(),
        forall|i: int|
            0 <= i < insert.values.len() ==> #[trigger] column_names(insert.values)[i]
                == insert.values[i].0,
        forall|i: int|
            0 <= i < insert.values.len() ==> #[trigger] quoted_values(insert.values)[i] == quoted(
                insert.values[i].1,
            ),
{
    lemma_pairs_error_skip(insert.values, insert.values.len() as int);
}

impl Insert {
    /// Starts an insertion into `table`, with no pairs yet.
    pub fn new(table: &str) -> (insert: Self)
        ensures
            insert@ == (InsertView { table: table@, values: Seq::empty() }),
    {
        let insert = Self { table: String::from_str(table), values: Vec::new() };
        assert(pair_views(insert.values@) =~= Seq::empty());
        insert
    }

    /// Sets the column/value pairs, replacing those set before.
    pub fn values(self, values: Vec<(&str, &str)>) -> (insert: Self)
        ensures
            insert@ == (InsertView { table: self@.table, values: slice_pair_views(values@) }),
    {
        let mut insert = self;
        insert.values = owned_pairs(values);
        insert
    }

    /// Building is repeatable: whatever two calls of `build` on one unchanged
    /// builder return, it is the same.
    pub proof fn lemma_build_repeatable(
        &self,
        first: Result<String, SqlBuilderError>,
        second: Result<String, SqlBuilderError>,
    )
        requires
            built_text(first) == self@.built(),
            built_text(second) == self@.built(),
        ensures
            built_text(first) == built_text(second),
    {
    }

    /// Renders the statement. The builder is left as it is, so the call can be
    /// repeated.
    pub fn build(&self) -> (r: Result<String, SqlBuilderError>)
        ensures
            built_text(r) == self@.built(),
    {
        if self.table.as_str().is_empty() {
            return Err(SqlBuilderError::EmptyTableName);
        }
        if self.values.len() == 0 {
            return Err(SqlBuilderError::EmptyColumnAndValue);
        }
        match check_pairs(&self.values) {
            Some(e) => {
                return Err(e);
            },
            None => {},
        }
        let ghost pairs = self@.values;
        let mut columns: Vec<String> = Vec::new();
        let mut values: Vec<String> = Vec::new();
        let mut i: usize = 0;
        while i < self.values.len()
            invariant
                i <= self.values.len(),
                pairs == pair_views(self.values@),
                views(columns@) == column_names(pairs).take(i as int),
                views(values@) == quoted_values(pairs).take(i as int),
            decreases self.values.len() - i,
        {
            let column = self.values[i].0.clone();
            let value = escape_value(self.values[i].1.as_str());
            proof {
                assert(views(columns@.push(column)) =~= views(columns@).push(column@));
                assert(views(values@.push(value)) =~= views(values@).push(value@));
                assert(column_names(pairs).take(i + 1) =~= column_names(pairs).take(
                    i as int,
                ).push(column@));
                assert(quoted_values(pairs).take(i + 1) =~= quoted_values(pairs).take(
                    i as int,
                ).push(value@));
            }
            columns.push(column);
            values.push(value);
            i = i + 1;
        }
        proof {
            assert(column_names(pairs).take(i as int) =~= column_names(pairs));
            assert(quoted_values(pairs).take(i as int) =~= quoted_values(pairs));
        }
        let mut statement = String::from_str("INSERT INTO ");
        statement.append(self.table.as_str());
        statement.append(" (");
        statement.append(join(&columns, ", ").as_str());
        statement.append(") VALUES (");
        statement.append(join(&values, ", ").as_str());
        statement.append(");");
        Ok(statement)
    }
}

} // verus!
