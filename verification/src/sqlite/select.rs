//! The `SELECT` statement, and reading a simple `SELECT` back from text.

use vstd::prelude::*;
use vstd::string::*;
use crate::errors::SqlBuilderError;
use crate::numeric::{decimal, decimal_string, lemma_decimal_digits, parse_u32, parsed_u32};
use crate::text::{
    built_text, lemma_trimmed_of_padded, optional_text, same_text, split_words, to_uppercase, trim,
    trimmed, uppercase, views, words,
};

verus! {

/// Builds a `SELECT` statement for one table.
#[derive(Debug)]
pub struct Select {
    table: String,
    distinct: bool,
    condition: Option<String>,
    columns: Option<String>,
    group: Option<String>,
    order: Option<String>,
    limit: Option<u32>,
    offset: Option<u32>,
}

/// What a [`Select`] holds.
pub struct SelectView {
    pub table: Seq<char>,
    pub distinct: bool,
    pub columns: Option<Seq<char>>,
    pub condition: Option<Seq<char>>,
    pub group: Option<Seq<char>>,
    pub order: Option<Seq<char>>,
    pub limit: Option<u32>,
    pub offset: Option<u32>,
}

/// A clause that takes text: the keyword and the text, or nothing when the
/// clause was not set.
pub open spec fn text_clause(keyword: Seq<char>, text: Option<Seq<char>>) -> Seq<char> {
    match text {
        Some(t) => keyword + t,
        None => Seq::empty(),
    }
}

/// A clause that takes a number: the keyword and the number in decimal, or
/// nothing when the clause was not set.
pub open spec fn number_clause(keyword: Seq<char>, number: Option<u32>) -> Seq<char> {
    match number {
        Some(n) => keyword + decimal(n as nat),
        None => Seq::empty(),
    }
}

impl SelectView {
    /// A selection of every column of `table`, with no clause set.
    pub open spec fn of_table(table: Seq<char>) -> SelectView {
        SelectView {
            table,
            distinct: false,
            columns: None,
            condition: None,
            group: None,
            order: None,
            limit: None,
            offset: None,
        }
    }

    /// `SELECT`, with `DISTINCT` when asked for, and the projection, which is
    /// `*` unless columns were given.
    pub open spec fn head(self) -> Seq<char> {
        "SELECT"@ + (if self.distinct {
            " DISTINCT"@
        } else {
            Seq::empty()
        }) + " "@ + (match self.columns {
            Some(c) => c,
            None => "*"@,
        })
    }

    /// The offset that is written: the one that was set, but only together
    /// with a limit.
    pub open spec fn written_offset(self) -> Option<u32> {
        if self.limit is Some {
            self.offset
        } else {
            None
        }
    }

    /// The statement before it is trimmed and closed. The clauses come in one
    /// fixed order, each preceded by a single space.
    pub open spec fn body(self) -> Seq<char> {
        self.head() + " FROM "@ + self.table + text_clause(" WHERE "@, self.condition)
            + text_clause(" GROUP BY "@, self.group) + text_clause(" ORDER BY "@, self.order)
            + number_clause(" LIMIT "@, self.limit) + number_clause(
            " OFFSET "@,
            self.written_offset(),
        )
    }

    /// The statement text: the body without surrounding whitespace, and `;`.
    pub open spec fn rendered(self) -> Seq<char> {
        trimmed(self.body()) + ";"@
    }

    /// What `build` returns: the statement, unless the table name is empty.
    pub open spec fn built(self) -> Result<Seq<char>, SqlBuilderError> {
        if self.table.len() == 0 {
            Err(SqlBuilderError::EmptyTableName)
        } else {
            Ok(self.rendered())
        }
    }
}

/// With every optional clause set, the clauses come in this order: `SELECT`,
/// `DISTINCT`, the columns, `FROM`, `WHERE`, `GROUP BY`, `ORDER BY`, `LIMIT`,
/// `OFFSET`, and the closing `;`, which follows the offset directly.
pub proof fn lemma_clause_order(
    select: SelectView,
    columns: Seq<char>,
    condition: Seq<char>,
    group: Seq<char>,
    order: Seq<char>,
    limit: u32,
    offset: u32,
)
    requires
        select.table.len() > 0,
        select.distinct,
        select.columns == Some(columns),
        select.condition == Some(condition),
        select.group == Some(group),
        select.order == Some(order),
        select.limit == Some(limit),
        select.offset == Some(offset),
    ensures
        select.built() == Ok::<Seq<char>, SqlBuilderError>(
            "SELECT"@ + " DISTINCT"@ + " "@ + columns + " FROM "@ + select.table + (" WHERE "@
                + condition) + (" GROUP BY "@ + group) + (" ORDER BY "@ + order) + (" LIMIT "@
                + decimal(limit as nat)) + (" OFFSET "@ + decimal(offset as nat)) + ";"@,
        ),
{
    let body = select.body();
    let digits = decimal(offset as nat);
    reveal_strlit("SELECT");
    lemma_decimal_digits(offset as nat);
    assert(body.first() == 'S');
    assert(body.last() == digits[digits.len() - 1]);
    assert(Seq::<char>::empty() + body + Seq::<char>::empty() =~= body);
    lemma_trimmed_of_padded(Seq::empty(), body, Seq::empty());
}

impl View for Select {
    type V = SelectView;

    closed spec fn view(&self) -> SelectView {
        SelectView {
            table: self.table@,
            distinct: self.distinct,
            columns: optional_text(self.columns),
            condition: optional_text(self.condition),
            group: optional_text(self.group),
            order: optional_text(self.order),
            limit: self.limit,
            offset: self.offset,
        }
    }
}

/// One word of a query text, with its upper-case form, by which keywords are
/// recognised in any case.
pub struct QueryToken {
    pub text: String,
    pub upper: String,
}

/// What a [`QueryToken`] holds.
pub struct QueryTokenView {
    pub text: Seq<char>,
    pub upper: Seq<char>,
}

impl View for QueryToken {
    type V = QueryTokenView;

    open spec fn view(&self) -> QueryTokenView {
        QueryTokenView { text: self.text@, upper: self.upper@ }
    }
}

/// The views of a vector of tokens.
pub open spec fn token_views(tokens: Seq<QueryToken>) -> Seq<QueryTokenView> {
    tokens.map_values(|t: QueryToken| t@)
}

/// The tokens of a query text: its words, each with its upper-case form.
pub open spec fn query_tokens(query: Seq<char>) -> Seq<QueryTokenView> {
    words(query).map_values(|w: Seq<char>| QueryTokenView { text: w, upper: uppercase(w) })
}

/// Reads the clauses that follow the table name, from token `at` on, into
/// `select`. A clause is its keyword and one word (`WHERE`, `LIMIT`,
/// `OFFSET`) or its keyword, `BY` and one word (`GROUP`, `ORDER`). A clause
/// given twice counts the last time. Anything else makes the query invalid.
pub open spec fn parsed_clauses(tokens: Seq<QueryTokenView>, at: int, select: SelectView) -> Result<
    SelectView,
    SqlBuilderError,
>
    decreases tokens.len() - at,
{
    if at < 0 || at >= tokens.len() {
        Ok(select)
    } else if tokens[at].upper == "WHERE"@ {
        if at + 1 < tokens.len() {
            parsed_clauses(
                tokens,
                at + 2,
                SelectView { condition: Some(tokens[at + 1].text), ..select },
            )
        } else {
            Err(SqlBuilderError::InvalidQuery)
        }
    } else if tokens[at].upper == "GROUP"@ {
        if at + 2 < tokens.len() && tokens[at + 1].upper == "BY"@ {
            parsed_clauses(
                tokens,
                at + 3,
                SelectView { group: Some(tokens[at + 2].text), ..select },
            )
        } else {
            Err(SqlBuilderError::InvalidQuery)
        }
    } else if tokens[at].upper == "ORDER"@ {
        if at + 2 < tokens.len() && tokens[at + 1].upper == "BY"@ {
            parsed_clauses(
                tokens,
                at + 3,
                SelectView { order: Some(tokens[at + 2].text), ..select },
            )
        } else {
            Err(SqlBuilderError::InvalidQuery)
        }
    } else if tokens[at].upper == "LIMIT"@ {
        if at + 1 < tokens.len() && parsed_u32(tokens[at + 1].text) is Some {
            parsed_clauses(
                tokens,
                at + 2,
                SelectView { limit: parsed_u32(tokens[at + 1].text), ..select },
            )
        } else {
            Err(SqlBuilderError::InvalidQuery)
        }
    } else if tokens[at].upper == "OFFSET"@ {
        if at + 1 < tokens.len() && parsed_u32(tokens[at + 1].text) is Some {
            parsed_clauses(
                tokens,
                at + 2,
                SelectView { offset: parsed_u32(tokens[at + 1].text), ..select },
            )
        } else {
            Err(SqlBuilderError::InvalidQuery)
        }
    } else {
        Err(SqlBuilderError::InvalidQuery)
    }
}

/// The selection that a tokenised query stands for. The query starts with
/// `SELECT`, one word for the projection (which is not looked at), `FROM` and
/// the table name; clauses may follow.
pub open spec fn parsed_query(tokens: Seq<QueryTokenView>) -> Result<SelectView, SqlBuilderError> {
    if tokens.len() >= 4 && tokens[0].upper == "SELECT"@ && tokens[2].upper == "FROM"@ {
        parsed_clauses(tokens, 4, SelectView::of_table(tokens[3].text))
    } else {
        Err(SqlBuilderError::InvalidQuery)
    }
}

/// What a reading returns, with the builder taken by its view.
pub open spec fn parsed_view(r: Result<Select, SqlBuilderError>) -> Result<
    SelectView,
    SqlBuilderError,
> {
    match r {
        Ok(s) => Ok(s@),
        Err(e) => Err(e),
    }
}

impl Select {
    /// Starts a selection of every column of `table`.
    pub fn new(table: &str) -> (select: Self)
        ensures
            select@ == SelectView::of_table(table@),
    {
        Self {
            table: String::from_str(table),
            distinct: false,
            columns: None,
            condition: None,
            group: None,
            order: None,
            limit: None,
            offset: None,
        }
    }

    /// Reads a simple query back into a builder, on a best-effort basis: the
    /// text is cut into words at whitespace, and keywords are recognised by
    /// their upper-case form.
    pub fn from(query: &str) -> (r: Result<Select, SqlBuilderError>)
        ensures
            parsed_view(r) == parsed_query(query_tokens(query@)),
    {
        let parts = split_words(query);
        let mut tokens: Vec<QueryToken> = Vec::new();
        let mut i: usize = 0;
        while i < parts.len()
            invariant
                i <= parts.len(),
                views(parts@) == words(query@),
                token_views(tokens@) == query_tokens(query@).take(i as int),
            decreases parts.len() - i,
        {
            let text = parts[i].clone();
            let upper = to_uppercase(text.as_str());
            let token = QueryToken { text, upper };
            proof {
                let all = query_tokens(query@);
                assert(views(parts@)[i as int] == parts@[i as int]@);
                assert(all.len() == parts.len());
                assert(all[i as int] == token@);
                assert(token_views(tokens@.push(token)) =~= token_views(tokens@).push(token@));
                assert(all.take(i + 1) =~= all.take(i as int).push(all[i as int]));
            }
            tokens.push(token);
            i = i + 1;
        }
        assert(query_tokens(query@).take(i as int) =~= query_tokens(query@));
        Select::from_tokens(&tokens)
    }

    /// Reads a tokenised query into a builder.
    pub fn from_tokens(tokens: &Vec<QueryToken>) -> (r: Result<Select, SqlBuilderError>)
        ensures
            parsed_view(r) == parsed_query(token_views(tokens@)),
    {
        let n = tokens.len();
        let ghost t = token_views(tokens@);
        if n < 4 {
            return Err(SqlBuilderError::InvalidQuery);
        }
        assert(t[0] == tokens@[0]@ && t[2] == tokens@[2]@ && t[3] == tokens@[3]@);
        if !same_text(tokens[0].upper.as_str(), "SELECT") {
            return Err(SqlBuilderError::InvalidQuery);
        }
        if !same_text(tokens[2].upper.as_str(), "FROM") {
            return Err(SqlBuilderError::InvalidQuery);
        }
        let mut select = Select::new(tokens[3].text.as_str());
        let mut at: usize = 4;
        while at < n
            invariant
                4 <= at,
                n == tokens.len(),
                t == token_views(tokens@),
                parsed_clauses(t, at as int, select@) == parsed_query(t),
            decreases n - at,
        {
            let key = tokens[at].upper.as_str();
            assert(t[at as int] == tokens@[at as int]@);
            proof {
                if at + 1 < n {
                    assert(t[at + 1] == tokens@[at + 1]@);
                }
                if at + 2 < n {
                    assert(t[at + 2] == tokens@[at + 2]@);
                }
            }
            if same_text(key, "WHERE") {
                if n - at < 2 {
                    return Err(SqlBuilderError::InvalidQuery);
                }
                select.condition(tokens[at + 1].text.clone());
                at = at + 2;
            } else if same_text(key, "GROUP") {
                if n - at < 3 || !same_text(tokens[at + 1].upper.as_str(), "BY") {
                    return Err(SqlBuilderError::InvalidQuery);
                }
                select.group(tokens[at + 2].text.as_str());
                at = at + 3;
            } else if same_text(key, "ORDER") {
                if n - at < 3 || !same_text(tokens[at + 1].upper.as_str(), "BY") {
                    return Err(SqlBuilderError::InvalidQuery);
                }
                select.order(tokens[at + 2].text.as_str());
                at = at + 3;
            } else if same_text(key, "LIMIT") {
                if n - at < 2 {
                    return Err(SqlBuilderError::InvalidQuery);
                }
                match parse_u32(tokens[at + 1].text.as_str()) {
                    Some(limit) => {
                        select.limit(limit);
                    },
                    None => {
                        return Err(SqlBuilderError::InvalidQuery);
                    },
                }
                at = at + 2;
            } else if same_text(key, "OFFSET") {
                if n - at < 2 {
                    return Err(SqlBuilderError::InvalidQuery);
                }
                match parse_u32(tokens[at + 1].text.as_str()) {
                    Some(offset) => {
                        select.offset(offset);
                    },
                    None => {
                        return Err(SqlBuilderError::InvalidQuery);
                    },
                }
                at = at + 2;
            } else {
                return Err(SqlBuilderError::InvalidQuery);
            }
        }
        Ok(select)
    }

    /// Asks for distinct rows.
    pub fn distinct(&mut self) -> (ret: &mut Self)
        ensures
            ret@ == (SelectView { distinct: true, ..old(self)@ }),
            *final(self) == *final(ret),
    {
        self.distinct = true;
        self
    }

    /// Sets the projection.
    pub fn columns(&mut self, columns: &str) -> (ret: &mut Self)
        ensures
            ret@ == (SelectView { columns: Some(columns@), ..old(self)@ }),
            *final(self) == *final(ret),
    {
        self.columns = Some(String::from_str(columns));
        self
    }

    /// Sets the `GROUP BY` clause.
    pub fn group(&mut self, group: &str) -> (ret: &mut Self)
        ensures
            ret@ == (SelectView { group: Some(group@), ..old(self)@ }),
            *final(self) == *final(ret),
    {
        self.group = Some(String::from_str(group));
        self
    }

    /// Sets the `ORDER BY` clause.
    pub fn order(&mut self, order: &str) -> (ret: &mut Self)
        ensures
            ret@ == (SelectView { order: Some(order@), ..old(self)@ }),
            *final(self) == *final(ret),
    {
        self.order = Some(String::from_str(order));
        self
    }

    /// Sets the `WHERE` clause.
    pub fn condition(&mut self, condition: String) -> (ret: &mut Self)
        ensures
            ret@ == (SelectView { condition: Some(condition@), ..old(self)@ }),
            *final(self) == *final(ret),
    {
        self.condition = Some(condition);
        self
    }

    /// Sets the `LIMIT` clause.
    pub fn limit(&mut self, limit: u32) -> (ret: &mut Self)
        ensures
            ret@ == (SelectView { limit: Some(limit), ..old(self)@ }),
            *final(self) == *final(ret),
    {
        self.limit = Some(limit);
        self
    }

    /// Sets the `OFFSET` clause, which is written only when a limit is set
    /// too.
    pub fn offset(&mut self, offset: u32) -> (ret: &mut Self)
        ensures
            ret@ == (SelectView { offset: Some(offset), ..old(self)@ }),
            *final(self) == *final(ret),
    {
        self.offset = Some(offset);
        self
    }

    /// Building is repeatable: whatever two calls of `build` on one unchanged
    /// builder return, it is the same.
    pub proof fn lemma_build_repeatable(
        &self,
        first: Result<String, SqlBuilderError>,
        second: Result<String, SqlBuilderError>,
    )
        requires
            built_text(first) == self@.built(),
            built_text(second) == self@.built(),
        ensures
            built_text(first) == built_text(second),
    {
    }

    /// Renders the statement. The builder is left as it is, so the call can be
    /// repeated.
    pub fn build(&self) -> (r: Result<String, SqlBuilderError>)
        ensures
            built_text(r) == self@.built(),
    {
        if self.table.as_str().is_empty() {
            return Err(SqlBuilderError::EmptyTableName);
        }
        let mut statement = String::from_str("SELECT");
        if self.distinct {
            statement.append(" DISTINCT");
        } else {
            assert(statement@ + Seq::<char>::empty() =~= statement@);
        }
        statement.append(" ");
        match &self.columns {
            Some(columns) => {
                statement.append(columns.as_str());
            },
            None => {
                statement.append("*");
            },
        }
        statement.append(" FROM ");
        statement.append(self.table.as_str());
        statement.append(text_clause_string(" WHERE ", &self.condition).as_str());
        statement.append(text_clause_string(" GROUP BY ", &self.group).as_str());
        statement.append(text_clause_string(" ORDER BY ", &self.order).as_str());
        statement.append(number_clause_string(" LIMIT ", self.limit).as_str());
        let offset = if self.limit.is_some() {
            self.offset
        } else {
            None
        };
        statement.append(number_clause_string(" OFFSET ", offset).as_str());
        let mut out = trim(statement.as_str());
        out.append(";");
        Ok(out)
    }
}

fn text_clause_string(keyword: &str, text: &Option<String>) -> (out: String)
    ensures
        out@ == text_clause(keyword@, optional_text(*text)),
{
    match text {
        Some(t) => {
            let mut out = String::from_str(keyword);
            out.append(t.as_str());
            out
        },
        None => String::new(),
    }
}

fn number_clause_string(keyword: &str, number: Option<u32>) -> (out: String)
    ensures
        out@ == number_clause(keyword@, number),
{
    match number {
        Some(n) => {
            let mut out = String::from_str(keyword);
            out.append(decimal_string(n).as_str());
            out
        },
        None => String::new(),
    }
}

} // verus!
