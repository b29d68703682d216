//! Conditions for `WHERE` clauses, with explicit combinators: the caller puts
//! `and()` or `or()` between predicates, and may group them with `nest()` and
//! `unnest()`.

use vstd::prelude::*;
use vstd::string::*;
use vstd::pervasive::unreached;
use crate::errors::SqlBuilderError;
use crate::escape_value;
use crate::quoted;
use crate::text::{join, joined, same_text, trim, trimmed, views};

verus! {

/// A predicate on a field that takes no value.
pub open spec fn is_null_check(predicate: Seq<char>) -> bool {
    predicate == "IS NULL"@ || predicate == "IS NOT NULL"@
}

/// A predicate whose text has neither 7 nor 11 characters is no null check.
proof fn lemma_not_null_check(predicate: Seq<char>)
    requires
        predicate.len() != 7,
        predicate.len() != 11,
    ensures
        !is_null_check(predicate),
{
    reveal_strlit("IS NULL");
    reveal_strlit("IS NOT NULL");
}

/// A field compared with a value: the three parts with single spaces between
/// them.
pub open spec fn comparison(field: Seq<char>, predicate: Seq<char>, value: Seq<char>) -> Seq<
    char,
> {
    field + " "@ + predicate + " "@ + value
}

/// A predicate on a field alone.
pub open spec fn null_check(field: Seq<char>, predicate: Seq<char>) -> Seq<char> {
    field + " "@ + predicate
}

/// The text of one predicate, or why it is refused. The field must not be
/// empty. A null check takes no value; any other predicate needs one.
pub open spec fn predicate_text(field: Seq<char>, predicate: Seq<char>, value: Seq<char>) -> Result<
    Seq<char>,
    SqlBuilderError,
> {
    if field.len() == 0 {
        Err(SqlBuilderError::EmptyColumnName)
    } else if is_null_check(predicate) {
        Ok(null_check(field, predicate))
    } else if value.len() == 0 {
        Err(SqlBuilderError::EmptyValue)
    } else {
        Ok(comparison(field, predicate, value))
    }
}

/// The views of a vector of string slices.
pub open spec fn slice_views(values: Seq<&str>) -> Seq<Seq<char>> {
    values.map_values(|v: &str| v@)
}

/// A list of values for `IN`: each value quoted, with `, ` between them, in
/// parentheses.
pub open spec fn value_list(values: Seq<Seq<char>>) -> Seq<char> {
    "("@ + joined(values.map_values(|v: Seq<char>| quoted(v)), ", "@) + ")"@
}

/// Accumulates the text of a condition.
///
/// The methods that add one predicate and return the builder for chaining
/// take a field name that is not empty. `add_predicate` takes any field and
/// value, and reports an empty one as an error.
#[derive(Debug)]
pub struct Where {
    statement: String,
}

impl View for Where {
    type V = Seq<char>;

    /// The text accumulated so far.
    closed spec fn view(&self) -> Seq<char> {
        self.statement@
    }
}

impl Where {
    /// Starts an empty condition.
    pub fn new() -> (condition: Self)
        ensures
            condition@ == Seq::<char>::empty(),
    {
        Self { statement: String::new() }
    }

    /// Starts a condition from text that is already written.
    pub fn from(statement: &str) -> (condition: Self)
        ensures
            condition@ == statement@,
    {
        Self { statement: String::from_str(statement) }
    }

    /// Adds `field = 'value'`.
    pub fn equal_to(&mut self, field: &str, value: &str) -> (ret: &mut Self)
        requires
            field@.len() > 0,
        ensures
            ret@ == old(self)@ + comparison(field@, "="@, quoted(value@)),
            *final(self) == *final(ret),
    {
        proof {
            reveal_strlit("=");
            lemma_not_null_check("="@);
        }
        self.add_value_predicate(field, "=", value)
    }

    /// Adds `field != 'value'`.
    pub fn not_equal_to(&mut self, field: &str, value: &str) -> (ret: &mut Self)
        requires
            field@.len() > 0,
        ensures
            ret@ == old(self)@ + comparison(field@, "!="@, quoted(value@)),
            *final(self) == *final(ret),
    {
        proof {
            reveal_strlit("!=");
            lemma_not_null_check("!="@);
        }
        self.add_value_predicate(field, "!=", value)
    }

    /// Adds `field > 'value'`.
    pub fn greater_than(&mut self, field: &str, value: &str) -> (ret: &mut Self)
        requires
            field@.len() > 0,
        ensures
            ret@ == old(self)@ + comparison(field@, ">"@, quoted(value@)),
            *final(self) == *final(ret),
    {
        proof {
            reveal_strlit(">");
            lemma_not_null_check(">"@);
        }
        self.add_value_predicate(field, ">", value)
    }

    /// Adds `field >= 'value'`.
    pub fn greater_than_equal(&mut self, field: &str, value: &str) -> (ret: &mut Self)
        requires
            field@.len() > 0,
        ensures
            ret@ == old(self)@ + comparison(field@, ">="@, quoted(value@)),
            *final(self) == *final(ret),
    {
        proof {
            reveal_strlit(">=");
            lemma_not_null_check(">="@);
        }
        self.add_value_predicate(field, ">=", value)
    }

    /// Adds `field < 'value'`.
    pub fn less_than(&mut self, field: &str, value: &str) -> (ret: &mut Self)
        requires
            field@.len() > 0,
        ensures
            ret@ == old(self)@ + comparison(field@, "<"@, quoted(value@)),
            *final(self) == *final(ret),
    {
        proof {
            reveal_strlit("<");
            lemma_not_null_check("<"@);
        }
        self.add_value_predicate(field, "<", value)
    }

    /// Adds `field <= 'value'`.
    pub fn less_than_equal(&mut self, field: &str, value: &str) -> (ret: &mut Self)
        requires
            field@.len() > 0,
        ensures
            ret@ == old(self)@ + comparison(field@, "<="@, quoted(value@)),
            *final(self) == *final(ret),
    {
        proof {
            reveal_strlit("<=");
            lemma_not_null_check("<="@);
        }
        self.add_value_predicate(field, "<=", value)
    }

    /// Adds `field IS NULL`.
    pub fn is_null(&mut self, field: &str) -> (ret: &mut Self)
        requires
            field@.len() > 0,
        ensures
            ret@ == old(self)@ + null_check(field@, "IS NULL"@),
            *final(self) == *final(ret),
    {
        match self.add_predicate(field, "IS NULL", "") {
            Ok(ret) => ret,
            Err(_) => unreached(),
        }
    }

    /// Adds `field IS NOT NULL`.
    pub fn is_not_null(&mut self, field: &str) -> (ret: &mut Self)
        requires
            field@.len() > 0,
        ensures
            ret@ == old(self)@ + null_check(field@, "IS NOT NULL"@),
            *final(self) == *final(ret),
    {
        match self.add_predicate(field, "IS NOT NULL", "") {
            Ok(ret) => ret,
            Err(_) => unreached(),
        }
    }

    /// Adds `field IN ('v1', 'v2', ...)`.
    pub fn inside(&mut self, field: &str, values: Vec<&str>) -> (ret: &mut Self)
        requires
            field@.len() > 0,
        ensures
            ret@ == old(self)@ + comparison(field@, "IN"@, value_list(slice_views(values@))),
            *final(self) == *final(ret),
    {
        proof {
            reveal_strlit("IN");
            lemma_not_null_check("IN"@);
        }
        self.add_list_predicate(field, "IN", values)
    }

    /// Adds `field NOT IN ('v1', 'v2', ...)`.
    pub fn not_inside(&mut self, field: &str, values: Vec<&str>) -> (ret: &mut Self)
        requires
            field@.len() > 0,
        ensures
            ret@ == old(self)@ + comparison(field@, "NOT IN"@, value_list(slice_views(values@))),
            *final(self) == *final(ret),
    {
        proof {
            reveal_strlit("NOT IN");
            lemma_not_null_check("NOT IN"@);
        }
        self.add_list_predicate(field, "NOT IN", values)
    }

    /// Adds `field LIKE 'value'`.
    pub fn like(&mut self, field: &str, value: &str) -> (ret: &mut Self)
        requires
            field@.len() > 0,
        ensures
            ret@ == old(self)@ + comparison(field@, "LIKE"@, quoted(value@)),
            *final(self) == *final(ret),
    {
        proof {
            reveal_strlit("LIKE");
            lemma_not_null_check("LIKE"@);
        }
        self.add_value_predicate(field, "LIKE", value)
    }

    /// Adds `field NOT LIKE 'value'`.
    pub fn not_like(&mut self, field: &str, value: &str) -> (ret: &mut Self)
        requires
            field@.len() > 0,
        ensures
            ret@ == old(self)@ + comparison(field@, "NOT LIKE"@, quoted(value@)),
            *final(self) == *final(ret),
    {
        proof {
            reveal_strlit("NOT LIKE");
            lemma_not_null_check("NOT LIKE"@);
        }
        self.add_value_predicate(field, "NOT LIKE", value)
    }

    /// Adds ` AND `.
    pub fn and(&mut self) -> (ret: &mut Self)
        ensures
            ret@ == old(self)@ + " AND "@,
            *final(self) == *final(ret),
    {
        self.statement.append(" AND ");
        self
    }

    /// Adds ` OR `.
    pub fn or(&mut self) -> (ret: &mut Self)
        ensures
            ret@ == old(self)@ + " OR "@,
            *final(self) == *final(ret),
    {
        self.statement.append(" OR ");
        self
    }

    /// Opens a group: adds `(`.
    pub fn nest(&mut self) -> (ret: &mut Self)
        ensures
            ret@ == old(self)@ + "("@,
            *final(self) == *final(ret),
    {
        self.statement.append("(");
        self
    }

    /// Closes a group: adds `)`.
    pub fn unnest(&mut self) -> (ret: &mut Self)
        ensures
            ret@ == old(self)@ + ")"@,
            *final(self) == *final(ret),
    {
        self.statement.append(")");
        self
    }

    /// Building is repeatable: whatever two calls of `build` on one unchanged
    /// builder return, it is the same text.
    pub proof fn lemma_build_repeatable(&self, first: String, second: String)
        requires
            first@ == trimmed(self@),
            second@ == trimmed(self@),
        ensures
            first@ == second@,
    {
    }

    /// Returns the condition without surrounding whitespace and without the
    /// `WHERE` keyword, which the statement that takes the condition adds.
    pub fn build(&self) -> (out: String)
        ensures
            out@ == trimmed(self@),
    {
        trim(self.statement.as_str())
    }

    /// Adds one predicate, or refuses it and leaves the condition as it was.
    pub fn add_predicate(&mut self, field: &str, predicate: &str, value: &str) -> (r: Result<
        &mut Self,
        SqlBuilderError,
    >)
        ensures
            match r {
                Ok(ret) => {
                    &&& predicate_text(field@, predicate@, value@) is Ok
                    &&& ret@ == old(self)@ + predicate_text(field@, predicate@, value@)->Ok_0
                    &&& *final(self) == *final(ret)
                },
                Err(e) => {
                    &&& predicate_text(field@, predicate@, value@) is Err
                    &&& predicate_text(field@, predicate@, value@)->Err_0 == e
                    &&& *final(self) == *old(self)
                },
            },
    {
        if field.is_empty() {
            return Err(SqlBuilderError::EmptyColumnName);
        }
        let mut text = String::from_str(field);
        text.append(" ");
        text.append(predicate);
        if same_text(predicate, "IS NULL") || same_text(predicate, "IS NOT NULL") {
            self.statement.append(text.as_str());
            return Ok(self);
        }
        if value.is_empty() {
            return Err(SqlBuilderError::EmptyValue);
        }
        text.append(" ");
        text.append(value);
        self.statement.append(text.as_str());
        Ok(self)
    }

    fn add_value_predicate(&mut self, field: &str, predicate: &str, value: &str) -> (ret: &mut Self)
        requires
            field@.len() > 0,
            !is_null_check(predicate@),
        ensures
            ret@ == old(self)@ + comparison(field@, predicate@, quoted(value@)),
            *final(self) == *final(ret),
    {
        let escaped = escape_value(value);
        proof {
            reveal_strlit("'");
        }
        match self.add_predicate(field, predicate, escaped.as_str()) {
            Ok(ret) => ret,
            Err(_) => unreached(),
        }
    }

    fn add_list_predicate(&mut self, field: &str, predicate: &str, values: Vec<&str>) -> (ret:
        &mut Self)
        requires
            field@.len() > 0,
            !is_null_check(predicate@),
        ensures
            ret@ == old(self)@ + comparison(field@, predicate@, value_list(slice_views(values@))),
            *final(self) == *final(ret),
    {
        let ghost all = slice_views(values@).map_values(|v: Seq<char>| quoted(v));
        let mut escaped: Vec<String> = Vec::new();
        let mut i: usize = 0;
        while i < values.len()
            invariant
                i <= values.len(),
                all == slice_views(values@).map_values(|v: Seq<char>| quoted(v)),
                views(escaped@) == all.take(i as int),
            decreases values.len() - i,
        {
            let one = escape_value(values[i]);
            proof {
                assert(views(escaped@.push(one)) =~= views(escaped@).push(one@));
                assert(all.take(i + 1) =~= all.take(i as int).push(one@));
            }
            escaped.push(one);
            i = i + 1;
        }
        assert(all.take(i as int) =~= all);
        let mut list = String::from_str("(");
        list.append(join(&escaped, ", ").as_str());
        list.append(")");
        proof {
            reveal_strlit("(");
        }
        match self.add_predicate(field, predicate, list.as_str()) {
            Ok(ret) => ret,
            Err(_) => unreached(),
        }
    }
}

} // verus!
