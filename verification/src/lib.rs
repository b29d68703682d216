//! A fluent builder for SQL statement text.
//!
//! Every builder assembles one statement (or one fragment of a statement) from
//! structured inputs and hands it back as a string. Nothing is executed and no
//! database is contacted. Each `build` states in its contract the exact text it
//! returns, as a function of the builder's view.
//!
//! Values are quoted naively: a single quote inside a value is passed through
//! unchanged. Callers that need protection against injection must sanitise
//! their inputs or use parameterised execution downstream.

use vstd::prelude::*;
use vstd::string::*;
use crate::numeric::{is_numeric, value_is_numeric};

pub mod errors;
pub mod mysql;
pub mod numeric;
pub mod sqlite;
pub mod text;

verus! {

/// A value between two single quotes. Quote characters inside the value are
/// not escaped.
pub open spec fn quoted(value: Seq<char>) -> Seq<char> {
    "'"@ + value + "'"@
}

/// Renders a value in always-quote mode: the value wrapped in single quotes,
/// whatever it holds.
pub fn escape_value(value: &str) -> (escaped: String)
    ensures
        escaped@ == quoted(value@),
{
    let mut escaped = String::from_str("'");
    escaped.append(value);
    escaped.append("'");
    escaped
}

/// A value as numeric-sniffing mode renders it: bare when it reads as a
/// number, quoted otherwise.
pub open spec fn sniffed(value: Seq<char>) -> Seq<char> {
    if is_numeric(value) {
        value
    } else {
        quoted(value)
    }
}

/// Renders a value in numeric-sniffing mode: a value that reads as a number
/// is returned unchanged, any other value wrapped in single quotes.
pub fn format_value(value: &str) -> (formatted: String)
    ensures
        formatted@ == sniffed(value@),
{
    if value_is_numeric(value) {
        String::from_str(value)
    } else {
        escape_value(value)
    }
}

} // verus!
