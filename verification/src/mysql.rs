//! Lenient statement builders: `build` always returns text and checks
//! nothing. Values of comparisons and assignments are rendered in
//! numeric-sniffing mode, and conditions carry one combinator that is put
//! between every two predicates.

pub mod create;
pub mod delete;
pub mod insert;
pub mod join;
pub mod select;
pub mod update;
pub mod where_;
