//! Validating statement builders: every `build` checks its inputs and reports
//! the first failure as a [`SqlBuilderError`](crate::errors::SqlBuilderError).
//! Values are always quoted.

pub mod columns;
pub mod condition;
pub mod create;
pub mod create_table;
pub mod delete;
pub mod insert;
pub mod join;
pub mod select;
pub mod update;

pub use columns::Column;
pub use columns::ColumnOption;
pub use columns::ColumnOptionView;
pub use columns::ColumnType;
pub use columns::ColumnView;
pub use condition::Where;
pub use create_table::CreateTable;
pub use create_table::CreateTableView;
pub use delete::Delete;
pub use delete::DeleteView;
pub use insert::Insert;
pub use insert::InsertView;
pub use join::Join;
pub use join::JoinType;
pub use join::JoinView;
pub use select::QueryToken;
pub use select::QueryTokenView;
pub use select::Select;
pub use select::SelectView;
pub use update::Update;
pub use update::UpdateView;
