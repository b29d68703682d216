//! The `CREATE TABLE` statement.

use vstd::prelude::*;
use vstd::string::*;
use crate::errors::SqlBuilderError;
use crate::sqlite::columns::{Column, ColumnView};
use crate::text::{built_text, join, joined, views};

verus! {

/// The views of a vector of columns.
pub open spec fn column_views(columns: Seq<Column>) -> Seq<ColumnView> {
    columns.map_values(|c: Column| c@)
}

/// The first failure among the columns, in list order. `None` when every
/// column has a definition.
pub open spec fn columns_error(columns: Seq<ColumnView>) -> Option<SqlBuilderError>
    decreases columns.len(),
{
    if columns.len() == 0 {
        None
    } else {
        match columns.first().built() {
            Err(e) => Some(e),
            Ok(_) => columns_error(columns.drop_first()),
        }
    }
}

/// The definitions of the columns, in order. It is meant for columns that all
/// have one.
pub open spec fn definitions(columns: Seq<ColumnView>) -> Seq<Seq<char>> {
    columns.map_values(|c: ColumnView| c.built()->Ok_0)
}

/// Builds a `CREATE TABLE` statement from a table name and column
/// definitions.
#[derive(Debug)]
pub struct CreateTable {
    table: String,
    columns: Vec<Column>,
    if_not_exists: bool,
}

/// What a [`CreateTable`] holds.
pub struct CreateTableView {
    pub table: Seq<char>,
    pub columns: Seq<ColumnView>,
    pub if_not_exists: bool,
}

impl CreateTableView {
    /// The statement text: the definitions in the order of the columns, with
    /// `, ` between them, in parentheses after the table name.
    pub open spec fn rendered(self) -> Seq<char> {
        (if self.if_not_exists {
            "CREATE TABLE IF NOT EXISTS "@
        } else {
            "CREATE TABLE "@
        }) + self.table + " ("@ + joined(definitions(self.columns), ", "@) + ");"@
    }

    /// What `build` returns. The table name is checked first, then that there
    /// is a column at all, then the columns in order.
    pub open spec fn built(self) -> Result<Seq<char>, SqlBuilderError> {
        if self.table.len() == 0 {
            Err(SqlBuilderError::EmptyTableName)
        } else if self.columns.len() == 0 {
            Err(SqlBuilderError::NoColumnsSpecified)
        } else {
            match columns_error(self.columns) {
                Some(e) => Err(e),
                None => Ok(self.rendered()),
            }
        }
    }
}

impl View for CreateTable {
    type V = CreateTableView;

    closed spec fn view(&self) -> CreateTableView {
        CreateTableView {
            table: self.table@,
            columns: column_views(self.columns@),
            if_not_exists: self.if_not_exists,
        }
    }
}

/// The error of the columns is that of the columns from `k` on when the first
/// `k` columns have a definition.
pub proof fn lemma_columns_error_skip(columns: Seq<ColumnView>, k: int)
    requires
        0 <= k <= columns.len(),
        forall|i: int| 0 <= i < k ==> (#[trigger] columns[i]).built() is Ok,
    ensures
        columns_error(columns) == columns_error(columns.skip(k)),
    decreases k,
{
    if k == 0 {
        assert(columns.skip(0) =~= columns);
    } else {
        assert(columns.first() == columns[0]);
        lemma_columns_error_skip(columns.drop_first(), k - 1);
        assert(columns.drop_first().skip(k - 1) =~= columns.skip(k));
    }
}

/// A table with a name and no column is refused for its missing columns.
pub proof fn lemma_no_columns(create: CreateTableView)
    requires
        create.table.len() > 0,
        create.columns.len() == 0,
    ensures
        create.built() == Err::<Seq<char>, SqlBuilderError>(SqlBuilderError::NoColumnsSpecified),
{
}

/// A table with a name is refused for an invalid column type when one of its
/// columns has a name but neither a type nor a literal definition, and every
/// column before that one has a definition.
pub proof fn lemma_untyped_column(create: CreateTableView, at: int)
    requires
        create.table.len() > 0,
        0 <= at < create.columns.len(),
        forall|i: int| 0 <= i < at ==> (#[trigger] create.columns[i]).built() is Ok,
        create.columns[at].name.len() > 0,
        create.columns[at].column_type is None,
        create.columns[at].literal is None,
    ensures
        create.built() == Err::<Seq<char>, SqlBuilderError>(SqlBuilderError::InvalidColumnType),
{
    lemma_columns_error_skip(create.columns, at);
    assert(create.columns.skip(at).first() == create.columns[at]);
}

impl CreateTable {
    /// Describes the table `table` with the given columns.
    pub fn new(table: &str, columns: Vec<Column>) -> (create: Self)
        ensures
            create@ == (CreateTableView {
                table: table@,
                columns: column_views(columns@),
                if_not_exists: false,
            }),
    {
        Self { table: String::from_str(table), columns, if_not_exists: false }
    }

    /// Asks to create the table only if it does not exist yet.
    pub fn if_not_exists(self) -> (create: Self)
        ensures
            create@ == (CreateTableView { if_not_exists: true, ..self@ }),
    {
        let mut create = self;
        create.if_not_exists = true;
        create
    }

    /// Building is repeatable: whatever two calls of `build` on one unchanged
    /// builder return, it is the same.
    pub proof fn lemma_build_repeatable(
        &self,
        first: Result<String, SqlBuilderError>,
        second: Result<String, SqlBuilderError>,
    )
        requires
            built_text(first) == self@.built(),
            built_text(second) == self@.built(),
        ensures
            built_text(first) == built_text(second),
    {
    }

    /// Renders the statement. The builder is left as it is, so the call can be
    /// repeated.
    pub fn build(&self) -> (r: Result<String, SqlBuilderError>)
        ensures
            built_text(r) == self@.built(),
    {
        if self.table.as_str().is_empty() {
            return Err(SqlBuilderError::EmptyTableName);
        }
        if self.columns.len() == 0 {
            return Err(SqlBuilderError::NoColumnsSpecified);
        }
        let ghost all = self@.columns;
        let mut built: Vec<String> = Vec::new();
        let mut i: usize = 0;
        while i < self.columns.len()
            invariant
                i <= self.columns.len(),
                self@.table.len() > 0,
                all == self@.columns,
                all == column_views(self.columns@),
                forall|k: int| 0 <= k < i ==> (#[trigger] all[k]).built() is Ok,
                views(built@) == definitions(all).take(i as int),
            decreases self.columns.len() - i,
        {
            proof {
                lemma_columns_error_skip(all, i as int);
                assert(all.skip(i as int).first() == all[i as int]);
                assert(all[i as int] == self.columns@[i as int]@);
                assert(all.len() > 0);
            }
            match self.columns[i].build() {
                Ok(definition) => {
                    proof {
                        assert(views(built@.push(definition)) =~= views(built@).push(
                            definition@,
                        ));
                        assert(definitions(all).take(i + 1) =~= definitions(all).take(
                            i as int,
                        ).push(definition@));
                    }
                    built.push(definition);
                },
                Err(e) => {
                    return Err(e);
                },
            }
            i = i + 1;
        }
        proof {
            lemma_columns_error_skip(all, i as int);
            assert(definitions(all).take(i as int) =~= definitions(all));
        }
        let mut statement = if self.if_not_exists {
            String::from_str("CREATE TABLE IF NOT EXISTS ")
        } else {
            String::from_str("CREATE TABLE ")
        };
        statement.append(self.table.as_str());
        statement.append(" (");
        statement.append(join(&built, ", ").as_str());
        statement.append(");");
        Ok(statement)
    }
}

} // verus!
