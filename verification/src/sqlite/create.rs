//! Lenient `CREATE TABLE`: these builders check nothing and always return
//! text. A column without a type is written with an empty type, or with its
//! literal definition when it has no options either.

use vstd::prelude::*;
use vstd::string::*;
use crate::sqlite::columns::{option_views, ColumnOption, ColumnOptionView, ColumnType};
use crate::text::{join, joined, optional_text, views};

verus! {

/// Builds the definition of one column, without checking it.
#[derive(Debug)]
pub struct Column {
    name: String,
    column_type: Option<ColumnType>,
    options: Vec<ColumnOption>,
    literal: Option<String>,
}

/// What a [`Column`] holds.
pub struct ColumnView {
    pub name: Seq<char>,
    pub column_type: Option<ColumnType>,
    pub options: Seq<ColumnOptionView>,
    pub literal: Option<Seq<char>>,
}

/// The text that is there, or the empty text.
pub open spec fn text_or_empty(text: Option<Seq<char>>) -> Seq<char> {
    match text {
        Some(t) => t,
        None => Seq::empty(),
    }
}

impl ColumnView {
    /// A column with a name and nothing else.
    pub open spec fn named(name: Seq<char>) -> ColumnView {
        ColumnView { name, column_type: None, options: Seq::empty(), literal: None }
    }

    /// The same column with another type.
    pub open spec fn with_type(self, column_type: ColumnType) -> ColumnView {
        ColumnView { column_type: Some(column_type), ..self }
    }

    /// The same column with one more option at the end.
    pub open spec fn with_option(self, option: ColumnOptionView) -> ColumnView {
        ColumnView { options: self.options.push(option), ..self }
    }

    /// The keyword of the type, or the empty text without a type.
    pub open spec fn type_text(self) -> Seq<char> {
        match self.column_type {
            Some(t) => t.keyword(),
            None => Seq::empty(),
        }
    }

    /// The options in the order in which they were added, with single spaces
    /// between them.
    pub open spec fn options_text(self) -> Seq<char> {
        joined(self.options.map_values(|o: ColumnOptionView| o.rendered()), " "@)
    }

    /// The definition. With options: the name, the type (which may be empty)
    /// and the options. Without options but with a type: the name and the
    /// type. With neither: the name and the literal definition (which may be
    /// empty). A single space follows the name and, where options are
    /// written, the type.
    pub open spec fn rendered(self) -> Seq<char> {
        if self.options_text().len() > 0 {
            self.name + (" "@ + self.type_text() + " "@ + self.options_text())
        } else if self.type_text().len() > 0 {
            self.name + " "@ + self.type_text()
        } else {
            self.name + " "@ + text_or_empty(self.literal)
        }
    }
}

impl View for Column {
    type V = ColumnView;

    closed spec fn view(&self) -> ColumnView {
        ColumnView {
            name: self.name@,
            column_type: self.column_type,
            options: option_views(self.options@),
            literal: optional_text(self.literal),
        }
    }
}

impl Column {
    /// Starts the definition of the column `name`.
    pub fn new(name: &str) -> (column: Self)
        ensures
            column@ == ColumnView::named(name@),
    {
        let column = Self {
            name: String::from_str(name),
            column_type: None,
            options: Vec::new(),
            literal: None,
        };
        assert(option_views(column.options@) =~= Seq::empty());
        column
    }

    fn typed(self, column_type: ColumnType) -> (column: Self)
        ensures
            column@ == self@.with_type(column_type),
    {
        let mut column = self;
        column.column_type = Some(column_type);
        column
    }

    /// Makes the column an `INTEGER`.
    pub fn integer(self) -> (column: Self)
        ensures
            column@ == self@.with_type(ColumnType::Integer),
    {
        self.typed(ColumnType::Integer)
    }

    /// Makes the column a `TEXT`.
    pub fn text(self) -> (column: Self)
        ensures
            column@ == self@.with_type(ColumnType::Text),
    {
        self.typed(ColumnType::Text)
    }

    /// Makes the column a `REAL`.
    pub fn real_(self) -> (column: Self)
        ensures
            column@ == self@.with_type(ColumnType::Real),
    {
        self.typed(ColumnType::Real)
    }

    /// Makes the column a `BOOLEAN`.
    pub fn boolean(self) -> (column: Self)
        ensures
            column@ == self@.with_type(ColumnType::Boolean),
    {
        self.typed(ColumnType::Boolean)
    }

    /// Makes the column a `BLOB`.
    pub fn blob(self) -> (column: Self)
        ensures
            column@ == self@.with_type(ColumnType::Blob),
    {
        self.typed(ColumnType::Blob)
    }

    /// Makes the column a `NUMERIC`.
    pub fn numeric(self) -> (column: Self)
        ensures
            column@ == self@.with_type(ColumnType::Numeric),
    {
        self.typed(ColumnType::Numeric)
    }

    /// Makes the column a `DATE`.
    pub fn date(self) -> (column: Self)
        ensures
            column@ == self@.with_type(ColumnType::Date),
    {
        self.typed(ColumnType::Date)
    }

    /// Makes the column a `TIME`.
    pub fn time(self) -> (column: Self)
        ensures
            column@ == self@.with_type(ColumnType::Time),
    {
        self.typed(ColumnType::Time)
    }

    /// Makes the column a `DATETIME`.
    pub fn datetime(self) -> (column: Self)
        ensures
            column@ == self@.with_type(ColumnType::Datetime),
    {
        self.typed(ColumnType::Datetime)
    }

    fn with(self, option: ColumnOption) -> (column: Self)
        ensures
            column@ == self@.with_option(option@),
    {
        let mut column = self;
        column.options.push(option);
        assert(option_views(self.options@.push(option)) =~= option_views(self.options@).push(
            option@,
        ));
        column
    }

    /// Adds `NOT NULL`.
    pub fn not_null(self) -> (column: Self)
        ensures
            column@ == self@.with_option(ColumnOptionView::NotNull),
    {
        self.with(ColumnOption::NotNull)
    }

    /// Adds `UNIQUE`.
    pub fn unique(self) -> (column: Self)
        ensures
            column@ == self@.with_option(ColumnOptionView::Unique),
    {
        self.with(ColumnOption::Unique)
    }

    /// Adds `DEFAULT` with a value, which is written as it is given.
    pub fn default(self, value: &str) -> (column: Self)
        ensures
            column@ == self@.with_option(ColumnOptionView::Default(value@)),
    {
        self.with(ColumnOption::Default(String::from_str(value)))
    }

    /// Adds `AUTOINCREMENT`.
    pub fn auto_increment(self) -> (column: Self)
        ensures
            column@ == self@.with_option(ColumnOptionView::AutoIncrement),
    {
        self.with(ColumnOption::AutoIncrement)
    }

    /// Adds `PRIMARY KEY`.
    pub fn primary_key(self) -> (column: Self)
        ensures
            column@ == self@.with_option(ColumnOptionView::PrimaryKey),
    {
        self.with(ColumnOption::PrimaryKey)
    }

    /// Sets a literal definition, which is written when the column has
    /// neither a type nor options.
    pub fn literal(self, value: &str) -> (column: Self)
        ensures
            column@ == (ColumnView { literal: Some(value@), ..self@ }),
    {
        let mut column = self;
        column.literal = Some(String::from_str(value));
        column
    }

    /// Building is repeatable: whatever two calls of `build` on one unchanged
    /// builder return, it is the same text.
    pub proof fn lemma_build_repeatable(&self, first: String, second: String)
        requires
            first@ == self@.rendered(),
            second@ == self@.rendered(),
        ensures
            first@ == second@,
    {
    }

    /// Renders the definition. The column is left as it is, so the call can be
    /// repeated.
    pub fn build(&self) -> (out: String)
        ensures
            out@ == self@.rendered(),
    {
        let column_type_str = match &self.column_type {
            Some(column_type) => column_type.build(),
            None => String::new(),
        };
        let ghost all = self@.options.map_values(|o: ColumnOptionView| o.rendered());
        let mut parts: Vec<String> = Vec::new();
        let mut i: usize = 0;
        while i < self.options.len()
            invariant
                i <= self.options.len(),
                all == self@.options.map_values(|o: ColumnOptionView| o.rendered()),
                views(parts@) == all.take(i as int),
            decreases self.options.len() - i,
        {
            let part = self.options[i].build();
            proof {
                assert(views(parts@.push(part)) =~= views(parts@).push(part@));
                assert(all.take(i + 1) =~= all.take(i as int).push(part@));
            }
            parts.push(part);
            i = i + 1;
        }
        assert(all.take(i as int) =~= all);
        let options_str = join(&parts, " ");
        let mut out = self.name.clone();
        if !options_str.as_str().is_empty() {
            let mut rest = String::from_str(" ");
            rest.append(column_type_str.as_str());
            rest.append(" ");
            rest.append(options_str.as_str());
            out.append(rest.as_str());
            return out;
        }
        out.append(" ");
        if !column_type_str.as_str().is_empty() {
            out.append(column_type_str.as_str());
            return out;
        }
        match &self.literal {
            Some(literal) => {
                out.append(literal.as_str());
            },
            None => {
                assert(out@ + Seq::<char>::empty() =~= out@);
            },
        }
        out
    }
}

/// The views of a vector of columns.
pub open spec fn column_views(columns: Seq<Column>) -> Seq<ColumnView> {
    columns.map_values(|c: Column| c@)
}

/// The definitions of the columns, in order.
pub open spec fn definitions(columns: Seq<ColumnView>) -> Seq<Seq<char>> {
    columns.map_values(|c: ColumnView| c.rendered())
}

/// Builds a `CREATE TABLE` statement from a table name and column
/// definitions, without checking them.
pub struct CreateTable<'a> {
    table: &'a str,
    columns: Vec<Column>,
    if_not_exists: bool,
}

/// What a [`CreateTable`] holds.
pub struct CreateTableView {
    pub table: Seq<char>,
    pub columns: Seq<ColumnView>,
    pub if_not_exists: bool,
}

impl CreateTableView {
    /// The statement text: the definitions in the order of the columns, with
    /// `, ` between them, in parentheses after the table name.
    pub open spec fn rendered(self) -> Seq<char> {
        (if self.if_not_exists {
            "CREATE TABLE IF NOT EXISTS "@
        } else {
            "CREATE TABLE "@
        }) + self.table + " ("@ + joined(definitions(self.columns), ", "@) + ");"@
    }
}

impl<'a> View for CreateTable<'a> {
    type V = CreateTableView;

    closed spec fn view(&self) -> CreateTableView {
        CreateTableView {
            table: self.table@,
            columns: column_views(self.columns@),
            if_not_exists: self.if_not_exists,
        }
    }
}

impl<'a> CreateTable<'a> {
    /// Describes the table `table` with the given columns.
    pub fn new(table: &'a str, columns: Vec<Column>) -> (create: CreateTable<'a>)
        ensures
            create@ == (CreateTableView {
                table: table@,
                columns: column_views(columns@),
                if_not_exists: false,
            }),
    {
        CreateTable { table, columns, if_not_exists: false }
    }

    /// Asks to create the table only if it does not exist yet.
    pub fn if_not_exists(self) -> (create: Self)
        ensures
            create@ == (CreateTableView { if_not_exists: true, ..self@ }),
    {
        let mut create = self;
        create.if_not_exists = true;
        create
    }

    /// Building is repeatable: whatever two calls of `build` on one unchanged
    /// builder return, it is the same text.
    pub proof fn lemma_build_repeatable(&self, first: String, second: String)
        requires
            first@ == self@.rendered(),
            second@ == self@.rendered(),
        ensures
            first@ == second@,
    {
    }

    /// Renders the statement. The builder is left as it is, so the call can be
    /// repeated.
    pub fn build(&self) -> (out: String)
        ensures
            out@ == self@.rendered(),
    {
        let ghost all = definitions(self@.columns);
        let mut built: Vec<String> = Vec::new();
        let mut i: usize = 0;
        while i < self.columns.len()
            invariant
                i <= self.columns.len(),
                all == definitions(column_views(self.columns@)),
                views(built@) == all.take(i as int),
            decreases self.columns.len() - i,
        {
            let definition = self.columns[i].build();
            proof {
                assert(views(built@.push(definition)) =~= views(built@).push(definition@));
                assert(all.take(i + 1) =~= all.take(i as int).push(definition@));
            }
            built.push(definition);
            i = i + 1;
        }
        assert(all.take(i as int) =~= all);
        let mut statement = if self.if_not_exists {
            String::from_str("CREATE TABLE IF NOT EXISTS ")
        } else {
            String::from_str("CREATE TABLE ")
        };
        statement.append(self.table);
        statement.append(" (");
        statement.append(join(&built, ", ").as_str());
        statement.append(");");
        statement
    }
}

} // verus!
