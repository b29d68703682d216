//! Column definitions for `CREATE TABLE`.

use vstd::prelude::*;
use vstd::string::*;
use crate::errors::SqlBuilderError;
use crate::text::{built_text, join, joined, optional_text, views};

verus! {

/// The data type of a column.
#[derive(Debug, Clone, Copy, PartialEq, Eq, Structural)]
pub enum ColumnType {
    Integer,
    Text,
    Real,
    Boolean,
    Blob,
    Numeric,
    Date,
    Time,
    Datetime,
}

impl ColumnType {
    /// The keyword that stands for the type.
    pub open spec fn keyword(self) -> Seq<char> {
        match self {
            ColumnType::Integer => "INTEGER"@,
            ColumnType::Text => "TEXT"@,
            ColumnType::Real => "REAL"@,
            ColumnType::Boolean => "BOOLEAN"@,
            ColumnType::Blob => "BLOB"@,
            ColumnType::Numeric => "NUMERIC"@,
            ColumnType::Date => "DATE"@,
            ColumnType::Time => "TIME"@,
            ColumnType::Datetime => "DATETIME"@,
        }
    }

    /// Renders the type.
    pub fn build(&self) -> (out: String)
        ensures
            out@ == self.keyword(),
    {
        String::from_str(
            match self {
                ColumnType::Integer => "INTEGER",
                ColumnType::Text => "TEXT",
                ColumnType::Real => "REAL",
                ColumnType::Boolean => "BOOLEAN",
                ColumnType::Blob => "BLOB",
                ColumnType::Numeric => "NUMERIC",
                ColumnType::Date => "DATE",
                ColumnType::Time => "TIME",
                ColumnType::Datetime => "DATETIME",
            },
        )
    }
}

/// An option of a column.
#[derive(Debug)]
pub enum ColumnOption {
    NotNull,
    Unique,
    Default(String),
    AutoIncrement,
    PrimaryKey,
}

/// What a [`ColumnOption`] holds.
pub enum ColumnOptionView {
    NotNull,
    Unique,
    Default(Seq<char>),
    AutoIncrement,
    PrimaryKey,
}

impl ColumnOptionView {
    /// The text of the option. A default value is written as it was given.
    pub open spec fn rendered(self) -> Seq<char> {
        match self {
            ColumnOptionView::NotNull => "NOT NULL"@,
            ColumnOptionView::Unique => "UNIQUE"@,
            ColumnOptionView::Default(value) => "DEFAULT "@ + value,
            ColumnOptionView::AutoIncrement => "AUTOINCREMENT"@,
            ColumnOptionView::PrimaryKey => "PRIMARY KEY"@,
        }
    }
}

impl View for ColumnOption {
    type V = ColumnOptionView;

    open spec fn view(&self) -> ColumnOptionView {
        match self {
            ColumnOption::NotNull => ColumnOptionView::NotNull,
            ColumnOption::Unique => ColumnOptionView::Unique,
            ColumnOption::Default(value) => ColumnOptionView::Default(value@),
            ColumnOption::AutoIncrement => ColumnOptionView::AutoIncrement,
            ColumnOption::PrimaryKey => ColumnOptionView::PrimaryKey,
        }
    }
}

impl ColumnOption {
    /// Renders the option.
    pub fn build(&self) -> (out: String)
        ensures
            out@ == self@.rendered(),
    {
        match self {
            ColumnOption::NotNull => String::from_str("NOT NULL"),
            ColumnOption::Unique => String::from_str("UNIQUE"),
            ColumnOption::Default(value) => {
                let mut out = String::from_str("DEFAULT ");
                out.append(value.as_str());
                out
            },
            ColumnOption::AutoIncrement => String::from_str("AUTOINCREMENT"),
            ColumnOption::PrimaryKey => String::from_str("PRIMARY KEY"),
        }
    }
}

/// The views of a vector of options.
pub open spec fn option_views(options: Seq<ColumnOption>) -> Seq<ColumnOptionView> {
    options.map_values(|o: ColumnOption| o@)
}

/// Builds the definition of one column: a name, a type, and options in the
/// order in which they were added. A literal definition may stand in for the
/// type.
#[derive(Debug)]
pub struct Column {
    name: String,
    column_type: Option<ColumnType>,
    options: Vec<ColumnOption>,
    literal: Option<String>,
}

/// What a [`Column`] holds.
pub struct ColumnView {
    pub name: Seq<char>,
    pub column_type: Option<ColumnType>,
    pub options: Seq<ColumnOptionView>,
    pub literal: Option<Seq<char>>,
}

impl ColumnView {
    /// A column with a name and nothing else.
    pub open spec fn named(name: Seq<char>) -> ColumnView {
        ColumnView { name, column_type: None, options: Seq::empty(), literal: None }
    }

    /// The same column with another type.
    pub open spec fn with_type(self, column_type: ColumnType) -> ColumnView {
        ColumnView { column_type: Some(column_type), ..self }
    }

    /// The same column with one more option at the end.
    pub open spec fn with_option(self, option: ColumnOptionView) -> ColumnView {
        ColumnView { options: self.options.push(option), ..self }
    }

    /// The parts of a typed definition: name, type keyword, then each option.
    pub open spec fn typed_parts(self, column_type: ColumnType) -> Seq<Seq<char>> {
        seq![self.name, column_type.keyword()] + self.options.map_values(
            |o: ColumnOptionView| o.rendered(),
        )
    }

    /// What `build` returns. The name must not be empty. With a type, the
    /// definition is the name, the type and the options, with single spaces
    /// between them. Without a type, a literal definition is written after the
    /// name as it was given, and the options are left out. With neither, the
    /// column has no valid type.
    pub open spec fn built(self) -> Result<Seq<char>, SqlBuilderError> {
        if self.name.len() == 0 {
            Err(SqlBuilderError::EmptyColumnName)
        } else {
            match self.column_type {
                Some(column_type) => Ok(joined(self.typed_parts(column_type), " "@)),
                None => match self.literal {
                    Some(literal) => Ok(self.name + " "@ + literal),
                    None => Err(SqlBuilderError::InvalidColumnType),
                },
            }
        }
    }
}

impl View for Column {
    type V = ColumnView;

    closed spec fn view(&self) -> ColumnView {
        ColumnView {
            name: self.name@,
            column_type: self.column_type,
            options: option_views(self.options@),
            literal: optional_text(self.literal),
        }
    }
}

impl Column {
    /// Starts the definition of the column `name`.
    pub fn new(name: &str) -> (column: Self)
        ensures
            column@ == ColumnView::named(name@),
    {
        let column = Self {
            name: String::from_str(name),
            column_type: None,
            options: Vec::new(),
            literal: None,
        };
        assert(option_views(column.options@) =~= Seq::empty());
        column
    }

    /// Makes the column an `INTEGER`.
    pub fn integer(self) -> (column: Self)
        ensures
            column@ == self@.with_type(ColumnType::Integer),
    {
        let mut column = self;
        column.column_type = Some(ColumnType::Integer);
        column
    }

    /// Makes the column a `TEXT`.
    pub fn text(self) -> (column: Self)
        ensures
            column@ == self@.with_type(ColumnType::Text),
    {
        let mut column = self;
        column.column_type = Some(ColumnType::Text);
        column
    }

    /// Makes the column a `REAL`.
    pub fn real_(self) -> (column: Self)
        ensures
            column@ == self@.with_type(ColumnType::Real),
    {
        let mut column = self;
        column.column_type = Some(ColumnType::Real);
        column
    }

    /// Makes the column a `BOOLEAN`.
    pub fn boolean(self) -> (column: Self)
        ensures
            column@ == self@.with_type(ColumnType::Boolean),
    {
        let mut column = self;
        column.column_type = Some(ColumnType::Boolean);
        column
    }

    /// Makes the column a `BLOB`.
    pub fn blob(self) -> (column: Self)
        ensures
            column@ == self@.with_type(ColumnType::Blob),
    {
        let mut column = self;
        column.column_type = Some(ColumnType::Blob);
        column
    }

    /// Makes the column a `NUMERIC`.
    pub fn numeric(self) -> (column: Self)
        ensures
            column@ == self@.with_type(ColumnType::Numeric),
    {
        let mut column = self;
        column.column_type = Some(ColumnType::Numeric);
        column
    }

    /// Makes the column a `DATE`.
    pub fn date(self) -> (column: Self)
        ensures
            column@ == self@.with_type(ColumnType::Date),
    {
        let mut column = self;
        column.column_type = Some(ColumnType::Date);
        column
    }

    /// Makes the column a `TIME`.
    pub fn time(self) -> (column: Self)
        ensures
            column@ == self@.with_type(ColumnType::Time),
    {
        let mut column = self;
        column.column_type = Some(ColumnType::Time);
        column
    }

    /// Makes the column a `DATETIME`.
    pub fn datetime(self) -> (column: Self)
        ensures
            column@ == self@.with_type(ColumnType::Datetime),
    {
        let mut column = self;
        column.column_type = Some(ColumnType::Datetime);
        column
    }

    fn with(self, option: ColumnOption) -> (column: Self)
        ensures
            column@ == self@.with_option(option@),
    {
        let mut column = self;
        column.options.push(option);
        assert(option_views(self.options@.push(option)) =~= option_views(self.options@).push(
            option@,
        ));
        column
    }

    /// Adds `NOT NULL`.
    pub fn not_null(self) -> (column: Self)
        ensures
            column@ == self@.with_option(ColumnOptionView::NotNull),
    {
        self.with(ColumnOption::NotNull)
    }

    /// Adds `UNIQUE`.
    pub fn unique(self) -> (column: Self)
        ensures
            column@ == self@.with_option(ColumnOptionView::Unique),
    {
        self.with(ColumnOption::Unique)
    }

    /// Adds `DEFAULT` with a value, which is written as it is given.
    pub fn default(self, value: &str) -> (column: Self)
        ensures
            column@ == self@.with_option(ColumnOptionView::Default(value@)),
    {
        self.with(ColumnOption::Default(String::from_str(value)))
    }

    /// Adds `AUTOINCREMENT`.
    pub fn auto_increment(self) -> (column: Self)
        ensures
            column@ == self@.with_option(ColumnOptionView::AutoIncrement),
    {
        self.with(ColumnOption::AutoIncrement)
    }

    /// Adds `PRIMARY KEY`.
    pub fn primary_key(self) -> (column: Self)
        ensures
            column@ == self@.with_option(ColumnOptionView::PrimaryKey),
    {
        self.with(ColumnOption::PrimaryKey)
    }

    /// Sets a literal definition, which is used when the column has no type.
    pub fn literal(self, value: &str) -> (column: Self)
        ensures
            column@ == (ColumnView { literal: Some(value@), ..self@ }),
    {
        let mut column = self;
        column.literal = Some(String::from_str(value));
        column
    }

    /// Building is repeatable: whatever two calls of `build` on one unchanged
    /// builder return, it is the same.
    pub proof fn lemma_build_repeatable(
        &self,
        first: Result<String, SqlBuilderError>,
        second: Result<String, SqlBuilderError>,
    )
        requires
            built_text(first) == self@.built(),
            built_text(second) == self@.built(),
        ensures
            built_text(first) == built_text(second),
    {
    }

    /// Renders the definition. The column is left as it is, so the call can be
    /// repeated.
    pub fn build(&self) -> (r: Result<String, SqlBuilderError>)
        ensures
            built_text(r) == self@.built(),
    {
        if self.name.as_str().is_empty() {
            return Err(SqlBuilderError::EmptyColumnName);
        }
        match &self.column_type {
            Some(column_type) => {
                let mut parts: Vec<String> = Vec::new();
                parts.push(self.name.clone());
                parts.push(column_type.build());
                let ghost head = views(parts@);
                assert(head =~= seq![self@.name, column_type.keyword()]);
                let mut i: usize = 0;
                while i < self.options.len()
                    invariant
                        i <= self.options.len(),
                        views(parts@) == head + self@.options.take(i as int).map_values(
                            |o: ColumnOptionView| o.rendered(),
                        ),
                    decreases self.options.len() - i,
                {
                    let part = self.options[i].build();
                    proof {
                        let done = self@.options.take(i as int);
                        let next = self@.options.take(i + 1);
                        assert(next =~= done.push(self.options@[i as int]@));
                        assert(views(parts@.push(part)) =~= views(parts@).push(part@));
                        assert(next.map_values(|o: ColumnOptionView| o.rendered())
                            =~= done.map_values(|o: ColumnOptionView| o.rendered()).push(part@));
                        assert(head + done.map_values(|o: ColumnOptionView| o.rendered()).push(
                            part@,
                        ) =~= (head + done.map_values(|o: ColumnOptionView| o.rendered())).push(
                            part@,
                        ));
                    }
                    parts.push(part);
                    i = i + 1;
                }
                assert(self@.options.take(i as int) =~= self@.options);
                Ok(join(&parts, " "))
            },
            None => match &self.literal {
                Some(literal) => {
                    let mut out = self.name.clone();
                    out.append(" ");
                    out.append(literal.as_str());
                    Ok(out)
                },
                None => Err(SqlBuilderError::InvalidColumnType),
            },
        }
    }
}

} // verus!
