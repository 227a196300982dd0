//! Rows as the catalog hands them out: columns by name, each with a value of
//! one of a few types, or none. A column is found by its name as Postgres
//! clients find it: letter for letter first, and failing that without regard
//! to the case of the letters of ASCII.

use vstd::prelude::*;
use vstd::string::*;
use crate::error::{RunError, RunErrorView};
use crate::text::{alike, same_text, same_text_ignoring_case};
use crate::timestamp::Timestamp;

verus! {

/// What a row holds in one column.
#[derive(Clone, Debug, PartialEq, Eq)]
pub enum Cell {
    /// No value.
    Null,
    /// A 32-bit integer.
    Int4(i32),
    /// A 64-bit integer.
    Int8(i64),
    /// A text.
    Text(String),
    /// A point in time.
    Time(Timestamp),
}

/// A `Cell` with its text as a sequence of characters.
pub enum CellView {
    Null,
    Int4(i32),
    Int8(i64),
    Text(Seq<char>),
    Time(Timestamp),
}

impl View for Cell {
    type V = CellView;

    open spec fn view(&self) -> CellView {
        match self {
            Cell::Null => CellView::Null,
            Cell::Int4(v) => CellView::Int4(*v),
            Cell::Int8(v) => CellView::Int8(*v),
            Cell::Text(s) => CellView::Text(s@),
            Cell::Time(t) => CellView::Time(*t),
        }
    }
}

/// One column of a row: its name and what the row holds there.
#[derive(Clone, Debug, PartialEq, Eq)]
pub struct Column {
    pub name: String,
    pub value: Cell,
}

/// A `Column` with its texts as sequences of characters.
pub struct ColumnView {
    pub name: Seq<char>,
    pub value: CellView,
}

impl View for Column {
    type V = ColumnView;

    open spec fn view(&self) -> ColumnView {
        ColumnView { name: self.name@, value: self.value@ }
    }
}

/// A row: its columns in the order of the query's result.
#[derive(Clone, Debug, PartialEq, Eq)]
pub struct RawRow {
    pub columns: Vec<Column>,
}

impl View for RawRow {
    type V = Seq<ColumnView>;

    open spec fn view(&self) -> Seq<ColumnView> {
        Seq::new(self.columns@.len(), |i: int| self.columns@[i]@)
    }
}

/// The views of the rows `rows`, in order.
pub open spec fn row_views(rows: Seq<RawRow>) -> Seq<Seq<ColumnView>> {
    Seq::new(rows.len(), |i: int| rows[i]@)
}

/// The value of the first column of `row` that is named `name`, letter for
/// letter.
pub open spec fn named_cell(row: Seq<ColumnView>, name: Seq<char>) -> Option<CellView>
    decreases row.len(),
{
    if row.len() == 0 {
        None
    } else if row.first().name == name {
        Some(row.first().value)
    } else {
        named_cell(row.drop_first(), name)
    }
}

/// The value of the first column of `row` whose name is `name` but for the
/// case of the letters of ASCII.
pub open spec fn like_named_cell(row: Seq<ColumnView>, name: Seq<char>) -> Option<CellView>
    decreases row.len(),
{
    if row.len() == 0 {
        None
    } else if alike(row.first().name, name) {
        Some(row.first().value)
    } else {
        like_named_cell(row.drop_first(), name)
    }
}

/// What `row` holds under `name`: the value of the first column of that
/// name. Where no column has the name letter for letter, the first one
/// counts that has it but for the case of the letters of ASCII.
pub open spec fn cell_of(row: Seq<ColumnView>, name: Seq<char>) -> Option<CellView> {
    match named_cell(row, name) {
        Some(value) => Some(value),
        None => like_named_cell(row, name),
    }
}

/// The 32-bit integer that `row` holds under `name`.
pub open spec fn int4_of(row: Seq<ColumnView>, name: Seq<char>) -> Option<i32> {
    match cell_of(row, name) {
        Some(CellView::Int4(v)) => Some(v),
        _ => None,
    }
}

/// The 64-bit integer that `row` holds under `name`.
pub open spec fn int8_of(row: Seq<ColumnView>, name: Seq<char>) -> Option<i64> {
    match cell_of(row, name) {
        Some(CellView::Int8(v)) => Some(v),
        _ => None,
    }
}

/// The text that `row` holds under `name`.
pub open spec fn text_of(row: Seq<ColumnView>, name: Seq<char>) -> Option<Seq<char>> {
    match cell_of(row, name) {
        Some(CellView::Text(s)) => Some(s),
        _ => None,
    }
}

/// The point in time that `row` holds under `name`.
pub open spec fn time_of(row: Seq<ColumnView>, name: Seq<char>) -> Option<Timestamp> {
    match cell_of(row, name) {
        Some(CellView::Time(t)) => Some(t),
        _ => None,
    }
}

/// The word that stands in for a text that a row does not hold.
pub open spec fn default_text() -> Seq<char> {
    "default"@
}

/// The text that `row` holds under `name`, or the default.
pub open spec fn text_or_default_of(row: Seq<ColumnView>, name: Seq<char>) -> Seq<char> {
    match text_of(row, name) {
        Some(s) => s,
        None => default_text(),
    }
}

/// The error for a row that lacks a value under `name`.
pub open spec fn missing(name: Seq<char>) -> RunErrorView {
    RunErrorView::MissingField { column: name }
}

impl RawRow {
    /// What the row holds under `name`: the value of the first column of
    /// that name, or, where there is none, of the first column that has the
    /// name but for the case of the letters of ASCII.
    pub fn cell(&self, name: &str) -> (found: Option<&Cell>)
        ensures
            match found {
                Some(cell) => cell_of(self@, name@) == Some(cell@),
                None => cell_of(self@, name@) is None,
            },
    {
        let n = self.columns.len();
        let mut i: usize = 0;
        assert(self@.skip(0) == self@);
        while i < n
            invariant
                i <= n,
                n == self.columns@.len(),
                named_cell(self@, name@) == named_cell(self@.skip(i as int), name@),
            decreases n - i,
        {
            assert(self@.skip(i as int).drop_first() == self@.skip(i + 1));
            assert(self@.skip(i as int).first() == self.columns@[i as int]@);
            if same_text(self.columns[i].name.as_str(), name) {
                return Some(&self.columns[i].value);
            }
            i = i + 1;
        }
        let mut j: usize = 0;
        while j < n
            invariant
                j <= n,
                n == self.columns@.len(),
                named_cell(self@, name@) is None,
                like_named_cell(self@, name@) == like_named_cell(self@.skip(j as int), name@),
            decreases n - j,
        {
            assert(self@.skip(j as int).drop_first() == self@.skip(j + 1));
            assert(self@.skip(j as int).first() == self.columns@[j as int]@);
            if same_text_ignoring_case(self.columns[j].name.as_str(), name) {
                return Some(&self.columns[j].value);
            }
            j = j + 1;
        }
        None
    }

    /// The 32-bit integer under `name`. A row that holds none there lacks
    /// the field.
    pub fn int4(&self, name: &str) -> (value: Result<i32, RunError>)
        ensures
            match value {
                Ok(v) => int4_of(self@, name@) == Some(v),
                Err(e) => int4_of(self@, name@) is None && e@ == missing(name@),
            },
    {
        match self.cell(name) {
            Some(Cell::Int4(v)) => Ok(*v),
            _ => Err(RunError::MissingField { column: String::from_str(name) }),
        }
    }

    /// The 64-bit integer under `name`. A row that holds none there lacks
    /// the field.
    pub fn int8(&self, name: &str) -> (value: Result<i64, RunError>)
        ensures
            match value {
                Ok(v) => int8_of(self@, name@) == Some(v),
                Err(e) => int8_of(self@, name@) is None && e@ == missing(name@),
            },
    {
        match self.cell(name) {
            Some(Cell::Int8(v)) => Ok(*v),
            _ => Err(RunError::MissingField { column: String::from_str(name) }),
        }
    }

    /// The text under `name`. A row that holds none there lacks the field.
    pub fn text(&self, name: &str) -> (value: Result<String, RunError>)
        ensures
            match value {
                Ok(s) => text_of(self@, name@) == Some(s@),
                Err(e) => text_of(self@, name@) is None && e@ == missing(name@),
            },
    {
        match self.cell(name) {
            Some(Cell::Text(s)) => Ok(s.clone()),
            _ => Err(RunError::MissingField { column: String::from_str(name) }),
        }
    }

    /// The point in time under `name`. A row that holds none there lacks the
    /// field.
    pub fn time(&self, name: &str) -> (value: Result<Timestamp, RunError>)
        ensures
            match value {
                Ok(t) => time_of(self@, name@) == Some(t),
                Err(e) => time_of(self@, name@) is None && e@ == missing(name@),
            },
    {
        match self.cell(name) {
            Some(Cell::Time(t)) => Ok(*t),
            _ => Err(RunError::MissingField { column: String::from_str(name) }),
        }
    }

    /// The text under `name`, or the word `default` where the row holds no
    /// text there.
    pub fn text_or_default(&self, name: &str) -> (value: String)
        ensures
            value@ == text_or_default_of(self@, name@),
    {
        match self.cell(name) {
            Some(Cell::Text(s)) => s.clone(),
            _ => String::from_str("default"),
        }
    }
}

} // verus!
