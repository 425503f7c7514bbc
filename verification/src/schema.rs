//! The schema of a package: tables and their columns, as plain records.

use vstd::prelude::*;
use msi::{Column as MsiColumn, Table as MsiTable};
use crate::model::{first_missing, ColumnView, TableView};
use crate::reader::{
    column_category,
    column_storage_type,
    column_view,
    render_category,
    render_storage_type,
    table_columns,
    table_view,
};

verus! {

/// One column of a table.
#[derive(Debug)]
pub struct Column {
    pub name: String,
    pub column_type: String,
    pub category: Option<String>,
    pub primary_key: bool,
    pub nullable: bool,
    pub localizable: bool,
}

impl View for Column {
    type V = ColumnView;

    open spec fn view(&self) -> ColumnView {
        ColumnView {
            name: self.name@,
            column_type: self.column_type@,
            category: self.category.deep_view(),
            primary_key: self.primary_key,
            nullable: self.nullable,
            localizable: self.localizable,
        }
    }
}

impl DeepView for Column {
    type V = ColumnView;

    open spec fn deep_view(&self) -> ColumnView {
        self@
    }
}

/// A copy of a text that may be absent.
pub(crate) fn copy_text(text: &Option<String>) -> (copy: Option<String>)
    ensures
        copy.deep_view() == text.deep_view(),
{
    match text {
        Some(text) => Some(text.clone()),
        None => None,
    }
}

impl Column {
    /// Describes a column of the reader: its name, its storage type and
    /// category as the reader renders them, and its three flags as they
    /// are. Nothing is checked again, so a primary-key column is not held
    /// to be non-nullable here.
    pub fn new(column: &MsiColumn) -> (described: Column)
        ensures
            described@ == column_view(*column),
    {
        Column {
            name: column.name().to_owned(),
            column_type: render_storage_type(column.coltype()),
            category: match column.category() {
                Some(category) => Some(render_category(category)),
                None => None,
            },
            primary_key: column.is_primary_key(),
            nullable: column.is_nullable(),
            localizable: column.is_localizable(),
        }
    }

    /// The column's name.
    pub fn name(&self) -> (name: String)
        ensures
            name@ == self@.name,
    {
        self.name.clone()
    }

    /// The column's storage type, as the reader renders it.
    pub fn column_type(&self) -> (column_type: String)
        ensures
            column_type@ == self@.column_type,
    {
        self.column_type.clone()
    }

    /// The column's category, as the reader renders it, where it has one.
    pub fn category(&self) -> (category: Option<String>)
        ensures
            category.deep_view() == self@.category,
    {
        copy_text(&self.category)
    }

    /// Whether the column belongs to the primary key of its table.
    pub fn primary_key(&self) -> (primary_key: bool)
        ensures
            primary_key == self@.primary_key,
    {
        self.primary_key
    }

    /// Whether a cell of the column may be absent.
    pub fn nullable(&self) -> (nullable: bool)
        ensures
            nullable == self@.nullable,
    {
        self.nullable
    }

    /// Whether the values of the column can be localized.
    pub fn localizable(&self) -> (localizable: bool)
        ensures
            localizable == self@.localizable,
    {
        self.localizable
    }
}

/// One table of a package: its name and its columns in schema order.
#[derive(Debug)]
pub struct Table {
    pub name: String,
    pub columns: Vec<Column>,
}

impl View for Table {
    type V = TableView;

    open spec fn view(&self) -> TableView {
        TableView { name: self.name@, columns: self.columns.deep_view() }
    }
}

impl DeepView for Table {
    type V = TableView;

    open spec fn deep_view(&self) -> TableView {
        self@
    }
}

impl Table {
    /// Describes a table of the reader: its name, and each of its columns
    /// in schema order.
    pub fn new(table: &MsiTable) -> (described: Table)
        ensures
            described@ == table_view(*table),
    {
        let source = table.columns();
        let mut columns: Vec<Column> = Vec::new();
        let mut i: usize = 0;
        while i < source.len()
            invariant
                i <= source.len(),
                source@ == table_columns(*table),
                columns.len() == i,
                forall|j: int| 0 <= j < i ==> (#[trigger] columns[j])@ == column_view(source@[j]),
            decreases source.len() - i,
        {
            columns.push(Column::new(&source[i]));
            i = i + 1;
        }
        let described = Table { name: table.name().to_owned(), columns };
        assert(described@.columns =~= table_view(*table).columns);
        described
    }

    /// The table's name.
    pub fn name(&self) -> (name: String)
        ensures
            name@ == self@.name,
    {
        self.name.clone()
    }

    /// The columns, in schema order.
    pub fn columns(&self) -> (columns: Vec<Column>)
        ensures
            columns.deep_view() == self@.columns,
    {
        let mut columns: Vec<Column> = Vec::new();
        let mut i: usize = 0;
        while i < self.columns.len()
            invariant
                i <= self.columns.len(),
                columns.len() == i,
                forall|j: int| 0 <= j < i ==> (#[trigger] columns[j])@ == self.columns[j]@,
            decreases self.columns.len() - i,
        {
            columns.push(self.columns[i].clone());
            i = i + 1;
        }
        columns
    }
}

impl Clone for Column {
    fn clone(&self) -> (copy: Column)
        ensures
            copy@ == self@,
    {
        Column {
            name: self.name.clone(),
            column_type: self.column_type.clone(),
            category: copy_text(&self.category),
            primary_key: self.primary_key,
            nullable: self.nullable,
            localizable: self.localizable,
        }
    }
}

impl Clone for Table {
    fn clone(&self) -> (copy: Table)
        ensures
            copy@ == self@,
    {
        Table { name: self.name.clone(), columns: self.columns() }
    }
}

/// The type text of a column depends on its storage type alone, and its
/// category text on its category alone: two columns of the reader that
/// agree in one are described alike in it, whatever else differs.
pub proof fn lemma_text_follows_type_and_category(first: MsiColumn, second: MsiColumn)
    ensures
        column_storage_type(first) == column_storage_type(second) ==> column_view(
            first,
        ).column_type == column_view(second).column_type,
        column_category(first) == column_category(second) ==> column_view(first).category
            == column_view(second).category,
{
}

/// The names of the columns of a table of the reader, in schema order.
pub fn column_names_of(table: &MsiTable) -> (names: Vec<String>)
    ensures
        names.deep_view() == table_view(*table).column_names(),
{
    let source = table.columns();
    let mut names: Vec<String> = Vec::new();
    let mut i: usize = 0;
    while i < source.len()
        invariant
            i <= source.len(),
            source@ == table_columns(*table),
            names.len() == i,
            forall|j: int| 0 <= j < i ==> (#[trigger] names[j])@ == column_view(source@[j]).name,
        decreases source.len() - i,
    {
        names.push(source[i].name().to_owned());
        i = i + 1;
    }
    names
}

/// Whether `name` is among `names`.
pub fn contains_name(names: &Vec<String>, name: &String) -> (found: bool)
    ensures
        found == names.deep_view().contains(name@),
{
    let mut i: usize = 0;
    while i < names.len()
        invariant
            i <= names.len(),
            forall|j: int| 0 <= j < i ==> (#[trigger] names.deep_view()[j]) != name@,
        decreases names.len() - i,
    {
        if names[i] == *name {
            assert(names.deep_view()[i as int] == name@);
            return true;
        }
        i = i + 1;
    }
    false
}

/// The position in `wanted` of the first name that is not among `names`,
/// if there is one.
pub fn find_missing(names: &Vec<String>, wanted: &Vec<String>) -> (missing: Option<usize>)
    ensures
        match missing {
            Some(i) => i < wanted.len() && first_missing(names.deep_view(), wanted.deep_view())
                == Some(i as int),
            None => first_missing(names.deep_view(), wanted.deep_view()) is None,
        },
{
    let mut i: usize = 0;
    while i < wanted.len()
        invariant
            i <= wanted.len(),
            forall|j: int|
                0 <= j < i ==> names.deep_view().contains(#[trigger] wanted.deep_view()[j]),
        decreases wanted.len() - i,
    {
        assert(wanted.deep_view()[i as int] == wanted[i as int]@);
        if !contains_name(names, &wanted[i]) {
            return Some(i);
        }
        i = i + 1;
    }
    None
}

} // verus!
