//! An opened package: its catalog, its rows, and its product metadata.

use vstd::prelude::*;
use std::io::Cursor;
use msi::Package as MsiPackage;
use crate::error::{Failure, PackageError, PackageErrorView};
use crate::model::{lemma_position_of_first, Entries, PackageView};
use crate::product::{fold_properties, Cells, ProductInfo, ProductInfoView};
use crate::row::{label_rows, Row};
use crate::reader::{
    catalog,
    error_message,
    package_has_table,
    package_tables,
    package_view,
    select_text,
    table_name,
    table_view,
};
use crate::schema::{column_names_of, find_missing, Table};

verus! {

/// A package opened for reading. It owns its bytes; no query changes what
/// it holds.
pub struct Package {
    package: MsiPackage<Cursor<Vec<u8>>>,
}

impl View for Package {
    type V = PackageView;

    closed spec fn view(&self) -> PackageView {
        package_view(self.package)
    }
}

impl Package {
    /// Takes what the reader answered when it was asked to open the bytes
    /// of a package: the opened package becomes a `Package` that holds what
    /// the reader decoded, and the reader's reason for a refusal becomes
    /// the message of an `OpenError`, as it is.
    pub fn new(opened: Result<MsiPackage<Cursor<Vec<u8>>>, String>) -> (taken: Result<
        Package,
        PackageError,
    >)
        ensures
            match opened {
                Ok(source) => taken matches Ok(package) && package@ == package_view(source),
                Err(reason) => taken matches Err(error) && error@ == (PackageErrorView::OpenError {
                    message: reason@,
                }),
            },
    {
        match opened {
            Ok(package) => Ok(Package { package }),
            Err(reason) => Err(PackageError::OpenError { message: reason }),
        }
    }

    /// Whether the catalog has a table of exactly this name.
    pub fn has_table(&self, name: &str) -> (found: bool)
        ensures
            found == self@.has_table(name@),
    {
        package_has_table(&self.package, name)
    }

    /// The tables of the package with their columns, in catalog order: one
    /// for each name of the catalog, no two of the same name.
    pub fn tables(&self) -> (tables: Vec<Table>)
        ensures
            tables.deep_view() == self@.tables,
            self@.distinct_names(),
    {
        let source = package_tables(&self.package);
        let mut tables: Vec<Table> = Vec::new();
        let mut i: usize = 0;
        while i < source.len()
            invariant
                i <= source.len(),
                source@.len() == catalog(self.package).len(),
                forall|j: int|
                    0 <= j < source@.len() ==> *#[trigger] source@[j] == catalog(self.package)[j],
                tables.len() == i,
                forall|j: int|
                    0 <= j < i ==> (#[trigger] tables[j])@ == table_view(catalog(self.package)[j]),
            decreases source.len() - i,
        {
            tables.push(Table::new(source[i]));
            i = i + 1;
        }
        assert forall|i: int, j: int| 0 <= i < j < self@.tables.len() implies (
        #[trigger] self@.tables[i]).name != (#[trigger] self@.tables[j]).name by {
            assert(self@.tables[i].name == table_name(*source@[i]));
            assert(self@.tables[j].name == table_name(*source@[j]));
        }
        tables
    }

    /// The column names of the first table of this name in catalog order,
    /// in schema order; `None` where the catalog has no such table.
    pub fn column_names(&self, table: &str) -> (names: Option<Vec<String>>)
        ensures
            match names {
                Some(names) => self@.has_table(table@) && names.deep_view()
                    == self@.column_names(table@),
                None => !self@.has_table(table@),
            },
    {
        let source = package_tables(&self.package);
        let wanted = table.to_owned();
        let ghost table_names = self@.table_names();
        let mut i: usize = 0;
        while i < source.len()
            invariant
                i <= source.len(),
                wanted@ == table@,
                table_names == self@.table_names(),
                source@.len() == catalog(self.package).len(),
                forall|j: int|
                    0 <= j < source@.len() ==> *#[trigger] source@[j] == catalog(self.package)[j],
                forall|j: int| 0 <= j < i ==> #[trigger] table_names[j] != table@,
            decreases source.len() - i,
        {
            assert(table_names[i as int] == table_name(*source@[i as int]));
            if source[i].name().to_owned() == wanted {
                proof {
                    lemma_position_of_first(table_names, table@, i as int);
                }
                return Some(column_names_of(source[i]));
            }
            i = i + 1;
        }
        None
    }

    /// Selects the rows of a table, each cell as its text or absent.
    /// Without a choice of columns the rows come whole, in schema order;
    /// with one, every row holds the chosen columns only, in the order
    /// chosen. A table that the catalog lacks is `TableNotFound`; else the
    /// first chosen column that the table lacks is `ColumnNotFound`; else a
    /// stream that cannot be read is `OpenError`, with the reader's reason
    /// as its message: the reason is the reader's to give, and
    /// `settle_selection` says what becomes of it. The package is the same
    /// after the call as before it.
    pub fn select_cells(&mut self, table: &str, columns: Option<&Vec<String>>) -> (selected: Result<
        Vec<Vec<Option<String>>>,
        PackageError,
    >)
        ensures
            final(self)@ == old(self)@,
            match selected {
                Ok(rows) => old(self)@.select_outcome(table@, columns.deep_view()) == Ok::<
                    Seq<Cells>,
                    Failure,
                >(rows.deep_view()),
                Err(error) => old(self)@.select_outcome(table@, columns.deep_view()) == Err::<
                    Seq<Cells>,
                    Failure,
                >(error@.failure()),
            },
            selected is Ok ==> old(self)@.rows_fit(table@),
    {
        if !self.has_table(table) {
            return Err(PackageError::TableNotFound { table: table.to_owned() });
        }
        let whole: Vec<String> = Vec::new();
        let wanted = match columns {
            Some(wanted) => wanted,
            None => &whole,
        };
        if columns.is_some() {
            let names = match self.column_names(table) {
                Some(names) => names,
                None => {
                    return Err(PackageError::TableNotFound { table: table.to_owned() });
                },
            };
            if let Some(i) = find_missing(&names, wanted) {
                return Err(
                    PackageError::ColumnNotFound {
                        table: table.to_owned(),
                        column: wanted[i].clone(),
                    },
                );
            }
        }
        let ghost view = self@;
        let ghost chosen = columns.deep_view();
        let answer = match select_text(&mut self.package, table, wanted) {
            Ok(rows) => Ok(rows),
            Err(error) => Err(error_message(&error)),
        };
        let whole_rows = columns.is_none() || wanted.len() > 0;
        proof {
            if !whole_rows && view.rows.dom().contains(table@) {
                assert(view.rows[table@].map_values(|row: Cells| Seq::<Option<Seq<char>>>::empty())
                    =~~= view.chosen(table@, chosen));
            }
        }
        settle_selection(answer, whole_rows)
    }

    /// Selects the rows of a table as records: every cell under the name
    /// of its column, an absent cell as absent. Without a choice of
    /// columns a record has one entry for each column of the table, in
    /// schema order; with one, it has one entry for each chosen column, in
    /// the order chosen. It fails as `select_cells` does, and never with a
    /// part of the rows. The package is the same after the call as before
    /// it.
    pub fn select_rows(&mut self, table: &str, columns: Option<&Vec<String>>) -> (selected: Result<
        Vec<Row>,
        PackageError,
    >)
        ensures
            final(self)@ == old(self)@,
            match selected {
                Ok(records) => old(self)@.records(table@, columns.deep_view()) == Ok::<
                    Seq<Entries>,
                    Failure,
                >(records.deep_view()),
                Err(error) => old(self)@.records(table@, columns.deep_view()) == Err::<
                    Seq<Entries>,
                    Failure,
                >(error@.failure()),
            },
    {
        let rows = match self.select_cells(table, columns) {
            Ok(rows) => rows,
            Err(error) => {
                return Err(error);
            },
        };
        match columns {
            Some(names) => {
                assert forall|k: int| 0 <= k < rows.len() implies (#[trigger] rows[k]).len()
                    == names.len() by {
                    assert(rows.deep_view()[k].len() == names.deep_view().len());
                }
                Ok(label_rows(names, &rows))
            },
            None => match self.column_names(table) {
                Some(names) => {
                    assert forall|k: int| 0 <= k < rows.len() implies (#[trigger] rows[k]).len()
                        == names.len() by {
                        assert(rows.deep_view()[k].len() == names.deep_view().len());
                    }
                    Ok(label_rows(&names, &rows))
                },
                None => Err(PackageError::TableNotFound { table: table.to_owned() }),
            },
        }
    }

    /// Selects all rows of a table as records, with every column of the
    /// table in schema order.
    pub fn rows(&mut self, table: &str) -> (selected: Result<Vec<Row>, PackageError>)
        ensures
            final(self)@ == old(self)@,
            match selected {
                Ok(records) => old(self)@.records(table@, None) == Ok::<Seq<Entries>, Failure>(
                    records.deep_view(),
                ),
                Err(error) => old(self)@.records(table@, None) == Err::<Seq<Entries>, Failure>(
                    error@.failure(),
                ),
            },
    {
        self.select_rows(table, None)
    }

    /// Extracts the product metadata from the `Property` table. A package
    /// without that table has none, which is no failure. Otherwise every
    /// row of the table is read as a key and a value, in table order, and
    /// folded into one record. The package is the same after the call as
    /// before it, and the outcome depends on nothing but the package: a
    /// second call ends as the first did.
    pub fn product_info(&mut self) -> (extracted: Result<Option<ProductInfo>, PackageError>)
        ensures
            final(self)@ == old(self)@,
            match extracted {
                Ok(Some(info)) => old(self)@.product_info() == Ok::<
                    Option<ProductInfoView>,
                    Failure,
                >(Some(info@)),
                Ok(None) => old(self)@.product_info() == Ok::<Option<ProductInfoView>, Failure>(
                    None,
                ),
                Err(error) => old(self)@.product_info() == Err::<
                    Option<ProductInfoView>,
                    Failure,
                >(error@.failure()),
            },
    {
        if !self.has_table("Property") {
            return Ok(None);
        }
        let mut columns: Vec<String> = Vec::new();
        columns.push("Property".to_owned());
        columns.push("Value".to_owned());
        assert(columns.deep_view() =~= seq!["Property"@, "Value"@]);
        let rows = match self.select_cells("Property", Some(&columns)) {
            Ok(rows) => rows,
            Err(error) => {
                return Err(error);
            },
        };
        match fold_properties(&rows) {
            Ok(info) => Ok(Some(info)),
            Err(error) => Err(error),
        }
    }
}

/// What a selection ends in once the reader has answered. Rows that the
/// reader yields are the selection, whole or, where no column at all was
/// chosen, each without any cell. The reader's reason for a failure becomes
/// the message of an `OpenError`, as it is.
pub fn settle_selection(answer: Result<Vec<Vec<Option<String>>>, String>, whole_rows: bool) -> (settled:
    Result<Vec<Vec<Option<String>>>, PackageError>)
    ensures
        match answer {
            Ok(rows) => settled matches Ok(kept) && kept.deep_view() == (if whole_rows {
                rows.deep_view()
            } else {
                rows.deep_view().map_values(|row: Cells| Seq::<Option<Seq<char>>>::empty())
            }),
            Err(reason) => settled matches Err(error) && error@ == (PackageErrorView::OpenError {
                message: reason@,
            }),
        },
{
    match answer {
        Err(reason) => Err(PackageError::OpenError { message: reason }),
        Ok(rows) => {
            if whole_rows {
                Ok(rows)
            } else {
                let mut emptied: Vec<Vec<Option<String>>> = Vec::new();
                let mut k: usize = 0;
                while k < rows.len()
                    invariant
                        k <= rows.len(),
                        emptied.len() == k,
                        forall|j: int| 0 <= j < k ==> (#[trigger] emptied[j]).len() == 0,
                    decreases rows.len() - k,
                {
                    emptied.push(Vec::new());
                    k = k + 1;
                }
                assert(emptied.deep_view() =~~= rows.deep_view().map_values(
                    |row: Cells| Seq::<Option<Seq<char>>>::empty(),
                ));
                Ok(emptied)
            }
        },
    }
}

} // verus!
