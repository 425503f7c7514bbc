//! The boundary to the `msi` crate, which decodes the package. Nothing in
//! this module is proved: it declares the types that `msi` owns, names what
//! its accessors return, and gives each call a contract that is believed.
//! Opening a package is not among the calls: the library takes a package
//! that its caller has opened.

use vstd::prelude::*;
use std::io::Cursor;
use msi::{Column as MsiColumn, Package as MsiPackage, Table as MsiTable};
use crate::model::{first_missing, ColumnView, PackageView, TableView};
use crate::product::Cells;

verus! {

/// `msi::Package`, opaque here.
#[verifier::external_type_specification]
#[verifier::external_body]
#[verifier::reject_recursive_types(F)]
pub struct ExPackage<F>(MsiPackage<F>);

/// `msi::Table`, opaque here.
#[verifier::external_type_specification]
#[verifier::external_body]
pub struct ExTable(MsiTable);

/// `msi::Column`, opaque here.
#[verifier::external_type_specification]
#[verifier::external_body]
pub struct ExColumn(MsiColumn);

/// `msi::ColumnType`, opaque here.
#[verifier::external_type_specification]
#[verifier::external_body]
pub struct ExColumnType(msi::ColumnType);

/// `msi::Category`, opaque here.
#[verifier::external_type_specification]
#[verifier::external_body]
pub struct ExCategory(msi::Category);

/// `std::io::Cursor`, opaque here.
#[verifier::external_type_specification]
#[verifier::external_body]
#[verifier::reject_recursive_types(T)]
pub struct ExCursor<T>(Cursor<T>);

/// `std::io::Error`, opaque here.
#[verifier::external_type_specification]
#[verifier::external_body]
pub struct ExIoError(std::io::Error);

/// The name of a column: what `msi::Column::name` returns.
pub uninterp spec fn column_name(column: MsiColumn) -> Seq<char>;

/// `msi::Column::name` hands out the column's name.
pub assume_specification[ MsiColumn::name ](column: &MsiColumn) -> (name: &str)
    ensures
        name@ == column_name(*column),
;

/// The storage type of a column: what `msi::Column::coltype` returns.
pub uninterp spec fn column_storage_type(column: MsiColumn) -> msi::ColumnType;

/// `msi::Column::coltype` hands out the column's storage type.
pub assume_specification[ MsiColumn::coltype ](column: &MsiColumn) -> (coltype: msi::ColumnType)
    ensures
        coltype == column_storage_type(*column),
;

/// A storage type as text: what the `Display` impl of `msi::ColumnType`
/// writes for it.
pub uninterp spec fn storage_type_text(coltype: msi::ColumnType) -> Seq<char>;

/// Renders a storage type through the `Display` impl of
/// `msi::ColumnType`. The text is a function of the storage type alone.
#[verifier::external_body]
pub(crate) fn render_storage_type(coltype: msi::ColumnType) -> (text: String)
    ensures
        text@ == storage_type_text(coltype),
{
    format!("{}", coltype)
}

/// The category of a column, where it has one: what
/// `msi::Column::category` returns.
pub uninterp spec fn column_category(column: MsiColumn) -> Option<msi::Category>;

/// `msi::Column::category` hands out the column's category, if any.
pub assume_specification[ MsiColumn::category ](column: &MsiColumn) -> (category: Option<
    msi::Category,
>)
    ensures
        category == column_category(*column),
;

/// A category as text: what the `Display` impl of `msi::Category` writes
/// for it.
pub uninterp spec fn category_text(category: msi::Category) -> Seq<char>;

/// Renders a category through the `Display` impl of `msi::Category`. The
/// text is a function of the category alone.
#[verifier::external_body]
pub(crate) fn render_category(category: msi::Category) -> (text: String)
    ensures
        text@ == category_text(category),
{
    format!("{}", category)
}

/// The storage type of a column as text.
pub open spec fn column_type_text(column: MsiColumn) -> Seq<char> {
    storage_type_text(column_storage_type(column))
}

/// The category of a column as text, where it has one.
pub open spec fn column_category_text(column: MsiColumn) -> Option<Seq<char>> {
    match column_category(column) {
        Some(category) => Some(category_text(category)),
        None => None,
    }
}

/// Whether a column belongs to the primary key of its table: what
/// `msi::Column::is_primary_key` returns.
pub uninterp spec fn column_is_primary_key(column: MsiColumn) -> bool;

/// `msi::Column::is_primary_key` reads the primary-key flag.
pub assume_specification[ MsiColumn::is_primary_key ](column: &MsiColumn) -> (flag: bool)
    ensures
        flag == column_is_primary_key(*column),
;

/// Whether a column admits null: what `msi::Column::is_nullable` returns.
pub uninterp spec fn column_is_nullable(column: MsiColumn) -> bool;

/// `msi::Column::is_nullable` reads the nullable flag.
pub assume_specification[ MsiColumn::is_nullable ](column: &MsiColumn) -> (flag: bool)
    ensures
        flag == column_is_nullable(*column),
;

/// Whether the values of a column can be localized: what
/// `msi::Column::is_localizable` returns.
pub uninterp spec fn column_is_localizable(column: MsiColumn) -> bool;

/// `msi::Column::is_localizable` reads the localizable flag.
pub assume_specification[ MsiColumn::is_localizable ](column: &MsiColumn) -> (flag: bool)
    ensures
        flag == column_is_localizable(*column),
;

/// The name of a table: what `msi::Table::name` returns.
pub uninterp spec fn table_name(table: MsiTable) -> Seq<char>;

/// `msi::Table::name` hands out the table's name.
pub assume_specification[ MsiTable::name ](table: &MsiTable) -> (name: &str)
    ensures
        name@ == table_name(*table),
;

/// The columns of a table in schema order: what `msi::Table::columns`
/// returns.
pub uninterp spec fn table_columns(table: MsiTable) -> Seq<MsiColumn>;

/// `msi::Table::columns` hands out the table's columns as a slice.
pub assume_specification[ MsiTable::columns ](table: &MsiTable) -> (columns: &[MsiColumn])
    ensures
        columns@ == table_columns(*table),
;

/// The tables of an opened package, in the order in which
/// `msi::Package::tables` walks them.
pub uninterp spec fn catalog(package: MsiPackage<Cursor<Vec<u8>>>) -> Seq<MsiTable>;

/// The rows of every table of an opened package whose stream can be read:
/// what `msi::Package::select_rows` yields for the whole table, each cell
/// as the text that `msi::Value::as_str` finds in it.
pub uninterp spec fn stored_rows(package: MsiPackage<Cursor<Vec<u8>>>) -> Map<
    Seq<char>,
    Seq<Cells>,
>;

/// What a column of `msi` is in the model.
pub open spec fn column_view(column: MsiColumn) -> ColumnView {
    ColumnView {
        name: column_name(column),
        column_type: column_type_text(column),
        category: column_category_text(column),
        primary_key: column_is_primary_key(column),
        nullable: column_is_nullable(column),
        localizable: column_is_localizable(column),
    }
}

/// What a table of `msi` is in the model.
pub open spec fn table_view(table: MsiTable) -> TableView {
    TableView {
        name: table_name(table),
        columns: table_columns(table).map_values(|column: MsiColumn| column_view(column)),
    }
}

/// What an opened package of `msi` is in the model.
pub open spec fn package_view(package: MsiPackage<Cursor<Vec<u8>>>) -> PackageView {
    PackageView {
        tables: catalog(package).map_values(|table: MsiTable| table_view(table)),
        rows: stored_rows(package),
    }
}

/// What `msi` yields for a table and a list of column names, where the
/// select succeeds: it takes an empty list for no choice at all.
pub open spec fn msi_selection(view: PackageView, table: Seq<char>, wanted: Seq<Seq<char>>) -> Option<
    Seq<Cells>,
> {
    if view.rows.dom().contains(table) && first_missing(view.column_names(table), wanted)
        is None {
        Some(
            view.chosen(
                table,
                if wanted.len() == 0 {
                    None
                } else {
                    Some(wanted)
                },
            ),
        )
    } else {
        None
    }
}

/// Calls `msi::Package::has_table`, which looks the name up among the keys
/// of the map whose values `msi::Package::tables` walks; each table is
/// stored under its own name.
#[verifier::external_body]
pub(crate) fn package_has_table(package: &MsiPackage<Cursor<Vec<u8>>>, name: &str) -> (found:
    bool)
    ensures
        found == package_view(*package).has_table(name@),
{
    package.has_table(name)
}

/// Collects what `msi::Package::tables` walks, in its order: the values of
/// a map that keeps each table under its own name, so that no two of them
/// have the same name.
#[verifier::external_body]
pub(crate) fn package_tables(package: &MsiPackage<Cursor<Vec<u8>>>) -> (tables: Vec<
    &MsiTable,
>)
    ensures
        tables@.len() == catalog(*package).len(),
        forall|i: int| 0 <= i < tables@.len() ==> *#[trigger] tables@[i] == catalog(*package)[i],
        forall|i: int, j: int|
            0 <= i < j < tables@.len() ==> table_name(*#[trigger] tables@[i]) != table_name(
                *#[trigger] tables@[j],
            ),
{
    package.tables().collect()
}

/// Calls `msi::Package::select_rows` with a query on one table and a list
/// of column names, and hands out each cell as the text that
/// `msi::Value::as_str` finds in it. The select reads and changes nothing
/// of the catalog or of the stored rows. It fails for a table whose stream
/// cannot be read and for a column that the table lacks. It cuts every row
/// down to the listed columns, in the order listed, taking each from the
/// first column of that name; for an empty list it yields the rows whole.
/// Every row that it reads for a table has one cell for each column of
/// the table.
#[verifier::external_body]
pub(crate) fn select_text(
    package: &mut MsiPackage<Cursor<Vec<u8>>>,
    table: &str,
    columns: &Vec<String>,
) -> (selected: Result<Vec<Vec<Option<String>>>, std::io::Error>)
    ensures
        catalog(*final(package)) == catalog(*old(package)),
        stored_rows(*final(package)) == stored_rows(*old(package)),
        match selected {
            Ok(rows) => msi_selection(package_view(*old(package)), table@, columns.deep_view())
                == Some(rows.deep_view()),
            Err(_) => msi_selection(package_view(*old(package)), table@, columns.deep_view())
                is None,
        },
        selected is Ok ==> package_view(*old(package)).rows_fit(table@),
{
    let query = msi::Select::table(table).columns(columns.as_slice());
    let mut rows = Vec::new();
    for row in package.select_rows(query)? {
        let mut cells = Vec::new();
        for i in 0..row.len() {
            cells.push(row[i].as_str().map(str::to_owned));
        }
        rows.push(cells);
    }
    Ok(rows)
}

/// The message of an error of the reader: calls `to_string` on it.
#[verifier::external_body]
pub(crate) fn error_message(error: &std::io::Error) -> String {
    error.to_string()
}

} // verus!
