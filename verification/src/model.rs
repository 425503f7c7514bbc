//! The mathematical model of a package: its catalog of tables and the rows
//! stored under each table, all as text.

use vstd::prelude::*;
use crate::error::Failure;
use crate::product::{fold_outcome, Cells, ProductInfoView};

verus! {

/// What a column is: its name, its storage type and category as rendered
/// text, and its three flags.
pub struct ColumnView {
    pub name: Seq<char>,
    pub column_type: Seq<char>,
    pub category: Option<Seq<char>>,
    pub primary_key: bool,
    pub nullable: bool,
    pub localizable: bool,
}

/// What a table is: its name and its columns in schema order.
pub struct TableView {
    pub name: Seq<char>,
    pub columns: Seq<ColumnView>,
}

/// What an opened package is: its tables in catalog order, and the rows of
/// every table whose stream can be read, each row in schema order.
pub struct PackageView {
    pub tables: Seq<TableView>,
    pub rows: Map<Seq<char>, Seq<Cells>>,
}

/// The position of the first of `names` that equals `name`; the length of
/// `names` where none does.
pub open spec fn position(names: Seq<Seq<char>>, name: Seq<char>) -> int
    decreases names.len(),
{
    if names.len() == 0 {
        0
    } else if names[0] == name {
        0
    } else {
        1 + position(names.drop_first(), name)
    }
}

/// The position in `wanted` of the first name that is not among `names`,
/// if there is one.
pub open spec fn first_missing(names: Seq<Seq<char>>, wanted: Seq<Seq<char>>) -> Option<int> {
    if exists|i: int| 0 <= i < wanted.len() && !names.contains(#[trigger] wanted[i]) {
        Some(
            choose|i: int|
                0 <= i < wanted.len() && !names.contains(#[trigger] wanted[i]) && forall|j: int|
                    0 <= j < i ==> names.contains(#[trigger] wanted[j]),
        )
    } else {
        None
    }
}

/// A row cut down to the wanted columns, in the order wanted: cell `i` is
/// the cell of the first column named `wanted[i]`.
pub open spec fn projection(row: Cells, names: Seq<Seq<char>>, wanted: Seq<Seq<char>>) -> Cells {
    Seq::new(wanted.len(), |i: int| row[position(names, wanted[i])])
}

/// One row as a record: entry `i` pairs the name of column `i` with the
/// cell of column `i`.
pub type Entries = Seq<(Seq<char>, Option<Seq<char>>)>;

/// The record of a row whose cells stand under the given column names.
pub open spec fn labelled(names: Seq<Seq<char>>, cells: Cells) -> Entries {
    Seq::new(names.len(), |i: int| (names[i], cells[i]))
}

impl TableView {
    /// The names of the columns, in schema order.
    pub open spec fn column_names(self) -> Seq<Seq<char>> {
        self.columns.map_values(|column: ColumnView| column.name)
    }
}

impl PackageView {
    /// The names of the tables, in catalog order.
    pub open spec fn table_names(self) -> Seq<Seq<char>> {
        self.tables.map_values(|table: TableView| table.name)
    }

    /// Whether no two tables of the catalog have the same name.
    pub open spec fn distinct_names(self) -> bool {
        forall|i: int, j: int|
            0 <= i < j < self.tables.len() ==> (#[trigger] self.tables[i]).name != (
            #[trigger] self.tables[j]).name
    }

    /// Whether the catalog has a table of exactly this name.
    pub open spec fn has_table(self, name: Seq<char>) -> bool {
        self.table_names().contains(name)
    }

    /// The column names of the table of this name, in schema order.
    pub open spec fn column_names(self, table: Seq<char>) -> Seq<Seq<char>> {
        self.tables[position(self.table_names(), table)].column_names()
    }

    /// Whether every stored row of a table has one cell for each column of
    /// the table.
    pub open spec fn rows_fit(self, table: Seq<char>) -> bool {
        forall|k: int|
            0 <= k < self.rows[table].len() ==> (#[trigger] self.rows[table][k]).len()
                == self.column_names(table).len()
    }

    /// The stored rows of a table as they are where no columns are chosen,
    /// else every stored row cut down to the chosen columns.
    pub open spec fn chosen(self, table: Seq<char>, wanted: Option<Seq<Seq<char>>>) -> Seq<Cells> {
        match wanted {
            None => self.rows[table],
            Some(names) => self.rows[table].map_values(
                |row: Cells| projection(row, self.column_names(table), names),
            ),
        }
    }

    /// What selecting from a table ends in: the rows, or the reason why
    /// there are none. A missing table is reported before a missing column,
    /// the first missing column before an unreadable stream.
    pub open spec fn select_outcome(
        self,
        table: Seq<char>,
        wanted: Option<Seq<Seq<char>>>,
    ) -> Result<Seq<Cells>, Failure> {
        if !self.has_table(table) {
            Err(Failure::TableNotFound { table })
        } else {
            match self.missing_column(table, wanted) {
                Some(column) => Err(Failure::ColumnNotFound { table, column }),
                None => if self.rows.dom().contains(table) {
                    Ok(self.chosen(table, wanted))
                } else {
                    Err(Failure::OpenError)
                },
            }
        }
    }

    /// The first of the chosen columns that the table does not have.
    pub open spec fn missing_column(self, table: Seq<char>, wanted: Option<Seq<Seq<char>>>) -> Option<
        Seq<char>,
    > {
        match wanted {
            None => None,
            Some(names) => match first_missing(self.column_names(table), names) {
                Some(i) => Some(names[i]),
                None => None,
            },
        }
    }

    /// The names under which the cells of a selected row stand: the chosen
    /// columns, or all columns of the table where none are chosen.
    pub open spec fn labels(self, table: Seq<char>, wanted: Option<Seq<Seq<char>>>) -> Seq<
        Seq<char>,
    > {
        match wanted {
            Some(names) => names,
            None => self.column_names(table),
        }
    }

    /// What selecting records from a table ends in: every selected row
    /// under its column names, or the reason why there are none.
    pub open spec fn records(self, table: Seq<char>, wanted: Option<Seq<Seq<char>>>) -> Result<
        Seq<Entries>,
        Failure,
    > {
        match self.select_outcome(table, wanted) {
            Ok(rows) => Ok(
                rows.map_values(|cells: Cells| labelled(self.labels(table, wanted), cells)),
            ),
            Err(failure) => Err(failure),
        }
    }

    /// What extracting the product metadata ends in. A package without a
    /// `Property` table has none, which is no failure. Otherwise the rows
    /// of that table, cut down to the columns `Property` and `Value` in
    /// this order, are folded; a failure of the selection or of the fold is
    /// the failure of the extraction.
    pub open spec fn product_info(self) -> Result<Option<ProductInfoView>, Failure> {
        if !self.has_table("Property"@) {
            Ok(None)
        } else {
            match self.select_outcome("Property"@, Some(seq!["Property"@, "Value"@])) {
                Err(failure) => Err(failure),
                Ok(rows) => match fold_outcome(rows) {
                    Err(failure) => Err(failure),
                    Ok(info) => Ok(Some(info)),
                },
            }
        }
    }
}

/// Where `names[at]` is the first of `names` that equals `name`, `at` is
/// its position.
pub proof fn lemma_position_of_first(names: Seq<Seq<char>>, name: Seq<char>, at: int)
    requires
        0 <= at < names.len(),
        names[at] == name,
        forall|j: int| 0 <= j < at ==> #[trigger] names[j] != name,
    ensures
        position(names, name) == at,
    decreases names.len(),
{
    if at > 0 {
        let rest = names.drop_first();
        assert forall|j: int| 0 <= j < at - 1 implies #[trigger] rest[j] != name by {
            assert(rest[j] == names[j + 1]);
        }
        lemma_position_of_first(rest, name, at - 1);
    }
}

/// Selecting from a table that the catalog lacks fails with
/// `TableNotFound`, whatever columns are chosen: no row is returned.
pub proof fn lemma_missing_table_yields_nothing(
    package: PackageView,
    table: Seq<char>,
    wanted: Option<Seq<Seq<char>>>,
)
    requires
        !package.has_table(table),
    ensures
        package.select_outcome(table, wanted) == Err::<Seq<Cells>, Failure>(
            Failure::TableNotFound { table },
        ),
        package.records(table, wanted) == Err::<Seq<Entries>, Failure>(
            Failure::TableNotFound { table },
        ),
{
}

/// Selecting columns that the table has, from a table whose rows can be
/// read, yields one record for each stored row, in stored order. Every
/// record has as many entries as columns were chosen; its entry `i` stands
/// under the `i`-th chosen name and holds the cell that the stored row has
/// in the first column of that name.
pub proof fn lemma_selection_follows_choice(
    package: PackageView,
    table: Seq<char>,
    wanted: Seq<Seq<char>>,
)
    requires
        package.has_table(table),
        package.rows.dom().contains(table),
        forall|i: int|
            0 <= i < wanted.len() ==> package.column_names(table).contains(#[trigger] wanted[i]),
    ensures
        package.records(table, Some(wanted)) matches Ok(records) && {
            &&& records.len() == package.rows[table].len()
            &&& forall|k: int|
                0 <= k < records.len() ==> (#[trigger] records[k]).len() == wanted.len()
            &&& forall|k: int, i: int|
                0 <= k < records.len() && 0 <= i < wanted.len() ==> (#[trigger] records[k][i])
                    == (
                    wanted[i],
                    package.rows[table][k][position(package.column_names(table), wanted[i])],
                )
        },
{
}

/// Without a `Property` table the extraction has no result, and this is
/// no failure.
pub proof fn lemma_no_property_table_no_result(package: PackageView)
    requires
        !package.has_table("Property"@),
    ensures
        package.product_info() == Ok::<Option<ProductInfoView>, Failure>(None),
{
}

/// Extracting twice gives the same twice. The outcome of an extraction is a
/// function of the package, and an extraction leaves the package as it
/// was: so the outcome on the package after the first extraction is the
/// outcome on the package before it.
pub proof fn lemma_extraction_repeats(before: PackageView, after: PackageView)
    requires
        after == before,
    ensures
        after.product_info() == before.product_info(),
{
}

} // verus!
