//! The failures that a query on a package can end in.

use vstd::prelude::*;

verus! {

/// Why opening or querying a package failed.
#[derive(Debug)]
pub enum PackageError {
    /// The bytes are not a package that can be decoded: raised on opening,
    /// and on selection when the stream of a table turns out unreadable.
    /// The message is the reader's own reason and is not interpreted.
    OpenError { message: String },
    /// No table of this name is in the catalog.
    TableNotFound { table: String },
    /// The table has no column of this name.
    ColumnNotFound { table: String, column: String },
    /// The row at this position lacks a key or a value where product
    /// metadata is read.
    MalformedRow { row: usize },
}

/// What a `PackageError` holds, as text.
pub enum PackageErrorView {
    OpenError { message: Seq<char> },
    TableNotFound { table: Seq<char> },
    ColumnNotFound { table: Seq<char>, column: Seq<char> },
    MalformedRow { row: int },
}

/// The kind of a failure with what the package decides of it: everything
/// but the reader's reason, which is the reader's to give.
pub enum Failure {
    OpenError,
    TableNotFound { table: Seq<char> },
    ColumnNotFound { table: Seq<char>, column: Seq<char> },
    MalformedRow { row: int },
}

impl PackageErrorView {
    /// The failure without the reader's reason.
    pub open spec fn failure(self) -> Failure {
        match self {
            PackageErrorView::OpenError { .. } => Failure::OpenError,
            PackageErrorView::TableNotFound { table } => Failure::TableNotFound { table },
            PackageErrorView::ColumnNotFound { table, column } => Failure::ColumnNotFound {
                table,
                column,
            },
            PackageErrorView::MalformedRow { row } => Failure::MalformedRow { row },
        }
    }
}

impl View for PackageError {
    type V = PackageErrorView;

    open spec fn view(&self) -> PackageErrorView {
        match *self {
            PackageError::OpenError { message } => PackageErrorView::OpenError {
                message: message@,
            },
            PackageError::TableNotFound { table } => PackageErrorView::TableNotFound {
                table: table@,
            },
            PackageError::ColumnNotFound { table, column } => PackageErrorView::ColumnNotFound {
                table: table@,
                column: column@,
            },
            PackageError::MalformedRow { row } => PackageErrorView::MalformedRow {
                row: row as int,
            },
        }
    }
}

} // verus!
