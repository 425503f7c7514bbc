//! A read-only relational view over a Windows Installer package held in
//! memory, and the product metadata found in its `Property` table.
//!
//! A [`Package`] takes a package that the `msi` crate has opened from
//! bytes. It lists its tables with their
//! columns, selects the rows of a table as records of text cells, whole or
//! cut down to chosen columns, and folds the rows of the `Property` table
//! into a [`ProductInfo`]. Decoding the container is the work of the `msi`
//! crate; the module [`reader`] holds everything that is taken from it on
//! trust. The module [`model`] says what a package is, and every contract
//! is stated over it.

pub mod error;
pub mod model;
pub mod package;
pub mod product;
pub mod reader;
pub mod row;
pub mod schema;

pub use error::PackageError;
pub use package::{settle_selection, Package};
pub use product::{fold_properties, skipped_properties, ProductInfo};
pub use row::{label_rows, Row};
pub use schema::{Column, Table};
