//! Product metadata, folded out of the rows of the `Property` table.

use vstd::prelude::*;
use crate::error::{Failure, PackageError};

verus! {

/// One selected row: a cell is its text, or absent.
pub type Cells = Seq<Option<Seq<char>>>;

/// The metadata of the product that a package installs.
#[derive(Debug)]
pub struct ProductInfo {
    pub name: String,
    pub version: String,
    pub manufacturer: String,
    pub upgrade_code: Option<String>,
}

/// What a `ProductInfo` holds, as text.
pub struct ProductInfoView {
    pub name: Seq<char>,
    pub version: Seq<char>,
    pub manufacturer: Seq<char>,
    pub upgrade_code: Option<Seq<char>>,
}

impl View for ProductInfo {
    type V = ProductInfoView;

    open spec fn view(&self) -> ProductInfoView {
        ProductInfoView {
            name: self.name@,
            version: self.version@,
            manufacturer: self.manufacturer@,
            upgrade_code: match self.upgrade_code {
                Some(code) => Some(code@),
                None => None,
            },
        }
    }
}

/// The key cell of a property row: its first cell.
pub open spec fn row_key(row: Cells) -> Option<Seq<char>> {
    if row.len() > 0 {
        row[0]
    } else {
        None
    }
}

/// The value cell of a property row: its second cell.
pub open spec fn row_value(row: Cells) -> Option<Seq<char>> {
    if row.len() > 1 {
        row[1]
    } else {
        None
    }
}

/// A property row is malformed when its key or its value is absent.
pub open spec fn malformed(row: Cells) -> bool {
    row_key(row) is None || row_value(row) is None
}

/// The position of the first malformed row, if there is one.
pub open spec fn first_malformed(rows: Seq<Cells>) -> Option<int> {
    if exists|i: int| 0 <= i < rows.len() && malformed(#[trigger] rows[i]) {
        Some(
            choose|i: int|
                0 <= i < rows.len() && malformed(#[trigger] rows[i]) && forall|j: int|
                    0 <= j < i ==> !malformed(#[trigger] rows[j]),
        )
    } else {
        None
    }
}

/// The value of the last row whose key is `key`.
pub open spec fn last_value(rows: Seq<Cells>, key: Seq<char>) -> Option<Seq<char>>
    decreases rows.len(),
{
    if rows.len() == 0 {
        None
    } else if row_key(rows.last()) == Some(key) {
        row_value(rows.last())
    } else {
        last_value(rows.drop_last(), key)
    }
}

/// The text of a field that no row has set.
pub open spec fn or_empty(value: Option<Seq<char>>) -> Seq<char> {
    match value {
        Some(text) => text,
        None => Seq::empty(),
    }
}

/// The record that the rows fold into: each field is the value of the last
/// row that carries its key.
pub open spec fn folded(rows: Seq<Cells>) -> ProductInfoView {
    ProductInfoView {
        name: or_empty(last_value(rows, "ProductName"@)),
        version: or_empty(last_value(rows, "ProductVersion"@)),
        manufacturer: or_empty(last_value(rows, "Manufacturer"@)),
        upgrade_code: last_value(rows, "UpgradeCode"@),
    }
}

/// What folding the rows ends in: the record, or the first malformed row.
pub open spec fn fold_outcome(rows: Seq<Cells>) -> Result<ProductInfoView, Failure> {
    match first_malformed(rows) {
        Some(row) => Err(Failure::MalformedRow { row }),
        None => Ok(folded(rows)),
    }
}

impl Default for ProductInfo {
    fn default() -> (info: ProductInfo)
        ensures
            info@ == folded(Seq::empty()),
    {
        ProductInfo {
            name: String::new(),
            version: String::new(),
            manufacturer: String::new(),
            upgrade_code: None,
        }
    }
}

impl ProductInfo {
    /// The product's name; empty where no row set it.
    pub fn name(&self) -> (name: String)
        ensures
            name@ == self@.name,
    {
        self.name.clone()
    }

    /// The product's version; empty where no row set it.
    pub fn version(&self) -> (version: String)
        ensures
            version@ == self@.version,
    {
        self.version.clone()
    }

    /// The product's manufacturer; empty where no row set it.
    pub fn manufacturer(&self) -> (manufacturer: String)
        ensures
            manufacturer@ == self@.manufacturer,
    {
        self.manufacturer.clone()
    }

    /// The product's upgrade code, where a row set it.
    pub fn upgrade_code(&self) -> (upgrade_code: Option<String>)
        ensures
            upgrade_code.deep_view() == self@.upgrade_code,
    {
        match &self.upgrade_code {
            Some(code) => Some(code.clone()),
            None => None,
        }
    }
}

/// Folds the rows of a key and value selection into a record. A key that
/// is not recognised leaves the record as it is; a key that repeats
/// overwrites what an earlier row set. The first row that lacks a key or a
/// value ends the fold, and nothing of the record is returned.
pub fn fold_properties(rows: &Vec<Vec<Option<String>>>) -> (outcome: Result<
    ProductInfo,
    PackageError,
>)
    ensures
        match outcome {
            Ok(info) => fold_outcome(rows.deep_view()) == Ok::<ProductInfoView, Failure>(info@),
            Err(error) => fold_outcome(rows.deep_view()) == Err::<ProductInfoView, Failure>(
                error@.failure(),
            ),
        },
{
    let product_name = "ProductName".to_owned();
    let product_version = "ProductVersion".to_owned();
    let manufacturer = "Manufacturer".to_owned();
    let upgrade_code = "UpgradeCode".to_owned();
    let ghost all = rows.deep_view();
    let mut info = ProductInfo::default();
    let mut i: usize = 0;
    while i < rows.len()
        invariant
            i <= rows.len(),
            all == rows.deep_view(),
            product_name@ == "ProductName"@,
            product_version@ == "ProductVersion"@,
            manufacturer@ == "Manufacturer"@,
            upgrade_code@ == "UpgradeCode"@,
            forall|j: int| 0 <= j < i ==> !malformed(#[trigger] all[j]),
            info@ == folded(all.take(i as int)),
        decreases rows.len() - i,
    {
        let row = &rows[i];
        assert(all[i as int] == row.deep_view());
        assert(all.take(i + 1).drop_last() == all.take(i as int));
        if row.len() < 2 {
            return Err(PackageError::MalformedRow { row: i });
        }
        match (&row[0], &row[1]) {
            (Some(key), Some(value)) => {
                if *key == product_name {
                    info.name = value.clone();
                } else if *key == product_version {
                    info.version = value.clone();
                } else if *key == manufacturer {
                    info.manufacturer = value.clone();
                } else if *key == upgrade_code {
                    info.upgrade_code = Some(value.clone());
                }
                proof {
                    lemma_keys_differ();
                }
            },
            _ => {
                return Err(PackageError::MalformedRow { row: i });
            },
        }
        i = i + 1;
    }
    assert(all.take(i as int) == all);
    Ok(info)
}

/// The four recognised keys are four different texts.
proof fn lemma_keys_differ()
    ensures
        "ProductName"@ != "ProductVersion"@,
        "ProductName"@ != "Manufacturer"@,
        "ProductName"@ != "UpgradeCode"@,
        "ProductVersion"@ != "Manufacturer"@,
        "ProductVersion"@ != "UpgradeCode"@,
        "Manufacturer"@ != "UpgradeCode"@,
{
    reveal_strlit("ProductName");
    reveal_strlit("ProductVersion");
    reveal_strlit("Manufacturer");
    reveal_strlit("UpgradeCode");
    assert("ProductVersion"@.len() == 14);
    assert("ProductName"@[0] == 'P');
    assert("UpgradeCode"@[0] == 'U');
}

/// Whether a key is one of the four that the fold recognises.
pub open spec fn recognised(key: Seq<char>) -> bool {
    ||| key == "ProductName"@
    ||| key == "ProductVersion"@
    ||| key == "Manufacturer"@
    ||| key == "UpgradeCode"@
}

/// Whether the fold passes a row over: it has its key and its value, and
/// the key is none of the four.
pub open spec fn passed_over(row: Cells) -> bool {
    &&& !malformed(row)
    &&& row_key(row) matches Some(key) && !recognised(key)
}

/// The positions of the rows that the fold passes over, in rising order.
pub open spec fn skipped(rows: Seq<Cells>) -> Seq<int>
    decreases rows.len(),
{
    if rows.len() == 0 {
        Seq::empty()
    } else if passed_over(rows.last()) {
        skipped(rows.drop_last()).push(rows.len() - 1)
    } else {
        skipped(rows.drop_last())
    }
}

/// The positions of the rows that `fold_properties` passes over because
/// their key is none of the four, in rising order: what a caller may want
/// to report. A row without a key or a value is not among them.
pub fn skipped_properties(rows: &Vec<Vec<Option<String>>>) -> (positions: Vec<usize>)
    ensures
        positions@.map_values(|at: usize| at as int) == skipped(rows.deep_view()),
{
    let product_name = "ProductName".to_owned();
    let product_version = "ProductVersion".to_owned();
    let manufacturer = "Manufacturer".to_owned();
    let upgrade_code = "UpgradeCode".to_owned();
    let ghost all = rows.deep_view();
    let mut positions: Vec<usize> = Vec::new();
    let mut i: usize = 0;
    assert(positions@.map_values(|at: usize| at as int) =~= skipped(all.take(0)));
    while i < rows.len()
        invariant
            i <= rows.len(),
            all == rows.deep_view(),
            product_name@ == "ProductName"@,
            product_version@ == "ProductVersion"@,
            manufacturer@ == "Manufacturer"@,
            upgrade_code@ == "UpgradeCode"@,
            positions@.map_values(|at: usize| at as int) == skipped(all.take(i as int)),
        decreases rows.len() - i,
    {
        let row = &rows[i];
        let ghost before = positions@.map_values(|at: usize| at as int);
        assert(all[i as int] == row.deep_view());
        assert(all.take(i + 1).drop_last() == all.take(i as int));
        assert(all.take(i + 1).last() == all[i as int]);
        if row.len() >= 2 {
            match (&row[0], &row[1]) {
                (Some(key), Some(_)) => {
                    if !(*key == product_name || *key == product_version || *key == manufacturer
                        || *key == upgrade_code) {
                        positions.push(i);
                        assert(positions@.map_values(|at: usize| at as int) =~= before.push(
                            i as int,
                        ));
                    }
                },
                _ => {},
            }
        }
        i = i + 1;
    }
    assert(all.take(i as int) == all);
    positions
}

/// A row that the fold passes over leaves the record as it is.
pub proof fn lemma_skipped_row_changes_nothing(rows: Seq<Cells>, row: Cells)
    requires
        passed_over(row),
    ensures
        folded(rows.push(row)) == folded(rows),
{
    let longer = rows.push(row);
    assert(longer.last() == row);
    assert(longer.drop_last() == rows);
}

/// Whether the row at `at` is the last one keyed `key`.
pub open spec fn last_keyed(rows: Seq<Cells>, key: Seq<char>, at: int) -> bool {
    &&& 0 <= at < rows.len()
    &&& row_key(rows[at]) == Some(key)
    &&& forall|j: int| at < j < rows.len() ==> row_key(#[trigger] rows[j]) != Some(key)
}

/// Last write wins: the value found for a key is the value of the last
/// row that carries the key, whatever earlier rows said.
pub proof fn lemma_last_row_wins(rows: Seq<Cells>, key: Seq<char>, at: int)
    requires
        last_keyed(rows, key, at),
    ensures
        last_value(rows, key) == row_value(rows[at]),
    decreases rows.len(),
{
    if at < rows.len() - 1 {
        let front = rows.drop_last();
        assert forall|j: int| at < j < front.len() implies row_key(#[trigger] front[j]) != Some(
            key,
        ) by {
            assert(front[j] == rows[j]);
        }
        lemma_last_row_wins(front, key, at);
    }
}

/// A key that no row carries has no value.
pub proof fn lemma_unwritten_key_has_no_value(rows: Seq<Cells>, key: Seq<char>)
    requires
        forall|j: int| 0 <= j < rows.len() ==> row_key(#[trigger] rows[j]) != Some(key),
    ensures
        last_value(rows, key) is None,
    decreases rows.len(),
{
    if rows.len() > 0 {
        let front = rows.drop_last();
        assert forall|j: int| 0 <= j < front.len() implies row_key(#[trigger] front[j]) != Some(
            key,
        ) by {
            assert(front[j] == rows[j]);
        }
        lemma_unwritten_key_has_no_value(front, key);
    }
}

/// Where every row has its key and its value, the fold succeeds, and the
/// name and the version of the record are the values of the last rows
/// keyed `ProductName` and `ProductVersion`, each key on its own.
pub proof fn lemma_name_and_version_are_last_written(
    rows: Seq<Cells>,
    name_at: int,
    version_at: int,
)
    requires
        forall|j: int| 0 <= j < rows.len() ==> !malformed(#[trigger] rows[j]),
        last_keyed(rows, "ProductName"@, name_at),
        last_keyed(rows, "ProductVersion"@, version_at),
    ensures
        fold_outcome(rows) == Ok::<ProductInfoView, Failure>(folded(rows)),
        Some(folded(rows).name) == row_value(rows[name_at]),
        Some(folded(rows).version) == row_value(rows[version_at]),
{
    lemma_last_row_wins(rows, "ProductName"@, name_at);
    lemma_last_row_wins(rows, "ProductVersion"@, version_at);
}

} // verus!
