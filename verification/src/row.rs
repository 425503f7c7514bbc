//! Selected rows as records: every cell under the name of its column.

use vstd::prelude::*;
use crate::model::{labelled, Entries};
use crate::product::Cells;
use crate::schema::copy_text;

verus! {

/// One selected row: its cells in the order selected, each paired with the
/// name of its column. A cell is its text, or absent.
#[derive(Debug)]
pub struct Row {
    pub entries: Vec<(String, Option<String>)>,
}

impl View for Row {
    type V = Entries;

    open spec fn view(&self) -> Entries {
        self.entries.deep_view()
    }
}

impl DeepView for Row {
    type V = Entries;

    open spec fn deep_view(&self) -> Entries {
        self@
    }
}

/// The cell of the first entry of this name, if there is such an entry.
pub open spec fn lookup(entries: Entries, name: Seq<char>) -> Option<Option<Seq<char>>>
    decreases entries.len(),
{
    if entries.len() == 0 {
        None
    } else if entries[0].0 == name {
        Some(entries[0].1)
    } else {
        lookup(entries.drop_first(), name)
    }
}

impl Row {
    /// Puts the cells of a row under the names of their columns, one entry
    /// for each column, in column order. An absent cell stays absent.
    pub fn new(names: &Vec<String>, cells: &Vec<Option<String>>) -> (row: Row)
        requires
            names.len() == cells.len(),
        ensures
            row@ == labelled(names.deep_view(), cells.deep_view()),
    {
        let mut entries: Vec<(String, Option<String>)> = Vec::new();
        let mut i: usize = 0;
        while i < names.len()
            invariant
                i <= names.len(),
                names.len() == cells.len(),
                entries.len() == i,
                forall|j: int|
                    0 <= j < i ==> (#[trigger] entries[j]).deep_view() == (
                        names[j]@,
                        cells[j].deep_view(),
                    ),
            decreases names.len() - i,
        {
            entries.push((names[i].clone(), copy_text(&cells[i])));
            i = i + 1;
        }
        let row = Row { entries };
        row
    }

    /// The number of entries.
    pub fn len(&self) -> (len: usize)
        ensures
            len == self@.len(),
    {
        self.entries.len()
    }

    /// The cell under a column name: that of the first entry of this name.
    /// `None` where the row has no such column, `Some(None)` where the
    /// cell is absent.
    pub fn get(&self, column: &str) -> (cell: Option<Option<String>>)
        ensures
            cell.deep_view() == lookup(self@, column@),
    {
        let wanted = column.to_owned();
        let mut i: usize = 0;
        assert(self@.skip(0) =~= self@);
        while i < self.entries.len()
            invariant
                i <= self.entries.len(),
                wanted@ == column@,
                lookup(self@, column@) == lookup(self@.skip(i as int), column@),
            decreases self.entries.len() - i,
        {
            let ghost rest = self@.skip(i as int);
            assert(rest.drop_first() == self@.skip(i + 1));
            if self.entries[i].0 == wanted {
                return Some(copy_text(&self.entries[i].1));
            }
            i = i + 1;
        }
        None
    }
}

/// A record gives back under a column name the cell that was put there:
/// the cell of the first column of that name.
pub proof fn lemma_lookup_finds_cell(names: Seq<Seq<char>>, cells: Cells, at: int)
    requires
        names.len() == cells.len(),
        0 <= at < names.len(),
        forall|j: int| 0 <= j < at ==> #[trigger] names[j] != names[at],
    ensures
        lookup(labelled(names, cells), names[at]) == Some(cells[at]),
    decreases names.len(),
{
    if at > 0 {
        let rest_names = names.drop_first();
        let rest_cells = cells.drop_first();
        assert(names[0] != names[at]);
        assert(labelled(names, cells).drop_first() =~= labelled(rest_names, rest_cells));
        assert forall|j: int| 0 <= j < at - 1 implies #[trigger] rest_names[j] != rest_names[at
            - 1] by {
            assert(rest_names[j] == names[j + 1]);
        }
        lemma_lookup_finds_cell(rest_names, rest_cells, at - 1);
    }
}

/// A record has no cell under a name that none of its columns has.
pub proof fn lemma_lookup_misses_unknown(names: Seq<Seq<char>>, cells: Cells, name: Seq<char>)
    requires
        names.len() == cells.len(),
        !names.contains(name),
    ensures
        lookup(labelled(names, cells), name) is None,
    decreases names.len(),
{
    if names.len() > 0 {
        let rest_names = names.drop_first();
        let rest_cells = cells.drop_first();
        assert(names[0] != name);
        assert(labelled(names, cells).drop_first() =~= labelled(rest_names, rest_cells));
        assert forall|j: int| 0 <= j < rest_names.len() implies #[trigger] rest_names[j]
            != name by {
            assert(rest_names[j] == names[j + 1]);
        }
        lemma_lookup_misses_unknown(rest_names, rest_cells, name);
    }
}

/// Puts every row of a selection under the same column names.
pub fn label_rows(names: &Vec<String>, rows: &Vec<Vec<Option<String>>>) -> (records: Vec<Row>)
    requires
        forall|k: int| 0 <= k < rows.len() ==> (#[trigger] rows[k]).len() == names.len(),
    ensures
        records.deep_view() == rows.deep_view().map_values(
            |cells: Cells| labelled(names.deep_view(), cells),
        ),
{
    let mut records: Vec<Row> = Vec::new();
    let mut k: usize = 0;
    while k < rows.len()
        invariant
            k <= rows.len(),
            forall|j: int| 0 <= j < rows.len() ==> (#[trigger] rows[j]).len() == names.len(),
            records.len() == k,
            forall|j: int|
                0 <= j < k ==> (#[trigger] records[j])@ == labelled(
                    names.deep_view(),
                    rows[j].deep_view(),
                ),
        decreases rows.len() - k,
    {
        records.push(Row::new(names, &rows[k]));
        k = k + 1;
    }
    assert(records.deep_view() =~= rows.deep_view().map_values(
        |cells: Cells| labelled(names.deep_view(), cells),
    ));
    records
}

} // verus!
