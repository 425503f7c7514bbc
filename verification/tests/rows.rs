use msi_wasm::schema::{contains_name, find_missing};
use msi_wasm::{label_rows, Row};

fn names(list: &[&str]) -> Vec<String> {
    list.iter().map(|name| name.to_string()).collect()
}

#[test]
fn row_pairs_names_with_cells_in_order() {
    let columns = names(&["Property", "Value"]);
    let cells = vec![Some("ProductName".to_string()), None];
    let row = Row::new(&columns, &cells);
    assert_eq!(row.len(), 2);
    assert_eq!(
        row.entries,
        vec![
            ("Property".to_string(), Some("ProductName".to_string())),
            ("Value".to_string(), None),
        ]
    );
}

#[test]
fn row_without_columns_is_empty() {
    let row = Row::new(&Vec::new(), &Vec::new());
    assert_eq!(row.len(), 0);
    assert_eq!(row.get("Property"), None);
}

#[test]
fn row_get_tells_absent_cell_from_absent_column() {
    let columns = names(&["Property", "Value"]);
    let cells = vec![Some("ProductName".to_string()), None];
    let row = Row::new(&columns, &cells);
    assert_eq!(row.get("Property"), Some(Some("ProductName".to_string())));
    assert_eq!(row.get("Value"), Some(None));
    assert_eq!(row.get("value"), None);
    assert_eq!(row.get("Other"), None);
}

#[test]
fn row_get_takes_the_first_entry_of_a_name() {
    let columns = names(&["Value", "Value"]);
    let cells = vec![Some("first".to_string()), Some("second".to_string())];
    let row = Row::new(&columns, &cells);
    assert_eq!(row.get("Value"), Some(Some("first".to_string())));
}

#[test]
fn label_rows_labels_every_row() {
    let columns = names(&["A", "B"]);
    let rows = vec![
        vec![Some("1".to_string()), Some("2".to_string())],
        vec![None, Some("4".to_string())],
    ];
    let records = label_rows(&columns, &rows);
    assert_eq!(records.len(), 2);
    assert_eq!(records[0].get("A"), Some(Some("1".to_string())));
    assert_eq!(records[0].get("B"), Some(Some("2".to_string())));
    assert_eq!(records[1].get("A"), Some(None));
    assert_eq!(records[1].get("B"), Some(Some("4".to_string())));
}

#[test]
fn label_rows_of_nothing_is_nothing() {
    let records = label_rows(&names(&["A"]), &Vec::new());
    assert!(records.is_empty());
}

#[test]
fn contains_name_is_exact() {
    let columns = names(&["Property", "Value"]);
    assert!(contains_name(&columns, &"Value".to_string()));
    assert!(!contains_name(&columns, &"value".to_string()));
    assert!(!contains_name(&columns, &"Val".to_string()));
    assert!(!contains_name(&Vec::new(), &"Value".to_string()));
}

#[test]
fn find_missing_gives_the_first_missing_name() {
    let columns = names(&["A", "B", "C"]);
    assert_eq!(find_missing(&columns, &names(&["C", "A"])), None);
    assert_eq!(find_missing(&columns, &names(&[])), None);
    assert_eq!(find_missing(&columns, &names(&["A", "X", "Y"])), Some(1));
    assert_eq!(find_missing(&columns, &names(&["Z"])), Some(0));
    assert_eq!(find_missing(&Vec::new(), &names(&["A"])), Some(0));
}
