use msi::{Column as MsiColumn, Insert, Package as MsiPackage, PackageType, Value};
use msi_wasm::schema::column_names_of;
use msi_wasm::{settle_selection, Column, Package, PackageError, Table};
use std::io::Cursor;

fn names(list: &[&str]) -> Vec<String> {
    list.iter().map(|name| name.to_string()).collect()
}

fn text(value: &str) -> Option<String> {
    Some(value.to_string())
}

fn empty_package() -> MsiPackage<Cursor<Vec<u8>>> {
    MsiPackage::create(PackageType::Installer, Cursor::new(Vec::new())).unwrap()
}

/// Asks the reader to open the bytes and hands its answer to the library.
fn open(bytes: Vec<u8>) -> Result<Package, PackageError> {
    Package::new(MsiPackage::open(Cursor::new(bytes)).map_err(|error| error.to_string()))
}

/// The reason that the reader itself gives for refusing the bytes.
fn refusal(bytes: Vec<u8>) -> String {
    match MsiPackage::open(Cursor::new(bytes)) {
        Ok(_) => panic!("the reader accepts these bytes"),
        Err(error) => error.to_string(),
    }
}

fn bytes_of(package: MsiPackage<Cursor<Vec<u8>>>) -> Vec<u8> {
    package.into_inner().unwrap().into_inner()
}

/// A package whose `Property` table keeps its rows in the order of a
/// numeric key, so that a property may repeat.
fn package_with_properties(rows: &[(Option<&str>, Option<&str>)]) -> Vec<u8> {
    let mut package = empty_package();
    let columns = vec![
        MsiColumn::build("Order").primary_key().int16(),
        MsiColumn::build("Property").nullable().id_string(72),
        MsiColumn::build("Value").nullable().text_string(0),
    ];
    package.create_table("Property", columns).unwrap();
    let mut insert = Insert::into("Property");
    for (i, (key, value)) in rows.iter().enumerate() {
        let key = key.map_or(Value::Null, |key| Value::from(key));
        let value = value.map_or(Value::Null, |value| Value::from(value));
        insert = insert.row(vec![Value::Int(i as i32 + 1), key, value]);
    }
    package.insert_rows(insert).unwrap();
    bytes_of(package)
}

/// A package with the two tables `Property` and `Component`, laid out as
/// installers lay them out.
fn package_with_two_tables() -> Vec<u8> {
    let mut package = empty_package();
    let property = vec![
        MsiColumn::build("Property").primary_key().id_string(72),
        MsiColumn::build("Value").localizable().text_string(0),
    ];
    package.create_table("Property", property).unwrap();
    let component = vec![
        MsiColumn::build("Component").primary_key().id_string(72),
        MsiColumn::build("ComponentId").nullable().string(38),
        MsiColumn::build("Attributes").int16(),
    ];
    package.create_table("Component", component).unwrap();
    package
        .insert_rows(
            Insert::into("Property")
                .row(vec![Value::from("ProductVersion"), Value::from("1.2.3")])
                .row(vec![Value::from("ProductName"), Value::from("Widget")])
                .row(vec![Value::from("Manufacturer"), Value::from("Acme")]),
        )
        .unwrap();
    package
        .insert_rows(
            Insert::into("Component")
                .row(vec![Value::from("Main"), Value::Null, Value::Int(4)])
                .row(vec![Value::from("Docs"), Value::from("{ID}"), Value::Int(0)]),
        )
        .unwrap();
    bytes_of(package)
}

fn table_named<'a>(tables: &'a [Table], name: &str) -> &'a Table {
    tables.iter().find(|table| table.name() == name).unwrap()
}

#[test]
fn open_rejects_bytes_that_are_no_container() {
    assert!(matches!(
        open(Vec::new()),
        Err(PackageError::OpenError { .. })
    ));
    assert!(matches!(
        open(b"this is not a compound file".to_vec()),
        Err(PackageError::OpenError { .. })
    ));
}

#[test]
fn open_rejects_a_truncated_package() {
    let mut bytes = package_with_two_tables();
    bytes.truncate(300);
    assert!(matches!(
        open(bytes),
        Err(PackageError::OpenError { .. })
    ));
}

#[test]
fn open_accepts_a_package() {
    assert!(open(package_with_two_tables()).is_ok());
}

#[test]
fn has_table_matches_names_exactly() {
    let package = open(package_with_two_tables()).unwrap();
    assert!(package.has_table("Property"));
    assert!(package.has_table("Component"));
    assert!(!package.has_table("property"));
    assert!(!package.has_table("Propert"));
    assert!(!package.has_table("File"));
    assert!(!package.has_table(""));
}

#[test]
fn tables_lists_both_tables_with_their_schema() {
    let package = open(package_with_two_tables()).unwrap();
    let tables = package.tables();
    let property = table_named(&tables, "Property");
    let columns = property.columns();
    assert_eq!(columns.len(), 2);
    assert_eq!(columns[0].name(), "Property");
    assert!(columns[0].primary_key());
    assert!(!columns[0].nullable());
    assert!(!columns[0].localizable());
    assert_eq!(columns[0].column_type(), "VARCHAR(72)");
    assert_eq!(columns[0].category(), text("Identifier"));
    assert_eq!(columns[1].name(), "Value");
    assert!(!columns[1].primary_key());
    assert!(columns[1].localizable());
    assert_eq!(columns[1].column_type(), "VARCHAR(0)");
    assert_eq!(columns[1].category(), text("Text"));

    let component = table_named(&tables, "Component");
    let columns = component.columns();
    assert_eq!(columns.len(), 3);
    assert!(columns.iter().any(|column| column.primary_key()));
    assert_eq!(columns[0].name(), "Component");
    assert!(columns[0].primary_key());
    assert_eq!(columns[1].name(), "ComponentId");
    assert!(columns[1].nullable());
    assert!(!columns[1].primary_key());
    assert_eq!(columns[1].column_type(), "VARCHAR(38)");
    assert_eq!(columns[1].category(), None);
    assert_eq!(columns[2].name(), "Attributes");
    assert_eq!(columns[2].column_type(), "SMALLINT");
    assert_eq!(columns[2].category(), None);
    assert!(!columns[2].nullable());
}

#[test]
fn tables_agree_with_has_table() {
    let package = open(package_with_two_tables()).unwrap();
    let tables = package.tables();
    assert!(tables.len() >= 2);
    for table in &tables {
        assert!(package.has_table(&table.name()));
        assert_eq!(
            package.column_names(&table.name()),
            Some(table.columns().iter().map(|column| column.name()).collect())
        );
    }
}

#[test]
fn tables_come_in_the_same_order_for_the_same_bytes() {
    let bytes = package_with_two_tables();
    let first = open(bytes.clone()).unwrap().tables();
    let second = open(bytes).unwrap().tables();
    let first: Vec<String> = first.iter().map(|table| table.name()).collect();
    let second: Vec<String> = second.iter().map(|table| table.name()).collect();
    assert_eq!(first, second);
}

#[test]
fn column_names_of_a_missing_table() {
    let package = open(package_with_two_tables()).unwrap();
    assert_eq!(package.column_names("File"), None);
    assert_eq!(
        package.column_names("Component"),
        Some(names(&["Component", "ComponentId", "Attributes"]))
    );
}

#[test]
fn rows_gives_every_column_in_schema_order() {
    let mut package = open(package_with_two_tables()).unwrap();
    let rows = package.rows("Component").unwrap();
    assert_eq!(rows.len(), 2);
    assert_eq!(
        rows[0].entries,
        vec![
            ("Component".to_string(), text("Docs")),
            ("ComponentId".to_string(), text("{ID}")),
            ("Attributes".to_string(), None),
        ]
    );
    assert_eq!(
        rows[1].entries,
        vec![
            ("Component".to_string(), text("Main")),
            ("ComponentId".to_string(), None),
            ("Attributes".to_string(), None),
        ]
    );
}

#[test]
fn rows_of_a_missing_table_is_table_not_found() {
    let mut package = open(package_with_two_tables()).unwrap();
    match package.rows("File") {
        Err(PackageError::TableNotFound { table }) => assert_eq!(table, "File"),
        other => panic!("unexpected outcome: {:?}", other),
    }
    match package.select_rows("File", Some(&names(&["File"]))) {
        Err(PackageError::TableNotFound { table }) => assert_eq!(table, "File"),
        other => panic!("unexpected outcome: {:?}", other),
    }
    match package.select_cells("File", None) {
        Err(PackageError::TableNotFound { table }) => assert_eq!(table, "File"),
        other => panic!("unexpected outcome: {:?}", other),
    }
}

#[test]
fn select_rows_follows_the_order_of_the_chosen_columns() {
    let mut package = open(package_with_two_tables()).unwrap();
    let chosen = names(&["Attributes", "Component"]);
    let rows = package.select_rows("Component", Some(&chosen)).unwrap();
    assert_eq!(rows.len(), 2);
    for row in &rows {
        assert_eq!(row.len(), 2);
        assert_eq!(row.entries[0].0, "Attributes");
        assert_eq!(row.entries[1].0, "Component");
    }
    assert_eq!(rows[0].get("Component"), Some(text("Docs")));
    assert_eq!(rows[1].get("Component"), Some(text("Main")));
    assert_eq!(rows[0].get("ComponentId"), None);
}

#[test]
fn select_rows_agrees_with_rows_cell_by_cell() {
    let mut package = open(package_with_two_tables()).unwrap();
    let whole = package.rows("Component").unwrap();
    let chosen = names(&["ComponentId", "Component"]);
    let cut = package.select_rows("Component", Some(&chosen)).unwrap();
    assert_eq!(cut.len(), whole.len());
    for (cut, whole) in cut.iter().zip(whole.iter()) {
        assert_eq!(cut.len(), chosen.len());
        for (i, name) in chosen.iter().enumerate() {
            assert_eq!(&cut.entries[i].0, name);
            assert_eq!(Some(cut.entries[i].1.clone()), whole.get(name));
        }
    }
}

#[test]
fn select_rows_may_repeat_a_column() {
    let mut package = open(package_with_two_tables()).unwrap();
    let chosen = names(&["Component", "Component"]);
    let rows = package.select_rows("Component", Some(&chosen)).unwrap();
    assert_eq!(
        rows[0].entries,
        vec![
            ("Component".to_string(), text("Docs")),
            ("Component".to_string(), text("Docs")),
        ]
    );
}

#[test]
fn select_rows_with_no_column_chosen_gives_rows_without_cells() {
    let mut package = open(package_with_two_tables()).unwrap();
    let rows = package.select_rows("Component", Some(&Vec::new())).unwrap();
    assert_eq!(rows.len(), 2);
    assert!(rows.iter().all(|row| row.len() == 0));
    let cells = package.select_cells("Component", Some(&Vec::new())).unwrap();
    assert_eq!(cells, vec![Vec::new(), Vec::new()]);
}

#[test]
fn select_rows_reports_the_first_missing_column() {
    let mut package = open(package_with_two_tables()).unwrap();
    let chosen = names(&["Component", "Directory_", "KeyPath"]);
    match package.select_rows("Component", Some(&chosen)) {
        Err(PackageError::ColumnNotFound { table, column }) => {
            assert_eq!(table, "Component");
            assert_eq!(column, "Directory_");
        }
        other => panic!("unexpected outcome: {:?}", other),
    }
}

#[test]
fn select_cells_gives_text_or_nothing() {
    let mut package = open(package_with_two_tables()).unwrap();
    let cells = package.select_cells("Property", None).unwrap();
    assert_eq!(
        cells,
        vec![
            vec![text("Manufacturer"), text("Acme")],
            vec![text("ProductName"), text("Widget")],
            vec![text("ProductVersion"), text("1.2.3")],
        ]
    );
    let chosen = names(&["Value"]);
    let cells = package.select_cells("Property", Some(&chosen)).unwrap();
    assert_eq!(
        cells,
        vec![vec![text("Acme")], vec![text("Widget")], vec![text("1.2.3")]]
    );
}

#[test]
fn select_of_an_empty_table_gives_no_rows() {
    let mut package = empty_package();
    let columns = vec![MsiColumn::build("Key").primary_key().id_string(8)];
    package.create_table("Empty", columns).unwrap();
    let mut package = open(bytes_of(package)).unwrap();
    assert!(package.rows("Empty").unwrap().is_empty());
}

#[test]
fn product_info_reads_the_property_table() {
    let mut package = open(package_with_two_tables()).unwrap();
    let info = package.product_info().unwrap().unwrap();
    assert_eq!(info.name(), "Widget");
    assert_eq!(info.version(), "1.2.3");
    assert_eq!(info.manufacturer(), "Acme");
    assert_eq!(info.upgrade_code(), None);
}

#[test]
fn product_info_last_write_wins() {
    let bytes = package_with_properties(&[
        (Some("ProductName"), Some("Widget")),
        (Some("ProductVersion"), Some("1.0")),
        (Some("ProductName"), Some("Widget Pro")),
    ]);
    let mut package = open(bytes).unwrap();
    let info = package.product_info().unwrap().unwrap();
    assert_eq!(info.name(), "Widget Pro");
    assert_eq!(info.version(), "1.0");
}

#[test]
fn product_info_without_property_table_is_no_result() {
    let mut package = open(bytes_of(empty_package())).unwrap();
    assert!(!package.has_table("Property"));
    assert!(matches!(package.product_info(), Ok(None)));
}

#[test]
fn product_info_of_an_empty_property_table_is_the_empty_record() {
    let bytes = package_with_properties(&[]);
    let mut package = open(bytes).unwrap();
    let info = package.product_info().unwrap().unwrap();
    assert_eq!(info.name(), "");
    assert_eq!(info.version(), "");
    assert_eq!(info.manufacturer(), "");
    assert_eq!(info.upgrade_code(), None);
}

#[test]
fn product_info_twice_gives_the_same() {
    let bytes = package_with_properties(&[
        (Some("ProductName"), Some("Widget")),
        (Some("UpgradeCode"), Some("{CODE}")),
        (Some("ProductVersion"), Some("1.0")),
    ]);
    let mut package = open(bytes).unwrap();
    let first = package.product_info().unwrap().unwrap();
    let second = package.product_info().unwrap().unwrap();
    assert_eq!(first.name(), second.name());
    assert_eq!(first.version(), second.version());
    assert_eq!(first.manufacturer(), second.manufacturer());
    assert_eq!(first.upgrade_code(), second.upgrade_code());
    assert_eq!(first.upgrade_code(), text("{CODE}"));
}

#[test]
fn null_value_is_malformed_for_the_extractor_and_null_for_selection() {
    let bytes = package_with_properties(&[
        (Some("ProductName"), Some("Widget")),
        (Some("ProductVersion"), None),
    ]);
    let mut package = open(bytes).unwrap();
    match package.product_info() {
        Err(PackageError::MalformedRow { row }) => assert_eq!(row, 1),
        other => panic!("unexpected outcome: {:?}", other),
    }
    let chosen = names(&["Property", "Value"]);
    let rows = package.select_rows("Property", Some(&chosen)).unwrap();
    assert_eq!(rows.len(), 2);
    assert_eq!(
        rows[1].entries,
        vec![
            ("Property".to_string(), text("ProductVersion")),
            ("Value".to_string(), None),
        ]
    );
    match package.product_info() {
        Err(PackageError::MalformedRow { row }) => assert_eq!(row, 1),
        other => panic!("unexpected outcome: {:?}", other),
    }
}

#[test]
fn null_key_is_malformed_for_the_extractor() {
    let bytes = package_with_properties(&[(None, Some("orphan"))]);
    let mut package = open(bytes).unwrap();
    assert!(matches!(
        package.product_info(),
        Err(PackageError::MalformedRow { row: 0 })
    ));
}

#[test]
fn property_table_without_value_column_is_column_not_found() {
    let mut package = empty_package();
    let columns = vec![MsiColumn::build("Property").primary_key().id_string(72)];
    package.create_table("Property", columns).unwrap();
    let mut package = open(bytes_of(package)).unwrap();
    match package.product_info() {
        Err(PackageError::ColumnNotFound { table, column }) => {
            assert_eq!(table, "Property");
            assert_eq!(column, "Value");
        }
        other => panic!("unexpected outcome: {:?}", other),
    }
}

#[test]
fn numeric_cells_have_no_text() {
    let mut package = open(package_with_two_tables()).unwrap();
    let chosen = names(&["Attributes"]);
    let cells = package.select_cells("Component", Some(&chosen)).unwrap();
    assert_eq!(cells, vec![vec![None], vec![None]]);
}

#[test]
fn rows_of_a_table_that_cannot_be_read_is_open_error() {
    let mut package = empty_package();
    let columns = vec![MsiColumn::build("Key").primary_key().int32()];
    package.create_table("Big", columns).unwrap();
    let rows = (1..=65537).map(|key| vec![Value::Int(key)]).collect();
    package.insert_rows(Insert::into("Big").rows(rows)).unwrap();
    let mut package = open(bytes_of(package)).unwrap();
    assert!(package.has_table("Big"));
    assert!(matches!(
        package.rows("Big"),
        Err(PackageError::OpenError { .. })
    ));
    let chosen = names(&["Missing"]);
    assert!(matches!(
        package.select_rows("Big", Some(&chosen)),
        Err(PackageError::ColumnNotFound { .. })
    ));
}

#[test]
fn table_and_column_describe_what_the_reader_holds() {
    let mut package = empty_package();
    let columns = vec![
        MsiColumn::build("File").primary_key().id_string(72),
        MsiColumn::build("FileSize").int32(),
        MsiColumn::build("Version").nullable().localizable().string(72),
        MsiColumn::build("Data").nullable().binary(),
    ];
    package.create_table("File", columns).unwrap();
    let source = package.get_table("File").unwrap();

    let table = Table::new(source);
    assert_eq!(table.name(), "File");
    assert_eq!(table.name, "File");
    assert_eq!(table.columns.len(), 4);
    assert_eq!(
        column_names_of(source),
        names(&["File", "FileSize", "Version", "Data"])
    );

    let size = Column::new(&source.columns()[1]);
    assert_eq!(size.name(), "FileSize");
    assert_eq!(size.column_type(), "INTEGER");
    assert_eq!(size.category(), None);
    assert!(!size.primary_key());
    assert!(!size.nullable());
    assert!(!size.localizable());

    let version = &table.columns[2];
    assert_eq!(version.name, "Version");
    assert_eq!(version.column_type, "VARCHAR(72)");
    assert!(version.nullable);
    assert!(version.localizable);
    assert!(!version.primary_key);

    assert_eq!(table.columns[3].column_type(), "BINARY");
    assert_eq!(table.columns[3].category(), None);
}

#[test]
fn clones_hold_the_same() {
    let package = open(package_with_two_tables()).unwrap();
    let tables = package.tables();
    let table = table_named(&tables, "Component");
    let copy = table.clone();
    assert_eq!(copy.name, table.name);
    assert_eq!(copy.columns.len(), table.columns.len());
    for (copy, column) in copy.columns.iter().zip(table.columns.iter()) {
        let copy = copy.clone();
        assert_eq!(copy.name, column.name);
        assert_eq!(copy.column_type, column.column_type);
        assert_eq!(copy.category, column.category);
        assert_eq!(copy.primary_key, column.primary_key);
        assert_eq!(copy.nullable, column.nullable);
        assert_eq!(copy.localizable, column.localizable);
    }
}

#[test]
fn open_error_carries_the_reason_of_the_reader() {
    let reason = refusal(Vec::new());
    assert!(!reason.is_empty());
    match open(Vec::new()) {
        Err(PackageError::OpenError { message }) => assert_eq!(message, reason),
        other => panic!("unexpected outcome: {:?}", other.err()),
    }
    let mut bytes = package_with_two_tables();
    bytes.truncate(300);
    let reason = refusal(bytes.clone());
    match open(bytes) {
        Err(PackageError::OpenError { message }) => assert_eq!(message, reason),
        other => panic!("unexpected outcome: {:?}", other.err()),
    }
}

#[test]
fn new_keeps_the_reason_as_it_is() {
    match Package::new(Err("no structured storage".to_string())) {
        Err(PackageError::OpenError { message }) => assert_eq!(message, "no structured storage"),
        other => panic!("unexpected outcome: {:?}", other.err()),
    }
    match Package::new(Err(String::new())) {
        Err(PackageError::OpenError { message }) => assert_eq!(message, ""),
        other => panic!("unexpected outcome: {:?}", other.err()),
    }
}

#[test]
fn new_takes_a_package_that_the_reader_holds() {
    let mut source = empty_package();
    let columns = vec![MsiColumn::build("Key").primary_key().id_string(8)];
    source.create_table("Fresh", columns).unwrap();
    let mut package = Package::new(Ok(source)).unwrap();
    assert!(package.has_table("Fresh"));
    assert!(package.rows("Fresh").unwrap().is_empty());
}

#[test]
fn unreadable_table_carries_the_reason_of_the_reader() {
    let mut source = empty_package();
    let columns = vec![MsiColumn::build("Key").primary_key().int32()];
    source.create_table("Big", columns).unwrap();
    let rows = (1..=65537).map(|key| vec![Value::Int(key)]).collect();
    source.insert_rows(Insert::into("Big").rows(rows)).unwrap();
    let bytes = bytes_of(source);
    let mut reader = MsiPackage::open(Cursor::new(bytes.clone())).unwrap();
    let reason = match reader.select_rows(msi::Select::table("Big")) {
        Ok(_) => panic!("the reader reads this table"),
        Err(error) => error.to_string(),
    };
    assert!(!reason.is_empty());
    let mut package = open(bytes).unwrap();
    match package.select_cells("Big", None) {
        Err(PackageError::OpenError { message }) => assert_eq!(message, reason),
        other => panic!("unexpected outcome: {:?}", other),
    }
}

#[test]
fn settle_selection_keeps_rows_or_empties_them() {
    let rows = vec![vec![text("a"), None], vec![text("b"), text("c")]];
    assert_eq!(settle_selection(Ok(rows.clone()), true).unwrap(), rows);
    assert_eq!(
        settle_selection(Ok(rows), false).unwrap(),
        vec![Vec::<Option<String>>::new(), Vec::new()]
    );
    assert_eq!(
        settle_selection(Ok(Vec::new()), false).unwrap(),
        Vec::<Vec<Option<String>>>::new()
    );
}

#[test]
fn settle_selection_keeps_the_reason_as_it_is() {
    for whole_rows in [true, false] {
        match settle_selection(Err("stream is damaged".to_string()), whole_rows) {
            Err(PackageError::OpenError { message }) => assert_eq!(message, "stream is damaged"),
            other => panic!("unexpected outcome: {:?}", other),
        }
    }
}

#[test]
fn table_names_are_pairwise_distinct() {
    let package = open(package_with_two_tables()).unwrap();
    let tables = package.tables();
    for (i, first) in tables.iter().enumerate() {
        for second in &tables[i + 1..] {
            assert_ne!(first.name(), second.name());
        }
    }
    let found: Vec<String> = tables.iter().map(|table| table.name()).collect();
    for name in ["Property", "Component"] {
        assert_eq!(found.iter().filter(|found| *found == name).count(), 1);
    }
}

#[test]
fn columns_of_one_storage_type_have_the_same_type_text() {
    let package = open(package_with_two_tables()).unwrap();
    let tables = package.tables();
    let property = table_named(&tables, "Property").columns();
    let component = table_named(&tables, "Component").columns();
    assert_ne!(property[0].name(), component[0].name());
    assert_eq!(property[0].column_type(), component[0].column_type());
    assert_eq!(property[0].category(), component[0].category());
    assert_ne!(property[0].column_type(), component[1].column_type());
}
