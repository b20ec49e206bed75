use alwayson_model::datashape::DataShape;
use alwayson_model::{ErrorKind, NativeValue, PyBaseType, PyInfoTable, PyTwPrim, Record};

fn record(pairs: Vec<(&str, NativeValue)>) -> Record {
    let mut r = Record::new();
    for (name, value) in pairs {
        r.insert(name.to_string(), value);
    }
    r
}

fn xy_table() -> PyInfoTable {
    let mut t = PyInfoTable::new(Some("xy".to_string()));
    t.add_field_definition("x".to_string(), "STRING".to_string(), "the x".to_string()).unwrap();
    t.add_field_definition("y".to_string(), "INTEGER".to_string(), "the y".to_string()).unwrap();
    t
}

#[test]
fn new_table_is_empty() {
    let t = PyInfoTable::new(None);
    assert_eq!(t.get_row_count(), 0);
    assert_eq!(t.get_field_count(), 0);
    assert_eq!(t.get_datashape_name(), None);
    let named = PyInfoTable::new(Some("shape".to_string()));
    assert_eq!(named.get_datashape_name(), Some("shape".to_string()));
}

#[test]
fn fields_keep_their_insertion_order() {
    let mut t = PyInfoTable::new(None);
    t.add_field_definition("zeta".to_string(), "long".to_string(), "z".to_string()).unwrap();
    t.add_field_definition("alpha".to_string(), "Boolean".to_string(), "a".to_string()).unwrap();
    assert_eq!(t.get_field_count(), 2);
    let (name0, entry0) = t.datashape.field_at(0).unwrap();
    assert_eq!(name0, "zeta");
    assert_eq!(entry0.entry_type, PyBaseType::Long);
    assert_eq!(entry0.description, "z");
    let (name1, entry1) = t.datashape.field_at(1).unwrap();
    assert_eq!(name1, "alpha");
    assert_eq!(entry1.entry_type, PyBaseType::Boolean);
    assert!(t.datashape.field_at(2).is_none());
}

#[test]
fn declaring_a_name_again_keeps_its_place() {
    let mut t = xy_table();
    t.add_field_definition("x".to_string(), "LONG".to_string(), "again".to_string()).unwrap();
    assert_eq!(t.get_field_count(), 2);
    let (name0, entry0) = t.datashape.field_at(0).unwrap();
    assert_eq!(name0, "x");
    assert_eq!(entry0.entry_type, PyBaseType::Long);
    assert_eq!(entry0.description, "again");
    let (name1, _) = t.datashape.field_at(1).unwrap();
    assert_eq!(name1, "y");
}

#[test]
fn unknown_field_type_is_rejected_and_changes_nothing() {
    let mut t = xy_table();
    let e = t.add_field_definition("z".to_string(), "DOUBLE".to_string(), "".to_string()).unwrap_err();
    assert_eq!(e.kind, ErrorKind::InvalidBaseType);
    assert_eq!(e.message, "Invalid base type: DOUBLE");
    assert_eq!(t.get_field_count(), 2);
}

#[test]
fn rows_follow_the_order_of_the_shape() {
    let mut t = xy_table();
    let r = record(vec![
        ("y", NativeValue::Integer(5)),
        ("x", NativeValue::Text("a".to_string())),
    ]);
    t.add_row(&r).unwrap();
    assert_eq!(t.get_row_count(), 1);
    assert_eq!(t.rows[0].len(), 2);
    assert_eq!(t.rows[0][0], PyTwPrim::String("a".to_string()));
    assert_eq!(t.rows[0][1], PyTwPrim::Integer(5));
}

#[test]
fn two_rows_are_appended_in_call_order() {
    let mut t = xy_table();
    t.add_row(&record(vec![("y", NativeValue::Integer(5)), ("x", NativeValue::Text("a".to_string()))]))
        .unwrap();
    t.add_row(&record(vec![("x", NativeValue::Text("b".to_string())), ("y", NativeValue::Integer(6))]))
        .unwrap();
    assert_eq!(t.get_row_count(), 2);
    assert_eq!(t.rows[0], vec![PyTwPrim::String("a".to_string()), PyTwPrim::Integer(5)]);
    assert_eq!(t.rows[1], vec![PyTwPrim::String("b".to_string()), PyTwPrim::Integer(6)]);
}

#[test]
fn missing_field_fails_and_keeps_the_row_count() {
    let mut t = xy_table();
    t.add_row(&record(vec![("y", NativeValue::Integer(1)), ("x", NativeValue::Text("a".to_string()))]))
        .unwrap();
    let e = t.add_row(&record(vec![("x", NativeValue::Text("b".to_string()))])).unwrap_err();
    assert_eq!(e.kind, ErrorKind::MissingField);
    assert_eq!(e.message, "Missing field: y");
    assert_eq!(t.get_row_count(), 1);
}

#[test]
fn the_first_failing_field_decides() {
    let mut t = xy_table();
    // x is missing and y is out of range: x comes first in the shape.
    let e = t.add_row(&record(vec![("y", NativeValue::Integer(1 << 40))])).unwrap_err();
    assert_eq!(e.kind, ErrorKind::MissingField);
    assert_eq!(e.message, "Missing field: x");
}

#[test]
fn extra_record_names_are_ignored() {
    let mut t = xy_table();
    t.add_row(&record(vec![
        ("w", NativeValue::Boolean(true)),
        ("y", NativeValue::Integer(2)),
        ("x", NativeValue::Text("c".to_string())),
    ]))
    .unwrap();
    assert_eq!(t.rows[0], vec![PyTwPrim::String("c".to_string()), PyTwPrim::Integer(2)]);
}

#[test]
fn every_supported_field_type_is_coerced() {
    let mut t = PyInfoTable::new(None);
    for (name, kind) in [
        ("s", "STRING"),
        ("n", "NUMBER"),
        ("i", "INTEGER"),
        ("l", "LONG"),
        ("d", "DATETIME"),
        ("b", "BOOLEAN"),
    ] {
        t.add_field_definition(name.to_string(), kind.to_string(), "".to_string()).unwrap();
    }
    t.add_row(&record(vec![
        ("s", NativeValue::Text("t".to_string())),
        ("n", NativeValue::Float(0.25f64.to_bits())),
        ("i", NativeValue::Integer(-1)),
        ("l", NativeValue::Integer(1 << 40)),
        ("d", NativeValue::Integer(1700000000000)),
        ("b", NativeValue::Boolean(true)),
    ]))
    .unwrap();
    assert_eq!(
        t.rows[0],
        vec![
            PyTwPrim::String("t".to_string()),
            PyTwPrim::Number(0.25f64.to_bits()),
            PyTwPrim::Integer(-1),
            PyTwPrim::Long(1 << 40),
            PyTwPrim::Datetime(1700000000000),
            PyTwPrim::Boolean(true),
        ]
    );
}

#[test]
fn unsupported_field_types_cannot_be_filled() {
    for kind in ["BLOB", "LOCATION", "INFOTABLE", "VARIANT"] {
        let mut t = PyInfoTable::new(None);
        t.add_field_definition("f".to_string(), kind.to_string(), "".to_string()).unwrap();
        let e = t.add_row(&record(vec![("f", NativeValue::Integer(1))])).unwrap_err();
        assert_eq!(e.kind, ErrorKind::UnsupportedFieldType);
        assert_eq!(e.message, format!("Unsupported field type for field f: {}", kind));
        assert_eq!(t.get_row_count(), 0);
    }
}

#[test]
fn a_missing_name_comes_before_an_unsupported_type() {
    let mut t = PyInfoTable::new(None);
    t.add_field_definition("f".to_string(), "BLOB".to_string(), "".to_string()).unwrap();
    let e = t.add_row(&Record::new()).unwrap_err();
    assert_eq!(e.kind, ErrorKind::MissingField);
}

#[test]
fn integer_fields_check_the_width() {
    let mut t = xy_table();
    let e = t
        .add_row(&record(vec![
            ("x", NativeValue::Text("a".to_string())),
            ("y", NativeValue::Integer(i32::MAX as i64 + 1)),
        ]))
        .unwrap_err();
    assert_eq!(e.kind, ErrorKind::ValueOutOfRange);
    assert_eq!(e.message, "Value out of range for field y: expected INTEGER");
    assert_eq!(t.get_row_count(), 0);
    t.add_row(&record(vec![
        ("x", NativeValue::Text("a".to_string())),
        ("y", NativeValue::Integer(i32::MIN as i64)),
    ]))
    .unwrap();
    assert_eq!(t.rows[0][1], PyTwPrim::Integer(i32::MIN));
}

#[test]
fn a_value_of_another_kind_is_a_type_mismatch() {
    let mut t = xy_table();
    let e = t
        .add_row(&record(vec![("x", NativeValue::Integer(1)), ("y", NativeValue::Integer(1))]))
        .unwrap_err();
    assert_eq!(e.kind, ErrorKind::TypeMismatch);
    assert_eq!(e.message, "Type mismatch for field x: expected STRING");
    let e = t
        .add_row(&record(vec![
            ("x", NativeValue::Text("a".to_string())),
            ("y", NativeValue::Float(1.0f64.to_bits())),
        ]))
        .unwrap_err();
    assert_eq!(e.kind, ErrorKind::TypeMismatch);
    assert_eq!(e.message, "Type mismatch for field y: expected INTEGER");
}

#[test]
fn a_table_without_fields_takes_empty_rows() {
    let mut t = PyInfoTable::new(None);
    t.add_row(&Record::new()).unwrap();
    t.add_row(&record(vec![("a", NativeValue::Absent)])).unwrap();
    assert_eq!(t.get_row_count(), 2);
    assert!(t.rows[0].is_empty());
}

#[test]
fn declaring_a_field_after_rows_leaves_the_rows() {
    let mut t = xy_table();
    t.add_row(&record(vec![("y", NativeValue::Integer(5)), ("x", NativeValue::Text("a".to_string()))]))
        .unwrap();
    t.add_field_definition("z".to_string(), "BOOLEAN".to_string(), "".to_string()).unwrap();
    assert_eq!(t.get_field_count(), 3);
    assert_eq!(t.rows[0].len(), 2);
}

#[test]
fn table_texts() {
    let mut t = xy_table();
    assert_eq!(t.__str__(), "InfoTable(rows=0, fields=2)");
    for i in 0..12 {
        t.add_row(&record(vec![
            ("y", NativeValue::Integer(i)),
            ("x", NativeValue::Text("a".to_string())),
        ]))
        .unwrap();
    }
    assert_eq!(t.__str__(), "InfoTable(rows=12, fields=2)");
}

#[test]
fn record_keeps_one_pair_per_name() {
    let mut r = Record::new();
    r.insert("a".to_string(), NativeValue::Integer(1));
    r.insert("b".to_string(), NativeValue::Integer(2));
    r.insert("a".to_string(), NativeValue::Integer(3));
    assert_eq!(r.len(), 2);
    assert_eq!(r.get("a"), Some(&NativeValue::Integer(3)));
    assert_eq!(r.get("b"), Some(&NativeValue::Integer(2)));
    assert_eq!(r.get("c"), None);
    assert_eq!(r.position("a"), Some(0));
    assert_eq!(r.position("b"), Some(1));
}

#[test]
fn shape_clone_keeps_fields_and_name() {
    let mut s = DataShape::new(Some("n".to_string()));
    s.define("a".to_string(), PyBaseType::Blob, "d".to_string());
    s.define("b".to_string(), PyBaseType::Long, "e".to_string());
    let c = s.clone();
    assert_eq!(c, s);
    assert_eq!(c.field_count(), 2);
    assert_eq!(c.field_at(1).unwrap().0, "b");
    assert_eq!(c.name, Some("n".to_string()));
}

#[test]
fn table_clone_is_equal() {
    let mut t = xy_table();
    t.add_row(&record(vec![("y", NativeValue::Integer(5)), ("x", NativeValue::Text("a".to_string()))]))
        .unwrap();
    let c = t.clone();
    assert_eq!(c, t);
    assert_eq!(c.get_row_count(), 1);
}

#[test]
fn table_repr_shows_the_shape_name() {
    let t = xy_table();
    assert_eq!(t.__repr__(), "InfoTable(rows=0, fields=2, name=Some(\"xy\"))");
    let unnamed = PyInfoTable::new(None);
    assert_eq!(unnamed.__repr__(), "InfoTable(rows=0, fields=0, name=None)");
    let quoted = PyInfoTable::new(Some("a\"b".to_string()));
    assert_eq!(quoted.__repr__(), "InfoTable(rows=0, fields=0, name=Some(\"a\\\"b\"))");
    assert_eq!(t.repr_with_name("N"), "InfoTable(rows=0, fields=2, name=N)");
}

#[test]
fn built_rows_conform_to_the_shape() {
    let mut t = xy_table();
    assert!(t.rows_conform());
    t.add_row(&record(vec![("y", NativeValue::Integer(5)), ("x", NativeValue::Text("a".to_string()))]))
        .unwrap();
    assert!(t.rows_conform());
    assert!(t.row_conforms(&vec![PyTwPrim::String("q".to_string()), PyTwPrim::Integer(0)]));
    assert!(!t.row_conforms(&vec![PyTwPrim::Integer(0), PyTwPrim::String("q".to_string())]));
    assert!(!t.row_conforms(&vec![PyTwPrim::String("q".to_string())]));
    assert!(!t.row_conforms(&vec![
        PyTwPrim::String("q".to_string()),
        PyTwPrim::Integer(0),
        PyTwPrim::Nothing
    ]));
}

#[test]
fn a_later_field_breaks_conformance_of_old_rows() {
    let mut t = xy_table();
    t.add_row(&record(vec![("y", NativeValue::Integer(5)), ("x", NativeValue::Text("a".to_string()))]))
        .unwrap();
    t.add_field_definition("z".to_string(), "BOOLEAN".to_string(), "".to_string()).unwrap();
    assert!(!t.rows_conform());
    // Changing the type of a declared field does so too.
    let mut u = xy_table();
    u.add_row(&record(vec![("y", NativeValue::Integer(5)), ("x", NativeValue::Text("a".to_string()))]))
        .unwrap();
    u.add_field_definition("y".to_string(), "LONG".to_string(), "".to_string()).unwrap();
    assert!(!u.rows_conform());
}

#[test]
fn a_variant_cell_conforms_to_a_variant_field_only() {
    let mut t = PyInfoTable::new(None);
    t.add_field_definition("v".to_string(), "VARIANT".to_string(), "".to_string()).unwrap();
    let wrapped = PyTwPrim::variant(PyTwPrim::integer(1).unwrap()).unwrap();
    assert!(t.row_conforms(&vec![wrapped]));
    assert!(!t.row_conforms(&vec![PyTwPrim::integer(1).unwrap()]));
}
