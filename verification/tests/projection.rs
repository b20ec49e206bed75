use alwayson_model::primitive::Location;
use alwayson_model::projection::{cell_key, is_finite, shape_to_json, MAX_DEPTH};
use alwayson_model::{ErrorKind, JsonNode, NativeValue, PyInfoTable, PyTwPrim, Record};

fn text(s: &str) -> JsonNode {
    JsonNode::Text(s.to_string())
}

fn object(members: Vec<(&str, JsonNode)>) -> JsonNode {
    JsonNode::Object(members.into_iter().map(|(k, v)| (k.to_string(), v)).collect())
}

fn keys(node: &JsonNode) -> Vec<String> {
    match node {
        JsonNode::Object(members) => members.iter().map(|(k, _)| k.clone()).collect(),
        other => panic!("not an object: {:?}", other),
    }
}

/// A table with one INFOTABLE field and one row that holds `inner`.
fn table_around(inner: PyInfoTable) -> PyInfoTable {
    let mut t = PyInfoTable::new(None);
    t.add_field_definition("child".to_string(), "INFOTABLE".to_string(), "".to_string()).unwrap();
    t.rows.push(vec![PyTwPrim::infotable(inner).unwrap()]);
    t
}

fn leaf_table() -> PyInfoTable {
    let mut t = PyInfoTable::new(Some("leaf".to_string()));
    t.add_field_definition("v".to_string(), "INTEGER".to_string(), "value".to_string()).unwrap();
    let mut r = Record::new();
    r.insert("v".to_string(), NativeValue::Integer(42));
    t.add_row(&r).unwrap();
    t
}

fn summary(rows: u64, fields: u64) -> JsonNode {
    object(vec![
        ("type", text("InfoTable")),
        ("rows", JsonNode::UInt(rows)),
        ("fields", JsonNode::UInt(fields)),
        ("note", text("Max depth reached")),
    ])
}

#[test]
fn scalars_project_by_tag() {
    assert_eq!(PyTwPrim::boolean(true).unwrap().to_simple_json().unwrap(), JsonNode::Bool(true));
    assert_eq!(PyTwPrim::integer(-5).unwrap().to_simple_json().unwrap(), JsonNode::Int(-5));
    assert_eq!(PyTwPrim::long(1 << 40).unwrap().to_simple_json().unwrap(), JsonNode::Int(1 << 40));
    assert_eq!(PyTwPrim::datetime(17).unwrap().to_simple_json().unwrap(), JsonNode::Int(17));
    assert_eq!(PyTwPrim::string("s".to_string()).unwrap().to_simple_json().unwrap(), text("s"));
    assert_eq!(PyTwPrim::nothing().unwrap().to_simple_json().unwrap(), JsonNode::Null);
    assert_eq!(
        PyTwPrim::number(1.5f64.to_bits()).unwrap().to_simple_json().unwrap(),
        JsonNode::Number(1.5f64.to_bits())
    );
}

#[test]
fn blob_projects_to_a_marker() {
    let node = PyTwPrim::blob(vec![1, 2, 3]).unwrap().to_simple_json().unwrap();
    assert_eq!(node, text("<BLOB>"));
}

#[test]
fn nan_at_the_top_level_fails() {
    let e = PyTwPrim::number(f64::NAN.to_bits()).unwrap().to_simple_json().unwrap_err();
    assert_eq!(e.kind, ErrorKind::NonFiniteNumber);
    assert_eq!(e.message, "NUMBER is not finite");
}

#[test]
fn infinities_fail_like_nan() {
    for x in [f64::INFINITY, f64::NEG_INFINITY] {
        let e = PyTwPrim::number(x.to_bits()).unwrap().to_simple_json().unwrap_err();
        assert_eq!(e.kind, ErrorKind::NonFiniteNumber);
    }
    let wrapped = PyTwPrim::variant(PyTwPrim::number(f64::INFINITY.to_bits()).unwrap()).unwrap();
    assert_eq!(wrapped.to_simple_json().unwrap_err().kind, ErrorKind::NonFiniteNumber);
}

#[test]
fn finite_test_agrees_with_the_floats() {
    for x in [0.0f64, -0.0, 1.0, -1.5, f64::MAX, f64::MIN, f64::MIN_POSITIVE, 5e-324, f64::EPSILON] {
        assert!(is_finite(x.to_bits()));
        assert!(x.is_finite());
    }
    for x in [f64::NAN, f64::INFINITY, f64::NEG_INFINITY, -f64::NAN] {
        assert!(!is_finite(x.to_bits()));
    }
    assert!(!is_finite(0x7ff0_0000_0000_0001));
    assert!(is_finite(0x7fef_ffff_ffff_ffff));
}

#[test]
fn location_has_no_projection() {
    let l = Location { latitude: 1, longitude: 2, elevation: 3 };
    let e = PyTwPrim::location(l).unwrap().to_simple_json().unwrap_err();
    assert_eq!(e.kind, ErrorKind::UnsupportedType);
    assert_eq!(e.message, "Unsupported type for projection");
}

#[test]
fn variant_projects_as_its_content() {
    let v = PyTwPrim::variant(PyTwPrim::variant(PyTwPrim::integer(9).unwrap()).unwrap()).unwrap();
    assert_eq!(v.to_simple_json().unwrap(), JsonNode::Int(9));
}

#[test]
fn table_projects_shape_and_rows() {
    let mut t = PyInfoTable::new(Some("xy".to_string()));
    t.add_field_definition("x".to_string(), "STRING".to_string(), "the x".to_string()).unwrap();
    t.add_field_definition("y".to_string(), "INTEGER".to_string(), "the y".to_string()).unwrap();
    let mut r = Record::new();
    r.insert("y".to_string(), NativeValue::Integer(5));
    r.insert("x".to_string(), NativeValue::Text("a".to_string()));
    t.add_row(&r).unwrap();
    let expected = object(vec![
        (
            "dataShape",
            object(vec![
                ("x", object(vec![("baseType", text("STRING")), ("description", text("the x"))])),
                ("y", object(vec![("baseType", text("INTEGER")), ("description", text("the y"))])),
            ]),
        ),
        ("rows", JsonNode::Array(vec![object(vec![("x", text("a")), ("y", JsonNode::Int(5))])])),
    ]);
    assert_eq!(t.to_simple_json().unwrap(), expected);
    assert_eq!(t.project(0), expected);
    assert_eq!(t.project(MAX_DEPTH - 1), expected);
}

#[test]
fn empty_table_projects_to_empty_shape_and_rows() {
    let t = PyInfoTable::new(None);
    let expected = object(vec![("dataShape", object(vec![])), ("rows", JsonNode::Array(vec![]))]);
    assert_eq!(t.to_simple_json().unwrap(), expected);
}

#[test]
fn table_at_the_depth_limit_is_a_summary() {
    let t = leaf_table();
    let node = t.project(5);
    assert_eq!(keys(&node), vec!["type", "rows", "fields", "note"]);
    assert_eq!(node, summary(1, 1));
    assert_eq!(t.project(6), summary(1, 1));
    assert_eq!(t.project(usize::MAX), summary(1, 1));
    assert!(node.get("dataShape").is_none());
    assert_eq!(node.get("rows"), Some(&JsonNode::UInt(1)));
}

#[test]
fn max_depth_is_five() {
    assert_eq!(MAX_DEPTH, 5);
}

/// The node under `rows[0].child`, `steps` times.
fn descend(node: &JsonNode, steps: usize) -> &JsonNode {
    let mut at = node;
    for _ in 0..steps {
        let rows = at.get("rows").unwrap();
        at = match rows {
            JsonNode::Array(items) => items[0].get("child").unwrap(),
            other => panic!("rows is no array: {:?}", other),
        };
    }
    at
}

#[test]
fn five_levels_down_the_table_is_summarised() {
    // Depths 0 to 4 are entered; the table at depth 5 is summarised.
    let mut t = leaf_table();
    for _ in 0..5 {
        t = table_around(t);
    }
    let node = t.to_simple_json().unwrap();
    for level in 0..5 {
        assert_eq!(keys(descend(&node, level)), vec!["dataShape", "rows"]);
    }
    let deepest = descend(&node, 5);
    assert_eq!(keys(deepest), vec!["type", "rows", "fields", "note"]);
    assert_eq!(*deepest, summary(1, 1));
}

#[test]
fn four_levels_down_the_table_is_entered() {
    let mut t = leaf_table();
    for _ in 0..4 {
        t = table_around(t);
    }
    let node = t.to_simple_json().unwrap();
    let deepest = descend(&node, 4);
    assert_eq!(keys(deepest), vec!["dataShape", "rows"]);
    assert_eq!(
        deepest.get("rows"),
        Some(&JsonNode::Array(vec![object(vec![("v", JsonNode::Int(42))])]))
    );
}

#[test]
fn a_table_in_a_top_level_value_is_one_level_down() {
    let mut t = leaf_table();
    for _ in 0..4 {
        t = table_around(t);
    }
    // As a value, the outermost table is at depth 1, so the leaf is at depth 5.
    let node = PyTwPrim::infotable(t).unwrap().to_simple_json().unwrap();
    assert_eq!(*descend(&node, 4), summary(1, 1));
}

#[test]
fn variant_layers_take_no_depth() {
    let mut t = leaf_table();
    for _ in 0..4 {
        let wrapped = PyTwPrim::variant(
            PyTwPrim::variant(PyTwPrim::infotable(t).unwrap()).unwrap(),
        )
        .unwrap();
        let mut outer = PyInfoTable::new(None);
        outer
            .add_field_definition("child".to_string(), "VARIANT".to_string(), "".to_string())
            .unwrap();
        outer.rows.push(vec![wrapped]);
        t = outer;
    }
    let node = t.to_simple_json().unwrap();
    let deepest = descend(&node, 4);
    assert_eq!(keys(deepest), vec!["dataShape", "rows"]);
}

#[test]
fn a_failing_cell_becomes_a_text_and_the_row_goes_on() {
    let mut t = PyInfoTable::new(None);
    t.add_field_definition("n".to_string(), "NUMBER".to_string(), "".to_string()).unwrap();
    t.add_field_definition("l".to_string(), "LOCATION".to_string(), "".to_string()).unwrap();
    t.add_field_definition("s".to_string(), "STRING".to_string(), "".to_string()).unwrap();
    t.rows.push(vec![
        PyTwPrim::number(f64::NAN.to_bits()).unwrap(),
        PyTwPrim::location(Location { latitude: 0, longitude: 0, elevation: 0 }).unwrap(),
        PyTwPrim::string("ok".to_string()).unwrap(),
    ]);
    let node = t.to_simple_json().unwrap();
    let rows = node.get("rows").unwrap();
    assert_eq!(
        *rows,
        JsonNode::Array(vec![object(vec![
            ("n", text("NUMBER is not finite")),
            ("l", text("Unsupported type for projection")),
            ("s", text("ok")),
        ])])
    );
}

#[test]
fn cells_beyond_the_shape_get_numbered_names() {
    let mut t = PyInfoTable::new(None);
    t.add_field_definition("a".to_string(), "INTEGER".to_string(), "".to_string()).unwrap();
    let mut row = Vec::new();
    for i in 0..12 {
        row.push(PyTwPrim::integer(i).unwrap());
    }
    t.rows.push(row);
    let node = t.to_simple_json().unwrap();
    let rows = node.get("rows").unwrap();
    let first = match rows {
        JsonNode::Array(items) => &items[0],
        other => panic!("rows is no array: {:?}", other),
    };
    assert_eq!(
        keys(first),
        vec![
            "a", "field_1", "field_2", "field_3", "field_4", "field_5", "field_6", "field_7",
            "field_8", "field_9", "field_10", "field_11"
        ]
    );
    assert_eq!(first.get("field_10"), Some(&JsonNode::Int(10)));
    assert_eq!(cell_key(&t.datashape, 0), "a");
    assert_eq!(cell_key(&t.datashape, 1), "field_1");
    assert_eq!(cell_key(&t.datashape, 120), "field_120");
}

#[test]
fn a_short_row_projects_the_cells_it_has() {
    let mut t = PyInfoTable::new(None);
    t.add_field_definition("a".to_string(), "INTEGER".to_string(), "".to_string()).unwrap();
    t.add_field_definition("b".to_string(), "INTEGER".to_string(), "".to_string()).unwrap();
    t.rows.push(vec![PyTwPrim::integer(1).unwrap()]);
    let node = t.to_simple_json().unwrap();
    assert_eq!(
        node.get("rows"),
        Some(&JsonNode::Array(vec![object(vec![("a", JsonNode::Int(1))])]))
    );
}

#[test]
fn shape_projection_keeps_field_order() {
    let mut t = PyInfoTable::new(None);
    t.add_field_definition("b".to_string(), "BLOB".to_string(), "second letter".to_string()).unwrap();
    t.add_field_definition("a".to_string(), "VARIANT".to_string(), "first letter".to_string()).unwrap();
    let node = shape_to_json(&t.datashape);
    assert_eq!(keys(&node), vec!["b", "a"]);
    assert_eq!(
        node.get("a"),
        Some(&object(vec![("baseType", text("VARIANT")), ("description", text("first letter"))]))
    );
}

#[test]
fn json_get_finds_the_first_member() {
    let node = object(vec![("k", JsonNode::Int(1)), ("k", JsonNode::Int(2))]);
    assert_eq!(node.get("k"), Some(&JsonNode::Int(1)));
    assert_eq!(node.get("missing"), None);
    assert_eq!(JsonNode::Null.get("k"), None);
    assert_eq!(JsonNode::count(7), JsonNode::UInt(7));
}

fn height(node: &JsonNode) -> usize {
    match node {
        JsonNode::Array(items) => 1 + items.iter().map(height).max().unwrap_or(0),
        JsonNode::Object(members) => 1 + members.iter().map(|(_, v)| height(v)).max().unwrap_or(0),
        _ => 0,
    }
}

#[test]
fn projection_height_is_bounded_whatever_the_nesting() {
    let mut t = leaf_table();
    for _ in 0..60 {
        t = table_around(t);
    }
    assert_eq!(height(&t.to_simple_json().unwrap()), 16);
    assert_eq!(height(&t.project(4)), 4);
    assert_eq!(height(&t.project(5)), 1);
    let as_value = PyTwPrim::infotable(t).unwrap();
    assert_eq!(height(&as_value.to_simple_json().unwrap()), 13);
    assert_eq!(height(&leaf_table().to_simple_json().unwrap()), 3);
}
