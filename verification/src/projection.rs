//! The projection of nested values into a JSON tree.
//!
//! Tables may hold tables to any depth. The projection follows them down to
//! a fixed depth and puts a short summary in place of whatever lies deeper,
//! so that its work is bounded whatever the input. Unwrapping a VARIANT
//! takes no step of depth.

use vstd::prelude::*;
use vstd::string::StringExecFns;
use crate::datashape::{DataShape, FieldView};
use crate::error::{ErrorKind, PyAlwaysOnError};
use crate::infotable::{lemma_rows_view, rows_view, PyInfoTable, TableView};
use crate::json::{
    height_at_most, items_view, json_view, lemma_height_monotone, lemma_items_view,
    lemma_members_view, members_view, JsonNode, JsonView,
};
use crate::primitive::{cells_view, lemma_cells_view, prim_view, PrimView, PyTwPrim};
use crate::text::{decimal_digits, decimal_text};

verus! {

/// The depth at which a table is summarised and not entered.
pub const MAX_DEPTH: usize = 5;

/// Whether the bit pattern of an IEEE 754 double stands for a finite number:
/// the exponent field is not all ones.
pub open spec fn is_finite_bits(bits: u64) -> bool {
    (bits >> 52) & 0x7ff != 0x7ff
}

/// The text that stands for a BLOB. The bytes themselves are never shown.
pub open spec fn blob_marker() -> Seq<char> {
    "<BLOB>"@
}

/// The message of a failed projection. In a row it stands in the place of
/// the cell that failed.
pub open spec fn projection_error_text(kind: ErrorKind) -> Seq<char> {
    match kind {
        ErrorKind::NonFiniteNumber => "NUMBER is not finite"@,
        _ => "Unsupported type for projection"@,
    }
}

/// The key of the cell at place `j` of a row: the name of the field at that
/// place, or `field_` and the place for a cell beyond the declared fields.
pub open spec fn cell_name(fields: Seq<FieldView>, j: int) -> Seq<char> {
    if 0 <= j < fields.len() {
        fields[j].name
    } else {
        "field_"@ + decimal_digits(j as nat)
    }
}

/// What a data shape projects to: an object with one member per field, in
/// the order of the fields, each giving the field's type and description.
pub open spec fn shape_json(fields: Seq<FieldView>) -> JsonView {
    JsonView::Object(
        Seq::new(
            fields.len(),
            |k: int|
                (
                    fields[k].name,
                    JsonView::Object(
                        seq![
                            ("baseType"@, JsonView::Text(fields[k].entry_type.name_text())),
                            ("description"@, JsonView::Text(fields[k].description)),
                        ],
                    ),
                ),
        ),
    )
}

/// What stands for a table at the depth limit.
pub open spec fn depth_summary(table: TableView) -> JsonView {
    JsonView::Object(
        seq![
            ("type"@, JsonView::Text("InfoTable"@)),
            ("rows"@, JsonView::Int(table.rows.len() as int)),
            ("fields"@, JsonView::Int(table.fields.len() as int)),
            ("note"@, JsonView::Text("Max depth reached"@)),
        ],
    )
}

/// What a value projects to, by its tag. A NUMBER must be finite and a
/// LOCATION has no projection. A VARIANT projects as what it wraps, at the
/// same depth; a table projects one step deeper.
pub open spec fn project_value(v: PrimView, depth: nat) -> Result<JsonView, ErrorKind>
    decreases v, 0nat,
{
    match v {
        PrimView::Boolean(b) => Ok(JsonView::Bool(b)),
        PrimView::Integer(i) => Ok(JsonView::Int(i as int)),
        PrimView::Long(l) => Ok(JsonView::Int(l as int)),
        PrimView::Datetime(d) => Ok(JsonView::Int(d as int)),
        PrimView::Number(bits) => if is_finite_bits(bits) {
            Ok(JsonView::Number(bits))
        } else {
            Err(ErrorKind::NonFiniteNumber)
        },
        PrimView::String(s) => Ok(JsonView::Text(s)),
        PrimView::Blob(_) => Ok(JsonView::Text(blob_marker())),
        PrimView::Nothing => Ok(JsonView::Null),
        PrimView::Variant(inner) => project_value(*inner, depth),
        PrimView::Infotable(t) => Ok(project_table(t, depth + 1)),
        PrimView::Location(_) => Err(ErrorKind::UnsupportedType),
    }
}

/// What a cell of a row projects to: a cell whose projection fails gives the
/// failure's message as a text, and the rest of the row goes on.
pub open spec fn project_cell(v: PrimView, depth: nat) -> JsonView
    decreases v, 1nat,
{
    match project_value(v, depth) {
        Ok(node) => node,
        Err(kind) => JsonView::Text(projection_error_text(kind)),
    }
}

/// What a row projects to: an object with one member per cell, in order.
pub open spec fn project_row(row: Seq<PrimView>, fields: Seq<FieldView>, depth: nat) -> JsonView
    decreases row, 0nat,
{
    JsonView::Object(
        Seq::new(
            row.len(),
            |j: int|
                if 0 <= j < row.len() {
                    (cell_name(fields, j), project_cell(row[j], depth))
                } else {
                    (Seq::<char>::empty(), JsonView::Null)
                },
        ),
    )
}

/// What the rows of a table project to, in order.
pub open spec fn project_rows(rows: Seq<Seq<PrimView>>, fields: Seq<FieldView>, depth: nat) -> Seq<
    JsonView,
>
    decreases rows, 0nat,
{
    Seq::new(
        rows.len(),
        |i: int|
            if 0 <= i < rows.len() {
                project_row(rows[i], fields, depth)
            } else {
                JsonView::Null
            },
    )
}

/// What a table projects to at a depth: its summary at the depth limit and
/// beyond, else an object with the shape under `dataShape` and the projected
/// rows under `rows`.
pub open spec fn project_table(table: TableView, depth: nat) -> JsonView
    decreases table, 0nat,
{
    if depth >= MAX_DEPTH {
        depth_summary(table)
    } else {
        JsonView::Object(
            seq![
                ("dataShape"@, shape_json(table.fields)),
                ("rows"@, JsonView::Array(project_rows(table.rows, table.fields, depth))),
            ],
        )
    }
}

/// At the depth limit and beyond, a table projects to an object with exactly
/// the keys `type`, `rows`, `fields` and `note`, whatever the table holds.
pub proof fn lemma_summary_at_depth_limit(table: TableView, depth: nat)
    requires
        depth >= MAX_DEPTH,
    ensures
        project_table(table, depth) == depth_summary(table),
        project_table(table, depth).keys() == seq!["type"@, "rows"@, "fields"@, "note"@],
{
    assert(depth_summary(table).keys() =~= seq!["type"@, "rows"@, "fields"@, "note"@]);
}

/// Below the depth limit, a table projects to an object with exactly the
/// keys `dataShape` and `rows`, with one projected row for each row of the
/// table.
pub proof fn lemma_table_below_depth_limit(table: TableView, depth: nat)
    requires
        depth < MAX_DEPTH,
    ensures
        project_table(table, depth).keys() == seq!["dataShape"@, "rows"@],
        project_table(table, depth)->Object_0[1].1 is Array,
        project_table(table, depth)->Object_0[1].1->Array_0.len() == table.rows.len(),
{
    assert(project_table(table, depth).keys() =~= seq!["dataShape"@, "rows"@]);
}

/// Unwrapping a VARIANT takes no step of depth: a value under any number of
/// VARIANT layers projects as the value itself does at the same depth.
pub proof fn lemma_variant_takes_no_depth(v: PrimView, depth: nat)
    ensures
        project_value(v, depth) == project_value(v.innermost(), depth),
    decreases v,
{
    match v {
        PrimView::Variant(inner) => {
            lemma_variant_takes_no_depth(*inner, depth);
        },
        _ => {},
    }
}

/// A NUMBER that is not finite has no projection, at any depth and under
/// any number of VARIANT layers.
pub proof fn lemma_non_finite_number_fails(v: PrimView, depth: nat)
    requires
        v.innermost() is Number,
        !is_finite_bits(v.innermost()->Number_0),
    ensures
        project_value(v, depth) == Err::<JsonView, ErrorKind>(ErrorKind::NonFiniteNumber),
{
    lemma_variant_takes_no_depth(v, depth);
}

/// How deep the projection of a table at a depth can be at most: three
/// levels for every table that is entered, and one for the summary at the
/// end.
pub open spec fn height_bound(depth: nat) -> nat {
    if depth >= MAX_DEPTH {
        1
    } else {
        (3 * (MAX_DEPTH - depth) + 1) as nat
    }
}

/// The projection of a data shape is two levels deep at most.
pub proof fn lemma_shape_height(fields: Seq<FieldView>)
    ensures
        height_at_most(shape_json(fields), 2),
{
    let members = shape_json(fields)->Object_0;
    assert forall|k: int| 0 <= k < members.len() implies height_at_most(
        (#[trigger] members[k]).1,
        1,
    ) by {
        let inner = members[k].1->Object_0;
        assert forall|m: int| 0 <= m < inner.len() implies height_at_most(
            (#[trigger] inner[m]).1,
            0,
        ) by {}
    }
}

/// However deep the tables in a value are nested, the projection of the
/// value at a depth is no deeper than the bound for the tables one step
/// down.
pub proof fn lemma_value_height(v: PrimView, depth: nat)
    ensures
        project_value(v, depth) is Ok ==> height_at_most(
            project_value(v, depth)->Ok_0,
            height_bound(depth + 1),
        ),
        height_at_most(project_cell(v, depth), height_bound(depth + 1)),
    decreases v, 0nat,
{
    match v {
        PrimView::Variant(inner) => {
            lemma_value_height(*inner, depth);
        },
        PrimView::Infotable(t) => {
            lemma_table_height(t, depth + 1);
        },
        _ => {},
    }
}

/// However deep the tables in a table are nested, the projection of the
/// table at a depth is no deeper than the bound for that depth: the
/// projection from the top is at most 16 levels deep.
pub proof fn lemma_table_height(table: TableView, depth: nat)
    ensures
        height_at_most(project_table(table, depth), height_bound(depth)),
    decreases table, 0nat,
{
    if depth >= MAX_DEPTH {
        let members = depth_summary(table)->Object_0;
        assert forall|m: int| 0 <= m < members.len() implies height_at_most(
            (#[trigger] members[m]).1,
            0,
        ) by {}
    } else {
        let below = height_bound(depth + 1);
        assert(height_bound(depth) == below + 3);
        let top = project_table(table, depth)->Object_0;
        let rows = project_rows(table.rows, table.fields, depth);
        assert forall|i: int| 0 <= i < rows.len() implies height_at_most(
            #[trigger] rows[i],
            below + 1,
        ) by {
            let row = table.rows[i];
            let cells = project_row(row, table.fields, depth)->Object_0;
            assert forall|j: int| 0 <= j < cells.len() implies height_at_most(
                (#[trigger] cells[j]).1,
                below,
            ) by {
                lemma_value_height(row[j], depth);
            }
        }
        assert(height_at_most(JsonView::Array(rows), below + 2));
        lemma_shape_height(table.fields);
        lemma_height_monotone(shape_json(table.fields), 2, below + 2);
        assert forall|m: int| 0 <= m < top.len() implies height_at_most(
            (#[trigger] top[m]).1,
            below + 2,
        ) by {}
    }
}

/// A value has no projection exactly where, under its VARIANT layers, it is
/// a LOCATION or a NUMBER that is not finite; the failure says which.
pub proof fn lemma_projection_failures(v: PrimView, depth: nat)
    ensures
        project_value(v, depth) is Err <==> (v.innermost() is Location || (v.innermost() is Number
            && !is_finite_bits(v.innermost()->Number_0))),
        project_value(v, depth) is Err ==> project_value(v, depth)->Err_0 == (if v.innermost()
            is Location {
            ErrorKind::UnsupportedType
        } else {
            ErrorKind::NonFiniteNumber
        }),
{
    lemma_variant_takes_no_depth(v, depth);
    lemma_innermost_is_no_variant(v);
}

/// The value under all VARIANT layers is no VARIANT.
pub proof fn lemma_innermost_is_no_variant(v: PrimView)
    ensures
        !(v.innermost() is Variant),
    decreases v,
{
    match v {
        PrimView::Variant(inner) => {
            lemma_innermost_is_no_variant(*inner);
        },
        _ => {},
    }
}

/// Whether a bit pattern stands for a finite number.
pub fn is_finite(bits: u64) -> (r: bool)
    ensures
        r == is_finite_bits(bits),
{
    (bits >> 52) & 0x7ff != 0x7ff
}

/// The message of a failed projection.
pub fn projection_error_message(kind: ErrorKind) -> (s: &'static str)
    ensures
        s@ == projection_error_text(kind),
{
    match kind {
        ErrorKind::NonFiniteNumber => "NUMBER is not finite",
        _ => "Unsupported type for projection",
    }
}

/// A member of an object.
fn member(key: &str, value: JsonNode) -> (m: (String, JsonNode))
    ensures
        m.0@ == key@,
        m.1 == value,
{
    (String::from_str(key), value)
}

/// The key of the cell at place `j` of a row.
pub fn cell_key(shape: &DataShape, j: usize) -> (s: String)
    ensures
        s@ == cell_name(shape.fields(), j as int),
{
    match shape.field_at(j) {
        Some((name, _)) => name.clone(),
        None => String::from_str("field_").concat(decimal_text(j as u64).as_str()),
    }
}

/// Projects a data shape.
pub fn shape_to_json(shape: &DataShape) -> (node: JsonNode)
    ensures
        node@ == shape_json(shape.fields()),
{
    let ghost fields = shape.fields();
    let count = shape.field_count();
    let mut members: Vec<(String, JsonNode)> = Vec::new();
    let mut k: usize = 0;
    loop
        invariant
            fields == shape.fields(),
            count == fields.len(),
            k <= count,
            members.len() == k,
            forall|i: int|
                0 <= i < k ==> (#[trigger] members[i]).0@ == fields[i].name && json_view(
                    members[i].1,
                ) == shape_json(fields)->Object_0[i].1,
        ensures
            k == count,
        decreases count - k,
    {
        match shape.field_at(k) {
            None => {
                break ;
            },
            Some((name, entry)) => {
                let mut inner: Vec<(String, JsonNode)> = Vec::new();
                inner.push(member("baseType", JsonNode::text(entry.entry_type.name())));
                inner.push(member("description", JsonNode::text(entry.description.as_str())));
                let node = JsonNode::object(inner);
                proof {
                    lemma_members_view(inner@);
                    assert(members_view(inner@) =~= seq![
                        ("baseType"@, JsonView::Text(fields[k as int].entry_type.name_text())),
                        ("description"@, JsonView::Text(fields[k as int].description)),
                    ]);
                }
                members.push((name.clone(), node));
                k += 1;
            },
        }
    }
    proof {
        lemma_members_view(members@);
        assert(members_view(members@) =~= shape_json(fields)->Object_0);
    }
    JsonNode::object(members)
}

impl PyInfoTable {
    /// What stands for the table at the depth limit.
    pub fn depth_summary(&self) -> (node: JsonNode)
        ensures
            node@ == depth_summary(self@),
    {
        let mut members: Vec<(String, JsonNode)> = Vec::new();
        members.push(member("type", JsonNode::text("InfoTable")));
        members.push(member("rows", JsonNode::count(self.rows.len())));
        members.push(member("fields", JsonNode::count(self.datashape.field_count())));
        members.push(member("note", JsonNode::text("Max depth reached")));
        proof {
            lemma_members_view(members@);
            assert(members_view(members@) =~= depth_summary(self@)->Object_0);
        }
        JsonNode::object(members)
    }

    /// Projects the table at a depth.
    pub fn project(&self, depth: usize) -> (node: JsonNode)
        ensures
            node@ == project_table(self@, depth as nat),
        decreases self,
    {
        if depth >= MAX_DEPTH {
            return self.depth_summary();
        }
        let ghost fields = self@.fields;
        let ghost rows = self@.rows;
        proof {
            lemma_rows_view(self.rows@);
        }
        let shape_node = shape_to_json(&self.datashape);
        let mut rows_out: Vec<JsonNode> = Vec::new();
        let mut i: usize = 0;
        while i < self.rows.len()
            invariant
                depth < MAX_DEPTH,
                fields == self@.fields,
                fields == self.datashape.fields(),
                rows == self@.rows,
                rows.len() == self.rows.len(),
                forall|k: int| 0 <= k < rows.len() ==> #[trigger] rows[k] == cells_view(self.rows[k]@),
                i <= self.rows.len(),
                rows_out.len() == i,
                forall|k: int|
                    0 <= k < i ==> json_view(#[trigger] rows_out[k]) == project_row(
                        rows[k],
                        fields,
                        depth as nat,
                    ),
            decreases self.rows.len() - i,
        {
            let row = &self.rows[i];
            let ghost cells = rows[i as int];
            proof {
                lemma_cells_view(row@);
            }
            let mut members: Vec<(String, JsonNode)> = Vec::new();
            let mut j: usize = 0;
            while j < row.len()
                invariant
                    depth < MAX_DEPTH,
                    i < self.rows.len(),
                    row == &self.rows[i as int],
                    fields == self.datashape.fields(),
                    cells == cells_view(row@),
                    cells.len() == row.len(),
                    forall|k: int| 0 <= k < row.len() ==> #[trigger] cells[k] == prim_view(row[k]),
                    j <= row.len(),
                    members.len() == j,
                    forall|k: int|
                        0 <= k < j ==> (#[trigger] members[k]).0@ == cell_name(fields, k)
                            && json_view(members[k].1) == project_cell(cells[k], depth as nat),
                decreases row.len() - j,
            {
                let key = cell_key(&self.datashape, j);
                let cell = match row[j].project(depth) {
                    Ok(node) => node,
                    Err(kind) => JsonNode::text(projection_error_message(kind)),
                };
                members.push((key, cell));
                j += 1;
            }
            proof {
                lemma_members_view(members@);
                assert(members_view(members@) =~= project_row(cells, fields, depth as nat)->Object_0);
            }
            rows_out.push(JsonNode::object(members));
            i += 1;
        }
        let mut top: Vec<(String, JsonNode)> = Vec::new();
        top.push(member("dataShape", shape_node));
        proof {
            lemma_items_view(rows_out@);
            assert(items_view(rows_out@) =~= project_rows(rows, fields, depth as nat));
        }
        top.push(member("rows", JsonNode::array(rows_out)));
        proof {
            lemma_members_view(top@);
            assert(members_view(top@) =~= project_table(self@, depth as nat)->Object_0);
        }
        JsonNode::object(top)
    }

    /// Projects the table from the top, at depth 0.
    pub fn to_simple_json(&self) -> (r: Result<JsonNode, PyAlwaysOnError>)
        ensures
            r is Ok && r->Ok_0@ == project_table(self@, 0),
    {
        Ok(self.project(0))
    }
}

impl PyTwPrim {
    /// Projects the value by its tag, at a depth.
    pub fn project(&self, depth: usize) -> (r: Result<JsonNode, ErrorKind>)
        ensures
            match project_value(self@, depth as nat) {
                Ok(node) => r is Ok && r->Ok_0@ == node,
                Err(kind) => r == Err::<JsonNode, ErrorKind>(kind),
            },
        decreases self,
    {
        match self {
            PyTwPrim::Boolean(b) => Ok(JsonNode::Bool(*b)),
            PyTwPrim::Integer(i) => Ok(JsonNode::Int(*i as i64)),
            PyTwPrim::Long(l) => Ok(JsonNode::Int(*l)),
            PyTwPrim::Datetime(d) => Ok(JsonNode::Int(*d)),
            PyTwPrim::Number(bits) => {
                if is_finite(*bits) {
                    Ok(JsonNode::Number(*bits))
                } else {
                    Err(ErrorKind::NonFiniteNumber)
                }
            },
            PyTwPrim::String(s) => Ok(JsonNode::text(s.as_str())),
            PyTwPrim::Blob(_) => Ok(JsonNode::text("<BLOB>")),
            PyTwPrim::Nothing => Ok(JsonNode::Null),
            PyTwPrim::Variant(inner) => inner.project(depth),
            PyTwPrim::Infotable(t) => {
                if depth >= MAX_DEPTH {
                    proof {
                        lemma_summary_at_depth_limit(t@, MAX_DEPTH as nat);
                        lemma_summary_at_depth_limit(t@, (depth + 1) as nat);
                    }
                    Ok(t.project(MAX_DEPTH))
                } else {
                    Ok(t.project(depth + 1))
                }
            },
            PyTwPrim::Location(_) => Err(ErrorKind::UnsupportedType),
        }
    }

    /// Projects the value from the top, at depth 0. A value without a
    /// projection is a failure of the kind that `project_value` names.
    pub fn to_simple_json(&self) -> (r: Result<JsonNode, PyAlwaysOnError>)
        ensures
            match project_value(self@, 0) {
                Ok(node) => r is Ok && r->Ok_0@ == node,
                Err(kind) => r is Err && r->Err_0.kind == kind && r->Err_0.message@
                    == projection_error_text(kind),
            },
    {
        match self.project(0) {
            Ok(node) => Ok(node),
            Err(kind) => Err(
                PyAlwaysOnError::new(kind, String::from_str(projection_error_message(kind))),
            ),
        }
    }
}

} // verus!
