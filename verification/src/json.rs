//! The JSON tree that values are projected into.

use vstd::prelude::*;
use vstd::string::StringExecFns;
use crate::text::str_equal;

verus! {

/// A node of a JSON tree. An object keeps its members in the order in which
/// they were added. A float is kept as the bit pattern of its IEEE 754
/// double, and is finite wherever the projection made the node.
#[derive(Debug, PartialEq)]
pub enum JsonNode {
    Null,
    Bool(bool),
    Int(i64),
    UInt(u64),
    Number(u64),
    Text(String),
    Array(Vec<JsonNode>),
    Object(Vec<(String, JsonNode)>),
}

/// A JSON tree as contracts speak of it. Both integer nodes give `Int`.
pub ghost enum JsonView {
    Null,
    Bool(bool),
    Int(int),
    Number(u64),
    Text(Seq<char>),
    Array(Seq<JsonView>),
    Object(Seq<(Seq<char>, JsonView)>),
}

pub open spec fn json_view(node: JsonNode) -> JsonView
    decreases node,
{
    match node {
        JsonNode::Null => JsonView::Null,
        JsonNode::Bool(b) => JsonView::Bool(b),
        JsonNode::Int(i) => JsonView::Int(i as int),
        JsonNode::UInt(u) => JsonView::Int(u as int),
        JsonNode::Number(bits) => JsonView::Number(bits),
        JsonNode::Text(s) => JsonView::Text(s@),
        JsonNode::Array(items) => JsonView::Array(items_view(items@)),
        JsonNode::Object(members) => JsonView::Object(members_view(members@)),
    }
}

/// The views of an array's items, in order.
pub open spec fn items_view(items: Seq<JsonNode>) -> Seq<JsonView>
    decreases items,
{
    Seq::new(
        items.len(),
        |i: int|
            if 0 <= i < items.len() {
                json_view(items[i])
            } else {
                JsonView::Null
            },
    )
}

/// The views of an object's members, in order.
pub open spec fn members_view(members: Seq<(String, JsonNode)>) -> Seq<(Seq<char>, JsonView)>
    decreases members,
{
    Seq::new(
        members.len(),
        |i: int|
            if 0 <= i < members.len() {
                (members[i].0@, json_view(members[i].1))
            } else {
                (Seq::<char>::empty(), JsonView::Null)
            },
    )
}

impl View for JsonNode {
    type V = JsonView;

    open spec fn view(&self) -> JsonView {
        json_view(*self)
    }
}

impl JsonView {
    /// The keys of an object, in order; no keys for any other node.
    pub open spec fn keys(self) -> Seq<Seq<char>> {
        match self {
            JsonView::Object(members) => Seq::new(members.len(), |i: int| members[i].0),
            _ => Seq::empty(),
        }
    }
}

/// Whether a tree is at most `height` arrays and objects deep: a node that
/// is neither is 0 deep, and an array or an object is one deeper than the
/// deepest of what it holds.
pub open spec fn height_at_most(node: JsonView, height: nat) -> bool
    decreases node,
{
    match node {
        JsonView::Array(items) => height > 0 && forall|i: int|
            0 <= i < items.len() ==> height_at_most(#[trigger] items[i], (height - 1) as nat),
        JsonView::Object(members) => height > 0 && forall|i: int|
            0 <= i < members.len() ==> height_at_most(
                (#[trigger] members[i]).1,
                (height - 1) as nat,
            ),
        _ => true,
    }
}

/// A tree that is at most `low` deep is at most `high` deep for every
/// `high` from `low` up.
pub proof fn lemma_height_monotone(node: JsonView, low: nat, high: nat)
    requires
        height_at_most(node, low),
        low <= high,
    ensures
        height_at_most(node, high),
    decreases node,
{
    match node {
        JsonView::Array(items) => {
            assert forall|i: int| 0 <= i < items.len() implies height_at_most(
                #[trigger] items[i],
                (high - 1) as nat,
            ) by {
                lemma_height_monotone(items[i], (low - 1) as nat, (high - 1) as nat);
            }
        },
        JsonView::Object(members) => {
            assert forall|i: int| 0 <= i < members.len() implies height_at_most(
                (#[trigger] members[i]).1,
                (high - 1) as nat,
            ) by {
                lemma_height_monotone(members[i].1, (low - 1) as nat, (high - 1) as nat);
            }
        },
        _ => {},
    }
}

/// What `items_view` holds at each place.
pub proof fn lemma_items_view(items: Seq<JsonNode>)
    ensures
        items_view(items).len() == items.len(),
        forall|i: int| 0 <= i < items.len() ==> #[trigger] items_view(items)[i] == json_view(items[i]),
{
}

/// What `members_view` holds at each place.
pub proof fn lemma_members_view(members: Seq<(String, JsonNode)>)
    ensures
        members_view(members).len() == members.len(),
        forall|i: int|
            0 <= i < members.len() ==> #[trigger] members_view(members)[i] == (
                members[i].0@,
                json_view(members[i].1),
            ),
{
}

impl JsonNode {
    /// A text node.
    pub fn text(s: &str) -> (node: Self)
        ensures
            node@ == JsonView::Text(s@),
    {
        JsonNode::Text(String::from_str(s))
    }

    /// An integer node for a count.
    pub fn count(n: usize) -> (node: Self)
        ensures
            node@ == JsonView::Int(n as int),
    {
        JsonNode::UInt(n as u64)
    }

    /// An array node with the given items.
    pub fn array(items: Vec<JsonNode>) -> (node: Self)
        ensures
            node@ == JsonView::Array(items_view(items@)),
    {
        JsonNode::Array(items)
    }

    /// An object node with the given members.
    pub fn object(members: Vec<(String, JsonNode)>) -> (node: Self)
        ensures
            node@ == JsonView::Object(members_view(members@)),
    {
        JsonNode::Object(members)
    }

    /// The value of the first member called `key`, where the node is an
    /// object that has one.
    pub fn get(&self, key: &str) -> (r: Option<&JsonNode>)
        ensures
            match r {
                Some(value) => self@ is Object && exists|i: int|
                    0 <= i < self@->Object_0.len() && (#[trigger] self@->Object_0[i]) == (
                        key@,
                        value@,
                    ) && forall|k: int| 0 <= k < i ==> (#[trigger] self@->Object_0[k]).0 != key@,
                None => !(self@ is Object) || forall|k: int|
                    0 <= k < self@->Object_0.len() ==> (#[trigger] self@->Object_0[k]).0 != key@,
            },
    {
        match self {
            JsonNode::Object(members) => {
                proof {
                    lemma_members_view(members@);
                }
                let mut i: usize = 0;
                while i < members.len()
                    invariant
                        i <= members.len(),
                        self@ == JsonView::Object(members_view(members@)),
                        members_view(members@).len() == members.len(),
                        forall|k: int|
                            0 <= k < members.len() ==> #[trigger] members_view(members@)[k] == (
                                members[k].0@,
                                json_view(members[k].1),
                            ),
                        forall|k: int| 0 <= k < i ==> (#[trigger] members_view(members@)[k]).0 != key@,
                    decreases members.len() - i,
                {
                    if str_equal(members[i].0.as_str(), key) {
                        proof {
                            let found = i as int;
                            let value = &members[found].1;
                            assert(self@->Object_0[found] == (key@, value@));
                            assert(0 <= found < self@->Object_0.len());
                        }
                        return Some(&members[i].1);
                    }
                    i += 1;
                }
                None
            },
            _ => None,
        }
    }
}

} // verus!
