//! Untyped host values, and the records of them that rows are built from.

use vstd::prelude::*;
use vstd::string::StringExecFns;
use crate::text::str_equal;

verus! {

/// A value as the host hands it over, before any schema has been applied.
/// A float is kept as the bit pattern of its IEEE 754 double.
#[derive(Clone, Debug, PartialEq)]
pub enum NativeValue {
    Absent,
    Boolean(bool),
    Integer(i64),
    Float(u64),
    Text(String),
    Bytes(Vec<u8>),
}

/// A host value as contracts speak of it.
pub ghost enum NativeView {
    Absent,
    Boolean(bool),
    Integer(i64),
    Float(u64),
    Text(Seq<char>),
    Bytes(Seq<u8>),
}

impl View for NativeValue {
    type V = NativeView;

    open spec fn view(&self) -> NativeView {
        match self {
            NativeValue::Absent => NativeView::Absent,
            NativeValue::Boolean(b) => NativeView::Boolean(*b),
            NativeValue::Integer(i) => NativeView::Integer(*i),
            NativeValue::Float(bits) => NativeView::Float(*bits),
            NativeValue::Text(s) => NativeView::Text(s@),
            NativeValue::Bytes(b) => NativeView::Bytes(b@),
        }
    }
}

/// A record as contracts speak of it: its pairs of name and value, in the
/// order in which the names were first set.
pub type RecordView = Seq<(Seq<char>, NativeView)>;

/// The place of the first pair called `name`, if there is one.
pub open spec fn record_position(pairs: RecordView, name: Seq<char>) -> Option<int>
    decreases pairs.len(),
{
    if pairs.len() == 0 {
        None
    } else if pairs.last().0 == name && record_position(pairs.drop_last(), name) is None {
        Some(pairs.len() - 1)
    } else {
        record_position(pairs.drop_last(), name)
    }
}

/// The value that a record holds under `name`.
pub open spec fn record_lookup(pairs: RecordView, name: Seq<char>) -> Option<NativeView> {
    match record_position(pairs, name) {
        Some(i) => Some(pairs[i].1),
        None => None,
    }
}

/// The pairs after `name` has been set to `value`: a name that is already
/// there keeps its place and takes the new value; a new name comes last.
pub open spec fn record_after_insert(pairs: RecordView, name: Seq<char>, value: NativeView)
    -> RecordView {
    match record_position(pairs, name) {
        Some(i) => pairs.update(i, (name, value)),
        None => pairs.push((name, value)),
    }
}

/// A position that `record_position` gives is the first one with that name.
pub proof fn lemma_record_position(pairs: RecordView, name: Seq<char>)
    ensures
        match record_position(pairs, name) {
            Some(i) => 0 <= i < pairs.len() && pairs[i].0 == name
                && forall|k: int| 0 <= k < i ==> (#[trigger] pairs[k]).0 != name,
            None => forall|k: int| 0 <= k < pairs.len() ==> (#[trigger] pairs[k]).0 != name,
        },
    decreases pairs.len(),
{
    if pairs.len() > 0 {
        let front = pairs.drop_last();
        lemma_record_position(front, name);
        assert(forall|k: int| 0 <= k < front.len() ==> front[k] == pairs[k]);
        match record_position(front, name) {
            Some(i) => {
                assert(pairs[i] == front[i]);
                assert forall|k: int| 0 <= k < i implies (#[trigger] pairs[k]).0 != name by {
                    assert(front[k].0 != name);
                }
            },
            None => {
                assert forall|k: int| 0 <= k < front.len() implies (#[trigger] pairs[k]).0
                    != name by {
                    assert(front[k].0 != name);
                }
            },
        }
    }
}

/// An untyped record, keyed by field name. Setting a name twice keeps one
/// pair for it.
#[derive(Clone, Debug, PartialEq)]
pub struct Record {
    pub entries: Vec<(String, NativeValue)>,
}

impl View for Record {
    type V = RecordView;

    open spec fn view(&self) -> RecordView {
        Seq::new(self.entries.len() as nat, |i: int| (self.entries[i].0@, self.entries[i].1@))
    }
}

impl Record {
    /// A record without pairs.
    pub fn new() -> (record: Self)
        ensures
            record@ == RecordView::empty(),
    {
        let record = Record { entries: Vec::new() };
        assert(record@ =~= RecordView::empty());
        record
    }

    pub fn len(&self) -> (n: usize)
        ensures
            n == self@.len(),
    {
        self.entries.len()
    }

    /// The place of the pair called `name`.
    pub fn position(&self, name: &str) -> (r: Option<usize>)
        ensures
            match r {
                Some(i) => i < self@.len() && record_position(self@, name@) == Some(i as int),
                None => record_position(self@, name@) is None,
            },
    {
        let mut i: usize = 0;
        while i < self.entries.len()
            invariant
                i <= self.entries.len(),
                forall|k: int| 0 <= k < i ==> (#[trigger] self@[k]).0 != name@,
            decreases self.entries.len() - i,
        {
            if str_equal(self.entries[i].0.as_str(), name) {
                proof {
                    lemma_record_position(self@, name@);
                    assert(self@[i as int].0 == name@);
                }
                return Some(i);
            }
            i += 1;
        }
        proof {
            lemma_record_position(self@, name@);
        }
        None
    }

    /// The value under `name`.
    pub fn get(&self, name: &str) -> (r: Option<&NativeValue>)
        ensures
            match r {
                Some(value) => record_lookup(self@, name@) == Some(value@),
                None => record_lookup(self@, name@) is None,
            },
    {
        match self.position(name) {
            Some(i) => Some(&self.entries[i].1),
            None => None,
        }
    }

    /// Sets `name` to `value`.
    pub fn insert(&mut self, name: String, value: NativeValue)
        ensures
            final(self)@ == record_after_insert(old(self)@, name@, value@),
    {
        match self.position(name.as_str()) {
            Some(i) => {
                self.entries[i] = (name, value);
                assert(self@ =~= record_after_insert(old(self)@, name@, value@));
            },
            None => {
                self.entries.push((name, value));
                assert(self@ =~= record_after_insert(old(self)@, name@, value@));
            },
        }
    }
}

/// A name that has just been set is found, with the value it was set to.
pub proof fn lemma_lookup_after_insert(pairs: RecordView, name: Seq<char>, value: NativeView)
    ensures
        record_lookup(record_after_insert(pairs, name, value), name) == Some(value),
{
    lemma_record_position(pairs, name);
    let after = record_after_insert(pairs, name, value);
    lemma_record_position(after, name);
    match record_position(pairs, name) {
        Some(i) => {
            assert(after[i].0 == name);
            assert forall|k: int| 0 <= k < i implies (#[trigger] after[k]).0 != name by {
                assert(pairs[k].0 != name);
            }
        },
        None => {
            assert(after[pairs.len() as int].0 == name);
            assert forall|k: int| 0 <= k < pairs.len() implies (#[trigger] after[k]).0 != name by {
                assert(pairs[k].0 != name);
            }
        },
    }
}

/// Setting one name leaves what is found under every other name as it was.
pub proof fn lemma_lookup_other_after_insert(
    pairs: RecordView,
    name: Seq<char>,
    value: NativeView,
    other: Seq<char>,
)
    requires
        other != name,
    ensures
        record_lookup(record_after_insert(pairs, name, value), other) == record_lookup(pairs, other),
{
    lemma_record_position(pairs, name);
    lemma_record_position(pairs, other);
    let after = record_after_insert(pairs, name, value);
    lemma_record_position(after, other);
    assert forall|k: int| 0 <= k < pairs.len() implies ((#[trigger] after[k]).0 == other
        <==> pairs[k].0 == other) by {}
    match record_position(pairs, other) {
        Some(i) => {
            assert(after[i].0 == other);
            assert(after[i] == pairs[i]);
            match record_position(after, other) {
                Some(j) => {
                    if j < i {
                        assert(pairs[j].0 != other);
                    }
                    if i < j {
                        assert(after[i].0 != other);
                    }
                },
                None => {},
            }
        },
        None => {
            match record_position(after, other) {
                Some(j) => {
                    if j < pairs.len() {
                        assert(pairs[j].0 != other);
                    }
                },
                None => {},
            }
        },
    }
}

} // verus!
