use vstd::prelude::*;

verus! {

/// A JSON number: an integer that fits in 64 bits, or a binary64 float given
/// by its IEEE 754 bit pattern.
#[derive(Clone, Copy, Debug, PartialEq, Eq)]
pub enum JsonNumber {
    PosInt(u64),
    NegInt(i64),
    Float(u64),
}

/// A JSON value. An object keeps its members as a list of key and value.
#[derive(Debug, PartialEq, Eq)]
pub enum JsonValue {
    Null,
    Bool(bool),
    Number(JsonNumber),
    String(String),
    Array(Vec<JsonValue>),
    Object(Vec<(String, JsonValue)>),
}

/// What a `JsonValue` stands for. Both integer variants of a number stand
/// for the one integer they hold.
pub ghost enum JsonView {
    Null,
    Bool(bool),
    Int(int),
    Float(u64),
    String(Seq<char>),
    Array(Seq<JsonView>),
    Object(Seq<(Seq<char>, JsonView)>),
}

/// True where the bit pattern is that of a finite binary64 float: the eleven
/// exponent bits are not all set.
pub open spec fn is_finite_bits(bits: u64) -> bool {
    (bits >> 52) & 0x7ff != 0x7ff
}

/// Tells a finite float from an infinity or a NaN by its bit pattern.
pub fn finite_bits(bits: u64) -> (finite: bool)
    ensures
        finite == is_finite_bits(bits),
{
    (bits >> 52) & 0x7ff != 0x7ff
}

impl JsonView {
    /// True of a value in which no object names a member twice, at any
    /// depth: each object is then a mapping from its keys to its values.
    pub open spec fn keys_distinct(self) -> bool
        decreases self,
    {
        match self {
            JsonView::Array(items) => forall|i: int|
                0 <= i < items.len() ==> (#[trigger] items[i]).keys_distinct(),
            JsonView::Object(members) => {
                &&& forall|i: int, j: int|
                    0 <= i < j < members.len() ==> (#[trigger] members[i]).0
                        != (#[trigger] members[j]).0
                &&& forall|i: int|
                    0 <= i < members.len() ==> (#[trigger] members[i]).1.keys_distinct()
            },
            _ => true,
        }
    }
}

impl JsonNumber {
    /// What the number stands for as a JSON value.
    pub open spec fn view(self) -> JsonView {
        match self {
            JsonNumber::PosInt(n) => JsonView::Int(n as int),
            JsonNumber::NegInt(i) => JsonView::Int(i as int),
            JsonNumber::Float(bits) => JsonView::Float(bits),
        }
    }
}

impl View for JsonValue {
    type V = JsonView;

    open spec fn view(&self) -> JsonView
        decreases self,
    {
        match self {
            JsonValue::Null => JsonView::Null,
            JsonValue::Bool(b) => JsonView::Bool(*b),
            JsonValue::Number(n) => n.view(),
            JsonValue::String(s) => JsonView::String(s@),
            JsonValue::Array(items) => JsonView::Array(
                Seq::new(
                    items@.len(),
                    |i: int|
                        if 0 <= i < items@.len() {
                            items@[i].view()
                        } else {
                            JsonView::Null
                        },
                ),
            ),
            JsonValue::Object(members) => JsonView::Object(
                Seq::new(
                    members@.len(),
                    |i: int|
                        if 0 <= i < members@.len() {
                            (members@[i].0@, members@[i].1.view())
                        } else {
                            (Seq::empty(), JsonView::Null)
                        },
                ),
            ),
        }
    }
}


impl JsonValue {
    /// An array stands for the sequence of what its items stand for.
    pub proof fn lemma_view_array(items: Vec<JsonValue>)
        ensures
            JsonValue::Array(items)@ is Array,
            JsonValue::Array(items)@->Array_0.len() == items@.len(),
            forall|i: int|
                0 <= i < items@.len() ==> (#[trigger] JsonValue::Array(items)@->Array_0[i])
                    == items@[i]@,
    {
        reveal_with_fuel(<JsonValue as View>::view, 2);
    }

    /// An object stands for its members in order, each key with what its
    /// value stands for.
    pub proof fn lemma_view_object(members: Vec<(String, JsonValue)>)
        ensures
            JsonValue::Object(members)@ is Object,
            JsonValue::Object(members)@->Object_0.len() == members@.len(),
            forall|i: int|
                0 <= i < members@.len() ==> (#[trigger] JsonValue::Object(members)@->Object_0[i])
                    == (members@[i].0@, members@[i].1@),
    {
        reveal_with_fuel(<JsonValue as View>::view, 2);
    }
}

impl Clone for JsonValue {
    /// A copy that stands for the same value.
    fn clone(&self) -> (copy: Self)
        ensures
            copy@ == self@,
        decreases self,
    {
        match self {
            JsonValue::Null => JsonValue::Null,
            JsonValue::Bool(b) => JsonValue::Bool(*b),
            JsonValue::Number(n) => JsonValue::Number(*n),
            JsonValue::String(s) => JsonValue::String(s.clone()),
            JsonValue::Array(items) => {
                let mut copies: Vec<JsonValue> = Vec::new();
                let mut i: usize = 0;
                while i < items.len()
                    invariant
                        i <= items.len(),
                        *self == JsonValue::Array(*items),
                        copies@.len() == i,
                        forall|k: int| 0 <= k < i ==> (#[trigger] copies@[k])@ == items@[k]@,
                    decreases items.len() - i,
                {
                    proof {
                        broadcast use vstd::std_specs::vec::axiom_vec_index_decreases;

                        assert(decreases_to!(*self => self->Array_0));
                        assert(decreases_to!(*items => items[i as int]));
                    }
                    let copy = items[i].clone();
                    copies.push(copy);
                    i = i + 1;
                }
                proof {
                    JsonValue::lemma_view_array(*items);
                    JsonValue::lemma_view_array(copies);
                    assert(JsonValue::Array(copies)@->Array_0 =~= self@->Array_0);
                }
                JsonValue::Array(copies)
            },
            JsonValue::Object(members) => {
                let mut copies: Vec<(String, JsonValue)> = Vec::new();
                let mut i: usize = 0;
                while i < members.len()
                    invariant
                        i <= members.len(),
                        *self == JsonValue::Object(*members),
                        copies@.len() == i,
                        forall|k: int|
                            0 <= k < i ==> (#[trigger] copies@[k]).0@ == members@[k].0@
                                && copies@[k].1@ == members@[k].1@,
                    decreases members.len() - i,
                {
                    proof {
                        broadcast use vstd::std_specs::vec::axiom_vec_index_decreases;

                        assert(decreases_to!(*self => self->Object_0));
                        assert(decreases_to!(*members => members[i as int]));
                        assert(decreases_to!(members[i as int] => members[i as int].1));
                    }
                    let key = members[i].0.clone();
                    let copy = members[i].1.clone();
                    copies.push((key, copy));
                    i = i + 1;
                }
                proof {
                    JsonValue::lemma_view_object(*members);
                    JsonValue::lemma_view_object(copies);
                    assert(JsonValue::Object(copies)@->Object_0 =~= self@->Object_0);
                }
                JsonValue::Object(copies)
            },
        }
    }
}

} // verus!
