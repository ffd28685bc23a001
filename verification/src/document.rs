use vstd::prelude::*;

verus! {

/// A number of the provider's document format. Unlike a JSON number it keeps
/// the variant it was written with, and a float may be infinite or a NaN.
/// A float is given by its IEEE 754 binary64 bit pattern.
#[derive(Clone, Copy, Debug, PartialEq, Eq)]
pub enum Number {
    PosInt(u64),
    NegInt(i64),
    Float(u64),
}

/// A value of the provider's document format. An object keeps its members as
/// a list of key and value.
#[derive(Debug, PartialEq, Eq)]
pub enum Document {
    Null,
    Bool(bool),
    Number(Number),
    String(String),
    Array(Vec<Document>),
    Object(Vec<(String, Document)>),
}

/// What a `Document` stands for.
pub ghost enum DocumentView {
    Null,
    Bool(bool),
    PosInt(u64),
    NegInt(i64),
    Float(u64),
    String(Seq<char>),
    Array(Seq<DocumentView>),
    Object(Seq<(Seq<char>, DocumentView)>),
}

impl DocumentView {
    /// True of a document in which no object names a member twice, at any
    /// depth: each object is then a mapping from its keys to its values.
    pub open spec fn keys_distinct(self) -> bool
        decreases self,
    {
        match self {
            DocumentView::Array(items) => forall|i: int|
                0 <= i < items.len() ==> (#[trigger] items[i]).keys_distinct(),
            DocumentView::Object(members) => {
                &&& forall|i: int, j: int|
                    0 <= i < j < members.len() ==> (#[trigger] members[i]).0
                        != (#[trigger] members[j]).0
                &&& forall|i: int|
                    0 <= i < members.len() ==> (#[trigger] members[i]).1.keys_distinct()
            },
            _ => true,
        }
    }
}

impl Number {
    /// What the number stands for as a document.
    pub open spec fn view(self) -> DocumentView {
        match self {
            Number::PosInt(n) => DocumentView::PosInt(n),
            Number::NegInt(i) => DocumentView::NegInt(i),
            Number::Float(bits) => DocumentView::Float(bits),
        }
    }
}

impl View for Document {
    type V = DocumentView;

    open spec fn view(&self) -> DocumentView
        decreases self,
    {
        match self {
            Document::Null => DocumentView::Null,
            Document::Bool(b) => DocumentView::Bool(*b),
            Document::Number(n) => n.view(),
            Document::String(s) => DocumentView::String(s@),
            Document::Array(items) => DocumentView::Array(
                Seq::new(
                    items@.len(),
                    |i: int|
                        if 0 <= i < items@.len() {
                            items@[i].view()
                        } else {
                            DocumentView::Null
                        },
                ),
            ),
            Document::Object(members) => DocumentView::Object(
                Seq::new(
                    members@.len(),
                    |i: int|
                        if 0 <= i < members@.len() {
                            (members@[i].0@, members@[i].1.view())
                        } else {
                            (Seq::empty(), DocumentView::Null)
                        },
                ),
            ),
        }
    }
}


impl Document {
    /// An array stands for the sequence of what its items stand for.
    pub proof fn lemma_view_array(items: Vec<Document>)
        ensures
            Document::Array(items)@ is Array,
            Document::Array(items)@->Array_0.len() == items@.len(),
            forall|i: int|
                0 <= i < items@.len() ==> (#[trigger] Document::Array(items)@->Array_0[i])
                    == items@[i]@,
    {
        reveal_with_fuel(<Document as View>::view, 2);
    }

    /// An object stands for its members in order, each key with what its
    /// value stands for.
    pub proof fn lemma_view_object(members: Vec<(String, Document)>)
        ensures
            Document::Object(members)@ is Object,
            Document::Object(members)@->Object_0.len() == members@.len(),
            forall|i: int|
                0 <= i < members@.len() ==> (#[trigger] Document::Object(members)@->Object_0[i])
                    == (members@[i].0@, members@[i].1@),
    {
        reveal_with_fuel(<Document as View>::view, 2);
    }
}


impl Clone for Document {
    /// A copy that stands for the same document.
    fn clone(&self) -> (copy: Self)
        ensures
            copy@ == self@,
        decreases self,
    {
        match self {
            Document::Null => Document::Null,
            Document::Bool(b) => Document::Bool(*b),
            Document::Number(n) => Document::Number(*n),
            Document::String(s) => Document::String(s.clone()),
            Document::Array(items) => {
                let mut copies: Vec<Document> = Vec::new();
                let mut i: usize = 0;
                while i < items.len()
                    invariant
                        i <= items.len(),
                        *self == Document::Array(*items),
                        copies@.len() == i,
                        forall|k: int| 0 <= k < i ==> (#[trigger] copies@[k])@ == items@[k]@,
                    decreases items.len() - i,
                {
                    proof {
                        broadcast use vstd::std_specs::vec::axiom_vec_index_decreases;

                        assert(decreases_to!(*self => self->Array_0));
                        assert(decreases_to!(*items => items[i as int]));
                    }
                    let copy = items[i].clone();
                    copies.push(copy);
                    i = i + 1;
                }
                proof {
                    Document::lemma_view_array(*items);
                    Document::lemma_view_array(copies);
                    assert(Document::Array(copies)@->Array_0 =~= self@->Array_0);
                }
                Document::Array(copies)
            },
            Document::Object(members) => {
                let mut copies: Vec<(String, Document)> = Vec::new();
                let mut i: usize = 0;
                while i < members.len()
                    invariant
                        i <= members.len(),
                        *self == Document::Object(*members),
                        copies@.len() == i,
                        forall|k: int|
                            0 <= k < i ==> (#[trigger] copies@[k]).0@ == members@[k].0@
                                && copies@[k].1@ == members@[k].1@,
                    decreases members.len() - i,
                {
                    proof {
                        broadcast use vstd::std_specs::vec::axiom_vec_index_decreases;

                        assert(decreases_to!(*self => self->Object_0));
                        assert(decreases_to!(*members => members[i as int]));
                        assert(decreases_to!(members[i as int] => members[i as int].1));
                    }
                    let key = members[i].0.clone();
                    let copy = members[i].1.clone();
                    copies.push((key, copy));
                    i = i + 1;
                }
                proof {
                    Document::lemma_view_object(*members);
                    Document::lemma_view_object(copies);
                    assert(Document::Object(copies)@->Object_0 =~= self@->Object_0);
                }
                Document::Object(copies)
            },
        }
    }
}

} // verus!
