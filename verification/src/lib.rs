//! Maps the requests, messages and replies of an agent framework to those of
//! Amazon Bedrock and back.
//!
//! The library works on values of its own: JSON values and provider
//! documents, the content of messages on either side, completion requests
//! and replies, and batches of texts to embed. Each mapping is a function
//! with a contract over the views of those values. What touches the network,
//! and every float as a float, stays with the caller: a float is held here
//! by its IEEE 754 bit pattern.

use vstd::prelude::*;

pub mod bedrock;
pub mod client;
pub mod completion;
pub mod document;
pub mod embedding;
pub mod encoding;
pub mod json;
pub mod message;
pub mod types;
pub mod views;

use crate::document::{Document, DocumentView, Number};
use crate::json::{finite_bits, is_finite_bits, JsonNumber, JsonValue, JsonView};

verus! {

/// The document that a JSON value is written as. An integer goes to the
/// variant of its sign, zero with the positive ones; a float, a string, a
/// boolean and null stay what they are; arrays and objects are converted
/// member by member, in order.
pub open spec fn document_of_json(value: JsonView) -> DocumentView
    decreases value,
{
    match value {
        JsonView::Null => DocumentView::Null,
        JsonView::Bool(b) => DocumentView::Bool(b),
        JsonView::Int(i) => if i >= 0 {
            DocumentView::PosInt(i as u64)
        } else {
            DocumentView::NegInt(i as i64)
        },
        JsonView::Float(bits) => DocumentView::Float(bits),
        JsonView::String(s) => DocumentView::String(s),
        JsonView::Array(items) => DocumentView::Array(
            Seq::new(
                items.len(),
                |i: int|
                    if 0 <= i < items.len() {
                        document_of_json(items[i])
                    } else {
                        DocumentView::Null
                    },
            ),
        ),
        JsonView::Object(members) => DocumentView::Object(
            Seq::new(
                members.len(),
                |i: int|
                    if 0 <= i < members.len() {
                        (members[i].0, document_of_json(members[i].1))
                    } else {
                        (Seq::empty(), DocumentView::Null)
                    },
            ),
        ),
    }
}

/// The document of an array is the array of its items' documents.
pub proof fn lemma_document_of_array(items: Seq<JsonView>)
    ensures
        document_of_json(JsonView::Array(items)) is Array,
        document_of_json(JsonView::Array(items))->Array_0.len() == items.len(),
        forall|i: int|
            0 <= i < items.len() ==> (#[trigger] document_of_json(JsonView::Array(items))->Array_0[i])
                == document_of_json(items[i]),
{
    reveal_with_fuel(document_of_json, 2);
}

/// The document of an object keeps each key and converts each value.
pub proof fn lemma_document_of_object(members: Seq<(Seq<char>, JsonView)>)
    ensures
        document_of_json(JsonView::Object(members)) is Object,
        document_of_json(JsonView::Object(members))->Object_0.len() == members.len(),
        forall|i: int|
            0 <= i < members.len() ==> (#[trigger] document_of_json(
                JsonView::Object(members),
            )->Object_0[i]) == (members[i].0, document_of_json(members[i].1)),
{
    reveal_with_fuel(document_of_json, 2);
}

/// Convert a JSON value into a provider document.
pub fn json_to_document(value: JsonValue) -> (document: Document)
    ensures
        document@ == document_of_json(value@),
    decreases value,
{
    match value {
        JsonValue::Null => Document::Null,
        JsonValue::Bool(b) => Document::Bool(b),
        JsonValue::Number(JsonNumber::PosInt(n)) => Document::Number(Number::PosInt(n)),
        JsonValue::Number(JsonNumber::NegInt(i)) => {
            if i >= 0 {
                Document::Number(Number::PosInt(i as u64))
            } else {
                Document::Number(Number::NegInt(i))
            }
        },
        JsonValue::Number(JsonNumber::Float(bits)) => Document::Number(Number::Float(bits)),
        JsonValue::String(s) => Document::String(s),
        JsonValue::Array(items) => {
            let ghost source = items@;
            proof {
                broadcast use vstd::std_specs::vec::axiom_vec_decreases_to_view;
                assert forall|k: int| 0 <= k < source.len() implies decreases_to!(value => #[trigger] source[k]) by {
                    assert(decreases_to!(value => items));
                    assert(decreases_to!(items => items@));
                    assert(decreases_to!(source => source[k]));
                }
            }
            let mut documents: Vec<Document> = Vec::new();
            for item in iter: items
                invariant
                    iter.seq() == source,
                    forall|k: int| 0 <= k < source.len() ==> decreases_to!(value => #[trigger] source[k]),
                    documents@.len() == iter.index(),
                    forall|k: int|
                        0 <= k < documents@.len() ==> (#[trigger] documents@[k])@
                            == document_of_json(source[k]@),
            {
                let document = json_to_document(item);
                documents.push(document);
            }
            proof {
                JsonValue::lemma_view_array(items);
                Document::lemma_view_array(documents);
                lemma_document_of_array(value@->Array_0);
                assert(Document::Array(documents)@->Array_0 =~= document_of_json(value@)->Array_0);
            }
            Document::Array(documents)
        },
        JsonValue::Object(members) => {
            let ghost source = members@;
            proof {
                broadcast use vstd::std_specs::vec::axiom_vec_decreases_to_view;
                assert forall|k: int| 0 <= k < source.len() implies decreases_to!(value => (#[trigger] source[k]).1) by {
                    assert(decreases_to!(value => members));
                    assert(decreases_to!(members => members@));
                    assert(decreases_to!(source => source[k]));
                    assert(decreases_to!(source[k] => source[k].1));
                }
            }
            let mut documents: Vec<(String, Document)> = Vec::new();
            for member in iter: members
                invariant
                    iter.seq() == source,
                    forall|k: int| 0 <= k < source.len() ==> decreases_to!(value => (#[trigger] source[k]).1),
                    documents@.len() == iter.index(),
                    forall|k: int|
                        0 <= k < documents@.len() ==> (#[trigger] documents@[k]).0@ == source[k].0@
                            && documents@[k].1@ == document_of_json(source[k].1@),
            {
                let (key, item) = member;
                let document = json_to_document(item);
                documents.push((key, document));
            }
            proof {
                JsonValue::lemma_view_object(members);
                Document::lemma_view_object(documents);
                lemma_document_of_object(value@->Object_0);
                assert(Document::Object(documents)@->Object_0 =~= document_of_json(value@)->Object_0);
            }
            Document::Object(documents)
        },
    }
}



/// The JSON value that a provider document is read as. Both integer
/// variants become the integer they hold; a float stays a float where it is
/// finite and becomes null where it is not, since JSON has no way to write an
/// infinity or a NaN; arrays and objects are converted member by member, in
/// order.
pub open spec fn json_of_document(document: DocumentView) -> JsonView
    decreases document,
{
    match document {
        DocumentView::Null => JsonView::Null,
        DocumentView::Bool(b) => JsonView::Bool(b),
        DocumentView::PosInt(n) => JsonView::Int(n as int),
        DocumentView::NegInt(i) => JsonView::Int(i as int),
        DocumentView::Float(bits) => if is_finite_bits(bits) {
            JsonView::Float(bits)
        } else {
            JsonView::Null
        },
        DocumentView::String(s) => JsonView::String(s),
        DocumentView::Array(items) => JsonView::Array(
            Seq::new(
                items.len(),
                |i: int|
                    if 0 <= i < items.len() {
                        json_of_document(items[i])
                    } else {
                        JsonView::Null
                    },
            ),
        ),
        DocumentView::Object(members) => JsonView::Object(
            Seq::new(
                members.len(),
                |i: int|
                    if 0 <= i < members.len() {
                        (members[i].0, json_of_document(members[i].1))
                    } else {
                        (Seq::empty(), JsonView::Null)
                    },
            ),
        ),
    }
}

/// The JSON value of an array is the array of its items' JSON values.
pub proof fn lemma_json_of_array(items: Seq<DocumentView>)
    ensures
        json_of_document(DocumentView::Array(items)) is Array,
        json_of_document(DocumentView::Array(items))->Array_0.len() == items.len(),
        forall|i: int|
            0 <= i < items.len() ==> (#[trigger] json_of_document(
                DocumentView::Array(items),
            )->Array_0[i]) == json_of_document(items[i]),
{
    reveal_with_fuel(json_of_document, 2);
}

/// The JSON value of an object keeps each key and converts each value.
pub proof fn lemma_json_of_object(members: Seq<(Seq<char>, DocumentView)>)
    ensures
        json_of_document(DocumentView::Object(members)) is Object,
        json_of_document(DocumentView::Object(members))->Object_0.len() == members.len(),
        forall|i: int|
            0 <= i < members.len() ==> (#[trigger] json_of_document(
                DocumentView::Object(members),
            )->Object_0[i]) == (members[i].0, json_of_document(members[i].1)),
{
    reveal_with_fuel(json_of_document, 2);
}

/// Convert a provider document into a JSON value.
pub fn document_to_json(doc: Document) -> (value: JsonValue)
    ensures
        value@ == json_of_document(doc@),
        representable(value@),
    decreases doc,
{
    match doc {
        Document::Object(members) => {
            let ghost source = members@;
            proof {
                broadcast use vstd::std_specs::vec::axiom_vec_decreases_to_view;

                assert forall|k: int| 0 <= k < source.len() implies decreases_to!(doc => (#[trigger] source[k]).1) by {
                    assert(decreases_to!(doc => members));
                    assert(decreases_to!(members => members@));
                    assert(decreases_to!(source => source[k]));
                    assert(decreases_to!(source[k] => source[k].1));
                }
            }
            let mut values: Vec<(String, JsonValue)> = Vec::new();
            for member in iter: members
                invariant
                    iter.seq() == source,
                    forall|k: int|
                        0 <= k < source.len() ==> decreases_to!(doc => (#[trigger] source[k]).1),
                    values@.len() == iter.index(),
                    forall|k: int|
                        0 <= k < values@.len() ==> (#[trigger] values@[k]).0@ == source[k].0@
                            && values@[k].1@ == json_of_document(source[k].1@) && representable(
                            values@[k].1@,
                        ),
            {
                let (key, item) = member;
                let value = document_to_json(item);
                values.push((key, value));
            }
            proof {
                Document::lemma_view_object(members);
                JsonValue::lemma_view_object(values);
                lemma_json_of_object(doc@->Object_0);
                assert(JsonValue::Object(values)@->Object_0 =~= json_of_document(doc@)->Object_0);
            }
            JsonValue::Object(values)
        },
        Document::Array(items) => {
            let ghost source = items@;
            proof {
                broadcast use vstd::std_specs::vec::axiom_vec_decreases_to_view;

                assert forall|k: int| 0 <= k < source.len() implies decreases_to!(doc => #[trigger] source[k]) by {
                    assert(decreases_to!(doc => items));
                    assert(decreases_to!(items => items@));
                    assert(decreases_to!(source => source[k]));
                }
            }
            let mut values: Vec<JsonValue> = Vec::new();
            for item in iter: items
                invariant
                    iter.seq() == source,
                    forall|k: int|
                        0 <= k < source.len() ==> decreases_to!(doc => #[trigger] source[k]),
                    values@.len() == iter.index(),
                    forall|k: int|
                        0 <= k < values@.len() ==> (#[trigger] values@[k])@ == json_of_document(
                            source[k]@,
                        ) && representable(values@[k]@),
            {
                let value = document_to_json(item);
                values.push(value);
            }
            proof {
                Document::lemma_view_array(items);
                JsonValue::lemma_view_array(values);
                lemma_json_of_array(doc@->Array_0);
                assert(JsonValue::Array(values)@->Array_0 =~= json_of_document(doc@)->Array_0);
            }
            JsonValue::Array(values)
        },
        Document::Number(Number::PosInt(number)) => JsonValue::Number(JsonNumber::PosInt(number)),
        Document::Number(Number::NegInt(number)) => {
            if number >= 0 {
                JsonValue::Number(JsonNumber::PosInt(number as u64))
            } else {
                JsonValue::Number(JsonNumber::NegInt(number))
            }
        },
        Document::Number(Number::Float(bits)) => {
            if finite_bits(bits) {
                JsonValue::Number(JsonNumber::Float(bits))
            } else {
                JsonValue::Null
            }
        },
        Document::String(s) => JsonValue::String(s),
        Document::Bool(b) => JsonValue::Bool(b),
        Document::Null => JsonValue::Null,
    }
}

/// True of a JSON value that a document can carry without loss: every
/// integer in it fits in 64 bits, signed or unsigned, and every float is
/// finite.
pub open spec fn representable(value: JsonView) -> bool
    decreases value,
{
    match value {
        JsonView::Int(i) => i64::MIN <= i <= u64::MAX,
        JsonView::Float(bits) => is_finite_bits(bits),
        JsonView::Array(items) => forall|i: int|
            0 <= i < items.len() ==> representable(#[trigger] items[i]),
        JsonView::Object(members) => forall|i: int|
            0 <= i < members.len() ==> representable((#[trigger] members[i]).1),
        _ => true,
    }
}

/// Writing a JSON value as a document and reading the document back gives
/// the value again, members in their order, for every value whose integers
/// fit in 64 bits and whose floats are finite. An integer comes back as an
/// integer and a float as a float.
pub proof fn lemma_json_round_trip(value: JsonView)
    requires
        representable(value),
    ensures
        json_of_document(document_of_json(value)) == value,
    decreases value,
{
    match value {
        JsonView::Array(items) => {
            lemma_document_of_array(items);
            let documents = document_of_json(value)->Array_0;
            lemma_json_of_array(documents);
            assert forall|i: int| 0 <= i < items.len() implies json_of_document(
                document_of_json(items[i]),
            ) == items[i] by {
                lemma_json_round_trip(items[i]);
            }
            assert(json_of_document(document_of_json(value))->Array_0 =~= items);
        },
        JsonView::Object(members) => {
            lemma_document_of_object(members);
            let documents = document_of_json(value)->Object_0;
            lemma_json_of_object(documents);
            assert forall|i: int| 0 <= i < members.len() implies json_of_document(
                document_of_json(members[i].1),
            ) == members[i].1 by {
                lemma_json_round_trip(members[i].1);
            }
            assert(json_of_document(document_of_json(value))->Object_0 =~= members);
        },
        _ => {},
    }
}

/// A negative integer is written in the negative-integer variant, zero and
/// a positive integer in the positive-integer variant, and a float in the
/// float variant, with the same value.
pub proof fn lemma_number_classification(i: int, bits: u64)
    requires
        i64::MIN <= i <= u64::MAX,
    ensures
        i < 0 ==> document_of_json(JsonView::Int(i)) == DocumentView::NegInt(i as i64),
        i >= 0 ==> document_of_json(JsonView::Int(i)) == DocumentView::PosInt(i as u64),
        document_of_json(JsonView::Float(bits)) == DocumentView::Float(bits),
{
}

/// A float that is an infinity or a NaN is read as null, whatever its sign
/// and payload; a finite one is read as itself.
pub proof fn lemma_non_finite_float_is_null(bits: u64)
    ensures
        !is_finite_bits(bits) ==> json_of_document(DocumentView::Float(bits)) == JsonView::Null,
        is_finite_bits(bits) ==> json_of_document(DocumentView::Float(bits)) == JsonView::Float(
            bits,
        ),
{
}


/// A JSON value in which no object names a member twice is written as a
/// document in which none does.
pub proof fn lemma_document_keeps_keys_distinct(value: JsonView)
    requires
        value.keys_distinct(),
    ensures
        document_of_json(value).keys_distinct(),
    decreases value,
{
    match value {
        JsonView::Array(items) => {
            lemma_document_of_array(items);
            let documents = document_of_json(value)->Array_0;
            assert forall|i: int| 0 <= i < documents.len() implies (#[trigger] documents[i]).keys_distinct() by {
                assert(items[i].keys_distinct());
                lemma_document_keeps_keys_distinct(items[i]);
            }
        },
        JsonView::Object(members) => {
            lemma_document_of_object(members);
            let documents = document_of_json(value)->Object_0;
            assert forall|i: int| 0 <= i < documents.len() implies (#[trigger] documents[i]).1.keys_distinct() by {
                assert(members[i].1.keys_distinct());
                lemma_document_keeps_keys_distinct(members[i].1);
            }
            assert forall|i: int, j: int| 0 <= i < j < documents.len() implies (#[trigger] documents[i]).0 != (#[trigger] documents[j]).0 by {
                assert(members[i].0 != members[j].0);
            }
        },
        _ => {},
    }
}

/// A document in which no object names a member twice is read as a JSON
/// value in which none does.
pub proof fn lemma_json_keeps_keys_distinct(document: DocumentView)
    requires
        document.keys_distinct(),
    ensures
        json_of_document(document).keys_distinct(),
    decreases document,
{
    match document {
        DocumentView::Array(items) => {
            lemma_json_of_array(items);
            let values = json_of_document(document)->Array_0;
            assert forall|i: int| 0 <= i < values.len() implies (#[trigger] values[i]).keys_distinct() by {
                assert(items[i].keys_distinct());
                lemma_json_keeps_keys_distinct(items[i]);
            }
        },
        DocumentView::Object(members) => {
            lemma_json_of_object(members);
            let values = json_of_document(document)->Object_0;
            assert forall|i: int| 0 <= i < values.len() implies (#[trigger] values[i]).1.keys_distinct() by {
                assert(members[i].1.keys_distinct());
                lemma_json_keeps_keys_distinct(members[i].1);
            }
            assert forall|i: int, j: int| 0 <= i < j < values.len() implies (#[trigger] values[i]).0 != (#[trigger] values[j]).0 by {
                assert(members[i].0 != members[j].0);
            }
        },
        _ => {},
    }
}


/// True of a document that reading does not change: every integer stands
/// in the variant of its sign, zero with the positive ones, and every float
/// is finite.
pub open spec fn canonical(document: DocumentView) -> bool
    decreases document,
{
    match document {
        DocumentView::NegInt(i) => i < 0,
        DocumentView::Float(bits) => is_finite_bits(bits),
        DocumentView::Array(items) => forall|i: int|
            0 <= i < items.len() ==> canonical(#[trigger] items[i]),
        DocumentView::Object(members) => forall|i: int|
            0 <= i < members.len() ==> canonical((#[trigger] members[i]).1),
        _ => true,
    }
}

/// Reading a canonical document as JSON and writing the JSON back gives the
/// document again, members in their order.
pub proof fn lemma_document_round_trip(document: DocumentView)
    requires
        canonical(document),
    ensures
        document_of_json(json_of_document(document)) == document,
    decreases document,
{
    match document {
        DocumentView::Array(items) => {
            lemma_json_of_array(items);
            let values = json_of_document(document)->Array_0;
            lemma_document_of_array(values);
            assert forall|i: int| 0 <= i < items.len() implies document_of_json(
                json_of_document(items[i]),
            ) == items[i] by {
                lemma_document_round_trip(items[i]);
            }
            assert(document_of_json(json_of_document(document))->Array_0 =~= items);
        },
        DocumentView::Object(members) => {
            lemma_json_of_object(members);
            let values = json_of_document(document)->Object_0;
            lemma_document_of_object(values);
            assert forall|i: int| 0 <= i < members.len() implies document_of_json(
                json_of_document(members[i].1),
            ) == members[i].1 by {
                lemma_document_round_trip(members[i].1);
            }
            assert(document_of_json(json_of_document(document))->Object_0 =~= members);
        },
        _ => {},
    }
}

/// Every document written from a representable JSON value is canonical.
pub proof fn lemma_written_document_is_canonical(value: JsonView)
    requires
        representable(value),
    ensures
        canonical(document_of_json(value)),
    decreases value,
{
    match value {
        JsonView::Array(items) => {
            lemma_document_of_array(items);
            let documents = document_of_json(value)->Array_0;
            assert forall|i: int| 0 <= i < documents.len() implies canonical(
                #[trigger] documents[i],
            ) by {
                assert(representable(items[i]));
                lemma_written_document_is_canonical(items[i]);
            }
        },
        JsonView::Object(members) => {
            lemma_document_of_object(members);
            let documents = document_of_json(value)->Object_0;
            assert forall|i: int| 0 <= i < documents.len() implies canonical(
                (#[trigger] documents[i]).1,
            ) by {
                assert(representable(members[i].1));
                lemma_written_document_is_canonical(members[i].1);
            }
        },
        _ => {},
    }
}

} // verus!
