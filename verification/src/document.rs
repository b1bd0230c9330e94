//! Schema-less documents and their conversion to JSON values.

use crate::json::{
    array_value, bool_value, holds_float, holds_null, insert_member, json_of, json_of_each, keys,
    member, members_of, new_members, no_members, null_value, object_value, signed_value,
    string_value, unsigned_value, Json,
};
use vstd::prelude::*;

verus! {

/// A floating-point number, held as the JSON value that encodes it.
///
/// The library does no floating-point arithmetic. A caller encodes the number
/// with `serde_json::Value::from`, which gives a floating-point JSON number,
/// or null for a number that JSON cannot write (NaN and the infinities), and
/// the library places that value where the number belongs.
#[derive(Debug, PartialEq)]
pub struct Float {
    encoded: serde_json::Value,
}

/// A number in a document, of one of three kinds.
#[derive(Debug, PartialEq)]
pub enum Number {
    /// A non-negative integer.
    PosInt(u64),
    /// A negative integer.
    NegInt(i64),
    /// A floating-point number.
    Float(Float),
}

/// A self-describing value: a mapping, a sequence, a number, a string, a
/// boolean or null.
///
/// The members of an object are kept as a list of pairs. Read as a mapping,
/// a key that occurs more than once is bound to the value of its last
/// occurrence.
#[derive(Debug, PartialEq)]
pub enum Document {
    Object(Vec<(String, Document)>),
    Array(Vec<Document>),
    Number(Number),
    String(String),
    Bool(bool),
    Null,
}

/// Whether a JSON value can encode a floating-point number: it is a
/// floating-point number, or null.
pub open spec fn is_float_encoding(value: Json) -> bool {
    value is Float || value is Null
}

/// The mapping that a list of members denotes: each key bound to the value
/// paired with its last occurrence.
pub open spec fn member_map(pairs: Seq<(Seq<char>, Json)>) -> Map<Seq<char>, Json>
    decreases pairs.len(),
{
    if pairs.len() == 0 {
        no_members()
    } else {
        member_map(pairs.drop_last()).insert(pairs.last().0, pairs.last().1)
    }
}

impl View for Float {
    type V = Json;

    /// What the encoding holds.
    closed spec fn view(&self) -> Json {
        json_of(self.encoded)
    }
}

impl Clone for Float {
    /// A copy with the same encoding.
    fn clone(&self) -> (copy: Self)
        ensures
            copy@ == self@,
    {
        proof {
            use_type_invariant(self);
        }
        Float { encoded: self.encoded.clone() }
    }
}

impl Float {
    /// An encoding holds a floating-point number or null, nothing else.
    #[verifier::type_invariant]
    spec fn well_formed(self) -> bool {
        is_float_encoding(json_of(self.encoded))
    }

    /// Takes the encoding of a floating-point number. Any other value is
    /// turned down.
    pub fn from_encoded(encoded: serde_json::Value) -> (float: Option<Float>)
        ensures
            float is Some <==> is_float_encoding(json_of(encoded)),
            float matches Some(f) ==> f@ == json_of(encoded),
    {
        if holds_float(&encoded) || holds_null(&encoded) {
            Some(Float { encoded })
        } else {
            None
        }
    }

    /// The encoding.
    pub fn encoded(&self) -> (encoded: &serde_json::Value)
        ensures
            json_of(*encoded) == self@,
            is_float_encoding(self@),
    {
        proof {
            use_type_invariant(self);
        }
        &self.encoded
    }
}

impl View for Number {
    type V = Json;

    /// The JSON number with the same value: an integer for both integer
    /// kinds, sign included, and what its encoding holds for a float.
    open spec fn view(&self) -> Json {
        match *self {
            Number::PosInt(n) => Json::Int(n as int),
            Number::NegInt(n) => Json::Int(n as int),
            Number::Float(f) => f@,
        }
    }
}

/// The JSON value that a document denotes, variant by variant.
pub open spec fn document_json(doc: Document) -> Json
    decreases doc,
{
    match doc {
        Document::Object(members) => Json::Object(member_map(member_pairs(members@))),
        Document::Array(items) => Json::List(item_list(items@)),
        Document::Number(n) => n@,
        Document::String(s) => Json::Text(s@),
        Document::Bool(b) => Json::Bool(b),
        Document::Null => Json::Null,
    }
}

/// What each document of a sequence denotes, in order.
pub open spec fn item_list(items: Seq<Document>) -> Seq<Json>
    decreases items,
{
    Seq::new(
        items.len(),
        |i: int|
            if 0 <= i < items.len() {
                document_json(items[i])
            } else {
                Json::Null
            },
    )
}

/// The members of an object, each key with what its document denotes, in
/// the order of the list.
pub open spec fn member_pairs(members: Seq<(String, Document)>) -> Seq<(Seq<char>, Json)>
    decreases members,
{
    Seq::new(
        members.len(),
        |i: int|
            if 0 <= i < members.len() {
                (members[i].0@, document_json(members[i].1))
            } else {
                (Seq::empty(), Json::Null)
            },
    )
}

impl View for Document {
    type V = Json;

    /// A document is viewed as the JSON value it denotes.
    open spec fn view(&self) -> Json {
        document_json(*self)
    }
}

/// Whether a key occurs in a list of members.
pub open spec fn has_key(pairs: Seq<(Seq<char>, Json)>, key: Seq<char>) -> bool {
    exists|i: int| 0 <= i < pairs.len() && (#[trigger] pairs[i]).0 == key
}

/// Whether no key occurs twice in a list of members.
pub open spec fn distinct_keys(pairs: Seq<(Seq<char>, Json)>) -> bool {
    forall|i: int, j: int|
        0 <= i < j < pairs.len() ==> (#[trigger] pairs[i]).0 != (#[trigger] pairs[j]).0
}

/// The mapping that a list of members denotes has exactly the keys of the
/// list.
pub proof fn lemma_member_map_keys(pairs: Seq<(Seq<char>, Json)>, key: Seq<char>)
    ensures
        member_map(pairs).dom().contains(key) <==> has_key(pairs, key),
    decreases pairs.len(),
{
    if pairs.len() > 0 {
        let front = pairs.drop_last();
        lemma_member_map_keys(front, key);
        if has_key(front, key) {
            let i = choose|i: int| 0 <= i < front.len() && (#[trigger] front[i]).0 == key;
            assert(pairs[i].0 == key);
        }
        if has_key(pairs, key) {
            let i = choose|i: int| 0 <= i < pairs.len() && (#[trigger] pairs[i]).0 == key;
            if i < front.len() {
                assert(front[i].0 == key);
            }
        }
        if pairs.last().0 == key {
            assert(pairs[pairs.len() - 1].0 == key);
        }
    }
}

/// A key is bound to the value paired with its last occurrence in the list.
pub proof fn lemma_member_map_last_wins(pairs: Seq<(Seq<char>, Json)>, i: int)
    requires
        0 <= i < pairs.len(),
        forall|j: int| i < j < pairs.len() ==> (#[trigger] pairs[j]).0 != pairs[i].0,
    ensures
        member_map(pairs).dom().contains(pairs[i].0),
        member_map(pairs)[pairs[i].0] == pairs[i].1,
    decreases pairs.len(),
{
    if i < pairs.len() - 1 {
        let front = pairs.drop_last();
        assert(pairs[pairs.len() - 1].0 != pairs[i].0);
        assert forall|j: int| i < j < front.len() implies (#[trigger] front[j]).0 != front[i].0 by {
            assert(pairs[j].0 != pairs[i].0);
        }
        lemma_member_map_last_wins(front, i);
    }
}

/// The order of the members of an object carries no meaning: two lists in
/// which no key occurs twice and which hold the same members, in whatever
/// order, denote the same mapping.
pub proof fn lemma_member_order_irrelevant(
    left: Seq<(Seq<char>, Json)>,
    right: Seq<(Seq<char>, Json)>,
)
    requires
        distinct_keys(left),
        distinct_keys(right),
        forall|pair: (Seq<char>, Json)| left.contains(pair) <==> right.contains(pair),
    ensures
        member_map(left) == member_map(right),
{
    assert forall|key: Seq<char>| #[trigger]
        member_map(left).dom().contains(key) implies member_map(right).dom().contains(key)
        && member_map(left)[key] == member_map(right)[key] by {
        lemma_member_map_keys(left, key);
        let i = choose|i: int| 0 <= i < left.len() && (#[trigger] left[i]).0 == key;
        assert(left.contains(left[i]));
        assert(right.contains(left[i]));
        let j = choose|j: int| 0 <= j < right.len() && right[j] == left[i];
        lemma_member_map_last_wins(left, i);
        lemma_member_map_last_wins(right, j);
    }
    assert forall|key: Seq<char>| #[trigger]
        member_map(right).dom().contains(key) implies member_map(left).dom().contains(key) by {
        lemma_member_map_keys(right, key);
        let j = choose|j: int| 0 <= j < right.len() && (#[trigger] right[j]).0 == key;
        assert(right.contains(right[j]));
        assert(left.contains(right[j]));
        let i = choose|i: int| 0 <= i < left.len() && left[i] == right[j];
        lemma_member_map_last_wins(left, i);
    }
    assert(member_map(left) =~= member_map(right));
}

/// Each kind of document denotes its own kind of JSON value, with the same
/// content; an array denotes the list of what its elements denote, in their
/// order.
pub proof fn lemma_document_kinds(doc: Document)
    ensures
        doc is Object ==> doc@ is Object,
        doc is Array ==> doc@ is List && doc@->List_0.len() == doc->Array_0@.len(),
        doc is Array ==> forall|i: int|
            0 <= i < doc->Array_0@.len() ==> doc@->List_0[i] == (#[trigger] doc->Array_0@[i])@,
        doc matches Document::Number(Number::PosInt(n)) ==> doc@ == Json::Int(n as int),
        doc matches Document::Number(Number::NegInt(n)) ==> doc@ == Json::Int(n as int),
        doc matches Document::String(s) ==> doc@ == Json::Text(s@),
        doc matches Document::Bool(b) ==> doc@ == Json::Bool(b),
        doc is Null ==> doc@ is Null,
{
}

/// The JSON object that an object denotes has exactly the keys of its
/// members, each bound to what the document of its last occurrence denotes.
pub proof fn lemma_object_members(doc: Document, i: int)
    requires
        doc is Object,
        0 <= i < doc->Object_0@.len(),
    ensures
        keys(doc@).contains(doc->Object_0@[i].0@),
        (forall|j: int|
            i < j < doc->Object_0@.len() ==> (#[trigger] doc->Object_0@[j]).0@
                != doc->Object_0@[i].0@) ==> member(doc@, doc->Object_0@[i].0@) == Some(
            doc->Object_0@[i].1@,
        ),
        forall|key: Seq<char>| #[trigger]
            keys(doc@).contains(key) <==> has_key(member_pairs(doc->Object_0@), key),
{
    let pairs = member_pairs(doc->Object_0@);
    assert(pairs[i].0 == doc->Object_0@[i].0@);
    lemma_member_map_keys(pairs, pairs[i].0);
    if forall|j: int|
        i < j < doc->Object_0@.len() ==> (#[trigger] doc->Object_0@[j]).0@ != doc->Object_0@[i].0@ {
        assert forall|j: int| i < j < pairs.len() implies (#[trigger] pairs[j]).0 != pairs[i].0 by {
            assert(doc->Object_0@[j].0@ != doc->Object_0@[i].0@);
        }
        lemma_member_map_last_wins(pairs, i);
    }
    assert forall|key: Seq<char>| #[trigger]
        keys(doc@).contains(key) <==> has_key(pairs, key) by {
        lemma_member_map_keys(pairs, key);
    }
}

/// Two objects in which no key occurs twice and which hold the same
/// members, in whatever order, denote the same JSON object.
pub proof fn lemma_object_order_irrelevant(left: Document, right: Document)
    requires
        left is Object,
        right is Object,
        distinct_keys(member_pairs(left->Object_0@)),
        distinct_keys(member_pairs(right->Object_0@)),
        forall|pair: (Seq<char>, Json)|
            member_pairs(left->Object_0@).contains(pair) <==> member_pairs(
                right->Object_0@,
            ).contains(pair),
    ensures
        left@ == right@,
{
    lemma_member_order_irrelevant(
        member_pairs(left->Object_0@),
        member_pairs(right->Object_0@),
    );
}

/// Taking one more member into a list of members binds its key in the
/// mapping that the list denotes.
pub proof fn lemma_member_map_push(pairs: Seq<(Seq<char>, Json)>, n: int)
    requires
        0 <= n < pairs.len(),
    ensures
        member_map(pairs.take(n + 1)) == member_map(pairs.take(n)).insert(pairs[n].0, pairs[n].1),
{
    assert(pairs.take(n + 1).drop_last() == pairs.take(n));
}

/// Converts a number to the JSON number with the same value: an integer to
/// an integer number, a float to its encoding.
pub fn number_to_value(number: &Number) -> (value: serde_json::Value)
    ensures
        json_of(value) == number@,
        number is Float ==> is_float_encoding(json_of(value)),
{
    match number {
        Number::PosInt(n) => unsigned_value(*n),
        Number::NegInt(n) => signed_value(*n),
        Number::Float(f) => f.encoded().clone(),
    }
}

/// Converts a document to the JSON value it denotes.
///
/// An object becomes a JSON object with a member for each key, an array a
/// JSON array with its elements in their order, and a number, a string, a
/// boolean and null the JSON value of the same kind and content; a float
/// that JSON cannot write becomes null. The conversion cannot fail.
pub fn document_to_value(doc: &Document) -> (value: serde_json::Value)
    ensures
        json_of(value) == doc@,
        doc matches Document::Number(Number::Float(_)) ==> is_float_encoding(json_of(value)),
    decreases doc,
{
    match doc {
        Document::Object(members) => {
            let mut object = new_members();
            let mut i: usize = 0;
            while i < members.len()
                invariant
                    i <= members.len(),
                    *doc == Document::Object(*members),
                    members_of(object) == member_map(member_pairs(members@).take(i as int)),
                decreases members.len() - i,
            {
                let member = &members[i];
                assert(decreases_to!(doc => doc->Object_0));
                let value = document_to_value(&member.1);
                proof {
                    lemma_member_map_push(member_pairs(members@), i as int);
                }
                insert_member(&mut object, member.0.clone(), value);
                i += 1;
            }
            assert(member_pairs(members@).take(i as int) == member_pairs(members@));
            object_value(object)
        },
        Document::Array(items) => {
            let mut values: Vec<serde_json::Value> = Vec::new();
            let mut i: usize = 0;
            while i < items.len()
                invariant
                    i <= items.len(),
                    *doc == Document::Array(*items),
                    values@.len() == i,
                    json_of_each(values@) == item_list(items@).take(i as int),
                decreases items.len() - i,
            {
                assert(decreases_to!(doc => doc->Array_0));
                let value = document_to_value(&items[i]);
                let ghost before = values@;
                values.push(value);
                i += 1;
                assert forall|j: int| 0 <= j < i implies json_of_each(values@)[j] == item_list(
                    items@,
                ).take(i as int)[j] by {
                    if j < i - 1 {
                        assert(json_of_each(before)[j] == item_list(items@).take(i - 1)[j]);
                    }
                }
                assert(json_of_each(values@) =~= item_list(items@).take(i as int));
            }
            assert(item_list(items@).take(i as int) == item_list(items@));
            array_value(values)
        },
        Document::Number(n) => number_to_value(n),
        Document::String(s) => string_value(s.clone()),
        Document::Bool(b) => bool_value(*b),
        Document::Null => null_value(),
    }
}

impl Clone for Number {
    /// A copy of the same kind and value.
    fn clone(&self) -> (copy: Self)
        ensures
            copy@ == self@,
            copy is PosInt <==> self is PosInt,
            copy is NegInt <==> self is NegInt,
    {
        match self {
            Number::PosInt(n) => Number::PosInt(*n),
            Number::NegInt(n) => Number::NegInt(*n),
            Number::Float(f) => Number::Float(f.clone()),
        }
    }
}

} // verus!
