//! JSON documents as plain values. Text is turned into a [`Json`] and back by
//! serde_json, behind the two wrappers at the end; the logic here reads and
//! edits the value.

use vstd::prelude::*;
use crate::text::equals_literal;

verus! {

/// A JSON value. Numbers are kept as their decimal text; an object is its
/// members in order.
pub enum Json {
    Null,
    Bool(bool),
    Number(String),
    Str(String),
    Array(Vec<Json>),
    Object(Vec<(String, Json)>),
}

/// The mathematical value of a JSON document: strings taken by their views.
pub enum JsonView {
    Null,
    Bool(bool),
    Number(Seq<char>),
    Str(Seq<char>),
    Array(Seq<JsonView>),
    Object(Seq<(Seq<char>, JsonView)>),
}

/// The mathematical value of `j`.
pub open spec fn json_view(j: Json) -> JsonView
    decreases j,
{
    match j {
        Json::Null => JsonView::Null,
        Json::Bool(b) => JsonView::Bool(b),
        Json::Number(t) => JsonView::Number(t@),
        Json::Str(t) => JsonView::Str(t@),
        Json::Array(a) => JsonView::Array(
            Seq::new(
                a@.len(),
                |i: int|
                    if 0 <= i < a@.len() {
                        json_view(a@[i])
                    } else {
                        JsonView::Null
                    },
            ),
        ),
        Json::Object(f) => JsonView::Object(
            Seq::new(
                f@.len(),
                |i: int|
                    if 0 <= i < f@.len() {
                        (f@[i].0@, json_view(f@[i].1))
                    } else {
                        (Seq::empty(), JsonView::Null)
                    },
            ),
        ),
    }
}

/// The values of the members `f`, names taken by their views.
pub open spec fn member_views(f: Seq<(String, Json)>) -> Seq<(Seq<char>, JsonView)> {
    Seq::new(f.len(), |i: int| (f[i].0@, json_view(f[i].1)))
}

/// The value of an object is the values of its members.
pub proof fn lemma_object_view(f: Vec<(String, Json)>)
    ensures
        json_view(Json::Object(f)) == JsonView::Object(member_views(f@)),
{
    assert(json_view(Json::Object(f))->Object_0 =~= member_views(f@));
}

/// The value of the first member named `key`, if any.
pub open spec fn lookup(fields: Seq<(String, Json)>, key: Seq<char>) -> Option<Json>
    decreases fields.len(),
{
    if fields.len() == 0 {
        None
    } else if fields[0].0@ == key {
        Some(fields[0].1)
    } else {
        lookup(fields.drop_first(), key)
    }
}

/// The members of an object; none for any other value.
pub open spec fn members(doc: Json) -> Seq<(String, Json)> {
    match doc {
        Json::Object(f) => f@,
        _ => Seq::empty(),
    }
}

/// The member `key` of `doc` when `doc` is an object (`Value::get`).
pub open spec fn get(doc: Json, key: Seq<char>) -> Option<Json> {
    match doc {
        Json::Object(f) => lookup(f@, key),
        _ => None,
    }
}

/// The members of `fields` not named `key`, in order.
pub open spec fn without_key(fields: Seq<(String, Json)>, key: Seq<char>) -> Seq<(String, Json)>
    decreases fields.len(),
{
    if fields.len() == 0 {
        fields
    } else {
        let rest = without_key(fields.drop_last(), key);
        if fields.last().0@ == key {
            rest
        } else {
            rest.push(fields.last())
        }
    }
}

/// Looking past the first `i` members, none of which is named `key`.
pub proof fn lemma_lookup_skip(fields: Seq<(String, Json)>, key: Seq<char>, i: int)
    requires
        0 <= i <= fields.len(),
        forall|j: int| 0 <= j < i ==> (#[trigger] fields[j]).0@ != key,
    ensures
        lookup(fields, key) == lookup(fields.skip(i), key),
    decreases i,
{
    if i == 0 {
        assert(fields.skip(0) =~= fields);
    } else {
        let t = fields.drop_first();
        assert forall|j: int| 0 <= j < i - 1 implies (#[trigger] t[j]).0@ != key by {
            assert(t[j] == fields[j + 1]);
        }
        lemma_lookup_skip(t, key, i - 1);
        assert(t.skip(i - 1) =~= fields.skip(i));
    }
}

/// A member appended at the end is found only when no earlier one has its
/// name.
pub proof fn lemma_lookup_push(fields: Seq<(String, Json)>, e: (String, Json), key: Seq<char>)
    ensures
        lookup(fields.push(e), key) == (if lookup(fields, key) is Some {
            lookup(fields, key)
        } else if e.0@ == key {
            Some(e.1)
        } else {
            None
        }),
    decreases fields.len(),
{
    if fields.len() == 0 {
        assert(fields.push(e)[0] == e);
        assert(fields.push(e).drop_first() =~= Seq::<(String, Json)>::empty());
        assert(lookup(fields.push(e).drop_first(), key) is None);
        assert(lookup(fields, key) is None);
    } else {
        assert(fields.push(e)[0] == fields[0]);
        assert(fields.push(e).drop_first() =~= fields.drop_first().push(e));
        lemma_lookup_push(fields.drop_first(), e, key);
    }
}

/// Dropping the members named `key` leaves every other lookup as it was, and
/// `key` unfound.
pub proof fn lemma_lookup_without(fields: Seq<(String, Json)>, key: Seq<char>, other: Seq<char>)
    ensures
        other != key ==> lookup(without_key(fields, key), other) == lookup(fields, other),
        lookup(without_key(fields, key), key) is None,
    decreases fields.len(),
{
    if fields.len() > 0 {
        let init = fields.drop_last();
        lemma_lookup_without(init, key, other);
        lemma_lookup_push(without_key(init, key), fields.last(), other);
        lemma_lookup_push(without_key(init, key), fields.last(), key);
        lemma_lookup_push(init, fields.last(), other);
        assert(init.push(fields.last()) =~= fields);
    }
}

/// Dropping the members named `key` twice drops no more than once, and a
/// member named `key` at the end is dropped with the rest.
pub proof fn lemma_without_key_idempotent(fields: Seq<(String, Json)>, key: Seq<char>, e: (String, Json))
    ensures
        without_key(without_key(fields, key), key) == without_key(fields, key),
        e.0@ == key ==> without_key(fields.push(e), key) == without_key(fields, key),
    decreases fields.len(),
{
    assert(fields.push(e).drop_last() =~= fields);
    if fields.len() > 0 {
        let init = fields.drop_last();
        lemma_without_key_idempotent(init, key, fields.last());
        let w = without_key(init, key);
        if fields.last().0@ != key {
            assert(w.push(fields.last()).drop_last() =~= w);
        }
    }
}

/// The value of the member named `key`, if any.
pub fn get_member<'a>(fields: &'a Vec<(String, Json)>, key: &str) -> (r: Option<&'a Json>)
    ensures
        match (r, lookup(fields@, key@)) {
            (Some(a), Some(b)) => *a == b,
            (None, None) => true,
            _ => false,
        },
{
    let mut i: usize = 0;
    while i < fields.len()
        invariant
            i <= fields@.len(),
            forall|j: int| 0 <= j < i ==> (#[trigger] fields@[j]).0@ != key@,
        decreases fields@.len() - i,
    {
        if equals_literal(&fields[i].0, key) {
            proof {
                lemma_lookup_skip(fields@, key@, i as int);
                assert(fields@.skip(i as int)[0] == fields@[i as int]);
            }
            return Some(&fields[i].1);
        }
        i = i + 1;
    }
    proof {
        lemma_lookup_skip(fields@, key@, i as int);
    }
    None
}

/// Drop the members named `key`, keeping the others in order.
pub fn remove_member(fields: Vec<(String, Json)>, key: &str) -> (r: Vec<(String, Json)>)
    ensures
        r@ == without_key(fields@, key@),
{
    let ghost orig = fields@;
    let mut rest = fields;
    let n = rest.len();
    let mut out: Vec<(String, Json)> = Vec::new();
    let mut i: usize = 0;
    while rest.len() > 0
        invariant
            i <= orig.len(),
            orig.len() == n,
            rest@ == orig.skip(i as int),
            out@ == without_key(orig.take(i as int), key@),
        decreases rest@.len(),
    {
        let e = rest.remove(0);
        proof {
            assert(orig.take(i + 1).drop_last() =~= orig.take(i as int));
            assert(orig.take(i + 1).last() == orig[i as int]);
            assert(rest@ =~= orig.skip(i + 1));
        }
        if !equals_literal(&e.0, key) {
            out.push(e);
        }
        i = i + 1;
    }
    assert(orig.take(i as int) =~= orig);
    out
}

#[verifier::external_type_specification]
#[verifier::external_body]
pub struct ExJsonValue(serde_json::Value);

/// What `serde_json::from_str::<serde_json::Value>` makes of `text`: the
/// document, or the parser's error message (its `Display` text).
pub uninterp spec fn json_of_text(text: Seq<char>) -> Result<Json, Seq<char>>;

/// What `serde_json::to_string` makes of a document with value `doc` (held
/// as a `serde_json::Value`): the text, or the error message.
pub uninterp spec fn json_render(doc: JsonView) -> Result<Seq<char>, Seq<char>>;

/// Converts a `serde_json::Value` into a [`Json`], member for member, in the
/// order the value's map holds them. Part of [`parse_json`].
#[verifier::external_body]
fn json_of_value(v: &serde_json::Value) -> Json {
    match v {
        serde_json::Value::Null => Json::Null,
        serde_json::Value::Bool(b) => Json::Bool(*b),
        serde_json::Value::Number(n) => Json::Number(n.to_string()),
        serde_json::Value::String(t) => Json::Str(t.clone()),
        serde_json::Value::Array(a) => Json::Array(a.iter().map(json_of_value).collect()),
        serde_json::Value::Object(m) => Json::Object(m.iter().map(|(k, x)| (k.clone(), json_of_value(x))).collect()),
    }
}

/// Converts a [`Json`] into a `serde_json::Value`; a number is read back from
/// its text with `serde_json::from_str`. Part of [`render_json`].
#[verifier::external_body]
fn value_of_json(j: &Json) -> Result<serde_json::Value, String> {
    Ok(match j {
        Json::Null => serde_json::Value::Null,
        Json::Bool(b) => serde_json::Value::Bool(*b),
        Json::Number(t) => serde_json::from_str(t).map_err(|e: serde_json::Error| e.to_string())?,
        Json::Str(t) => serde_json::Value::String(t.clone()),
        Json::Array(a) => serde_json::Value::Array(a.iter().map(value_of_json).collect::<Result<_, String>>()?),
        Json::Object(f) => serde_json::Value::Object(f.iter().map(|(k, x)| value_of_json(x).map(|y| (k.clone(), y))).collect::<Result<_, String>>()?),
    })
}

/// Calls `serde_json::from_str::<serde_json::Value>` on `text` and holds the
/// result as a [`Json`]. The contract claims that this is the parser's answer
/// for `text` alone: the document, or the error's text.
#[verifier::external_body]
pub(crate) fn parse_json(text: &str) -> (r: Result<Json, String>)
    ensures
        match (r, json_of_text(text@)) {
            (Ok(a), Ok(b)) => a == b,
            (Err(a), Err(b)) => a@ == b,
            _ => false,
        },
{
    match serde_json::from_str::<serde_json::Value>(text) {
        Ok(v) => Ok(json_of_value(&v)),
        Err(e) => Err(e.to_string()),
    }
}

/// Calls `serde_json::to_string` on `doc` held as a `serde_json::Value`. The
/// contract claims that this is the crate's answer for `doc` alone.
#[verifier::external_body]
pub(crate) fn render_json(doc: &Json) -> (r: Result<String, String>)
    ensures
        match (r, json_render(json_view(*doc))) {
            (Ok(a), Ok(b)) => a@ == b,
            (Err(a), Err(b)) => a@ == b,
            _ => false,
        },
{
    serde_json::to_string(&value_of_json(doc)?).map_err(|e| e.to_string())
}

} // verus!
