//! The generic configuration tree (mapping / array / scalar) and read access
//! along keys. Decoding and encoding text is serde_json's and serde_yaml's
//! work, reached through the trusted functions at the end of this file.

use vstd::prelude::*;

verus! {

/// A JSON number as the decoder classified it. A number with a fraction or an
/// exponent is kept as the decoder's own text for it.
#[derive(Debug, Clone, PartialEq)]
pub enum JsonNumber {
    PosInt(u64),
    NegInt(i64),
    Fractional(String),
}

/// A decoded configuration document. An object keeps its members in order;
/// when a key occurs twice the later member is the one that counts.
#[derive(Debug)]
pub enum JsonValue {
    Null,
    Bool(bool),
    Number(JsonNumber),
    Str(String),
    Array(Vec<JsonValue>),
    Object(Vec<(String, JsonValue)>),
}

/// The value of the last member named `k`.
pub open spec fn lookup(es: Seq<(String, JsonValue)>, k: Seq<char>) -> Option<JsonValue>
    decreases es.len(),
{
    if es.len() == 0 {
        None
    } else if es.last().0@ == k {
        Some(es.last().1)
    } else {
        lookup(es.drop_last(), k)
    }
}

/// Index of the last member named `k`.
pub open spec fn key_index(es: Seq<(String, JsonValue)>, k: Seq<char>) -> Option<int>
    decreases es.len(),
{
    if es.len() == 0 {
        None
    } else if es.last().0@ == k {
        Some(es.len() - 1)
    } else {
        key_index(es.drop_last(), k)
    }
}

/// Member `k` of an object; nothing for any other value.
pub open spec fn member(v: JsonValue, k: Seq<char>) -> Option<JsonValue> {
    match v {
        JsonValue::Object(es) => lookup(es@, k),
        _ => None,
    }
}

/// Member `k` of an optional value.
pub open spec fn get(o: Option<JsonValue>, k: Seq<char>) -> Option<JsonValue> {
    match o {
        Some(v) => member(v, k),
        None => None,
    }
}

pub open spec fn as_text(o: Option<JsonValue>) -> Option<Seq<char>> {
    match o {
        Some(JsonValue::Str(s)) => Some(s@),
        _ => None,
    }
}

pub open spec fn as_flag(o: Option<JsonValue>) -> Option<bool> {
    match o {
        Some(JsonValue::Bool(b)) => Some(b),
        _ => None,
    }
}

pub open spec fn as_u64(o: Option<JsonValue>) -> Option<u64> {
    match o {
        Some(JsonValue::Number(JsonNumber::PosInt(n))) => Some(n),
        _ => None,
    }
}

pub open spec fn is_object(o: Option<JsonValue>) -> bool {
    o matches Some(JsonValue::Object(_))
}

/// The strings among the items, in order; other items are passed over.
pub open spec fn texts_in(items: Seq<JsonValue>) -> Seq<Seq<char>>
    decreases items.len(),
{
    if items.len() == 0 {
        Seq::empty()
    } else {
        match items.last() {
            JsonValue::Str(s) => texts_in(items.drop_last()).push(s@),
            _ => texts_in(items.drop_last()),
        }
    }
}

pub open spec fn as_texts(o: Option<JsonValue>) -> Option<Seq<Seq<char>>> {
    match o {
        Some(JsonValue::Array(items)) => Some(texts_in(items@)),
        _ => None,
    }
}

pub open spec fn items(o: Option<JsonValue>) -> Option<Seq<JsonValue>> {
    match o {
        Some(JsonValue::Array(a)) => Some(a@),
        _ => None,
    }
}

pub open spec fn entries(o: Option<JsonValue>) -> Option<Seq<(String, JsonValue)>> {
    match o {
        Some(JsonValue::Object(es)) => Some(es@),
        _ => None,
    }
}

pub open spec fn deref_opt(o: Option<&JsonValue>) -> Option<JsonValue> {
    match o {
        Some(v) => Some(*v),
        None => None,
    }
}

pub open spec fn texts_view(v: Vec<String>) -> Seq<Seq<char>> {
    v@.map_values(|s: String| s@)
}

pub open spec fn opt_texts_view(o: Option<Vec<String>>) -> Option<Seq<Seq<char>>> {
    match o {
        Some(v) => Some(texts_view(v)),
        None => None,
    }
}

/// Index of the last member named `k`.
pub fn find_key(es: &Vec<(String, JsonValue)>, k: &str) -> (r: Option<usize>)
    ensures
        match r {
            Some(i) => i < es@.len() && lookup(es@, k@) == Some(es@[i as int].1) && es@[i as int].0@
                == k@ && key_index(es@, k@) == Some(i as int),
            None => lookup(es@, k@) is None && key_index(es@, k@) is None,
        },
{
    let mut found: Option<usize> = None;
    let mut i: usize = 0;
    while i < es.len()
        invariant
            i <= es@.len(),
            match found {
                Some(j) => j < i && lookup(es@.subrange(0, i as int), k@) == Some(es@[j as int].1)
                    && es@[j as int].0@ == k@ && key_index(es@.subrange(0, i as int), k@) == Some(
                    j as int,
                ),
                None => lookup(es@.subrange(0, i as int), k@) is None && key_index(
                    es@.subrange(0, i as int),
                    k@,
                ) is None,
            },
        decreases es@.len() - i,
    {
        assert(es@.subrange(0, i as int + 1).drop_last() =~= es@.subrange(0, i as int));
        if crate::text::text_eq(es[i].0.as_str(), k) {
            found = Some(i);
        }
        i = i + 1;
    }
    assert(es@.subrange(0, es@.len() as int) =~= es@);
    found
}

/// Member `k` of an optional value.
pub fn child<'a>(o: Option<&'a JsonValue>, k: &str) -> (r: Option<&'a JsonValue>)
    ensures
        deref_opt(r) == get(deref_opt(o), k@),
{
    match o {
        Some(JsonValue::Object(es)) => match find_key(es, k) {
            Some(i) => Some(&es[i].1),
            None => None,
        },
        _ => None,
    }
}

pub fn text_of(o: Option<&JsonValue>) -> (r: Option<String>)
    ensures
        crate::models::opt_text(r) == as_text(deref_opt(o)),
{
    match o {
        Some(JsonValue::Str(s)) => Some(s.clone()),
        _ => None,
    }
}

pub fn flag_of(o: Option<&JsonValue>) -> (r: Option<bool>)
    ensures
        r == as_flag(deref_opt(o)),
{
    match o {
        Some(JsonValue::Bool(b)) => Some(*b),
        _ => None,
    }
}

pub fn u64_of(o: Option<&JsonValue>) -> (r: Option<u64>)
    ensures
        r == as_u64(deref_opt(o)),
{
    match o {
        Some(JsonValue::Number(JsonNumber::PosInt(n))) => Some(*n),
        _ => None,
    }
}

pub fn items_of<'a>(o: Option<&'a JsonValue>) -> (r: Option<&'a Vec<JsonValue>>)
    ensures
        match r {
            Some(a) => items(deref_opt(o)) == Some(a@),
            None => items(deref_opt(o)) is None,
        },
{
    match o {
        Some(JsonValue::Array(a)) => Some(a),
        _ => None,
    }
}

pub fn entries_of<'a>(o: Option<&'a JsonValue>) -> (r: Option<&'a Vec<(String, JsonValue)>>)
    ensures
        match r {
            Some(es) => entries(deref_opt(o)) == Some(es@),
            None => entries(deref_opt(o)) is None,
        },
{
    match o {
        Some(JsonValue::Object(es)) => Some(es),
        _ => None,
    }
}

/// The strings of an array, in order, other items passed over.
pub fn texts_of(o: Option<&JsonValue>) -> (r: Option<Vec<String>>)
    ensures
        opt_texts_view(r) == as_texts(deref_opt(o)),
{
    match o {
        Some(JsonValue::Array(a)) => {
            let mut out: Vec<String> = Vec::new();
            let mut i: usize = 0;
            while i < a.len()
                invariant
                    i <= a@.len(),
                    texts_view(out) == texts_in(a@.subrange(0, i as int)),
                decreases a@.len() - i,
            {
                let ghost before = out;
                assert(a@.subrange(0, i as int + 1).drop_last() =~= a@.subrange(0, i as int));
                match &a[i] {
                    JsonValue::Str(s) => {
                        out.push(s.clone());
                        assert(texts_view(out) =~= texts_view(before).push(s@));
                    },
                    _ => {},
                }
                i = i + 1;
            }
            assert(a@.subrange(0, a@.len() as int) =~= a@);
            Some(out)
        },
        _ => None,
    }
}

/// Whether the list holds a string equal to `lit`.
pub fn list_has(list: &Vec<String>, lit: &str) -> (r: bool)
    ensures
        r == texts_view(*list).contains(lit@),
{
    let mut i: usize = 0;
    while i < list.len()
        invariant
            i <= list@.len(),
            forall|j: int| 0 <= j < i ==> list@[j]@ != lit@,
        decreases list@.len() - i,
    {
        if crate::text::text_eq(list[i].as_str(), lit) {
            assert(texts_view(*list)[i as int] == lit@);
            return true;
        }
        i = i + 1;
    }
    assert forall|j: int| 0 <= j < texts_view(*list).len() implies texts_view(*list)[j] != lit@ by {}
    false
}

pub fn opt_list_has(o: &Option<Vec<String>>, lit: &str) -> (r: bool)
    ensures
        r == (*o matches Some(l) && texts_view(l).contains(lit@)),
{
    match o {
        Some(l) => list_has(l, lit),
        None => false,
    }
}

// ---------------------------------------------------------------------------
// Decoding and encoding text, by serde_json and serde_yaml.

#[verifier::external_type_specification]
#[verifier::external_body]
pub struct ExJsonValue(serde_json::Value);

#[verifier::external_type_specification]
#[verifier::external_body]
pub struct ExJsonNumber(serde_json::Number);

/// The document that serde_json decodes from a text, if it accepts the text.
pub uninterp spec fn json_decoded(s: Seq<char>) -> Option<JsonValue>;

/// The document that serde_yaml decodes from a text, if it accepts the text.
pub uninterp spec fn yaml_decoded(s: Seq<char>) -> Option<JsonValue>;

/// serde_json's compact text for a document.
pub uninterp spec fn compact_text(v: JsonValue) -> Seq<char>;

/// serde_json's pretty-printed text for a document.
pub uninterp spec fn pretty_text(v: JsonValue) -> Seq<char>;

/// What `str::to_lowercase` makes of a text.
pub uninterp spec fn lower_of(s: Seq<char>) -> Seq<char>;

/// Converts serde_json's number into the library's, variant for variant.
#[verifier::external_body]
fn number_from(n: &serde_json::Number) -> JsonNumber {
    match (n.as_u64(), n.as_i64()) {
        (Some(u), _) => JsonNumber::PosInt(u),
        (None, Some(i)) => JsonNumber::NegInt(i),
        (None, None) => JsonNumber::Fractional(n.to_string()),
    }
}

/// Converts serde_json's number back from the library's form.
#[verifier::external_body]
fn number_to(n: &JsonNumber) -> serde_json::Value {
    match n {
        JsonNumber::PosInt(u) => serde_json::Value::from(*u),
        JsonNumber::NegInt(i) => serde_json::Value::from(*i),
        JsonNumber::Fractional(s) => s.parse::<serde_json::Number>().map(serde_json::Value::Number).unwrap_or(serde_json::Value::Null),
    }
}

/// Converts serde_json's tree into the library's, node for node; object
/// members keep serde_json's order.
#[verifier::external_body]
fn tree_from(v: &serde_json::Value) -> JsonValue {
    match v {
        serde_json::Value::Null => JsonValue::Null,
        serde_json::Value::Bool(b) => JsonValue::Bool(*b),
        serde_json::Value::Number(n) => JsonValue::Number(number_from(n)),
        serde_json::Value::String(s) => JsonValue::Str(s.clone()),
        serde_json::Value::Array(a) => JsonValue::Array(a.iter().map(tree_from).collect()),
        serde_json::Value::Object(m) => JsonValue::Object(m.iter().map(|(k, x)| (k.clone(), tree_from(x))).collect()),
    }
}

/// Converts the library's tree into serde_json's, node for node.
#[verifier::external_body]
fn tree_to(v: &JsonValue) -> serde_json::Value {
    match v {
        JsonValue::Null => serde_json::Value::Null,
        JsonValue::Bool(b) => serde_json::Value::Bool(*b),
        JsonValue::Number(n) => number_to(n),
        JsonValue::Str(s) => serde_json::Value::String(s.clone()),
        JsonValue::Array(a) => serde_json::Value::Array(a.iter().map(tree_to).collect()),
        JsonValue::Object(es) => serde_json::Value::Object(es.iter().map(|(k, x)| (k.clone(), tree_to(x))).collect()),
    }
}

/// Relies on serde_json::from_str into a `serde_json::Value`: the outcome
/// depends on the text alone.
#[verifier::external_body]
pub(crate) fn decode_json(text: &str) -> (r: Result<JsonValue, String>)
    ensures
        match r {
            Ok(v) => json_decoded(text@) == Some(v),
            Err(_) => json_decoded(text@) is None,
        },
{
    match serde_json::from_str::<serde_json::Value>(text) {
        Ok(v) => Ok(tree_from(&v)),
        Err(e) => Err(e.to_string()),
    }
}

/// Relies on serde_yaml::from_str into a `serde_json::Value`: the outcome
/// depends on the text alone.
#[verifier::external_body]
pub(crate) fn decode_yaml(text: &str) -> (r: Result<JsonValue, String>)
    ensures
        match r {
            Ok(v) => yaml_decoded(text@) == Some(v),
            Err(_) => yaml_decoded(text@) is None,
        },
{
    match serde_yaml::from_str::<serde_json::Value>(text) {
        Ok(v) => Ok(tree_from(&v)),
        Err(e) => Err(e.to_string()),
    }
}

/// Relies on serde_json::to_string: the compact text depends on the document
/// alone (serializing a `serde_json::Value` does not fail).
#[verifier::external_body]
pub(crate) fn encode_compact(v: &JsonValue) -> (r: String)
    ensures
        r@ == compact_text(*v),
{
    serde_json::to_string(&tree_to(v)).unwrap_or_default()
}

/// Relies on serde_json::to_string_pretty: the text depends on the document
/// alone (serializing a `serde_json::Value` does not fail).
#[verifier::external_body]
pub(crate) fn encode_pretty(v: &JsonValue) -> (r: String)
    ensures
        r@ == pretty_text(*v),
{
    serde_json::to_string_pretty(&tree_to(v)).unwrap_or_default()
}

/// Relies on str::to_lowercase: the result depends on the characters alone,
/// and an empty text stays empty.
#[verifier::external_body]
pub(crate) fn lowercase(s: &str) -> (r: String)
    ensures
        r@ == lower_of(s@),
{
    s.to_lowercase()
}

} // verus!
