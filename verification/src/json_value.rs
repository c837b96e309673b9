//! The bridge to `serde_json`: the preferences blob is an opaque
//! `serde_json::Value`, and everything the store needs from it goes through
//! the trusted items below. A value's observable in contracts is `json_text`,
//! its single-line serialization, which is a function of the value alone
//! because `serde_json`'s maps are ordered by key; the on-disk document is
//! observed through `pretty_doc_text`, `doc_parses` and `doc_prefs_text`.
use vstd::prelude::*;

verus! {

#[verifier::external_type_specification]
#[verifier::external_body]
pub struct ExValue(serde_json::Value);

/// The text that `serde_json::to_string` produces for a value. With the
/// crate's default map (ordered by key) this is decided by the value alone.
pub uninterp spec fn json_text(v: serde_json::Value) -> Seq<char>;

/// How deeply arrays and objects nest inside a value: a scalar has depth
/// zero, an object or array one more than its deepest member. The parser
/// refuses documents past its own nesting limit, so promises about parsing
/// written documents back are made only well inside that limit.
pub uninterp spec fn json_depth(v: serde_json::Value) -> nat;

/// Comfortably below the nesting limit of `serde_json`'s parser, which
/// allows 128 open containers.
pub open spec fn depth_limit() -> nat {
    100
}

/// The text that `serde_json::to_string_pretty` produces for the config
/// document around a preferences value: one top-level object whose only
/// member is `preferences`, holding that value.
pub uninterp spec fn pretty_doc_text(prefs: serde_json::Value) -> Seq<char>;

/// Whether `serde_json::from_str::<Value>` accepts the text as a JSON
/// document that is an object with a `preferences` member.
pub uninterp spec fn doc_parses(s: Seq<char>) -> bool;

/// The single-line serialization (`json_text`) of the `preferences` member
/// of such a document; meaningful only where `doc_parses` holds.
pub uninterp spec fn doc_prefs_text(s: Seq<char>) -> Seq<char>;

/// Relies on `serde_json::Map::new` and the `serde_json::Value::Object`
/// constructor: an empty JSON object. It serializes to the text `{}`, nests
/// one container deep, and its config document is the default file text.
#[verifier::external_body]
pub fn empty_object_value() -> (r: serde_json::Value)
    ensures
        json_text(r) == "{}"@,
        json_depth(r) == 1,
        pretty_doc_text(r) == "{\n  \"preferences\": {}\n}"@,
{
    serde_json::Value::Object(serde_json::Map::new())
}

/// Relies on `serde_json::Map::new`, `serde_json::Map::insert`,
/// `serde_json::Value::clone`, the `serde_json::Value::Object` constructor
/// and `serde_json::to_string_pretty`: builds the one-member config document
/// around the preferences value and pretty-prints it. Serializing a `Value`
/// cannot fail (the writer is a growable buffer and every map key is a
/// string), so the result is always the document text; and a document whose
/// member nests within `depth_limit` stays within the parser's own limit, so
/// it parses back to that member. The parse-back promise also relies on the
/// `float_roundtrip` feature of `serde_json`, under which parsing is
/// correctly rounded and therefore reads back exactly the floats that the
/// shortest-representation printer wrote.
#[verifier::external_body]
pub fn config_doc_pretty(prefs: &serde_json::Value) -> (r: Result<String, String>)
    ensures
        r is Ok,
        r matches Ok(t) ==> t@ == pretty_doc_text(*prefs),
        r matches Ok(t) ==> (json_depth(*prefs) <= depth_limit() ==> doc_parses(t@) && doc_prefs_text(t@) == json_text(*prefs)),
{
    let mut doc = serde_json::Map::new();
    doc.insert("preferences".to_string(), prefs.clone());
    match serde_json::to_string_pretty(&serde_json::Value::Object(doc)) {
        Ok(t) => Ok(t),
        Err(e) => Err(e.to_string()),
    }
}

/// Relies on `serde_json::from_str::<serde_json::Value>` and
/// `serde_json::Map::remove`: parses a JSON document and takes its top-level
/// `preferences` member. The member comes back exactly when the text is such
/// a document (`Ok(None)` stands for one of another shape, `Err` carries the
/// parser's message), and it serializes as `doc_prefs_text` says.
#[verifier::external_body]
pub fn text_to_preferences(s: &str) -> (r: Result<Option<serde_json::Value>, String>)
    ensures
        (r matches Ok(Some(_))) <==> doc_parses(s@),
        r matches Ok(Some(q)) ==> json_text(q) == doc_prefs_text(s@),
{
    match serde_json::from_str::<serde_json::Value>(s) {
        Ok(serde_json::Value::Object(mut m)) => Ok(m.remove("preferences")),
        Ok(_) => Ok(None),
        Err(e) => Err(e.to_string()),
    }
}

} // verus!
