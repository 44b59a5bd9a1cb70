use vstd::prelude::*;

verus! {

/// Whether serde_json accepts the text as one complete JSON document.
pub uninterp spec fn json_accepts(s: Seq<char>) -> bool;

/// The compact re-serialization serde_json gives an accepted JSON document.
pub uninterp spec fn json_compact_of(s: Seq<char>) -> Seq<char>;

/// The JSON string literal (quoted and escaped) serde_json writes for a text.
pub uninterp spec fn json_string_encode(s: Seq<char>) -> Seq<char>;

/// The pretty-printed re-serialization serde_json gives an accepted JSON
/// document.
pub uninterp spec fn json_pretty_of(s: Seq<char>) -> Seq<char>;

/// Relies on serde_json::from_str::<Value>, which decides from the text alone
/// whether it is valid JSON, and on serde_json::to_string, which re-serializes
/// the parsed value compactly. On a Value, to_string cannot fail: its maps
/// have string keys and its Serialize implementation does not fail.
#[verifier::external_body]
pub fn json_compact(s: &str) -> (r: Option<String>)
    ensures
        (r is Some) == json_accepts(s@),
        r matches Some(c) ==> c@ == json_compact_of(s@),
{
    serde_json::from_str::<serde_json::Value>(s).ok().and_then(|v| serde_json::to_string(&v).ok())
}

/// Relies on serde_json::to_string on a Value::String, which writes the text
/// as one quoted, escaped JSON string literal and depends on the text alone;
/// it cannot fail on a Value (see json_compact).
#[verifier::external_body]
pub fn json_quote(s: &str) -> (r: String)
    ensures
        r@ == json_string_encode(s@),
{
    serde_json::to_string(&serde_json::Value::String(s.to_string())).unwrap_or_default()
}

/// Relies on serde_json::from_str::<Value> (see json_compact) and on
/// serde_json::to_string_pretty, which re-serializes the parsed value with
/// indentation and depends on it alone; it cannot fail on a Value (see
/// json_compact).
#[verifier::external_body]
pub fn json_reformat(s: &str) -> (r: Option<String>)
    ensures
        (r is Some) == json_accepts(s@),
        r matches Some(p) ==> p@ == json_pretty_of(s@),
{
    serde_json::from_str::<serde_json::Value>(s)
        .ok()
        .and_then(|v| serde_json::to_string_pretty(&v).ok())
}

/// The text a key=value right-hand side contributes to a JSON object: the
/// compact form when the text is itself valid JSON, else the quoted string.
pub open spec fn rendered_value(v: Seq<char>) -> Seq<char> {
    if json_accepts(v) {
        json_compact_of(v)
    } else {
        json_string_encode(v)
    }
}

/// Renders one key=value right-hand side.
pub fn render_value(v: &str) -> (r: String)
    ensures
        r@ == rendered_value(v@),
{
    match json_compact(v) {
        Some(c) => c,
        None => json_quote(v),
    }
}

} // verus!
