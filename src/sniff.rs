//! Query-string values carry no type. Each one goes through a sniffer that
//! classifies it as a boolean, a number, a string or null, and is then turned
//! into the JSON value a request body would have held.

use vstd::prelude::*;
use crate::text::str_eq;
use crate::value::JsonValue;

verus! {

/// The text serde_json writes for the number that `s` spells, or nothing
/// where `s` is not a JSON number that serde_json accepts.
pub uninterp spec fn json_number_text(s: Seq<char>) -> Option<Seq<char>>;

/// Relies on serde_json's `Number` parser (`FromStr`), which accepts exactly a
/// JSON number and nothing around it, and on its `Display`, which writes the
/// number back; both depend on the text alone.
#[verifier::external_body]
fn parse_json_number(s: &str) -> (r: Option<String>)
    ensures
        match json_number_text(s@) {
            Some(t) => r matches Some(x) && x@ == t,
            None => r is None,
        },
{
    s.parse::<serde_json::Number>().ok().map(|n| n.to_string())
}

/// The sniffer: exactly `true` or `false` is a boolean; a value that is, as a
/// whole, a JSON number is a number; any other non-empty value is a string;
/// the empty value is null.
pub open spec fn sniff_spec(s: Seq<char>) -> Seq<char> {
    if s == "true"@ || s == "false"@ {
        "bool"@
    } else if json_number_text(s) is Some {
        "number"@
    } else if s.len() > 0 {
        "string"@
    } else {
        "null"@
    }
}

/// The type the sniffer gives a query-string value: `bool`, `number`,
/// `string` or `null`.
pub fn parse_type(input: &str) -> (r: &'static str)
    ensures
        r@ == sniff_spec(input@),
{
    if str_eq(input, "true") || str_eq(input, "false") {
        "bool"
    } else if parse_json_number(input).is_some() {
        "number"
    } else if input.unicode_len() > 0 {
        "string"
    } else {
        "null"
    }
}

/// `r` is what the query-string value `val` stands for.
pub open spec fn extracted(val: Seq<char>, r: JsonValue) -> bool {
    if val == "true"@ || val == "false"@ {
        r == JsonValue::Bool(val == "true"@)
    } else if json_number_text(val) is Some {
        r matches JsonValue::Number(x) && Some(x@) == json_number_text(val)
    } else if val.len() > 0 {
        r matches JsonValue::String(x) && x@ == val
    } else {
        r == JsonValue::Null
    }
}

/// The JSON value a query-string value stands for, by the sniffer's type: a
/// boolean, the number in serde_json's writing, the text itself, or null.
pub fn extract_type_from_string(val: &str) -> (r: JsonValue)
    ensures
        extracted(val@, r),
{
    if str_eq(val, "true") {
        JsonValue::Bool(true)
    } else if str_eq(val, "false") {
        proof {
            reveal_strlit("true");
            reveal_strlit("false");
        }
        JsonValue::Bool(false)
    } else {
        match parse_json_number(val) {
            Some(x) => JsonValue::Number(x),
            None => if val.unicode_len() > 0 {
                JsonValue::String(String::from_str(val))
            } else {
                JsonValue::Null
            },
        }
    }
}

/// The payload of a read request: an object with one member per query-string
/// pair, in order, each value sniffed.
pub fn query_payload(pairs: &Vec<(String, String)>) -> (r: JsonValue)
    ensures
        r matches JsonValue::Object(es) && es@.len() == pairs@.len() && forall|i: int|
            0 <= i < pairs@.len() ==> (#[trigger] es@[i]).0@ == pairs@[i].0@ && extracted(
                pairs@[i].1@,
                es@[i].1,
            ),
{
    let mut es: Vec<(String, JsonValue)> = Vec::new();
    let mut i: usize = 0;
    while i < pairs.len()
        invariant
            i <= pairs@.len(),
            es@.len() == i,
            forall|k: int| 0 <= k < i ==> (#[trigger] es@[k]).0@ == pairs@[k].0@ && extracted(
                pairs@[k].1@,
                es@[k].1,
            ),
        decreases pairs@.len() - i,
    {
        let v = extract_type_from_string(pairs[i].1.as_str());
        es.push((pairs[i].0.clone(), v));
        i = i + 1;
    }
    JsonValue::Object(es)
}

} // verus!
