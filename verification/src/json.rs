//! JSON documents the client prints, read with `serde_json`.
//!
//! A document is carried through as it was read. What is stated of one is
//! which document a text reads as, where a stream of documents printed one
//! after another is cut, and the text of a named field.

use vstd::prelude::*;

verus! {

#[verifier::external_type_specification]
#[verifier::external_body]
pub struct ExJsonValue(serde_json::Value);

/// What `serde_json::from_str::<Value>` makes of a text: the document it
/// holds, when it reads as one JSON document with nothing but white space
/// around it, or the words of its refusal.
pub uninterp spec fn json_read(text: Seq<char>) -> Result<serde_json::Value, Seq<char>>;

/// The first document of a stream of JSON documents and the text after it,
/// when the stream begins with a whole document; `None` when it holds no more
/// documents or the next one is cut short or malformed.
pub uninterp spec fn json_head(text: Seq<char>) -> Option<(serde_json::Value, Seq<char>)>;

/// `serde_json::from_str::<Value>`: the document a text holds, or why it
/// holds none. The contract names the outcome, a function of the text alone;
/// what the document holds is not written out.
#[verifier::external_body]
pub fn parse_json(text: &str) -> (r: Result<serde_json::Value, String>)
    ensures
        match r {
            Ok(v) => json_read(text@) == Ok::<serde_json::Value, Seq<char>>(v),
            Err(m) => json_read(text@) == Err::<serde_json::Value, Seq<char>>(m@),
        },
{
    serde_json::from_str::<serde_json::Value>(text).map_err(|e| e.to_string())
}

/// The first document of a stream read with
/// `serde_json::Deserializer::from_str(..).into_iter()`, and the text after
/// it. A document takes up at least one character, so what is left is
/// shorter than what was given.
#[verifier::external_body]
pub fn next_json(text: &str) -> (r: Option<(serde_json::Value, String)>)
    ensures
        r is Some == json_head(text@) is Some,
        r matches Some((v, rest)) ==> json_head(text@) == Some((v, rest@)) && rest@.len()
            < text@.len(),
{
    let mut stream = serde_json::Deserializer::from_str(text).into_iter::<serde_json::Value>();
    match stream.next() {
        Some(Ok(value)) => Some((value, text[stream.byte_offset()..].to_owned())),
        _ => None,
    }
}

/// What `doc.get(name).and_then(Value::as_str)` finds: the text of a field
/// of an object document, when there is such a field and it holds text.
pub uninterp spec fn json_text_field(doc: serde_json::Value, name: Seq<char>) -> Option<Seq<char>>;

/// `serde_json::Value::get` then `Value::as_str`: the text a field of an
/// object document holds, if it holds text.
#[verifier::external_body]
pub fn text_field(doc: &serde_json::Value, name: &str) -> (r: Option<String>)
    ensures
        match r {
            Some(t) => json_text_field(*doc, name@) == Some(t@),
            None => json_text_field(*doc, name@) is None,
        },
{
    doc.get(name).and_then(serde_json::Value::as_str).map(str::to_owned)
}

/// The whole documents a stream begins with, in order, read one after
/// another until one is missing, cut short or malformed.
pub open spec fn stream_values(text: Seq<char>) -> Seq<serde_json::Value>
    decreases text.len(),
{
    match json_head(text) {
        Some((v, rest)) => if rest.len() < text.len() {
            seq![v] + stream_values(rest)
        } else {
            seq![]
        },
        None => seq![],
    }
}

/// The documents a stream begins with, in the order they were printed.
/// Reading stops at the first that is cut short or malformed, so a
/// half-written last document costs only itself.
pub fn documents(text: &str) -> (r: Vec<serde_json::Value>)
    ensures
        r@ == stream_values(text@),
{
    let mut found: Vec<serde_json::Value> = Vec::new();
    let mut rest: String = crate::text::owned(text);
    loop
        invariant
            found@ + stream_values(rest@) == stream_values(text@),
        ensures
            found@ == stream_values(text@),
        decreases rest@.len(),
    {
        let ghost before = rest@;
        match next_json(rest.as_str()) {
            Some((value, after)) => {
                proof {
                    assert(stream_values(before) == seq![value] + stream_values(after@));
                    assert(found@.push(value) + stream_values(after@) =~= found@ + stream_values(
                        before,
                    ));
                }
                found.push(value);
                rest = after;
            },
            None => {
                assert(found@ + stream_values(rest@) =~= found@);
                break;
            },
        }
    }
    found
}

} // verus!
