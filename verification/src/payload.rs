//! The document that a finished capture is stored as.
//!
//! It is a JSON object with four members: `kind`, which marks the document as
//! a captured response; `trace_id`, the correlation id; `meta`, whatever the
//! caller supplied; and `response_text`, the captured body as text.

use vstd::prelude::*;
use vstd::string::*;
use crate::filename::UNKNOWN_TRACE_ID;
use crate::json::{json_member, member, member_text, object_value, string_value, text_of};

verus! {

/// The names of the four members.
pub const KEY_KIND: &'static str = "kind";

pub const KEY_TRACE_ID: &'static str = "trace_id";

pub const KEY_META: &'static str = "meta";

pub const KEY_RESPONSE_TEXT: &'static str = "response_text";

/// The value of `kind` in every capture document.
pub const CAPTURE_KIND: &'static str = "upstream_response";

/// `doc` is the capture document for the given correlation id, metadata and
/// body text: it has exactly the four members, with these values.
pub open spec fn is_capture_document(
    doc: serde_json::Value,
    trace_id: Seq<char>,
    meta: serde_json::Value,
    response_text: Seq<char>,
) -> bool {
    &&& member_text(doc, KEY_KIND@) == Some(CAPTURE_KIND@)
    &&& member_text(doc, KEY_TRACE_ID@) == Some(trace_id)
    &&& json_member(doc, KEY_META@) == Some(meta)
    &&& member_text(doc, KEY_RESPONSE_TEXT@) == Some(response_text)
    &&& forall|key: Seq<char>|
        key != KEY_KIND@ && key != KEY_TRACE_ID@ && key != KEY_META@ && key != KEY_RESPONSE_TEXT@
            ==> #[trigger] json_member(doc, key) is None
}

/// The correlation id that a document carries: the text of its `trace_id`
/// member, or `unknown` where it has no such text.
pub open spec fn carried_trace_id(doc: serde_json::Value) -> Seq<char> {
    match member_text(doc, KEY_TRACE_ID@) {
        Some(id) => id,
        None => UNKNOWN_TRACE_ID@,
    }
}

/// The four keys differ from one another.
pub proof fn lemma_keys_differ()
    ensures
        KEY_KIND@ != KEY_TRACE_ID@,
        KEY_KIND@ != KEY_META@,
        KEY_KIND@ != KEY_RESPONSE_TEXT@,
        KEY_TRACE_ID@ != KEY_META@,
        KEY_TRACE_ID@ != KEY_RESPONSE_TEXT@,
        KEY_META@ != KEY_RESPONSE_TEXT@,
{
    reveal_strlit("kind");
    reveal_strlit("trace_id");
    reveal_strlit("meta");
    reveal_strlit("response_text");
    assert(KEY_KIND@.len() == 4);
    assert(KEY_TRACE_ID@.len() == 8);
    assert(KEY_META@.len() == 4);
    assert(KEY_RESPONSE_TEXT@.len() == 13);
    assert(KEY_KIND@[0] == 'k');
    assert(KEY_META@[0] == 'm');
}

/// Builds the capture document.
pub fn capture_document(trace_id: &str, meta: serde_json::Value, response_text: &str) -> (doc:
    serde_json::Value)
    ensures
        is_capture_document(doc, trace_id@, meta, response_text@),
{
    let mut entries: Vec<(String, serde_json::Value)> = Vec::new();
    entries.push((String::from_str(KEY_KIND), string_value(CAPTURE_KIND)));
    entries.push((String::from_str(KEY_TRACE_ID), string_value(trace_id)));
    entries.push((String::from_str(KEY_META), meta));
    entries.push((String::from_str(KEY_RESPONSE_TEXT), string_value(response_text)));
    proof {
        lemma_keys_differ();
    }
    let ghost listed = entries@;
    let doc = object_value(entries);
    proof {
        assert(json_member(doc, listed[0].0@) == Some(listed[0].1));
        assert(json_member(doc, listed[1].0@) == Some(listed[1].1));
        assert(json_member(doc, listed[2].0@) == Some(listed[2].1));
        assert(json_member(doc, listed[3].0@) == Some(listed[3].1));
    }
    doc
}

/// Reads the correlation id back out of a document.
pub fn trace_id_of(doc: &serde_json::Value) -> (id: String)
    ensures
        id@ == carried_trace_id(*doc),
{
    let text = match member(doc, KEY_TRACE_ID) {
        Some(value) => text_of(value),
        None => None,
    };
    match text {
        Some(id) => String::from_str(id),
        None => String::from_str(UNKNOWN_TRACE_ID),
    }
}

} // verus!
