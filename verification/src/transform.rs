//! Translation of an Anthropic `/v1/messages` request into an OpenAI
//! `/v1/chat/completions` request.

use crate::json::{
    array_value, copy_value, empty_object, items_of, json_model, member, models, parse_value,
    parsed_json, render_value, rendered_json, set_member, text_of, text_value, JsonValue,
};
use crate::text::{has_prefix, same_text};
use vstd::prelude::*;

verus! {

/// The role that a chat message gets for the role `role` of its source.
pub open spec fn chat_role(role: Seq<char>) -> Seq<char> {
    if role == "assistant"@ {
        "assistant"@
    } else {
        "user"@
    }
}

/// What one content segment contributes: its `text` where that is a string.
pub open spec fn segment_text(segment: JsonValue) -> Seq<char> {
    match segment.field("text"@) {
        Some(JsonValue::Text(t)) => t,
        _ => Seq::empty(),
    }
}

/// The texts of the segments, one after the other with nothing in between.
pub open spec fn joined_text(segments: Seq<JsonValue>) -> Seq<char>
    decreases segments.len(),
{
    if segments.len() == 0 {
        Seq::empty()
    } else {
        joined_text(segments.drop_last()) + segment_text(segments.last())
    }
}

/// A message's content as one string.
pub open spec fn flat_content(content: JsonValue) -> Seq<char> {
    match content {
        JsonValue::Text(s) => s,
        JsonValue::Array(segments) => joined_text(segments),
        _ => Seq::empty(),
    }
}

/// The chat message `{role, content}`.
pub open spec fn chat_entry(role: Seq<char>, content: Seq<char>) -> JsonValue {
    JsonValue::Object(
        Map::empty().insert("role"@, JsonValue::Text(role)).insert(
            "content"@,
            JsonValue::Text(content),
        ),
    )
}

/// The chat message for one source message, or `None` where the source has no
/// string `role` or no `content`.
pub open spec fn message_entry(m: JsonValue) -> Option<JsonValue> {
    match m.field("role"@) {
        Some(JsonValue::Text(role)) => match m.field("content"@) {
            Some(content) => Some(chat_entry(chat_role(role), flat_content(content))),
            None => None,
        },
        _ => None,
    }
}

/// Whether every one of the messages can be converted.
pub open spec fn all_convertible(ms: Seq<JsonValue>) -> bool {
    forall|i: int| 0 <= i < ms.len() ==> (#[trigger] message_entry(ms[i])) is Some
}

/// The chat messages for the source messages, in order.
pub open spec fn message_entries(ms: Seq<JsonValue>) -> Seq<JsonValue> {
    Seq::new(ms.len(), |i: int| message_entry(ms[i])->0)
}

/// The system message that leads the chat, where the document has a string
/// `system`.
pub open spec fn system_entries(doc: JsonValue) -> Seq<JsonValue> {
    match doc.field("system"@) {
        Some(JsonValue::Text(s)) => seq![chat_entry("system"@, s)],
        _ => Seq::empty(),
    }
}

/// The document's messages: the elements of `messages` where that is an
/// array, else none.
pub open spec fn source_messages(doc: JsonValue) -> Seq<JsonValue> {
    match doc.field("messages"@) {
        Some(JsonValue::Array(ms)) => ms,
        _ => Seq::empty(),
    }
}

/// The messages of the translated request.
pub open spec fn chat_messages(doc: JsonValue) -> Seq<JsonValue> {
    system_entries(doc) + message_entries(source_messages(doc))
}

/// The model of the translated request: the document's own, or the fallback.
pub open spec fn chat_model(doc: JsonValue) -> JsonValue {
    match doc.field("model"@) {
        Some(m) => m,
        None => JsonValue::Text("gpt-4o-mini"@),
    }
}

/// `out` with the document's member `from`, where it has one, under `to`.
pub open spec fn carried(
    out: Map<Seq<char>, JsonValue>,
    doc: JsonValue,
    from: Seq<char>,
    to: Seq<char>,
) -> Map<Seq<char>, JsonValue> {
    match doc.field(from) {
        Some(x) => out.insert(to, x),
        None => out,
    }
}

/// The members `model` and `messages` of the translated request.
pub open spec fn chat_core(doc: JsonValue) -> Map<Seq<char>, JsonValue> {
    Map::empty().insert("model"@, chat_model(doc)).insert(
        "messages"@,
        JsonValue::Array(chat_messages(doc)),
    )
}

/// The translated request for a document whose messages can all be converted.
pub open spec fn chat_request(doc: JsonValue) -> JsonValue {
    let a = carried(chat_core(doc), doc, "max_tokens"@, "max_completion_tokens"@);
    let b = carried(a, doc, "temperature"@, "temperature"@);
    let c = carried(b, doc, "top_p"@, "top_p"@);
    let d = carried(c, doc, "stream"@, "stream"@);
    JsonValue::Object(carried(d, doc, "stop_sequences"@, "stop"@))
}

/// The translated request, or `None` where some message cannot be converted.
pub open spec fn translated(doc: JsonValue) -> Option<JsonValue> {
    if all_convertible(source_messages(doc)) {
        Some(chat_request(doc))
    } else {
        None
    }
}

/// The translation of a request: the new path and body, or `None` where the
/// request is to be forwarded as it came.
pub open spec fn translation(path: Seq<char>, body: Seq<u8>) -> Option<(Seq<char>, Seq<u8>)> {
    if !"/v1/messages"@.is_prefix_of(path) {
        None
    } else {
        match parsed_json(body) {
            None => None,
            Some(doc) => match translated(doc) {
                None => None,
                Some(out) => match rendered_json(out) {
                    None => None,
                    Some(bytes) => Some(("/v1/chat/completions"@, bytes)),
                },
            },
        }
    }
}

/// Whether `r` is what the translator returns for `path` and `body`.
pub open spec fn is_translation(path: Seq<char>, body: Seq<u8>, r: Option<(String, Vec<u8>)>) -> bool {
    match r {
        Some((p, b)) => translation(path, body) == Some((p@, b@)),
        None => translation(path, body) is None,
    }
}

/// The text of the segments of a content array.
fn join_segments(segments: &Vec<serde_json::Value>) -> (r: String)
    ensures
        r@ == joined_text(models(segments@)),
{
    let mut out = String::new();
    let mut i: usize = 0;
    while i < segments.len()
        invariant
            i <= segments.len(),
            out@ == joined_text(models(segments@).take(i as int)),
        decreases segments.len() - i,
    {
        let ghost before = models(segments@).take(i as int);
        let ghost after = models(segments@).take(i + 1);
        assert(after.drop_last() == before);
        assert(after.last() == json_model(segments@[i as int]));
        if let Some(t) = member(&segments[i], "text") {
            if let Some(s) = text_of(t) {
                out.append(s);
            }
        }
        assert(out@ == joined_text(before) + segment_text(after.last()));
        i += 1;
    }
    assert(models(segments@).take(segments.len() as int) == models(segments@));
    out
}

/// Flattens a message's content: a string stays, an array of segments becomes
/// the concatenation of their texts, anything else the empty string.
pub fn flatten_content(content: &serde_json::Value) -> (r: String)
    ensures
        r@ == flat_content(json_model(*content)),
{
    if let Some(s) = text_of(content) {
        String::from_str(s)
    } else if let Some(segments) = items_of(content) {
        join_segments(segments)
    } else {
        String::new()
    }
}

/// The JSON value of the chat message `{role, content}`.
fn chat_entry_value(role: &str, content: String) -> (r: serde_json::Value)
    ensures
        json_model(r) == chat_entry(role@, content@),
{
    let mut entry = empty_object();
    set_member(&mut entry, "role", text_value(String::from_str(role)));
    set_member(&mut entry, "content", text_value(content));
    entry
}

/// Converts one source message, or returns `None` where it has no string
/// `role` or no `content`.
pub fn convert_message(m: &serde_json::Value) -> (r: Option<serde_json::Value>)
    ensures
        match r {
            Some(e) => message_entry(json_model(*m)) == Some(json_model(e)),
            None => message_entry(json_model(*m)) is None,
        },
{
    let role_src = match member(m, "role") {
        Some(role) => match text_of(role) {
            Some(s) => s,
            None => {
                return None;
            },
        },
        None => {
            return None;
        },
    };
    let role = if same_text(role_src, "assistant") {
        "assistant"
    } else {
        "user"
    };
    let content = match member(m, "content") {
        Some(c) => flatten_content(c),
        None => {
            return None;
        },
    };
    Some(chat_entry_value(role, content))
}

/// Copies the document's member `from`, where it has one, into `out` under
/// the key `to`.
fn carry(out: &mut serde_json::Value, doc: &serde_json::Value, from: &str, to: &str)
    requires
        json_model(*old(out)) is Object,
    ensures
        json_model(*final(out)) == JsonValue::Object(
            carried(json_model(*old(out))->Object_0, json_model(*doc), from@, to@),
        ),
{
    if let Some(x) = member(doc, from) {
        set_member(out, to, copy_value(x));
    }
}

/// Translates a parsed request document. `None` means that some message has
/// no string `role` or no `content`: nothing is translated then.
pub fn translate_value(doc: &serde_json::Value) -> (r: Option<serde_json::Value>)
    ensures
        match r {
            Some(out) => translated(json_model(*doc)) == Some(json_model(out)),
            None => translated(json_model(*doc)) is None,
        },
{
    let mut messages: Vec<serde_json::Value> = Vec::new();
    if let Some(system) = member(doc, "system") {
        if let Some(s) = text_of(system) {
            messages.push(chat_entry_value("system", String::from_str(s)));
        }
    }
    assert(models(messages@) == system_entries(json_model(*doc)));
    if let Some(list) = member(doc, "messages") {
        if let Some(arr) = items_of(list) {
            let ghost ms = models(arr@);
            assert(ms == source_messages(json_model(*doc)));
            let mut i: usize = 0;
            while i < arr.len()
                invariant
                    i <= arr.len(),
                    ms == models(arr@),
                    ms == source_messages(json_model(*doc)),
                    forall|j: int| 0 <= j < i ==> (#[trigger] message_entry(ms[j])) is Some,
                    models(messages@) == system_entries(json_model(*doc)) + message_entries(
                        ms.take(i as int),
                    ),
                decreases arr.len() - i,
            {
                let ghost done = models(messages@);
                match convert_message(&arr[i]) {
                    Some(e) => {
                        messages.push(e);
                        assert(models(messages@) == done.push(json_model(e)));
                        assert(message_entries(ms.take(i + 1)) == message_entries(
                            ms.take(i as int),
                        ).push(json_model(e)));
                    },
                    None => {
                        assert(message_entry(ms[i as int]) is None);
                        return None;
                    },
                }
                i += 1;
            }
            assert(ms.take(arr.len() as int) == ms);
        }
    }
    assert(models(messages@) == chat_messages(json_model(*doc)));
    let model = match member(doc, "model") {
        Some(m) => copy_value(m),
        None => text_value(String::from_str("gpt-4o-mini")),
    };
    let mut out = empty_object();
    set_member(&mut out, "model", model);
    set_member(&mut out, "messages", array_value(messages));
    carry(&mut out, doc, "max_tokens", "max_completion_tokens");
    carry(&mut out, doc, "temperature", "temperature");
    carry(&mut out, doc, "top_p", "top_p");
    carry(&mut out, doc, "stream", "stream");
    carry(&mut out, doc, "stop_sequences", "stop");
    Some(out)
}

/// Translates a request that came in on the Anthropic path into one for the
/// OpenAI path. `None` means that the request is forwarded as it came: the
/// path is another one, the body is not JSON, or a message cannot be
/// converted.
pub fn anthropic_to_openai(path: &str, body: &[u8]) -> (r: Option<(String, Vec<u8>)>)
    ensures
        is_translation(path@, body@, r),
{
    if !has_prefix(path, "/v1/messages") {
        return None;
    }
    let doc = match parse_value(body) {
        Some(doc) => doc,
        None => {
            return None;
        },
    };
    let out = match translate_value(&doc) {
        Some(out) => out,
        None => {
            return None;
        },
    };
    match render_value(&out) {
        Some(bytes) => Some((String::from_str("/v1/chat/completions"), bytes)),
        None => None,
    }
}

/// Whether `entry` is a chat message whose role is `system`, `user` or
/// `assistant`.
pub open spec fn has_chat_role(entry: JsonValue) -> bool {
    ||| entry.field("role"@) == Some(JsonValue::Text("system"@))
    ||| entry.field("role"@) == Some(JsonValue::Text("user"@))
    ||| entry.field("role"@) == Some(JsonValue::Text("assistant"@))
}

/// A chat message holds the role and the content that it was made of.
pub proof fn lemma_chat_entry_fields(role: Seq<char>, content: Seq<char>)
    ensures
        chat_entry(role, content).field("role"@) == Some(JsonValue::Text(role)),
        chat_entry(role, content).field("content"@) == Some(JsonValue::Text(content)),
{
    reveal_strlit("role");
    reveal_strlit("content");
    assert("role"@.len() == 4);
    assert("content"@.len() == 7);
}

/// The translated request holds the chat messages under `messages`, and the
/// model under `model`: no member that is carried over takes their place.
pub proof fn lemma_chat_request_core(doc: JsonValue)
    ensures
        chat_request(doc).field("messages"@) == Some(JsonValue::Array(chat_messages(doc))),
        chat_request(doc).field("model"@) == Some(chat_model(doc)),
{
    reveal_strlit("model");
    reveal_strlit("messages");
    reveal_strlit("max_completion_tokens");
    reveal_strlit("temperature");
    reveal_strlit("top_p");
    reveal_strlit("stream");
    reveal_strlit("stop");
    assert("model"@.len() == 5 && "model"@[0] == 'm');
    assert("messages"@.len() == 8);
    assert("max_completion_tokens"@.len() == 21);
    assert("temperature"@.len() == 11);
    assert("top_p"@.len() == 5 && "top_p"@[0] == 't');
    assert("stream"@.len() == 6);
    assert("stop"@.len() == 4);
}

/// A document with a string `system` and messages that can all be converted
/// is translated; the request has one message more than the document, the
/// system message comes first, and every role is `system`, `user` or
/// `assistant`.
pub proof fn law_system_message_leads(doc: JsonValue, system: Seq<char>, ms: Seq<JsonValue>)
    requires
        doc.field("system"@) == Some(JsonValue::Text(system)),
        doc.field("messages"@) == Some(JsonValue::Array(ms)),
        all_convertible(ms),
    ensures
        translated(doc) is Some,
        translated(doc)->0.field("messages"@) == Some(JsonValue::Array(chat_messages(doc))),
        chat_messages(doc).len() == ms.len() + 1,
        chat_messages(doc)[0] == chat_entry("system"@, system),
        forall|i: int|
            0 <= i < chat_messages(doc).len() ==> has_chat_role(#[trigger] chat_messages(doc)[i]),
{
    lemma_chat_request_core(doc);
    lemma_chat_entry_fields("system"@, system);
    assert forall|i: int| 0 <= i < chat_messages(doc).len() implies has_chat_role(
        #[trigger] chat_messages(doc)[i],
    ) by {
        if i > 0 {
            let m = ms[i - 1];
            assert(message_entry(m) is Some);
            assert(chat_messages(doc)[i] == message_entry(m)->0);
            let role = m.field("role"@)->0->Text_0;
            let content = m.field("content"@)->0;
            lemma_chat_entry_fields(chat_role(role), flat_content(content));
        }
    }
}

/// Every message of a translated request has one of the three chat roles,
/// whatever the document holds besides.
pub proof fn law_roles_are_limited(doc: JsonValue)
    requires
        translated(doc) is Some,
    ensures
        forall|i: int|
            0 <= i < chat_messages(doc).len() ==> has_chat_role(#[trigger] chat_messages(doc)[i]),
{
    let lead = system_entries(doc);
    let ms = source_messages(doc);
    assert forall|i: int| 0 <= i < chat_messages(doc).len() implies has_chat_role(
        #[trigger] chat_messages(doc)[i],
    ) by {
        if i < lead.len() {
            let system = doc.field("system"@)->0->Text_0;
            lemma_chat_entry_fields("system"@, system);
        } else {
            let m = ms[i - lead.len()];
            assert(message_entry(m) is Some);
            assert(chat_messages(doc)[i] == message_entry(m)->0);
            let role = m.field("role"@)->0->Text_0;
            let content = m.field("content"@)->0;
            lemma_chat_entry_fields(chat_role(role), flat_content(content));
        }
    }
}

/// A segment adds its text at the end of what the segments before it gave, and
/// one without a string `text` adds nothing.
pub proof fn law_segment_appends(segments: Seq<JsonValue>, segment: JsonValue)
    ensures
        joined_text(segments.push(segment)) == joined_text(segments) + segment_text(segment),
        !(segment.field("text"@) matches Some(JsonValue::Text(_))) ==> joined_text(
            segments.push(segment),
        ) == joined_text(segments),
{
    assert(segments.push(segment).drop_last() == segments);
}

/// Flattening goes through the segments in order: the text of two runs of
/// segments is the text of the first followed by the text of the second.
pub proof fn law_flattening_is_concatenation(a: Seq<JsonValue>, b: Seq<JsonValue>)
    ensures
        flat_content(JsonValue::Array(a + b)) == flat_content(JsonValue::Array(a)) + flat_content(
            JsonValue::Array(b),
        ),
    decreases b.len(),
{
    if b.len() == 0 {
        assert(a + b == a);
    } else {
        law_flattening_is_concatenation(a, b.drop_last());
        assert((a + b).drop_last() == a + b.drop_last());
        assert((a + b).last() == b.last());
    }
}

/// A request on a path that does not begin with the Anthropic prefix is never
/// translated, whatever its body holds.
pub proof fn law_other_paths_pass(path: Seq<char>, body: Seq<u8>)
    requires
        !"/v1/messages"@.is_prefix_of(path),
    ensures
        translation(path, body) is None,
{
}

/// One message without `content` anywhere among the messages leaves the whole
/// request untranslated.
pub proof fn law_missing_content_aborts(
    path: Seq<char>,
    body: Seq<u8>,
    doc: JsonValue,
    ms: Seq<JsonValue>,
    i: int,
)
    requires
        parsed_json(body) == Some(doc),
        doc.field("messages"@) == Some(JsonValue::Array(ms)),
        0 <= i < ms.len(),
        ms[i].field("content"@) is None,
    ensures
        translated(doc) is None,
        translation(path, body) is None,
{
    assert(message_entry(ms[i]) is None);
}

/// One message without a string `role` anywhere among the messages leaves the
/// whole request untranslated.
pub proof fn law_missing_role_aborts(
    path: Seq<char>,
    body: Seq<u8>,
    doc: JsonValue,
    ms: Seq<JsonValue>,
    i: int,
)
    requires
        parsed_json(body) == Some(doc),
        doc.field("messages"@) == Some(JsonValue::Array(ms)),
        0 <= i < ms.len(),
        !(ms[i].field("role"@) matches Some(JsonValue::Text(_))),
    ensures
        translated(doc) is None,
        translation(path, body) is None,
{
    assert(message_entry(ms[i]) is None);
}

/// Translating the same request twice gives the same answer both times: two
/// results for one path and body are both absent, or hold the same path and
/// the same bytes.
pub proof fn law_translation_is_deterministic(
    path: Seq<char>,
    body: Seq<u8>,
    first: Option<(String, Vec<u8>)>,
    second: Option<(String, Vec<u8>)>,
)
    requires
        is_translation(path, body, first),
        is_translation(path, body, second),
    ensures
        match (first, second) {
            (Some(a), Some(b)) => a.0@ == b.0@ && a.1@ == b.1@,
            (None, None) => true,
            _ => false,
        },
{
}

} // verus!
