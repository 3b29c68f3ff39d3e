use light_local_router::transform::{
    anthropic_to_openai, convert_message, flatten_content, translate_value,
};
use serde_json::Value;

fn value(text: &str) -> Value {
    serde_json::from_str(text).unwrap()
}

fn translated_text(path: &str, body: &str) -> Option<(String, String)> {
    anthropic_to_openai(path, body.as_bytes())
        .map(|(p, b)| (p, String::from_utf8(b).unwrap()))
}

#[test]
fn full_request_is_translated() {
    let body = r#"{"model":"big-model","system":"be brief","messages":[{"role":"user","content":"hi"},{"role":"assistant","content":[{"type":"text","text":"a"},{"note":"x"},{"text":"b"}]}],"max_tokens":10,"temperature":0.5,"top_p":0.9,"stream":true,"stop_sequences":["x"]}"#;
    let (path, out) = translated_text("/v1/messages", body).unwrap();
    assert_eq!(path, "/v1/chat/completions");
    assert_eq!(
        out,
        r#"{"max_completion_tokens":10,"messages":[{"content":"be brief","role":"system"},{"content":"hi","role":"user"},{"content":"ab","role":"assistant"}],"model":"big-model","stop":["x"],"stream":true,"temperature":0.5,"top_p":0.9}"#
    );
}

#[test]
fn system_message_comes_first_and_count_is_n_plus_one() {
    let body = r#"{"system":"s","messages":[{"role":"user","content":"1"},{"role":"assistant","content":"2"},{"role":"human","content":"3"}]}"#;
    let (_, out) = translated_text("/v1/messages", body).unwrap();
    let doc = value(&out);
    let messages = doc.get("messages").unwrap().as_array().unwrap();
    assert_eq!(messages.len(), 4);
    assert_eq!(messages[0], value(r#"{"role":"system","content":"s"}"#));
    let roles: Vec<&str> = messages
        .iter()
        .map(|m| m.get("role").unwrap().as_str().unwrap())
        .collect();
    assert_eq!(roles, vec!["system", "user", "assistant", "user"]);
}

#[test]
fn segments_are_concatenated_in_order() {
    let content = value(r#"[{"text":"a"},{"note":"x"},{"text":"b"}]"#);
    assert_eq!(flatten_content(&content), "ab");
}

#[test]
fn segment_with_text_that_is_no_string_is_skipped() {
    let content = value(r#"[{"text":"a"},{"text":5},"plain",{"text":"c"}]"#);
    assert_eq!(flatten_content(&content), "ac");
}

#[test]
fn string_content_stays() {
    assert_eq!(flatten_content(&value(r#""hello there""#)), "hello there");
}

#[test]
fn other_content_is_empty() {
    assert_eq!(flatten_content(&value("42")), "");
    assert_eq!(flatten_content(&value("null")), "");
    assert_eq!(flatten_content(&value(r#"{"text":"a"}"#)), "");
    assert_eq!(flatten_content(&value("[]")), "");
}

#[test]
fn other_path_is_never_translated() {
    let body = r#"{"messages":[{"role":"user","content":"hi"}]}"#;
    assert_eq!(anthropic_to_openai("/v1/other", body.as_bytes()), None);
    assert_eq!(anthropic_to_openai("/v1/other", b"not json"), None);
    assert_eq!(anthropic_to_openai("/v1/message", body.as_bytes()), None);
    assert_eq!(anthropic_to_openai("v1/messages", body.as_bytes()), None);
    assert_eq!(anthropic_to_openai("", body.as_bytes()), None);
}

#[test]
fn longer_path_with_the_prefix_is_translated() {
    let body = r#"{"messages":[]}"#;
    let (path, out) = translated_text("/v1/messages/batch", body).unwrap();
    assert_eq!(path, "/v1/chat/completions");
    assert_eq!(out, r#"{"messages":[],"model":"gpt-4o-mini"}"#);
}

#[test]
fn message_without_content_aborts() {
    let body = r#"{"messages":[{"role":"user","content":"hi"},{"role":"user"}]}"#;
    assert_eq!(anthropic_to_openai("/v1/messages", body.as_bytes()), None);
    let first = r#"{"messages":[{"role":"user"},{"role":"user","content":"hi"}]}"#;
    assert_eq!(anthropic_to_openai("/v1/messages", first.as_bytes()), None);
}

#[test]
fn message_without_role_aborts() {
    let body = r#"{"messages":[{"content":"hi"}]}"#;
    assert_eq!(anthropic_to_openai("/v1/messages", body.as_bytes()), None);
    let number = r#"{"messages":[{"role":7,"content":"hi"}]}"#;
    assert_eq!(anthropic_to_openai("/v1/messages", number.as_bytes()), None);
    let no_object = r#"{"messages":["hi"]}"#;
    assert_eq!(anthropic_to_openai("/v1/messages", no_object.as_bytes()), None);
}

#[test]
fn invalid_json_is_not_translated() {
    assert_eq!(anthropic_to_openai("/v1/messages", b"{not json"), None);
    assert_eq!(anthropic_to_openai("/v1/messages", b""), None);
    assert_eq!(anthropic_to_openai("/v1/messages", &[0xff, 0xfe]), None);
}

#[test]
fn model_falls_back() {
    let (_, out) = translated_text("/v1/messages", r#"{"messages":[]}"#).unwrap();
    assert_eq!(out, r#"{"messages":[],"model":"gpt-4o-mini"}"#);
}

#[test]
fn model_is_copied_whatever_it_is() {
    let (_, out) = translated_text("/v1/messages", r#"{"model":{"a":[1,2.5,null]}}"#).unwrap();
    assert_eq!(out, r#"{"messages":[],"model":{"a":[1,2.5,null]}}"#);
}

#[test]
fn document_that_is_no_object_gives_the_default_request() {
    let (_, out) = translated_text("/v1/messages", "[1,2]").unwrap();
    assert_eq!(out, r#"{"messages":[],"model":"gpt-4o-mini"}"#);
}

#[test]
fn messages_that_are_no_array_are_ignored() {
    let (_, out) = translated_text("/v1/messages", r#"{"messages":"hi","system":"s"}"#).unwrap();
    assert_eq!(
        out,
        r#"{"messages":[{"content":"s","role":"system"}],"model":"gpt-4o-mini"}"#
    );
}

#[test]
fn system_that_is_no_string_is_ignored() {
    let body = r#"{"system":["s"],"messages":[{"role":"user","content":"x"}]}"#;
    let (_, out) = translated_text("/v1/messages", body).unwrap();
    assert_eq!(
        out,
        r#"{"messages":[{"content":"x","role":"user"}],"model":"gpt-4o-mini"}"#
    );
}

#[test]
fn roles_are_mapped() {
    let role_of = |source: &str| -> String {
        let m = value(&format!(r#"{{"role":"{}","content":"c"}}"#, source));
        let e = convert_message(&m).unwrap();
        e.get("role").unwrap().as_str().unwrap().to_string()
    };
    assert_eq!(role_of("assistant"), "assistant");
    assert_eq!(role_of("user"), "user");
    assert_eq!(role_of("human"), "user");
    assert_eq!(role_of("system"), "user");
    assert_eq!(role_of("tool"), "user");
    assert_eq!(role_of("Assistant"), "user");
    assert_eq!(role_of(""), "user");
}

#[test]
fn converted_message_holds_role_and_flat_content() {
    let m = value(r#"{"role":"assistant","content":[{"text":"x"},{"text":"y"}],"extra":1}"#);
    assert_eq!(
        convert_message(&m),
        Some(value(r#"{"role":"assistant","content":"xy"}"#))
    );
    assert_eq!(convert_message(&value(r#"{"role":"user"}"#)), None);
    assert_eq!(convert_message(&value(r#"{"content":"x"}"#)), None);
    assert_eq!(convert_message(&value(r#"{"role":null,"content":"x"}"#)), None);
}

#[test]
fn content_null_is_present_and_flattens_to_empty() {
    let m = value(r#"{"role":"user","content":null}"#);
    assert_eq!(
        convert_message(&m),
        Some(value(r#"{"role":"user","content":""}"#))
    );
}

#[test]
fn optional_members_are_renamed() {
    let doc = value(
        r#"{"max_tokens":1,"temperature":2,"top_p":3,"stream":false,"stop_sequences":null,"other":9}"#,
    );
    let out = translate_value(&doc).unwrap();
    assert_eq!(
        out,
        value(
            r#"{"model":"gpt-4o-mini","messages":[],"max_completion_tokens":1,"temperature":2,"top_p":3,"stream":false,"stop":null}"#
        )
    );
}

#[test]
fn absent_optional_members_stay_absent() {
    let out = translate_value(&value(r#"{"temperature":0.25}"#)).unwrap();
    let members = out.as_object().unwrap();
    let keys: Vec<&str> = members.keys().map(|k| k.as_str()).collect();
    assert_eq!(keys, vec!["messages", "model", "temperature"]);
}

#[test]
fn translate_value_aborts_on_a_bad_message() {
    let doc = value(r#"{"system":"s","messages":[{"role":"user","content":"a"},{"role":"user"}]}"#);
    assert_eq!(translate_value(&doc), None);
}

#[test]
fn translation_is_deterministic() {
    let body = r#"{"model":"m","system":"s","messages":[{"role":"user","content":[{"text":"a"}]}],"top_p":0.1}"#;
    let first = anthropic_to_openai("/v1/messages", body.as_bytes());
    let second = anthropic_to_openai("/v1/messages", body.as_bytes());
    assert!(first.is_some());
    assert_eq!(first, second);
}

#[test]
fn unicode_content_is_kept() {
    let body = r#"{"messages":[{"role":"user","content":[{"text":"héllo "},{"text":"wörld ✓"}]}]}"#;
    let (_, out) = translated_text("/v1/messages", body).unwrap();
    let doc = value(&out);
    assert_eq!(
        doc.get("messages").unwrap()[0].get("content").unwrap().as_str().unwrap(),
        "héllo wörld ✓"
    );
}

#[test]
fn duplicate_member_takes_the_last() {
    let body = r#"{"model":"a","model":"b"}"#;
    let (_, out) = translated_text("/v1/messages", body).unwrap();
    assert_eq!(out, r#"{"messages":[],"model":"b"}"#);
}
