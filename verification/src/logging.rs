//! The lines that the proxy reports, and the records of its body dump.
//!
//! Nothing here writes: each function makes the text, and the caller hands it
//! to the diagnostics or appends it to the dump file.

use crate::text::same_text;
use vstd::prelude::*;

verus! {

/// The text that `String::from_utf8_lossy` makes of `bytes`.
pub uninterp spec fn lossy_text(bytes: Seq<u8>) -> Seq<char>;

/// `String::from_utf8_lossy`: the bytes as text, with the replacement
/// character where they are not UTF-8.
#[verifier::external_body]
pub(crate) fn lossy(bytes: &[u8]) -> (r: String)
    ensures
        r@ == lossy_text(bytes@),
{
    String::from_utf8_lossy(bytes).into_owned()
}

/// Appends the bytes of `src` to `dst`.
pub fn append_bytes(dst: &mut Vec<u8>, src: &[u8])
    ensures
        final(dst)@ == old(dst)@ + src@,
{
    let mut i: usize = 0;
    while i < src.len()
        invariant
            i <= src.len(),
            dst@ == old(dst)@ + src@.take(i as int),
        decreases src.len() - i,
    {
        dst.push(src[i]);
        assert(src@.take(i + 1) == src@.take(i as int).push(src@[i as int]));
        i += 1;
    }
    assert(src@.take(src.len() as int) == src@);
}

/// The line that reports an inbound request.
pub fn log_request_info(method: &str, uri: &str) -> (r: String)
    ensures
        r@ == method@ + " "@ + uri@,
{
    let mut line = String::from_str(method);
    line.append(" ");
    line.append(uri);
    line
}

/// The line that reports the target of a request.
pub open spec fn target_line(url: Seq<char>) -> Seq<char> {
    "target: "@ + url
}

/// The line that reports that a request was translated.
pub open spec fn transformation_line(from_path: Seq<char>, to_path: Seq<char>) -> Seq<char> {
    "Transformation: "@ + from_path + " -> "@ + to_path
}

/// The line that reports the body of a translated request.
pub open spec fn transformed_body_line(body: Seq<u8>) -> Seq<char> {
    "Transformed body: "@ + lossy_text(body)
}

/// The line that reports the target of a request.
pub fn log_target_url(url: &str) -> (r: String)
    ensures
        r@ == target_line(url@),
{
    let mut line = String::from_str("target: ");
    line.append(url);
    line
}

/// The line that reports that a request was translated.
pub fn log_transformation(from_path: &str, to_path: &str) -> (r: String)
    ensures
        r@ == transformation_line(from_path@, to_path@),
{
    let mut line = String::from_str("Transformation: ");
    line.append(from_path);
    line.append(" -> ");
    line.append(to_path);
    line
}

/// The line that reports the body of a translated request.
pub fn log_transformed_body(body: &[u8]) -> (r: String)
    ensures
        r@ == transformed_body_line(body@),
{
    let mut line = String::from_str("Transformed body: ");
    let text = lossy(body);
    line.append(text.as_str());
    line
}

/// The line that reports that the upstream could not be reached.
pub fn log_upstream_error(error: &str) -> (r: String)
    ensures
        r@ == "Upstream error: "@ + error@,
{
    let mut line = String::from_str("Upstream error: ");
    line.append(error);
    line
}

/// The lines that report an outbound request without its body.
pub fn log_request_details(method: &str, url: &str, headers: &str) -> (r: String)
    ensures
        r@ == "Forwarding request: "@ + method@ + " "@ + url@ + "\nHeaders:\n"@ + headers@,
{
    let mut line = String::from_str("Forwarding request: ");
    line.append(method);
    line.append(" ");
    line.append(url);
    line.append("\nHeaders:\n");
    line.append(headers);
    line
}

/// What is shown of a header's value: the value itself, but never that of
/// the `authorization` header.
pub open spec fn shown_value(name: Seq<char>, value: Seq<char>) -> Seq<char> {
    if name == "authorization"@ {
        "<REDACTED>"@
    } else {
        value
    }
}

/// The line that reports one header of an outbound request. The credential
/// is not shown.
pub fn header_log_line(name: &str, value: &str) -> (r: String)
    ensures
        r@ == name@ + ": "@ + shown_value(name@, value@) + "\n"@,
{
    let mut line = String::from_str(name);
    line.append(": ");
    if same_text(name, "authorization") {
        line.append("<REDACTED>");
    } else {
        line.append(value);
    }
    line.append("\n");
    line
}

/// The lines that report the headers, one after the other.
pub open spec fn header_lines(fields: Seq<(String, String)>) -> Seq<char>
    decreases fields.len(),
{
    if fields.len() == 0 {
        Seq::empty()
    } else {
        header_lines(fields.drop_last()) + fields.last().0@ + ": "@ + shown_value(
            fields.last().0@,
            fields.last().1@,
        ) + "\n"@
    }
}

/// The lines that report the headers of an outbound request, each with its
/// name and what is shown of its value. The credential is not shown.
pub fn header_log_lines(fields: &Vec<(String, String)>) -> (r: String)
    ensures
        r@ == header_lines(fields@),
{
    let mut out = String::new();
    let mut i: usize = 0;
    while i < fields.len()
        invariant
            i <= fields.len(),
            out@ == header_lines(fields@.take(i as int)),
        decreases fields.len() - i,
    {
        assert(fields@.take(i + 1).drop_last() == fields@.take(i as int));
        let line = header_log_line(fields[i].0.as_str(), fields[i].1.as_str());
        out.append(line.as_str());
        i += 1;
    }
    assert(fields@.take(fields.len() as int) == fields@);
    out
}

/// The directory that holds the dump files.
pub fn log_dir() -> (r: &'static str)
    ensures
        r@ == "logs"@,
{
    "logs"
}

/// The word that names the direction of a dumped body.
pub open spec fn direction_word(is_request: bool) -> Seq<char> {
    if is_request {
        "REQUEST"@
    } else {
        "RESPONSE"@
    }
}

/// The path of the dump file of a host.
pub open spec fn dump_path(host: Seq<char>) -> Seq<char> {
    "logs/"@ + host + ".log"@
}

/// The line that opens a record of the dump file.
pub open spec fn record_header(is_request: bool, timestamp: Seq<char>) -> Seq<char> {
    "----- "@ + direction_word(is_request) + " "@ + timestamp + " -----\n"@
}

/// The bytes of one record: the opening line, the body, and a line feed.
pub open spec fn record_bytes(is_request: bool, timestamp: Seq<char>, body: Seq<u8>) -> Seq<u8> {
    vstd::utf8::encode_utf8(record_header(is_request, timestamp)) + body + seq![10u8]
}

/// One write to a dump file: the file, and the bytes to append to it.
pub struct LogWrite {
    pub path: String,
    pub data: Vec<u8>,
}

/// The write that dumps one body: into the file of the host, a record that
/// opens with the direction and the time and holds the body as it is.
pub fn log_body(host: &str, is_request: bool, timestamp: &str, bytes: &[u8]) -> (r: LogWrite)
    ensures
        r.path@ == dump_path(host@),
        r.data@ == record_bytes(is_request, timestamp@, bytes@),
{
    let mut path = String::from_str("logs/");
    path.append(host);
    path.append(".log");
    let mut header = String::from_str("----- ");
    if is_request {
        header.append("REQUEST");
    } else {
        header.append("RESPONSE");
    }
    header.append(" ");
    header.append(timestamp);
    header.append(" -----\n");
    let mut data: Vec<u8> = Vec::new();
    append_bytes(&mut data, header.as_str().as_bytes());
    append_bytes(&mut data, bytes);
    data.push(10u8);
    LogWrite { path, data }
}

} // verus!
