//! The decisions of the request pipeline.
//!
//! The caller reads the inbound request, asks `plan_request` what to do with
//! it, sends what it is told to send, and asks `plan_response` what to hand
//! back. Every outcome of a read or a send is an input here, so each
//! decision holds for whatever the network did.

use crate::headers::{
    build_headers, forwarded_fields, has_room, header_fields, header_value_bytes,
};
use crate::logging::{
    log_target_url, log_transformation, log_transformed_body, target_line, transformation_line,
    transformed_body_line,
};
use crate::state::AppState;
use crate::target::{parsed_url, resolve, target_text, TargetError};
use crate::transform::{anthropic_to_openai, translation};
use vstd::prelude::*;
use vstd::slice::slice_to_vec;

verus! {

/// The largest inbound body, in bytes, that is forwarded.
pub const MAX_BODY_BYTES: usize = 2097152;

/// Why a request is answered without the upstream's response.
#[derive(Debug, Clone, Copy, PartialEq, Eq, Structural)]
pub enum Failure {
    /// The inbound request cannot be forwarded: its body could not be read or
    /// is too large, or its target is malformed.
    BadRequest,
    /// The upstream could not be reached, or its response could not be read.
    BadGateway,
    /// The outbound request could not be built.
    Internal,
}

impl Failure {
    /// The status that the inbound caller receives.
    pub open spec fn status(self) -> u16 {
        match self {
            Failure::BadRequest => 400,
            Failure::BadGateway => 502,
            Failure::Internal => 500,
        }
    }

    /// The status that the inbound caller receives.
    pub fn status_code(&self) -> (r: u16)
        ensures
            r == self.status(),
    {
        match self {
            Failure::BadRequest => 400,
            Failure::BadGateway => 502,
            Failure::Internal => 500,
        }
    }
}

/// The method of every outbound request.
pub fn outbound_method() -> (r: &'static str)
    ensures
        r@ == "POST"@,
{
    "POST"
}

/// The path that a request is forwarded on: the translated one where
/// translation is on and applies, else the inbound one.
pub open spec fn forwarded_path(mode: bool, path: Seq<char>, body: Seq<u8>) -> Seq<char> {
    match translation(path, body) {
        Some(t) => if mode {
            t.0
        } else {
            path
        },
        None => path,
    }
}

/// The body that a request is forwarded with: the translated one where
/// translation is on and applies, else the inbound one.
pub open spec fn forwarded_body(mode: bool, path: Seq<char>, body: Seq<u8>) -> Seq<u8> {
    match translation(path, body) {
        Some(t) => if mode {
            t.1
        } else {
            body
        },
        None => body,
    }
}

/// Whether translation is on and applies to the request.
pub open spec fn is_translated(mode: bool, path: Seq<char>, body: Seq<u8>) -> bool {
    mode && translation(path, body) is Some
}

/// A request as it will be forwarded.
pub struct Prepared {
    pub path: String,
    pub body: Vec<u8>,
    /// Whether path and body are a translation of the inbound ones.
    pub translated: bool,
}

/// Applies the translation step: with translation on, a request that the
/// translator accepts goes out translated; every other request goes out as
/// it came.
pub fn prepare(anthropic_mode: bool, path: String, body: Vec<u8>) -> (r: Prepared)
    ensures
        r.path@ == forwarded_path(anthropic_mode, path@, body@),
        r.body@ == forwarded_body(anthropic_mode, path@, body@),
        r.translated == is_translated(anthropic_mode, path@, body@),
{
    if anthropic_mode {
        match anthropic_to_openai(path.as_str(), body.as_slice()) {
            Some((new_path, new_body)) => {
                return Prepared { path: new_path, body: new_body, translated: true };
            },
            None => {},
        }
    }
    Prepared { path, body, translated: false }
}

/// An inbound request as the pipeline reads it. `body` is `None` where the
/// body could not be read within the limit.
pub struct Inbound {
    pub path: String,
    pub query: Option<String>,
    pub headers: axum::http::HeaderMap<axum::http::HeaderValue>,
    pub body: Option<Vec<u8>>,
}

/// A body to dump, with the host whose file it goes to.
pub struct LogRecord {
    pub host: String,
    pub is_request: bool,
    pub body: Vec<u8>,
}

/// The request that goes to the upstream. Its method is `outbound_method`.
pub struct Outbound {
    pub url: String,
    pub headers: axum::http::HeaderMap<axum::http::HeaderValue>,
    pub body: Vec<u8>,
}

/// What to do with an inbound request: report the lines, dump the record,
/// where there is one, report the target, where there is one, then send the
/// outbound request or answer with the failure.
pub struct RequestPlan {
    /// The lines to report before the dump.
    pub report: Vec<String>,
    pub dump: Option<LogRecord>,
    /// The line to report after the dump.
    pub target: Option<String>,
    pub next: Result<Outbound, Failure>,
}

/// The lines of a report as characters.
pub open spec fn lines(report: Seq<String>) -> Seq<Seq<char>> {
    Seq::new(report.len(), |i: int| report[i]@)
}

/// What is reported of the translation step: for a translated request the
/// change of path and the new body, else nothing.
pub open spec fn translation_report(mode: bool, path: Seq<char>, body: Seq<u8>) -> Seq<Seq<char>> {
    if is_translated(mode, path, body) {
        seq![
            transformation_line(path, forwarded_path(mode, path, body)),
            transformed_body_line(forwarded_body(mode, path, body)),
        ]
    } else {
        Seq::empty()
    }
}

/// The query of an inbound request as characters.
pub open spec fn owned_query_view(query: Option<String>) -> Option<Seq<char>> {
    match query {
        Some(q) => Some(q@),
        None => None,
    }
}

/// Whether an inbound body is forwarded: it was read, and is within the
/// limit.
pub open spec fn body_accepted(body: Option<Vec<u8>>) -> bool {
    match body {
        Some(b) => b@.len() <= MAX_BODY_BYTES,
        None => false,
    }
}

/// Whether `record` dumps `body` in the given direction under the host of
/// the upstream.
pub open spec fn is_record(record: LogRecord, state: AppState, is_request: bool, body: Seq<u8>) -> bool {
    &&& record.host@ == state.upstream.log_host_text()
    &&& record.is_request == is_request
    &&& record.body@ == body
}

/// Whether `dump` is what is dumped of `body`: a record of it where dumping
/// is on, nothing where it is off.
pub open spec fn is_dump(dump: Option<LogRecord>, state: AppState, is_request: bool, body: Seq<u8>) -> bool {
    match dump {
        Some(record) => state.dump_body && is_record(record, state, is_request, body),
        None => !state.dump_body,
    }
}

/// The text that the target of an inbound request is parsed from.
pub open spec fn inbound_target(state: AppState, inbound: Inbound) -> Seq<char> {
    target_text(
        state.upstream.text@,
        forwarded_path(state.anthropic_mode, inbound.path@, inbound.body->0@),
        owned_query_view(inbound.query),
    )
}

/// Whether `plan` is the plan for the inbound request.
///
/// A request whose body was not read or is over the limit is answered with
/// `BadRequest`, and nothing is reported, dumped or sent. Any other request
/// is translated where translation is on and applies, and dumped where
/// dumping is on. Where its target is malformed it is answered with
/// `BadRequest`. Else the target is reported and the request is sent to it
/// with the rewritten headers and the forwarded body; it is answered with
/// `Internal` only where the header map refused to grow, which it never does
/// while the inbound headers have room.
pub open spec fn is_request_plan(state: AppState, inbound: Inbound, plan: RequestPlan) -> bool {
    if !body_accepted(inbound.body) {
        &&& plan.report@.len() == 0
        &&& plan.dump is None
        &&& plan.target is None
        &&& plan.next == Err::<Outbound, Failure>(Failure::BadRequest)
    } else {
        let body = forwarded_body(state.anthropic_mode, inbound.path@, inbound.body->0@);
        &&& lines(plan.report@) == translation_report(
            state.anthropic_mode,
            inbound.path@,
            inbound.body->0@,
        )
        &&& is_dump(plan.dump, state, true, body)
        &&& match parsed_url(inbound_target(state, inbound)) {
            None => {
                &&& plan.target is None
                &&& plan.next == Err::<Outbound, Failure>(Failure::BadRequest)
            },
            Some(url) => {
                &&& plan.target matches Some(line)
                &&& line@ == target_line(url)
                &&& match plan.next {
                    Ok(out) => {
                        &&& out.url@ == url
                        &&& out.body@ == body
                        &&& header_fields(out.headers) == forwarded_fields(
                            header_fields(inbound.headers),
                            header_value_bytes(state.auth_header),
                        )
                    },
                    Err(e) => {
                        &&& e == Failure::Internal
                        &&& !has_room(header_fields(inbound.headers))
                    },
                }
            },
        }
    }
}

/// The record that dumps `body`, where dumping is on.
fn dump_of(state: &AppState, is_request: bool, body: &Vec<u8>) -> (r: Option<LogRecord>)
    ensures
        is_dump(r, *state, is_request, body@),
{
    if state.dump_body {
        Some(LogRecord { host: state.upstream.log_host(), is_request, body: slice_to_vec(body.as_slice()) })
    } else {
        None
    }
}

/// Decides what to do with an inbound request.
pub fn plan_request(state: &AppState, inbound: Inbound) -> (plan: RequestPlan)
    ensures
        is_request_plan(*state, inbound, plan),
{
    let Inbound { path, query, headers, body } = inbound;
    let mut report: Vec<String> = Vec::new();
    let body = match body {
        Some(b) => b,
        None => {
            return RequestPlan { report, dump: None, target: None, next: Err(Failure::BadRequest) };
        },
    };
    if body.len() > MAX_BODY_BYTES {
        return RequestPlan { report, dump: None, target: None, next: Err(Failure::BadRequest) };
    }
    let ghost translated = translation_report(state.anthropic_mode, path@, body@);
    let inbound_path = path.clone();
    let prepared = prepare(state.anthropic_mode, path, body);
    if prepared.translated {
        report.push(log_transformation(inbound_path.as_str(), prepared.path.as_str()));
        report.push(log_transformed_body(prepared.body.as_slice()));
    }
    assert(lines(report@) == translated);
    let dump = dump_of(state, true, &prepared.body);
    let query_text = match &query {
        Some(q) => Some(q.as_str()),
        None => None,
    };
    let url = match resolve(state.upstream.text.as_str(), prepared.path.as_str(), query_text) {
        Ok(url) => url,
        Err(TargetError::MalformedTarget) => {
            return RequestPlan { report, dump, target: None, next: Err(Failure::BadRequest) };
        },
    };
    let target = Some(log_target_url(url.as_str()));
    let next = match build_headers(&headers, &state.auth_header) {
        Ok(out_headers) => Ok(Outbound { url, headers: out_headers, body: prepared.body }),
        Err(_) => Err(Failure::Internal),
    };
    RequestPlan { report, dump, target, next }
}

/// How the send to the upstream ended.
pub enum UpstreamOutcome {
    /// The request could not be sent, or no response came.
    Unreachable,
    /// A response came, but its body could not be read.
    BodyUnreadable,
    /// A response came whole, whatever its status.
    Replied {
        status: u16,
        headers: axum::http::HeaderMap<axum::http::HeaderValue>,
        body: Vec<u8>,
    },
}

/// The response that is handed back to the inbound caller.
pub struct Relayed {
    pub status: u16,
    pub headers: axum::http::HeaderMap<axum::http::HeaderValue>,
    pub body: Vec<u8>,
}

/// What to do once the upstream has answered or failed: first dump the
/// record, where there is one, then hand back the response or the failure.
pub struct ResponsePlan {
    pub dump: Option<LogRecord>,
    pub next: Result<Relayed, Failure>,
}

/// Whether `plan` is the plan for the outcome.
///
/// A response that came whole is handed back with its status, headers and
/// body unchanged, and its body is dumped where dumping is on. An upstream
/// that could not be reached or read is answered with `BadGateway`, and
/// nothing is dumped.
pub open spec fn is_response_plan(state: AppState, outcome: UpstreamOutcome, plan: ResponsePlan) -> bool {
    match outcome {
        UpstreamOutcome::Replied { status, headers, body } => {
            &&& is_dump(plan.dump, state, false, body@)
            &&& plan.next matches Ok(relayed)
            &&& relayed.status == status
            &&& relayed.headers == headers
            &&& relayed.body@ == body@
        },
        _ => {
            &&& plan.dump is None
            &&& plan.next matches Err(e)
            &&& e == Failure::BadGateway
        },
    }
}

/// Decides what to hand back to the inbound caller.
pub fn plan_response(state: &AppState, outcome: UpstreamOutcome) -> (plan: ResponsePlan)
    ensures
        is_response_plan(*state, outcome, plan),
{
    match outcome {
        UpstreamOutcome::Replied { status, headers, body } => {
            let dump = dump_of(state, false, &body);
            ResponsePlan { dump, next: Ok(Relayed { status, headers, body }) }
        },
        UpstreamOutcome::Unreachable => ResponsePlan { dump: None, next: Err(Failure::BadGateway) },
        UpstreamOutcome::BodyUnreadable => ResponsePlan {
            dump: None,
            next: Err(Failure::BadGateway),
        },
    }
}

/// A request whose body is over the limit is answered with a client error:
/// nothing is dumped, and nothing is sent to the upstream.
pub proof fn law_oversized_body_is_rejected(state: AppState, inbound: Inbound, plan: RequestPlan)
    requires
        is_request_plan(state, inbound, plan),
        inbound.body matches Some(b) && b@.len() > MAX_BODY_BYTES,
    ensures
        plan.report@.len() == 0,
        plan.dump is None,
        plan.target is None,
        plan.next matches Err(e) && 400 <= e.status() < 500,
{
}

/// A request is sent whenever its body is within the limit, its target
/// parses and its headers have room: nothing else keeps a request from the
/// upstream.
pub proof fn law_request_is_sent(state: AppState, inbound: Inbound, plan: RequestPlan)
    requires
        is_request_plan(state, inbound, plan),
        body_accepted(inbound.body),
        parsed_url(inbound_target(state, inbound)) is Some,
        has_room(header_fields(inbound.headers)),
    ensures
        plan.next matches Ok(out) && Some(out.url@) == parsed_url(inbound_target(state, inbound))
            && out.body@ == forwarded_body(state.anthropic_mode, inbound.path@, inbound.body->0@),
{
}

/// A body of exactly the limit is within it: the request is sent with the
/// body that it came with, where translation is off.
pub proof fn law_body_at_limit_is_sent(state: AppState, inbound: Inbound, plan: RequestPlan)
    requires
        is_request_plan(state, inbound, plan),
        inbound.body matches Some(b) && b@.len() == MAX_BODY_BYTES,
        !state.anthropic_mode,
        parsed_url(inbound_target(state, inbound)) is Some,
        has_room(header_fields(inbound.headers)),
    ensures
        plan.next matches Ok(out) && out.body@ == inbound.body->0@,
{
}

/// With translation off, or where the translator leaves the request alone,
/// the request is sent on the path and with the body that it came with: a
/// translation that does not apply never makes the answer a failure.
pub proof fn law_untranslated_request_is_sent_unchanged(
    state: AppState,
    inbound: Inbound,
    plan: RequestPlan,
)
    requires
        is_request_plan(state, inbound, plan),
        body_accepted(inbound.body),
        !state.anthropic_mode || translation(inbound.path@, inbound.body->0@) is None,
        parsed_url(
            target_text(state.upstream.text@, inbound.path@, owned_query_view(inbound.query)),
        ) is Some,
        has_room(header_fields(inbound.headers)),
    ensures
        plan.report@.len() == 0,
        plan.next matches Ok(out) && out.body@ == inbound.body->0@ && Some(out.url@) == parsed_url(
            target_text(state.upstream.text@, inbound.path@, owned_query_view(inbound.query)),
        ),
{
    assert(lines(plan.report@).len() == 0);
}

/// A request that the translator leaves alone is forwarded on the path and
/// with the body that it came with, whether translation is on or off; and
/// with translation off every request is.
pub proof fn law_untranslated_is_unchanged(mode: bool, path: Seq<char>, body: Seq<u8>)
    requires
        !mode || translation(path, body) is None,
    ensures
        forwarded_path(mode, path, body) == path,
        forwarded_body(mode, path, body) == body,
        !is_translated(mode, path, body),
{
}

/// Whatever the inbound headers hold, an outbound request carries no `host`
/// header, and the configured credential is its one `authorization` header:
/// an inbound `authorization` header is never forwarded.
pub proof fn law_credential_replaces_authorization(
    state: AppState,
    inbound: Inbound,
    plan: RequestPlan,
)
    requires
        is_request_plan(state, inbound, plan),
        plan.next is Ok,
    ensures
        !header_fields(plan.next->Ok_0.headers).contains_key("host"@),
        header_fields(plan.next->Ok_0.headers).contains_key("authorization"@),
        header_fields(plan.next->Ok_0.headers)["authorization"@] == seq![
            header_value_bytes(state.auth_header),
        ],
{
    crate::headers::law_rewritten_headers(
        header_fields(inbound.headers),
        header_value_bytes(state.auth_header),
    );
}

/// An upstream that cannot be reached, or whose response cannot be read, is
/// answered with a bad-gateway status, and nothing is dumped.
pub proof fn law_unreachable_is_bad_gateway(
    state: AppState,
    outcome: UpstreamOutcome,
    plan: ResponsePlan,
)
    requires
        is_response_plan(state, outcome, plan),
        !(outcome is Replied),
    ensures
        plan.dump is None,
        plan.next matches Err(e) && e.status() == 502,
{
}

/// A response of the upstream is handed back whatever its status: an error
/// status of the upstream is relayed like any other.
pub proof fn law_upstream_status_is_relayed(
    state: AppState,
    outcome: UpstreamOutcome,
    plan: ResponsePlan,
)
    requires
        is_response_plan(state, outcome, plan),
        outcome is Replied,
    ensures
        plan.next matches Ok(relayed) && relayed.status == outcome->status && relayed.headers
            == outcome->headers && relayed.body@ == outcome->body@,
{
}

} // verus!
