//! The configuration that every request is handled with.

use crate::cli::Args;
use crate::headers::{header_value_bytes, header_value_from_str, is_value_text};
use crate::text::{trim, trim_start, trimmed, trimmed_start};
use vstd::prelude::*;

verus! {

/// The upstream base URL as the proxy uses it: its text, and its host where
/// it has one.
pub struct Upstream {
    pub text: String,
    pub host: Option<String>,
}

impl View for Upstream {
    type V = (Seq<char>, Option<Seq<char>>);

    open spec fn view(&self) -> (Seq<char>, Option<Seq<char>>) {
        (
            self.text@,
            match self.host {
                Some(h) => Some(h@),
                None => None,
            },
        )
    }
}

/// What `Uri::from_str` reads from `s`: the text of the URI and its host, or
/// `None` where it reports an error.
pub uninterp spec fn parsed_upstream(s: Seq<char>) -> Option<(Seq<char>, Option<Seq<char>>)>;

/// `Uri::from_str`: the parsed URI, kept as its text and its host, and an
/// error becomes `None`.
#[verifier::external_body]
pub(crate) fn parse_upstream(s: &str) -> (r: Option<Upstream>)
    ensures
        match r {
            Some(u) => parsed_upstream(s@) == Some(u@),
            None => parsed_upstream(s@) is None,
        },
{
    match s.parse::<axum::http::Uri>() {
        Ok(uri) => Some(Upstream { text: uri.to_string(), host: uri.host().map(str::to_owned) }),
        Err(_) => None,
    }
}

impl Upstream {
    /// The host that body dumps are filed under: the upstream's host, or
    /// `unknown` where it has none.
    pub open spec fn log_host_text(self) -> Seq<char> {
        match self.host {
            Some(h) => h@,
            None => "unknown"@,
        }
    }

    /// The host that body dumps are filed under.
    pub fn log_host(&self) -> (r: String)
        ensures
            r@ == self.log_host_text(),
    {
        match &self.host {
            Some(h) => h.clone(),
            None => String::from_str("unknown"),
        }
    }
}

/// Whether `s` begins with the scheme token `Bearer` and a space, in any
/// case of the letters.
pub open spec fn has_bearer_scheme(s: Seq<char>) -> bool {
    &&& s.len() >= 7
    &&& (s[0] == 'b' || s[0] == 'B')
    &&& (s[1] == 'e' || s[1] == 'E')
    &&& (s[2] == 'a' || s[2] == 'A')
    &&& (s[3] == 'r' || s[3] == 'R')
    &&& (s[4] == 'e' || s[4] == 'E')
    &&& (s[5] == 'r' || s[5] == 'R')
    &&& s[6] == ' '
}

/// The value of the `authorization` header for the configured key: the key
/// itself where it names the bearer scheme already, else the key without the
/// white space around it, behind `Bearer` and a space.
pub open spec fn credential_text(key: Seq<char>) -> Seq<char> {
    if has_bearer_scheme(trimmed_start(key)) {
        key
    } else {
        "Bearer "@ + trimmed(key)
    }
}

/// Whether `s` begins with the bearer scheme, in any case of the letters.
pub fn starts_with_bearer(s: &str) -> (r: bool)
    ensures
        r == has_bearer_scheme(s@),
{
    if s.unicode_len() < 7 {
        return false;
    }
    let c0 = s.get_char(0);
    let c1 = s.get_char(1);
    let c2 = s.get_char(2);
    let c3 = s.get_char(3);
    let c4 = s.get_char(4);
    let c5 = s.get_char(5);
    let c6 = s.get_char(6);
    (c0 == 'b' || c0 == 'B') && (c1 == 'e' || c1 == 'E') && (c2 == 'a' || c2 == 'A') && (c3 == 'r'
        || c3 == 'R') && (c4 == 'e' || c4 == 'E') && (c5 == 'r' || c5 == 'R') && c6 == ' '
}

/// The credential for the configured key, with the bearer scheme in front
/// unless the key names it already.
pub fn normalize_credential(api_key: &str) -> (r: String)
    ensures
        r@ == credential_text(api_key@),
{
    if starts_with_bearer(trim_start(api_key)) {
        String::from_str(api_key)
    } else {
        let mut out = String::from_str("Bearer ");
        out.append(trim(api_key));
        out
    }
}

/// The credential either is the key as it was configured, which then names
/// the bearer scheme, or is the trimmed key behind one scheme token: the
/// scheme is never put in front of a key that has it.
pub proof fn law_credential_has_one_scheme(key: Seq<char>)
    ensures
        has_bearer_scheme(trimmed_start(key)) ==> credential_text(key) == key,
        !has_bearer_scheme(trimmed_start(key)) ==> credential_text(key) == "Bearer "@ + trimmed(key)
            && has_bearer_scheme(credential_text(key)),
{
    reveal_strlit("Bearer ");
    assert("Bearer "@.len() == 7);
    let t = "Bearer "@ + trimmed(key);
    assert(t[0] == 'B' && t[1] == 'e' && t[2] == 'a' && t[3] == 'r' && t[4] == 'e' && t[5] == 'r'
        && t[6] == ' ');
}

/// Why the configuration could not be built.
#[derive(Debug, Clone, Copy, PartialEq, Eq, Structural)]
pub enum ConfigError {
    /// The credential holds a byte that cannot stand in a header value.
    InvalidCredential,
    /// The upstream base is not a URI.
    InvalidUpstream,
}

/// What every request is handled with: the upstream, the credential as a
/// header value, and the two switches.
pub struct AppState {
    pub upstream: Upstream,
    pub auth_header: axum::http::HeaderValue,
    pub dump_body: bool,
    pub anthropic_mode: bool,
}

impl AppState {
    /// Builds the configuration from the arguments. The credential is
    /// checked first, then the upstream.
    pub fn try_from(args: &Args) -> (r: Result<AppState, ConfigError>)
        ensures
            match r {
                Ok(state) => {
                    &&& is_value_text(vstd::utf8::encode_utf8(credential_text(args.api_key@)))
                    &&& header_value_bytes(state.auth_header) == vstd::utf8::encode_utf8(
                        credential_text(args.api_key@),
                    )
                    &&& parsed_upstream(args.upstream@) == Some(state.upstream@)
                    &&& state.dump_body == args.dump_body
                    &&& state.anthropic_mode == args.anthropic_mode
                },
                Err(ConfigError::InvalidCredential) => !is_value_text(
                    vstd::utf8::encode_utf8(credential_text(args.api_key@)),
                ),
                Err(ConfigError::InvalidUpstream) => {
                    &&& is_value_text(vstd::utf8::encode_utf8(credential_text(args.api_key@)))
                    &&& parsed_upstream(args.upstream@) is None
                },
            },
    {
        let api_key = normalize_credential(args.api_key.as_str());
        let auth_header = match header_value_from_str(api_key.as_str()) {
            Some(v) => v,
            None => {
                return Err(ConfigError::InvalidCredential);
            },
        };
        let upstream = match args.checked_upstream_uri() {
            Some(u) => u,
            None => {
                return Err(ConfigError::InvalidUpstream);
            },
        };
        Ok(
            AppState {
                upstream,
                auth_header,
                dump_body: args.dump_body,
                anthropic_mode: args.anthropic_mode(),
            },
        )
    }
}

} // verus!
