//! The arguments that the proxy is started with.

use crate::state::{parse_upstream, parsed_upstream, Upstream};
use vstd::prelude::*;

verus! {

/// The port that the proxy listens on where none is given.
pub const DEFAULT_PORT: u16 = 8080;

/// The arguments of the proxy.
pub struct Args {
    /// Upstream base URL.
    pub upstream: String,
    /// Port to listen on.
    pub port: u16,
    /// The credential, with or without the bearer scheme in front.
    pub api_key: String,
    /// Filter for the diagnostics.
    pub log: String,
    /// Whether request and response bodies are dumped.
    pub dump_body: bool,
    /// Whether Anthropic requests are translated into OpenAI requests.
    pub anthropic_mode: bool,
}

impl Args {
    /// The filter for the diagnostics where none is given.
    pub fn default_log_level() -> (r: &'static str)
        ensures
            r@ == "info"@,
    {
        "info"
    }

    /// The filter for the diagnostics.
    pub fn log_level(&self) -> (r: &str)
        ensures
            r@ == self.log@,
    {
        self.log.as_str()
    }

    /// The upstream base, for arguments whose `upstream` is a URI.
    pub fn upstream_uri(&self) -> (r: Upstream)
        requires
            parsed_upstream(self.upstream@) is Some,
        ensures
            parsed_upstream(self.upstream@) == Some(r@),
    {
        parse_upstream(self.upstream.as_str()).unwrap()
    }

    /// The upstream base, or `None` where `upstream` is not a URI.
    pub fn checked_upstream_uri(&self) -> (r: Option<Upstream>)
        ensures
            match r {
                Some(u) => parsed_upstream(self.upstream@) == Some(u@),
                None => parsed_upstream(self.upstream@) is None,
            },
    {
        match parse_upstream(self.upstream.as_str()) {
            Some(_) => Some(self.upstream_uri()),
            None => None,
        }
    }

    /// Whether Anthropic requests are translated into OpenAI requests.
    pub fn anthropic_mode(&self) -> (r: bool)
        ensures
            r == self.anthropic_mode,
    {
        self.anthropic_mode
    }
}

} // verus!
