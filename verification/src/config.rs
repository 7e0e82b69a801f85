//! Client configuration and its resolution from environment-style inputs.

use vstd::prelude::*;

verus! {

/// Default sidecar base URL, used when none is configured.
pub open spec fn spec_default_sidecar_url() -> Seq<char> {
    ("http://localhost:8910")@
}

/// Default per-request timeout in milliseconds. Chosen to be negligible
/// relative to typical tool-call latency, so that enforcement cannot become
/// the bottleneck.
pub const DEFAULT_TIMEOUT_MS: u64 = 50;

/// Client configuration: read once at startup, immutable thereafter.
#[derive(Debug, Clone)]
pub struct Config {
    /// Sidecar base URL.
    pub sidecar_url: String,
    /// Per-request timeout in milliseconds.
    pub timeout_ms: u64,
    /// When true, synthesize a degraded ALLOW when the sidecar is
    /// unreachable instead of returning an error. Defaults to false
    /// (fail-closed): absence of configuration must never silently weaken
    /// enforcement.
    pub fail_open: bool,
    /// Session License Token sent as a bearer credential; `None` means no
    /// `Authorization` header is ever sent.
    pub slt: Option<String>,
}

impl Config {
    /// Resolve a configuration from environment-style inputs with
    /// production-safe defaults. Resolution always succeeds:
    /// - the sidecar URL falls back to the default when absent or empty;
    /// - an absent or empty credential means no credential at all (an empty
    ///   bearer token is never sent);
    /// - the timeout and the fail-closed posture are fixed defaults.
    pub fn resolve(sidecar_url: Option<String>, slt: Option<String>) -> (r: Config)
        ensures
            (match sidecar_url {
                Some(u) => if u@.len() == 0 {
                    r.sidecar_url@ == spec_default_sidecar_url()
                } else {
                    r.sidecar_url@ == u@
                },
                None => r.sidecar_url@ == spec_default_sidecar_url(),
            }),
            r.timeout_ms == DEFAULT_TIMEOUT_MS,
            r.fail_open == false,
            (match slt {
                Some(t) => if t@.len() == 0 {
                    r.slt is None
                } else {
                    r.slt matches Some(c) && c@ == t@
                },
                None => r.slt is None,
            }),
    {
        let url = match sidecar_url {
            Some(u) => {
                if u.as_str().unicode_len() == 0 {
                    String::from_str("http://localhost:8910")
                } else {
                    u
                }
            },
            None => String::from_str("http://localhost:8910"),
        };
        let cred = match slt {
            Some(t) => {
                if t.as_str().unicode_len() == 0 {
                    None
                } else {
                    Some(t)
                }
            },
            None => None,
        };
        Config { sidecar_url: url, timeout_ms: DEFAULT_TIMEOUT_MS, fail_open: false, slt: cred }
    }
}

} // verus!
