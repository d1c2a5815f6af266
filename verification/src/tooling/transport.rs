//! Transport configuration for HTTP tool servers.
use vstd::prelude::*;

use crate::compose::{substring, trim, trim_spec};
use crate::string_map::StringMap;

verus! {

/// Capability offered by a transport implementation.
#[derive(Debug, Clone, Copy, PartialEq, Eq, Hash, Structural)]
pub enum TransportCapability {
    /// Request/response over stateless HTTP.
    StatelessRpc,
    /// Stateful sessions (for example SSE plus a session endpoint).
    StatefulSession,
    /// Server-pushed events and notifications.
    StreamingEvents,
    /// Caller metadata and correlation headers are carried.
    MetadataPropagation,
}

/// Transport mode for HTTP tool servers.
#[derive(Debug, Clone, Copy, PartialEq, Eq, Structural)]
pub enum TransportMode {
    /// Sessions over SSE.
    Stateful,
    /// Direct HTTP POST, no SSE.
    Stateless,
    /// Try SSE first, fall back to stateless.
    Auto,
}

impl Default for TransportMode {
    fn default() -> (r: Self)
        ensures
            r == TransportMode::Auto,
    {
        TransportMode::Auto
    }
}

/// HTTP transport configuration.
#[derive(Debug, Clone)]
pub struct HttpTransportConfig {
    /// Server name.
    pub name: String,
    /// Base URL of the server.
    pub url: String,
    /// Extra headers, such as authorization.
    pub headers: StringMap,
    /// Transport mode.
    pub mode: TransportMode,
    /// Capabilities the server must offer.
    pub required_capabilities: Vec<TransportCapability>,
}

/// Whether every capability of `required` occurs in `offered`.
pub open spec fn capabilities_covered(required: Seq<TransportCapability>, offered: Seq<TransportCapability>) -> bool {
    forall|i: int| 0 <= i < required.len() ==> offered.contains(#[trigger] required[i])
}

fn offers(offered: &[TransportCapability], c: TransportCapability) -> (r: bool)
    ensures
        r == offered@.contains(c),
{
    let mut i: usize = 0;
    while i < offered.len()
        invariant
            i <= offered@.len(),
            forall|j: int| 0 <= j < i ==> offered@[j] != c,
        decreases offered@.len() - i,
    {
        if offered[i] == c {
            return true;
        }
        i = i + 1;
    }
    false
}

/// Whether `offered` holds every capability of `required`.
pub fn covers_capabilities(required: &[TransportCapability], offered: &[TransportCapability]) -> (r: bool)
    ensures
        r == capabilities_covered(required@, offered@),
{
    let mut i: usize = 0;
    while i < required.len()
        invariant
            i <= required@.len(),
            forall|j: int| 0 <= j < i ==> offered@.contains(#[trigger] required@[j]),
        decreases required@.len() - i,
    {
        if !offers(offered, required[i]) {
            return false;
        }
        i = i + 1;
    }
    true
}

impl HttpTransportConfig {
    /// Whether `offered` holds every required capability.
    pub fn is_compatible_with(&self, offered: &[TransportCapability]) -> (r: bool)
        ensures
            r == capabilities_covered(self.required_capabilities@, offered@),
    {
        covers_capabilities(self.required_capabilities.as_slice(), offered)
    }
}

// ── Server-sent events ──────────────────────────────────────────────────────

/// One line of a server-sent event stream.
#[derive(Debug, Clone, PartialEq, Eq)]
pub enum SseLine {
    /// `event:` and the event's name, trimmed.
    Event(String),
    /// `data:` and the payload, trimmed.
    Data(String),
    /// An empty line, which ends an event.
    Blank,
    /// Any other line (comments, ids, retry hints).
    Other,
}

/// Whether `s` begins with `prefix`.
pub open spec fn has_prefix(s: Seq<char>, prefix: Seq<char>) -> bool {
    prefix.len() <= s.len() && s.take(prefix.len() as int) == prefix
}

fn starts_with(s: &str, prefix: &str) -> (r: bool)
    ensures
        r == has_prefix(s@, prefix@),
{
    let n = prefix.unicode_len();
    if n > s.unicode_len() {
        return false;
    }
    let mut i: usize = 0;
    while i < n
        invariant
            n == prefix@.len(),
            n <= s@.len(),
            i <= n,
            forall|j: int| 0 <= j < i ==> s@[j] == prefix@[j],
        decreases n - i,
    {
        if s.get_char(i) != prefix.get_char(i) {
            proof {
                assert(s@.take(n as int)[i as int] != prefix@[i as int]);
            }
            return false;
        }
        i = i + 1;
    }
    proof {
        assert(s@.take(n as int) =~= prefix@);
    }
    true
}

/// Read one line of an event stream: `event:` and `data:` lines give their
/// trimmed values, an empty line ends the event, other lines carry nothing.
pub fn classify_sse_line(line: &str) -> (r: SseLine)
    ensures
        line@.len() == 0 ==> r == SseLine::Blank,
        line@.len() > 0 && has_prefix(line@, "event:"@) ==> (r matches SseLine::Event(n) && n@ == trim_spec(line@.skip(6))),
        line@.len() > 0 && !has_prefix(line@, "event:"@) && has_prefix(line@, "data:"@) ==> (r matches SseLine::Data(d)
            && d@ == trim_spec(line@.skip(5))),
        line@.len() > 0 && !has_prefix(line@, "event:"@) && !has_prefix(line@, "data:"@) ==> r == SseLine::Other,
{
    let n = line.unicode_len();
    if n == 0 {
        return SseLine::Blank;
    }
    proof {
        reveal_strlit("event:");
        reveal_strlit("data:");
    }
    if starts_with(line, "event:") {
        let rest = substring(line, 6, n);
        proof {
            assert(rest@ =~= line@.skip(6));
        }
        return SseLine::Event(trim(rest.as_str()));
    }
    if starts_with(line, "data:") {
        let rest = substring(line, 5, n);
        proof {
            assert(rest@ =~= line@.skip(5));
        }
        return SseLine::Data(trim(rest.as_str()));
    }
    SseLine::Other
}

} // verus!
