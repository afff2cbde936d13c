//! The test whether the relay can be reached.

use vstd::prelude::*;
use vstd::string::*;

use crate::state;
use crate::text;
use crate::text::{before_char, starts_with, strip_prefixes};

verus! {

/// How long the test waits for the connection, in milliseconds.
pub const TEST_TIMEOUT_MS: u64 = 5000;

/// What the test found.
#[derive(Debug)]
pub struct RelayTestResult {
    pub success: bool,
    pub latency_ms: u32,
    pub relay_url: String,
    pub error: Option<String>,
}

/// How the attempt to open a TCP connection to the relay ended.
#[derive(Debug)]
pub enum ConnectOutcome {
    /// Open after so many milliseconds.
    Connected(u128),
    /// Refused, with the reason of the system.
    Refused(String),
    /// Not open within the time allowed.
    TimedOut,
}

/// The host, with the port where there is one, of a WebSocket address.
pub open spec fn host_port(relay_url: Seq<char>) -> Seq<char> {
    text::up_to(
        text::without_prefixes(text::without_prefixes(relay_url, "wss://"@), "ws://"@),
        '/',
    )
}

/// A port is introduced: there is a colon, and no bracket is closed after it. The colons of an
/// IPv6 address stand inside brackets and introduce no port. What follows the colon is not
/// looked at.
pub open spec fn names_port(host: Seq<char>) -> bool
    decreases host.len(),
{
    host.len() > 0 && (host.last() == ':' || (host.last() != ']' && names_port(host.drop_last())))
}

/// Whether a port is introduced.
fn has_port(host: &str) -> (res: bool)
    ensures
        res == names_port(host@),
{
    let mut found = false;
    for c in it: host.chars()
        invariant
            it.seq() == host@,
            found == names_port(host@.take(it.index())),
    {
        assert(host@.take(it.index() + 1).drop_last() =~= host@.take(it.index()));
        if c == ':' {
            found = true;
        } else if c == ']' {
            found = false;
        }
    }
    assert(host@.take(host@.len() as int) =~= host@);
    found
}

/// The address ends in a port: a colon and then decimal digits, at least one.
pub open spec fn ends_in_port(address: Seq<char>) -> bool {
    exists|k: int|
        0 <= k < address.len() - 1 && #[trigger] address[k] == ':' && all_digits(
            address.skip(k + 1),
        )
}

/// Nothing but decimal digits.
pub open spec fn all_digits(s: Seq<char>) -> bool {
    forall|i: int| 0 <= i < s.len() ==> state::is_digit(#[trigger] s[i])
}

/// The TCP address behind a WebSocket address: where no port is given, 443 for `wss` and 80
/// for anything else.
pub open spec fn tcp_address(relay_url: Seq<char>) -> Seq<char> {
    if names_port(host_port(relay_url)) {
        host_port(relay_url)
    } else if "wss://"@.is_prefix_of(relay_url) {
        host_port(relay_url) + ":443"@
    } else {
        host_port(relay_url) + ":80"@
    }
}

/// The TCP address that the test connects to.
pub fn relay_address(relay_url: &str) -> (res: String)
    ensures
        res@ == tcp_address(relay_url@),
{
    proof {
        reveal_strlit("wss://");
        reveal_strlit("ws://");
    }
    let host = before_char(strip_prefixes(strip_prefixes(relay_url, "wss://"), "ws://"), '/');
    if has_port(host) {
        host.to_string()
    } else if starts_with(relay_url, "wss://") {
        host.to_string().concat(":443")
    } else {
        host.to_string().concat(":80")
    }
}

/// The result of the test, from the outcome of the connection. The latency is counted in
/// 32 bits, modulo their range.
pub fn test_relay(relay_url: String, outcome: ConnectOutcome) -> (res: RelayTestResult)
    ensures
        res.relay_url == relay_url,
        res.success == (outcome is Connected),
        match outcome {
            ConnectOutcome::Connected(elapsed_ms) => {
                &&& res.latency_ms == elapsed_ms % 0x1_0000_0000
                &&& res.error is None
            },
            ConnectOutcome::Refused(reason) => {
                &&& res.latency_ms == 0
                &&& res.error matches Some(error)
                &&& error@ == "Connessione rifiutata: "@ + reason@
            },
            ConnectOutcome::TimedOut => {
                &&& res.latency_ms == 0
                &&& res.error matches Some(error)
                &&& error@ == "Timeout — relay non raggiungibile"@
            },
        },
{
    match outcome {
        ConnectOutcome::Connected(elapsed_ms) => {
            assert(elapsed_ms as u32 == elapsed_ms % 0x1_0000_0000) by (bit_vector);
            RelayTestResult {
                success: true,
                latency_ms: #[verifier::truncate] (elapsed_ms as u32),
                relay_url,
                error: None,
            }
        },
        ConnectOutcome::Refused(reason) => RelayTestResult {
            success: false,
            latency_ms: 0,
            relay_url,
            error: Some("Connessione rifiutata: ".to_string().concat(reason.as_str())),
        },
        ConnectOutcome::TimedOut => RelayTestResult {
            success: false,
            latency_ms: 0,
            relay_url,
            error: Some("Timeout — relay non raggiungibile".to_string()),
        },
    }
}

} // verus!
