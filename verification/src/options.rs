//! Configuration of a tunnel: the three mutually exclusive topologies and the
//! parsing of their mode words.

use vstd::prelude::*;

verus! {

/// Retry interval, in seconds, used when no other value is configured.
pub const DEFAULT_RETRY_TIMEOUT: u64 = 10;

/// The configured topology of a tunnel, as the command line supplies it.
pub enum Options {
    /// Listen on both addresses and pair one inbound connection from each.
    ServerServer { external_address: String, internal_address: String },
    /// Listen on the server address and dial the client address, in the
    /// order the mode selects.
    ClientServer {
        client_address: String,
        server_address: String,
        mode: ClientServerMode,
        timeout: u64,
    },
    /// Dial both addresses, in the order and with the gating the mode
    /// selects.
    ClientClient {
        external_address: String,
        internal_address: String,
        mode: ClientClientMode,
        timeout: u64,
    },
}

/// Which side of a listener-and-dialer tunnel is acquired first.
#[derive(Clone, Copy, Debug, PartialEq, Eq, Structural)]
pub enum ClientServerMode {
    /// Accept the inbound server-side connection first, then dial the client.
    Listen,
    /// Dial the client first, then accept the inbound server-side connection.
    Connect,
}

/// How a dialer-to-dialer tunnel orders its two dials.
#[derive(Clone, Copy, Debug, PartialEq, Eq, Structural)]
pub enum ClientClientMode {
    /// Dial the external address first and gate the internal dial on data.
    ConnectExternal,
    /// Dial the internal address first and gate the external dial on data.
    ConnectInternal,
    /// Dial both, external first, with no data gate.
    ConnectBoth,
}

/// Text equality of two string slices.
fn text_equals(a: &str, b: &str) -> (r: bool)
    ensures
        r == (a@ == b@),
{
    let owned_a: String = a.to_owned();
    let owned_b: String = b.to_owned();
    owned_a == owned_b
}

impl ClientServerMode {
    /// Parses a mode word: exactly `"listen"` and `"connect"` are accepted,
    /// each giving its variant; every other string is rejected with the one
    /// error message.
    pub fn parse(s: &str) -> (r: Result<ClientServerMode, &'static str>)
        ensures
            s@ == "listen"@ ==> r == Ok::<_, &'static str>(ClientServerMode::Listen),
            s@ == "connect"@ ==> r == Ok::<_, &'static str>(ClientServerMode::Connect),
            r is Ok <==> (s@ == "listen"@ || s@ == "connect"@),
            !(s@ == "listen"@ || s@ == "connect"@) ==> (r matches Err(m) && m@
                == "Invalid mode, expected one of listen or connect"@),
    {
        proof {
            reveal_strlit("listen");
            reveal_strlit("connect");
            assert("listen"@.len() == 6);
            assert("connect"@.len() == 7);
        }
        if text_equals(s, "listen") {
            Ok(ClientServerMode::Listen)
        } else if text_equals(s, "connect") {
            Ok(ClientServerMode::Connect)
        } else {
            Err("Invalid mode, expected one of listen or connect")
        }
    }
}

impl ClientClientMode {
    /// Parses a mode word: exactly `"external"`, `"internal"` and `"both"`
    /// are accepted, each giving its variant; every other string is rejected
    /// with the one error message.
    pub fn parse(s: &str) -> (r: Result<ClientClientMode, &'static str>)
        ensures
            s@ == "external"@ ==> r == Ok::<_, &'static str>(ClientClientMode::ConnectExternal),
            s@ == "internal"@ ==> r == Ok::<_, &'static str>(ClientClientMode::ConnectInternal),
            s@ == "both"@ ==> r == Ok::<_, &'static str>(ClientClientMode::ConnectBoth),
            r is Ok <==> (s@ == "external"@ || s@ == "internal"@ || s@ == "both"@),
            !(s@ == "external"@ || s@ == "internal"@ || s@ == "both"@) ==> (r matches Err(m) && m@
                == "Invalid mode, expected one of external, internal or both"@),
    {
        proof {
            reveal_strlit("external");
            reveal_strlit("internal");
            reveal_strlit("both");
            assert("external"@.len() == 8);
            assert("internal"@.len() == 8);
            assert("both"@.len() == 4);
            assert("external"@[0] == 'e');
            assert("internal"@[0] == 'i');
        }
        if text_equals(s, "external") {
            Ok(ClientClientMode::ConnectExternal)
        } else if text_equals(s, "internal") {
            Ok(ClientClientMode::ConnectInternal)
        } else if text_equals(s, "both") {
            Ok(ClientClientMode::ConnectBoth)
        } else {
            Err("Invalid mode, expected one of external, internal or both")
        }
    }
}

impl core::str::FromStr for ClientServerMode {
    type Err = &'static str;

    fn from_str(s: &str) -> Result<Self, Self::Err> {
        ClientServerMode::parse(s)
    }
}

impl core::str::FromStr for ClientClientMode {
    type Err = &'static str;

    fn from_str(s: &str) -> Result<Self, Self::Err> {
        ClientClientMode::parse(s)
    }
}

} // verus!
