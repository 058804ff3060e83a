//! Start-up settings of the server: the MCP transport and the HTTP listen address.
use vstd::prelude::*;

use crate::text::{decimal, push_decimal, str_equal};

verus! {

/// How the MCP server talks to its client.
#[derive(Debug, Clone, Copy, PartialEq, Eq, Structural)]
pub enum Transport {
    /// JSON-RPC over standard input and output (the default).
    Stdio,
    /// Streamable HTTP at `/mcp`.
    Http,
}

impl Transport {
    /// The transport's name as given on the command line.
    pub open spec fn name(self) -> Seq<char> {
        match self {
            Transport::Stdio => "stdio"@,
            Transport::Http => "http"@,
        }
    }

    /// The transport named `name`, if any.
    pub open spec fn from_name_spec(name: Seq<char>) -> Option<Transport> {
        if name == "stdio"@ {
            Some(Transport::Stdio)
        } else if name == "http"@ {
            Some(Transport::Http)
        } else {
            None
        }
    }

    /// Parses a transport name; only `stdio` and `http` are accepted.
    pub fn from_name(name: &str) -> (r: Option<Transport>)
        ensures
            r == Transport::from_name_spec(name@),
    {
        if str_equal(name, "stdio") {
            Some(Transport::Stdio)
        } else if str_equal(name, "http") {
            Some(Transport::Http)
        } else {
            None
        }
    }
}

/// Each transport is parsed back from its name.
pub proof fn lemma_transport_name_round_trip(t: Transport)
    ensures
        Transport::from_name_spec(t.name()) == Some(t),
{
    reveal_strlit("stdio");
    reveal_strlit("http");
    assert("stdio"@.len() != "http"@.len());
}

/// The socket address the HTTP transport listens on: `{host}:{port}`.
pub fn listen_address(host: &str, port: u16) -> (s: String)
    ensures
        s@ == host@ + ":"@ + decimal(port as nat),
{
    let mut s = String::from_str(host);
    s.append(":");
    push_decimal(&mut s, port as u32);
    s
}

} // verus!
