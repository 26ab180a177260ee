//! Process-wide settings that the library validates or hands to clients.
use vstd::prelude::*;
use vstd::string::{StringExecFns, StringSliceAdditionalSpecFns};
use crate::decimal::{parse_unsigned, parse_unsigned_spec};

verus! {

/// The settings that the browser client reads.
#[derive(Debug, Clone)]
pub struct ClientConfig {
    /// The page title.
    pub title: String,
    /// The delay before the client reconnects a closed connection, if it should.
    pub reconnect: Option<u16>,
}

/// The lowest port that may be listened on.
pub const PORT_MIN: u64 = 1;

/// The highest port that may be listened on.
pub const PORT_MAX: u64 = 65535;

/// The error for text that is no port number.
pub open spec fn not_a_port_text(s: Seq<char>) -> Seq<char> {
    "`"@ + s + "` isn't a port number"@
}

/// The error for a number outside the port range.
pub open spec fn out_of_range_text() -> Seq<char> {
    "port not in range 1-65535"@
}

/// Reads a listening port: text that reads as a `usize` from 1 to 65535.
pub fn port_in_range(s: &str) -> (r: Result<u16, String>)
    ensures
        match parse_unsigned_spec(s.spec_bytes(), usize::MAX as nat) {
            None => r is Err && r->Err_0@ == not_a_port_text(s@),
            Some(v) => if PORT_MIN <= v <= PORT_MAX {
                r == Ok::<u16, String>(v as u16)
            } else {
                r is Err && r->Err_0@ == out_of_range_text()
            },
        },
{
    match parse_unsigned(s.as_bytes(), usize::MAX as u64) {
        None => Err(String::from_str("`").concat(s).concat("` isn't a port number")),
        Some(port) => if PORT_MIN <= port && port <= PORT_MAX {
            Ok(port as u16)
        } else {
            Err(String::from_str("port not in range 1-65535"))
        },
    }
}

} // verus!
