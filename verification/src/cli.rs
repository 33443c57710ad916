//! What the command line of the program asks for.

use vstd::prelude::*;

verus! {

/// The address a server listens on where none is given.
pub const DEFAULT_LISTEN: &'static str = "0.0.0.0";

/// The port a server listens on where none is given.
pub const DEFAULT_PORT: u16 = 9527;

/// The resolver a server names to its clients where none is given.
pub const DEFAULT_DNS: &'static str = "8.8.8.8";

/// What a server is started with.
#[derive(Debug, Clone, PartialEq, Eq)]
pub struct Server {
    /// The address to listen on.
    pub bind_addr: String,
    /// The port to listen on.
    pub port: u16,
    /// The shared secret.
    pub key: String,
    /// The resolver that is named to the clients, an IPv4 address in text.
    pub dns: String,
}

/// What a client is started with.
#[derive(Debug, Clone, PartialEq, Eq)]
pub struct Client {
    /// Name or address of the server.
    pub remote_addr: String,
    /// The port of the server.
    pub port: u16,
    /// The shared secret.
    pub key: String,
    /// Whether the tunnel becomes the default route of the host.
    pub default_route: bool,
}

/// What the program is started as.
#[derive(Debug, Clone, PartialEq, Eq)]
pub enum Args {
    Client(Client),
    Server(Server),
}

/// Whether a character is a decimal digit.
pub open spec fn is_digit(c: char) -> bool {
    '0' <= c <= '9'
}

/// The number that a run of decimal digits stands for.
pub open spec fn digits_value(digits: Seq<char>) -> nat
    decreases digits.len(),
{
    if digits.len() == 0 {
        0
    } else {
        digits_value(digits.drop_last()) * 10 + (digits.last() as u32 - '0' as u32) as nat
    }
}

/// The port that a text names: decimal digits, at least one, after an
/// optional plus sign, that stand for a number of 16 bits.
pub open spec fn spec_port(text: Seq<char>) -> Option<u16> {
    let digits = if text.len() > 0 && text[0] == '+' {
        text.skip(1)
    } else {
        text
    };
    if digits.len() > 0 && (forall|i: int| 0 <= i < digits.len() ==> is_digit(#[trigger] digits[i]))
        && digits_value(digits) <= u16::MAX {
        Some(digits_value(digits) as u16)
    } else {
        None
    }
}

/// `str::parse` of the standard library for `u16`: the number that the text
/// names in decimal digits after an optional plus sign, or the message of
/// the error where it names none.
#[verifier::external_body]
fn parse_u16(text: &str) -> (r: Result<u16, String>)
    ensures
        match r {
            Ok(port) => spec_port(text@) == Some(port),
            Err(_) => spec_port(text@) is None,
        },
{
    text.parse::<u16>().map_err(|e| e.to_string())
}

/// What a client is started with, from the values on its command line.
/// Fails, with the message of the error, where `port` names no port.
pub fn client_args(server: &str, port: &str, key: &str, no_default_route: bool) -> (r: Result<
    Args,
    String,
>)
    ensures
        match r {
            Ok(Args::Client(client)) => {
                &&& spec_port(port@) == Some(client.port)
                &&& client.remote_addr@ == server@
                &&& client.key@ == key@
                &&& client.default_route == !no_default_route
            },
            Ok(Args::Server(_)) => false,
            Err(_) => spec_port(port@) is None,
        },
{
    match parse_u16(port) {
        Ok(port) => Ok(
            Args::Client(
                Client {
                    remote_addr: server.to_owned(),
                    port,
                    key: key.to_owned(),
                    default_route: !no_default_route,
                },
            ),
        ),
        Err(message) => Err(message),
    }
}

/// What a server is started with, from the values on its command line.
/// Fails, with the message of the error, where `port` names no port.
pub fn server_args(bind: &str, port: &str, key: &str, dns: &str) -> (r: Result<Args, String>)
    ensures
        match r {
            Ok(Args::Server(server)) => {
                &&& spec_port(port@) == Some(server.port)
                &&& server.bind_addr@ == bind@
                &&& server.key@ == key@
                &&& server.dns@ == dns@
            },
            Ok(Args::Client(_)) => false,
            Err(_) => spec_port(port@) is None,
        },
{
    match parse_u16(port) {
        Ok(port) => Ok(
            Args::Server(
                Server { bind_addr: bind.to_owned(), port, key: key.to_owned(), dns: dns.to_owned() },
            ),
        ),
        Err(message) => Err(message),
    }
}

} // verus!
