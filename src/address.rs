//! The transport addresses the node listens on and dials, written as
//! multiaddress text and then parsed.

use vstd::prelude::*;
use vstd::string::StringExecFns;
use libp2p::Multiaddr;
use crate::overlay::{multiaddr_accepts, parse_multiaddr};

verus! {

/// Why an address could not be built.
#[derive(Debug, PartialEq, Eq, Structural)]
pub enum AddressError {
    /// The multiaddress parser refused the text.
    Unparsable,
}

/// The character of a decimal digit.
pub open spec fn digit_char(d: nat) -> char {
    if d == 0 {
        '0'
    } else if d == 1 {
        '1'
    } else if d == 2 {
        '2'
    } else if d == 3 {
        '3'
    } else if d == 4 {
        '4'
    } else if d == 5 {
        '5'
    } else if d == 6 {
        '6'
    } else if d == 7 {
        '7'
    } else if d == 8 {
        '8'
    } else {
        '9'
    }
}

/// The decimal notation of `n`, without leading zeros.
pub open spec fn decimal(n: nat) -> Seq<char>
    decreases n,
{
    if n < 10 {
        seq![digit_char(n)]
    } else {
        decimal(n / 10) + seq![digit_char(n % 10)]
    }
}

/// The loopback TCP address on `port`.
pub open spec fn listen_text(port: u16) -> Seq<char> {
    "/ip4/127.0.0.1/tcp/"@ + decimal(port as nat)
}

/// The TCP address of port `port` at the IPv4 address `ip`, most significant
/// octet first.
pub open spec fn dial_text(ip: Seq<u8>, port: u16) -> Seq<char> {
    "/ip4/"@ + decimal(ip[0] as nat) + "."@ + decimal(ip[1] as nat) + "."@ + decimal(
        ip[2] as nat,
    ) + "."@ + decimal(ip[3] as nat) + "/tcp/"@ + decimal(port as nat)
}

fn digit_text(d: u32) -> (r: &'static str)
    requires
        d < 10,
    ensures
        r@ == seq![digit_char(d as nat)],
{
    if d == 0 {
        proof { reveal_strlit("0"); }
        "0"
    } else if d == 1 {
        proof { reveal_strlit("1"); }
        "1"
    } else if d == 2 {
        proof { reveal_strlit("2"); }
        "2"
    } else if d == 3 {
        proof { reveal_strlit("3"); }
        "3"
    } else if d == 4 {
        proof { reveal_strlit("4"); }
        "4"
    } else if d == 5 {
        proof { reveal_strlit("5"); }
        "5"
    } else if d == 6 {
        proof { reveal_strlit("6"); }
        "6"
    } else if d == 7 {
        proof { reveal_strlit("7"); }
        "7"
    } else if d == 8 {
        proof { reveal_strlit("8"); }
        "8"
    } else {
        proof { reveal_strlit("9"); }
        "9"
    }
}

/// Appends the decimal notation of `n` to `s`.
pub fn push_decimal(s: &mut String, n: u32)
    ensures
        final(s)@ == old(s)@ + decimal(n as nat),
    decreases n,
{
    if n >= 10 {
        push_decimal(s, n / 10);
    }
    s.append(digit_text(n % 10));
    proof {
        assert(old(s)@ + decimal(n as nat) == if n >= 10 {
            old(s)@ + decimal((n / 10) as nat) + seq![digit_char((n % 10) as nat)]
        } else {
            old(s)@ + seq![digit_char((n % 10) as nat)]
        });
    }
}

/// The text of the loopback TCP address on `port`.
pub fn listen_address_text(port: u16) -> (r: String)
    ensures
        r@ == listen_text(port),
{
    let mut s = String::new();
    s.append("/ip4/127.0.0.1/tcp/");
    push_decimal(&mut s, port as u32);
    s
}

/// The text of the TCP address of `port` at the IPv4 address `ip`.
pub fn dial_address_text(ip: [u8; 4], port: u16) -> (r: String)
    ensures
        r@ == dial_text(ip@, port),
{
    let mut s = String::new();
    s.append("/ip4/");
    push_decimal(&mut s, ip[0] as u32);
    s.append(".");
    push_decimal(&mut s, ip[1] as u32);
    s.append(".");
    push_decimal(&mut s, ip[2] as u32);
    s.append(".");
    push_decimal(&mut s, ip[3] as u32);
    s.append("/tcp/");
    push_decimal(&mut s, port as u32);
    s
}

/// Parses multiaddress text; fails exactly when the parser refuses it.
pub fn parse_address(text: &str) -> (r: Result<Multiaddr, AddressError>)
    ensures
        r.is_ok() == multiaddr_accepts(text@),
{
    match parse_multiaddr(text) {
        Ok(a) => Ok(a),
        Err(_) => Err(AddressError::Unparsable),
    }
}

/// The loopback TCP address on `port`, which the node listens on.
pub fn listen_address(port: u16) -> (r: Result<Multiaddr, AddressError>)
    ensures
        r.is_ok() == multiaddr_accepts(listen_text(port)),
{
    let text = listen_address_text(port);
    parse_address(text.as_str())
}

/// The TCP address of `port` at the IPv4 address `ip`, which the node dials.
pub fn dial_address(ip: [u8; 4], port: u16) -> (r: Result<Multiaddr, AddressError>)
    ensures
        r.is_ok() == multiaddr_accepts(dial_text(ip@, port)),
{
    let text = dial_address_text(ip, port);
    parse_address(text.as_str())
}

} // verus!
