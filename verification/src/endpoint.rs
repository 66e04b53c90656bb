//! The socket addresses that the bridge binds and connects to, as text.

use vstd::prelude::*;
use vstd::string::StringExecFns;

verus! {

/// The address that stands for every local interface.
pub const ANY_ADDRESS: &'static str = "0.0.0.0";

/// The port number that leaves the choice of a local port to the system.
pub const EPHEMERAL_PORT: u16 = 0;

/// The multicast group that every replayed message is mirrored to.
pub const MULTICAST_GROUP: &'static str = "225.0.0.37";

/// The port of the multicast group.
pub const MULTICAST_PORT: u16 = 21928;

/// The local port that receives, where the bridge runs without a configured peer.
pub const FIXED_RECEIVE_PORT: u16 = 50000;

/// The local port that sends, where the bridge runs without a configured peer.
pub const FIXED_SEND_PORT: u16 = 50001;

/// The character for a decimal digit.
pub open spec fn digit(d: nat) -> char
    recommends
        d < 10,
{
    seq!['0', '1', '2', '3', '4', '5', '6', '7', '8', '9'][d as int]
}

/// A number in decimal, without sign and without leading zeros.
pub open spec fn decimal(n: nat) -> Seq<char>
    decreases n,
{
    if n < 10 {
        seq![digit(n)]
    } else {
        decimal(n / 10).push(digit(n % 10))
    }
}

/// The number that a run of decimal digits writes.
pub open spec fn number_of(digits: Seq<char>) -> nat
    decreases digits.len(),
{
    if digits.len() == 0 {
        0
    } else {
        number_of(digits.drop_last()) * 10 + (digits.last() as nat - '0' as nat) as nat
    }
}

/// An address and a port joined by a colon.
pub open spec fn joined(address: Seq<char>, port: nat) -> Seq<char> {
    address + seq![':'] + decimal(port)
}

/// Appends one decimal digit to `text`.
fn push_digit(text: &mut String, d: u16)
    requires
        d < 10,
    ensures
        final(text)@ == old(text)@.push(digit(d as nat)),
{
    proof {
        reveal_strlit("0");
        reveal_strlit("1");
        reveal_strlit("2");
        reveal_strlit("3");
        reveal_strlit("4");
        reveal_strlit("5");
        reveal_strlit("6");
        reveal_strlit("7");
        reveal_strlit("8");
        reveal_strlit("9");
    }
    let glyph = match d {
        0 => "0",
        1 => "1",
        2 => "2",
        3 => "3",
        4 => "4",
        5 => "5",
        6 => "6",
        7 => "7",
        8 => "8",
        _ => "9",
    };
    text.append(glyph);
}

/// Appends `n` in decimal to `text`.
fn push_decimal(text: &mut String, n: u16)
    ensures
        final(text)@ == old(text)@ + decimal(n as nat),
    decreases n,
{
    if n >= 10 {
        push_decimal(text, n / 10);
    }
    push_digit(text, n % 10);
}

/// The text of a socket address: `address`, a colon, and `port` in decimal.
pub fn endpoint(address: &str, port: u16) -> (text: String)
    ensures
        text@ == joined(address@, port as nat),
{
    let mut text = String::from_str(address);
    proof {
        reveal_strlit(":");
    }
    text.append(":");
    push_decimal(&mut text, port);
    text
}

/// The socket address of the peer, for the address and port it was
/// configured with. A peer has a port of 1 or more: there is none for port 0.
pub fn peer_endpoint(address: &str, port: u16) -> (text: Option<String>)
    ensures
        port == 0 ==> text is None,
        port >= 1 ==> (text matches Some(t) && t@ == joined(address@, port as nat)),
{
    if port == 0 {
        None
    } else {
        Some(endpoint(address, port))
    }
}

/// `decimal` writes its number and nothing else: the digits read back as
/// `n`, each is one of `0` to `9`, and the first is `0` only for zero itself.
pub proof fn decimal_reads_back(n: nat)
    ensures
        number_of(decimal(n)) == n,
        decimal(n).len() >= 1,
        forall|i: int| 0 <= i < decimal(n).len() ==> '0' <= #[trigger] decimal(n)[i] <= '9',
        decimal(n)[0] == '0' <==> n == 0,
    decreases n,
{
    if n < 10 {
        assert(number_of(decimal(n)) == n) by {
            reveal_with_fuel(number_of, 2);
        }
    } else {
        decimal_reads_back(n / 10);
        assert(decimal(n).drop_last() =~= decimal(n / 10));
    }
}

} // verus!
