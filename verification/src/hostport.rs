//! Addresses as text: reading `host:port` as an address, and writing the
//! name under which a host and a port are looked up.

use crate::address::{Address, AddressView, SocketAddress, SocketAddressView};
use vstd::prelude::*;
use vstd::string::*;

verus! {

/// Why a text names no address.
#[derive(Clone, Copy, Debug, PartialEq, Eq, Structural)]
pub enum AddressError {
    /// The text holds no colon, so no port can be cut from it.
    MissingPort,
    /// What follows the last colon is not a port number.
    InvalidPort,
}

/// Largest port number.
pub const MAX_PORT: u32 = 65535;

/// One of the ten ASCII digits.
pub open spec fn is_digit(c: char) -> bool {
    '0' as u32 <= c as u32 <= '9' as u32
}

/// The number that an ASCII digit stands for.
pub open spec fn digit_value(c: char) -> nat {
    (c as u32 - '0' as u32) as nat
}

/// The character of a digit below ten.
pub open spec fn digit_char(digit: nat) -> char {
    ('0' as u32 + digit) as char
}

/// Every character of the text is an ASCII digit.
pub open spec fn all_digits(text: Seq<char>) -> bool {
    forall|i: int| 0 <= i < text.len() ==> is_digit(#[trigger] text[i])
}

/// The number that decimal digits spell; the empty text spells zero.
pub open spec fn decimal_value(digits: Seq<char>) -> nat
    decreases digits.len(),
{
    if digits.len() == 0 {
        0
    } else {
        decimal_value(digits.drop_last()) * 10 + digit_value(digits.last())
    }
}

/// The decimal digits of a number, without leading zeros.
pub open spec fn decimal_text(number: nat) -> Seq<char>
    decreases number,
{
    if number < 10 {
        seq![digit_char(number)]
    } else {
        decimal_text(number / 10).push(digit_char(number % 10))
    }
}

/// The port that a text spells: an optional plus sign, then one or more
/// decimal digits whose number is at most 65535.
pub open spec fn port_of_text(text: Seq<char>) -> Option<u16> {
    let digits = if text.len() > 0 && text[0] == '+' {
        text.skip(1)
    } else {
        text
    };
    if digits.len() > 0 && all_digits(digits) && decimal_value(digits) <= MAX_PORT {
        Some(decimal_value(digits) as u16)
    } else {
        None
    }
}

/// Where the last colon of a text stands.
pub open spec fn last_colon(text: Seq<char>) -> Option<int>
    decreases text.len(),
{
    if text.len() == 0 {
        None
    } else if text.last() == ':' {
        Some(text.len() - 1)
    } else {
        last_colon(text.drop_last())
    }
}

/// The address that a text names.  A text that spells a socket address is
/// that address; any other text is cut at its last colon into a host name
/// and a port.
pub open spec fn address_of_text(text: Seq<char>, literal: Option<SocketAddressView>) -> Result<
    AddressView,
    AddressError,
> {
    match literal {
        Some(socket) => Ok(AddressView::Socket(socket)),
        None => match last_colon(text) {
            None => Err(AddressError::MissingPort),
            Some(at) => match port_of_text(text.skip(at + 1)) {
                None => Err(AddressError::InvalidPort),
                Some(port) => Ok(AddressView::Domain { name: text.take(at), port }),
            },
        },
    }
}

/// The name under which a host and a port are looked up: `host:port`, the
/// port in decimal.
pub open spec fn lookup_name(host: Seq<char>, port: u16) -> Seq<char> {
    host.push(':') + decimal_text(port as nat)
}

/// The last colon of a text is a colon, and no colon follows it; a text
/// without a last colon holds none.
pub proof fn lemma_last_colon(text: Seq<char>)
    ensures
        match last_colon(text) {
            Some(at) => 0 <= at < text.len() && text[at] == ':' && forall|i: int|
                at < i < text.len() ==> text[i] != ':',
            None => forall|i: int| 0 <= i < text.len() ==> text[i] != ':',
        },
    decreases text.len(),
{
    if text.len() > 0 && text.last() != ':' {
        let front = text.drop_last();
        lemma_last_colon(front);
        assert(forall|i: int| 0 <= i < front.len() ==> front[i] == text[i]);
    }
}

/// Reads the port that a text spells.
pub fn parse_port(text: &str) -> (port: Option<u16>)
    ensures
        port == port_of_text(text@),
{
    let len = text.unicode_len();
    let mut i: usize = 0;
    if len > 0 && text.get_char(0) == '+' {
        i = 1;
    }
    let start = i;
    let ghost digits = text@.skip(start as int);
    proof {
        assert(text@.skip(0) =~= text@);
    }
    if start == len {
        return None;
    }
    let mut value: u32 = 0;
    while i < len
        invariant
            start <= i <= len,
            start < len,
            len == text@.len(),
            digits == text@.skip(start as int),
            digits == if text@.len() > 0 && text@[0] == '+' {
                text@.skip(1)
            } else {
                text@
            },
            all_digits(digits.take(i - start)),
            value <= MAX_PORT + 1,
            value <= MAX_PORT ==> value == decimal_value(digits.take(i - start)),
            value > MAX_PORT ==> decimal_value(digits.take(i - start)) > MAX_PORT,
        decreases len - i,
    {
        let code = text.get_char(i) as u32;
        let ghost seen = digits.take(i - start);
        let ghost next = digits.take(i - start + 1);
        proof {
            assert(next.drop_last() =~= seen);
            assert(next.last() == text@[i as int]);
        }
        if code < '0' as u32 || code > '9' as u32 {
            proof {
                assert(!is_digit(digits[i - start]));
            }
            return None;
        }
        let digit = code - '0' as u32;
        if value > MAX_PORT / 10 || value * 10 + digit > MAX_PORT {
            value = MAX_PORT + 1;
        } else {
            value = value * 10 + digit;
        }
        proof {
            assert forall|k: int| 0 <= k < next.len() implies is_digit(#[trigger] next[k]) by {
                if k < seen.len() {
                    assert(next[k] == seen[k]);
                }
            }
        }
        i += 1;
    }
    proof {
        assert(digits.take(len - start) =~= digits);
    }
    if value > MAX_PORT {
        None
    } else {
        Some(value as u16)
    }
}

/// Reads the address that `name` names.  Whether `name` spells a socket
/// address is for the caller to say: `literal` holds that address if it
/// does.  Any other name is cut at its last colon into a host name and a
/// port.
pub fn string_to_address(name: &str, literal: Option<SocketAddress>) -> (address: Result<
    Address,
    AddressError,
>)
    ensures
        match address_of_text(
            name@,
            match literal {
                Some(socket) => Some(socket@),
                None => None,
            },
        ) {
            Ok(expected) => address matches Ok(found) && found@ == expected,
            Err(error) => address == Err::<Address, AddressError>(error),
        },
{
    if let Some(socket) = literal {
        return Ok(Address::SocketAddress(socket));
    }
    let len = name.unicode_len();
    let mut at = len;
    proof {
        assert(name@.take(len as int) =~= name@);
    }
    while at > 0 && name.get_char(at - 1) != ':'
        invariant
            at <= len,
            len == name@.len(),
            last_colon(name@) == last_colon(name@.take(at as int)),
        decreases at,
    {
        proof {
            assert(name@.take(at as int).drop_last() =~= name@.take(at - 1));
        }
        at -= 1;
    }
    if at == 0 {
        return Err(AddressError::MissingPort);
    }
    let host = name.substring_char(0, at - 1);
    let tail = name.substring_char(at, len);
    proof {
        assert(host@ =~= name@.take(at - 1));
        assert(tail@ =~= name@.skip(at as int));
    }
    match parse_port(tail) {
        None => Err(AddressError::InvalidPort),
        Some(port) => Ok(Address::DomainAddress(String::from_str(host), port)),
    }
}

/// The text of one decimal digit.
fn digit_text(digit: u16) -> (text: &'static str)
    requires
        digit < 10,
    ensures
        text@ == seq![digit_char(digit as nat)],
{
    proof {
        reveal_strlit("0");
        reveal_strlit("1");
        reveal_strlit("2");
        reveal_strlit("3");
        reveal_strlit("4");
        reveal_strlit("5");
        reveal_strlit("6");
        reveal_strlit("7");
        reveal_strlit("8");
        reveal_strlit("9");
    }
    let text = match digit {
        0 => "0",
        1 => "1",
        2 => "2",
        3 => "3",
        4 => "4",
        5 => "5",
        6 => "6",
        7 => "7",
        8 => "8",
        _ => "9",
    };
    assert(text@ =~= seq![digit_char(digit as nat)]);
    text
}

/// Writes a port in decimal, without leading zeros.
pub fn port_to_text(port: u16) -> (text: String)
    ensures
        text@ == decimal_text(port as nat),
    decreases port,
{
    if port < 10 {
        String::from_str(digit_text(port))
    } else {
        let mut text = port_to_text(port / 10);
        text.append(digit_text(port % 10));
        assert(text@ =~= decimal_text(port as nat));
        text
    }
}

/// Writes the name under which `host` and `port` are looked up.
pub fn lookup_text(host: &str, port: u16) -> (name: String)
    ensures
        name@ == lookup_name(host@, port),
{
    proof {
        reveal_strlit(":");
    }
    let mut name = String::from_str(host);
    name.append(":");
    let digits = port_to_text(port);
    name.append(digits.as_str());
    assert(name@ =~= lookup_name(host@, port));
    name
}

/// The decimal text of a number holds digits only, at least one, and spells
/// that number.
pub proof fn lemma_decimal_text(number: nat)
    ensures
        decimal_text(number).len() > 0,
        all_digits(decimal_text(number)),
        decimal_value(decimal_text(number)) == number,
    decreases number,
{
    let text = decimal_text(number);
    if number < 10 {
        assert(text.drop_last() =~= Seq::<char>::empty());
        assert(decimal_value(text.drop_last()) == 0);
    } else {
        let front = decimal_text(number / 10);
        lemma_decimal_text(number / 10);
        assert(text.drop_last() =~= front);
        assert forall|i: int| 0 <= i < text.len() implies is_digit(#[trigger] text[i]) by {
            if i < front.len() {
                assert(text[i] == front[i]);
            }
        }
    }
}

/// Reading undoes writing: the decimal text of a port spells that port.
pub proof fn lemma_port_text_round_trip(port: u16)
    ensures
        port_of_text(decimal_text(port as nat)) == Some(port),
{
    lemma_decimal_text(port as nat);
}

/// A host and a port are read back from the name under which they are
/// looked up, whatever the host name holds, colons too.
pub proof fn lemma_lookup_name_round_trip(host: Seq<char>, port: u16)
    ensures
        address_of_text(lookup_name(host, port), None) == Ok::<AddressView, AddressError>(
            AddressView::Domain { name: host, port },
        ),
{
    let digits = decimal_text(port as nat);
    let name = lookup_name(host, port);
    let at = host.len() as int;
    lemma_decimal_text(port as nat);
    lemma_last_colon(name);
    assert(name[at] == ':');
    assert forall|i: int| at < i < name.len() implies name[i] != ':' by {
        assert(name[i] == digits[i - at - 1]);
        assert(is_digit(digits[i - at - 1]));
    }
    assert(last_colon(name) == Some(at));
    assert(name.skip(at + 1) =~= digits);
    assert(name.take(at) =~= host);
    lemma_port_text_round_trip(port);
}

} // verus!
