//! MAC addresses as text: six octets as lowercase hexadecimal pairs joined
//! by colons.

use vstd::prelude::*;
use vstd::string::StringExecFns;

verus! {

/// The lowercase hexadecimal digit for a value from 0 to 15.
pub open spec fn hex_digit(value: int) -> char
    recommends
        0 <= value < 16,
{
    if value == 0 {
        '0'
    } else if value == 1 {
        '1'
    } else if value == 2 {
        '2'
    } else if value == 3 {
        '3'
    } else if value == 4 {
        '4'
    } else if value == 5 {
        '5'
    } else if value == 6 {
        '6'
    } else if value == 7 {
        '7'
    } else if value == 8 {
        '8'
    } else if value == 9 {
        '9'
    } else if value == 10 {
        'a'
    } else if value == 11 {
        'b'
    } else if value == 12 {
        'c'
    } else if value == 13 {
        'd'
    } else if value == 14 {
        'e'
    } else {
        'f'
    }
}

/// One octet as two hexadecimal digits, the high half first.
pub open spec fn octet_text(octet: u8) -> Seq<char> {
    seq![hex_digit(octet as int / 16), hex_digit(octet as int % 16)]
}

/// Six octets as text: `xx:xx:xx:xx:xx:xx`.
pub open spec fn mac_text(octets: Seq<u8>) -> Seq<char>
    recommends
        octets.len() == 6,
{
    octet_text(octets[0]) + seq![':'] + octet_text(octets[1]) + seq![':'] + octet_text(octets[2])
        + seq![':'] + octet_text(octets[3]) + seq![':'] + octet_text(octets[4]) + seq![':']
        + octet_text(octets[5])
}

/// Whether `c` may occur in the text of an address: a decimal digit, a
/// lowercase letter from `a` to `f`, or the colon.
pub open spec fn is_mac_char(c: char) -> bool {
    ('0' <= c && c <= '9') || ('a' <= c && c <= 'f') || c == ':'
}

/// A MAC address in its textual form.
#[derive(Clone, PartialEq, Eq, Debug)]
pub struct MACField {
    pub addr: String,
}

impl View for MACField {
    type V = Seq<char>;

    open spec fn view(&self) -> Seq<char> {
        self.addr@
    }
}

/// The digit for `value` as a string of one character.
fn hex_digit_str(value: u8) -> (digit: &'static str)
    requires
        value < 16,
    ensures
        digit@ == seq![hex_digit(value as int)],
{
    proof {
        reveal_strlit("0");
        reveal_strlit("1");
        reveal_strlit("2");
        reveal_strlit("3");
        reveal_strlit("4");
        reveal_strlit("5");
        reveal_strlit("6");
        reveal_strlit("7");
        reveal_strlit("8");
        reveal_strlit("9");
        reveal_strlit("a");
        reveal_strlit("b");
        reveal_strlit("c");
        reveal_strlit("d");
        reveal_strlit("e");
        reveal_strlit("f");
    }
    let digit = match value {
        0 => "0",
        1 => "1",
        2 => "2",
        3 => "3",
        4 => "4",
        5 => "5",
        6 => "6",
        7 => "7",
        8 => "8",
        9 => "9",
        10 => "a",
        11 => "b",
        12 => "c",
        13 => "d",
        14 => "e",
        _ => "f",
    };
    digit
}

/// Appends the two digits of `octet` to `text`.
fn push_octet(text: &mut String, octet: u8)
    ensures
        final(text)@ == old(text)@ + octet_text(octet),
{
    text.append(hex_digit_str(octet / 16));
    text.append(hex_digit_str(octet % 16));
}

/// Appends a colon to `text`.
fn push_colon(text: &mut String)
    ensures
        final(text)@ == old(text)@ + seq![':'],
{
    proof {
        reveal_strlit(":");
    }
    text.append(":");
}

impl MACField {
    /// Renders the six octets of `s` as text.
    pub fn from_slice(s: &[u8]) -> (field: MACField)
        requires
            s@.len() == 6,
        ensures
            field@ == mac_text(s@),
            field@.len() == 17,
    {
        let mut addr = String::new();
        push_octet(&mut addr, s[0]);
        push_colon(&mut addr);
        push_octet(&mut addr, s[1]);
        push_colon(&mut addr);
        push_octet(&mut addr, s[2]);
        push_colon(&mut addr);
        push_octet(&mut addr, s[3]);
        push_colon(&mut addr);
        push_octet(&mut addr, s[4]);
        push_colon(&mut addr);
        push_octet(&mut addr, s[5]);
        MACField { addr }
    }
}

/// The character at place `i` of the text of `octets`: at each third place a
/// colon, elsewhere a digit of the octet that the place belongs to.
pub open spec fn mac_char_at(octets: Seq<u8>, i: int) -> char
    recommends
        octets.len() == 6,
        0 <= i < 17,
{
    if i % 3 == 2 {
        ':'
    } else if i % 3 == 0 {
        hex_digit(octets[i / 3] as int / 16)
    } else {
        hex_digit(octets[i / 3] as int % 16)
    }
}

/// The text of an address has seventeen characters, and each is the one that
/// `mac_char_at` names.
pub proof fn mac_text_layout(octets: Seq<u8>)
    requires
        octets.len() == 6,
    ensures
        mac_text(octets).len() == 17,
        forall|i: int| 0 <= i < 17 ==> #[trigger] mac_text(octets)[i] == mac_char_at(octets, i),
{
    assert(mac_text(octets) =~= Seq::new(17, |i: int| mac_char_at(octets, i)));
}

/// Two values from 0 to 15 with the same digit are the same value.
pub proof fn hex_digit_injective(a: int, b: int)
    requires
        0 <= a < 16,
        0 <= b < 16,
        hex_digit(a) == hex_digit(b),
    ensures
        a == b,
{
}

/// Formatting is injective: two addresses with the same text are the same
/// six octets.
pub proof fn mac_text_injective(a: Seq<u8>, b: Seq<u8>)
    requires
        a.len() == 6,
        b.len() == 6,
        mac_text(a) == mac_text(b),
    ensures
        a == b,
{
    mac_text_layout(a);
    mac_text_layout(b);
    assert forall|k: int| 0 <= k < 6 implies a[k] == b[k] by {
        assert((3 * k) % 3 == 0 && (3 * k) / 3 == k);
        assert((3 * k + 1) % 3 == 1 && (3 * k + 1) / 3 == k);
        assert(mac_text(a)[3 * k] == mac_char_at(a, 3 * k));
        assert(mac_text(b)[3 * k] == mac_char_at(b, 3 * k));
        assert(mac_text(a)[3 * k + 1] == mac_char_at(a, 3 * k + 1));
        assert(mac_text(b)[3 * k + 1] == mac_char_at(b, 3 * k + 1));
        hex_digit_injective(a[k] as int / 16, b[k] as int / 16);
        hex_digit_injective(a[k] as int % 16, b[k] as int % 16);
    }
    assert(a =~= b);
}

/// Formatting is always lowercase: every character of the text is a decimal
/// digit, a letter from `a` to `f`, or a colon.
pub proof fn mac_text_is_lowercase_hex(octets: Seq<u8>)
    requires
        octets.len() == 6,
    ensures
        forall|i: int| 0 <= i < 17 ==> is_mac_char(#[trigger] mac_text(octets)[i]),
{
    mac_text_layout(octets);
    assert forall|i: int| 0 <= i < 17 implies is_mac_char(#[trigger] mac_text(octets)[i]) by {
        assert(0 <= i / 3 < 6);
    }
}

} // verus!
