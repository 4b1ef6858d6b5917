//! Network addresses as the voice protocol writes them: IPv4 addresses in
//! dotted decimal notation and IPv6 addresses in colon notation.

use vstd::prelude::*;
use vstd::string::*;
use crate::decode::FromJson;
use crate::json::{json_as_str, Json};
use crate::net::v6::{hex_text, ipv6_of, ipv6_text, parse_v6};
use crate::text::{
    all_digits, chars_of, decimal_chars, digit_value, digits_value,
    lemma_decimal_chars_no_leading_zero, lemma_decimal_chars_value, parse_u64, parse_u64_spec,
    u64_to_decimal,
};

pub mod v6;

verus! {

/// An IP address.
#[derive(Debug, Clone, Copy, PartialEq, Eq, Structural)]
pub enum IpAddress {
    /// An IPv4 address: its four bytes.
    V4(u8, u8, u8, u8),
    /// An IPv6 address: its eight groups of 16 bits.
    V6(u16, u16, u16, u16, u16, u16, u16, u16),
}

/// The address that a text writes: an IPv4 address in dotted decimal
/// notation, or else an IPv6 address in colon notation.
pub open spec fn ip_of(s: Seq<char>) -> Option<IpAddress> {
    match ipv4_of(s) {
        Some(o) => Some(IpAddress::V4(o[0], o[1], o[2], o[3])),
        None => match ipv6_of(s) {
            Some(g) => Some(IpAddress::V6(g[0], g[1], g[2], g[3], g[4], g[5], g[6], g[7])),
            None => None,
        },
    }
}

/// The text of an address: an IPv4 address in dotted decimal notation, an
/// IPv6 address as its eight groups in hexadecimal, with colons between.
pub open spec fn ip_text(address: IpAddress) -> Seq<char> {
    match address {
        IpAddress::V4(a, b, c, d) => ipv4_text(seq![a, b, c, d]),
        IpAddress::V6(a, b, c, d, e, f, g, h) => ipv6_text(seq![a, b, c, d, e, f, g, h]),
    }
}

/// The index of the first `sep` in `s`, or the length of `s` if it has none.
pub open spec fn first_of(s: Seq<char>, sep: char) -> int
    decreases s.len(),
{
    if s.len() == 0 || s[0] == sep {
        0
    } else {
        1 + first_of(s.skip(1), sep)
    }
}

/// The pieces of `s` between its separators `sep`.
pub open spec fn parts_of(s: Seq<char>, sep: char) -> Seq<Seq<char>>
    decreases s.len(),
{
    let i = first_of(s, sep);
    if 0 <= i < s.len() {
        seq![s.take(i)] + parts_of(s.skip(i + 1), sep)
    } else {
        seq![s]
    }
}

/// The pieces of `s` between its dots.
pub open spec fn dotted_parts(s: Seq<char>) -> Seq<Seq<char>> {
    parts_of(s, '.')
}

/// The number that one piece of an address writes: one to three digits, at
/// most 255, and no leading zero in front of another digit.
pub open spec fn octet_of(part: Seq<char>) -> Option<u8> {
    if part.len() > 0 && all_digits(part) && digits_value(part) <= 255 && (part.len() == 1
        || part[0] != '0') {
        Some(digits_value(part) as u8)
    } else {
        None
    }
}

/// The IPv4 address that a text writes: four numbers between three dots.
pub open spec fn ipv4_of(s: Seq<char>) -> Option<Seq<u8>> {
    let parts = dotted_parts(s);
    if parts.len() == 4 && octet_of(parts[0]) is Some && octet_of(parts[1]) is Some && octet_of(
        parts[2],
    ) is Some && octet_of(parts[3]) is Some {
        Some(
            seq![
                octet_of(parts[0]).unwrap(),
                octet_of(parts[1]).unwrap(),
                octet_of(parts[2]).unwrap(),
                octet_of(parts[3]).unwrap(),
            ],
        )
    } else {
        None
    }
}

/// The text of an IPv4 address: its four numbers in decimal, with dots
/// between.
pub open spec fn ipv4_text(octets: Seq<u8>) -> Seq<char> {
    decimal_chars(octets[0] as nat) + seq!['.'] + decimal_chars(octets[1] as nat) + seq!['.']
        + decimal_chars(octets[2] as nat) + seq!['.'] + decimal_chars(octets[3] as nat)
}

proof fn lemma_first_of(s: Seq<char>, sep: char, k: int)
    requires
        0 <= k <= s.len(),
        forall|j: int| 0 <= j < k ==> s[j] != sep,
        k == s.len() || s[k] == sep,
    ensures
        first_of(s, sep) == k,
    decreases s.len(),
{
    if k > 0 {
        lemma_first_of(s.skip(1), sep, k - 1);
    }
}

/// A piece that holds no separator and is followed by one is the first
/// piece.
pub proof fn lemma_parts_of_head(head: Seq<char>, sep: char, rest: Seq<char>)
    requires
        forall|i: int| 0 <= i < head.len() ==> head[i] != sep,
    ensures
        parts_of(head + seq![sep] + rest, sep) == seq![head] + parts_of(rest, sep),
{
    let s = head + seq![sep] + rest;
    lemma_first_of(s, sep, head.len() as int);
    assert(s.take(head.len() as int) =~= head);
    assert(s.skip(head.len() as int + 1) =~= rest);
}

/// A text that holds no separator is one piece.
pub proof fn lemma_parts_of_whole(s: Seq<char>, sep: char)
    requires
        forall|i: int| 0 <= i < s.len() ==> s[i] != sep,
    ensures
        parts_of(s, sep) == seq![s],
{
    lemma_first_of(s, sep, s.len() as int);
}

/// The decimal notation of a number holds no dot.
proof fn lemma_decimal_chars_no_dot(n: nat)
    ensures
        forall|i: int| 0 <= i < decimal_chars(n).len() ==> decimal_chars(n)[i] != '.',
        dotted_parts(decimal_chars(n)) == seq![decimal_chars(n)],
{
    lemma_decimal_chars_value(n);
    let s = decimal_chars(n);
    assert forall|i: int| 0 <= i < s.len() implies s[i] != '.' by {
        assert(digit_value(s[i]) is Some);
    }
    lemma_parts_of_whole(s, '.');
}

/// The decimal notation of a byte is the piece that writes the byte.
proof fn lemma_octet_of_decimal(n: u8)
    ensures
        octet_of(decimal_chars(n as nat)) == Some(n),
{
    lemma_decimal_chars_value(n as nat);
    if n > 0 {
        lemma_decimal_chars_no_leading_zero(n as nat);
    }
}

/// Reading the text of an IPv4 address gives the address back.
pub proof fn lemma_ipv4_round_trip(octets: Seq<u8>)
    requires
        octets.len() == 4,
    ensures
        ipv4_of(ipv4_text(octets)) == Some(octets),
{
    let a = decimal_chars(octets[0] as nat);
    let b = decimal_chars(octets[1] as nat);
    let c = decimal_chars(octets[2] as nat);
    let d = decimal_chars(octets[3] as nat);
    lemma_decimal_chars_no_dot(octets[0] as nat);
    lemma_decimal_chars_no_dot(octets[1] as nat);
    lemma_decimal_chars_no_dot(octets[2] as nat);
    lemma_decimal_chars_no_dot(octets[3] as nat);
    lemma_octet_of_decimal(octets[0]);
    lemma_octet_of_decimal(octets[1]);
    lemma_octet_of_decimal(octets[2]);
    lemma_octet_of_decimal(octets[3]);
    let dot = seq!['.'];
    assert(ipv4_text(octets) =~= a + dot + (b + dot + (c + dot + d)));
    lemma_parts_of_head(a, '.', b + dot + (c + dot + d));
    lemma_parts_of_head(b, '.', c + dot + d);
    lemma_parts_of_head(c, '.', d);
    let parts = dotted_parts(ipv4_text(octets));
    assert(parts =~= seq![a, b, c, d]);
    assert(ipv4_of(ipv4_text(octets)).unwrap() =~= octets);
}

/// The number that one piece of an address writes.
fn parse_octet(part: &Vec<char>) -> (r: Option<u8>)
    ensures
        r == octet_of(part@),
{
    if part.len() == 0 || part.len() > 3 {
        proof {
            if part@.len() > 3 && all_digits(part@) && part@[0] != '0' {
                lemma_long_number(part@);
            }
        }
        return None;
    }
    if part.len() > 1 && part[0] == '0' {
        return None;
    }
    if part[0] == '+' {
        assert(digit_value(part@[0]) is None);
        return None;
    }
    match parse_u64(part) {
        Some(v) => {
            if v <= 255 {
                Some(v as u8)
            } else {
                None
            }
        },
        None => {
            proof {
                if all_digits(part@) {
                    lemma_short_number(part@);
                }
            }
            None
        },
    }
}

/// Digits without a leading zero write at least ten to the number of
/// digits less one; four of them write more than 255.
proof fn lemma_long_number(s: Seq<char>)
    requires
        s.len() > 3,
        all_digits(s),
        s[0] != '0',
    ensures
        digits_value(s) > 255,
    decreases s.len(),
{
    let a = s.take(1);
    let b = s.take(2);
    let c = s.take(3);
    let d = s.take(4);
    assert(a.drop_last() =~= Seq::<char>::empty());
    assert(b.drop_last() =~= a);
    assert(c.drop_last() =~= b);
    assert(d.drop_last() =~= c);
    assert(digit_value(s[0]) is Some);
    assert(digit_value(s[1]) is Some);
    assert(digit_value(s[2]) is Some);
    assert(digit_value(s[3]) is Some);
    assert(digits_value(a.drop_last()) == 0);
    assert(digits_value(a) >= 1);
    assert(digits_value(b) >= 10);
    assert(digits_value(c) >= 100);
    assert(digits_value(d) >= 1000);
    crate::text::lemma_digits_value_prefix(s, 4);
}

/// At most three digits write less than a thousand.
proof fn lemma_short_number(s: Seq<char>)
    requires
        s.len() <= 3,
        all_digits(s),
    ensures
        digits_value(s) <= 999,
{
    if s.len() >= 1 {
        let a = s.take(1);
        assert(a.drop_last() =~= Seq::<char>::empty());
        assert(digits_value(a.drop_last()) == 0);
        assert(digit_value(s[0]) is Some);
        assert(digits_value(a) <= 9);
        if s.len() >= 2 {
            let b = s.take(2);
            assert(b.drop_last() =~= a);
            assert(digit_value(s[1]) is Some);
            assert(digits_value(b) <= 99);
            if s.len() >= 3 {
                let c = s.take(3);
                assert(c.drop_last() =~= b);
                assert(digit_value(s[2]) is Some);
                assert(c =~= s);
            } else {
                assert(b =~= s);
            }
        } else {
            assert(a =~= s);
        }
    }
}

/// The views of a list of pieces.
pub open spec fn part_views(parts: Seq<Vec<char>>) -> Seq<Seq<char>> {
    Seq::new(parts.len(), |k: int| parts[k]@)
}

/// Cuts `chars` at every `sep`.
pub(crate) fn split_at(chars: &Vec<char>, sep: char) -> (parts: Vec<Vec<char>>)
    ensures
        part_views(parts@) == parts_of(chars@, sep),
{
    let mut parts: Vec<Vec<char>> = Vec::new();
    let mut current: Vec<char> = Vec::new();
    let mut start: usize = 0;
    let mut i: usize = 0;
    proof {
        assert(chars@.skip(0) =~= chars@);
        assert(part_views(parts@) =~= Seq::<Seq<char>>::empty());
    }
    while i < chars.len()
        invariant
            start <= i <= chars@.len(),
            parts_of(chars@, sep) == part_views(parts@) + parts_of(chars@.skip(start as int), sep),
            current@ == chars@.subrange(start as int, i as int),
            forall|j: int| start <= j < i ==> chars@[j] != sep,
        decreases chars@.len() - i,
    {
        if chars[i] == sep {
            proof {
                let rest = chars@.skip(start as int);
                let done = part_views(parts@);
                lemma_first_of(rest, sep, i - start);
                assert(rest.take(i - start) =~= current@);
                assert(rest.skip(i - start + 1) =~= chars@.skip(i + 1));
                assert(done + (seq![current@] + parts_of(chars@.skip(i + 1), sep)) =~= done.push(
                    current@,
                ) + parts_of(chars@.skip(i + 1), sep));
                assert(part_views(parts@.push(current)) =~= done.push(current@));
            }
            parts.push(current);
            current = Vec::new();
            start = i + 1;
            proof {
                assert(current@ =~= chars@.subrange(start as int, start as int));
            }
        } else {
            current.push(chars[i]);
            proof {
                assert(current@ =~= chars@.subrange(start as int, i + 1));
            }
        }
        i = i + 1;
    }
    proof {
        let rest = chars@.skip(start as int);
        let done = part_views(parts@);
        lemma_first_of(rest, sep, i - start);
        assert(rest =~= current@);
        assert(parts_of(rest, sep) =~= seq![rest]);
        assert(part_views(parts@.push(current)) =~= done.push(current@));
        assert(done + seq![rest] =~= done.push(current@));
    }
    parts.push(current);
    parts
}

/// The four numbers that a text in dotted decimal notation writes.
pub(crate) fn parse_v4(chars: &Vec<char>) -> (r: Option<(u8, u8, u8, u8)>)
    ensures
        match r {
            Some(o) => ipv4_of(chars@) == Some(seq![o.0, o.1, o.2, o.3]),
            None => ipv4_of(chars@) is None,
        },
{
    let parts = split_at(chars, '.');
    if parts.len() != 4 {
        return None;
    }
    proof {
        let views = part_views(parts@);
        assert(views[0] == parts@[0]@);
        assert(views[1] == parts@[1]@);
        assert(views[2] == parts@[2]@);
        assert(views[3] == parts@[3]@);
    }
    let a = parse_octet(&parts[0])?;
    let b = parse_octet(&parts[1])?;
    let c = parse_octet(&parts[2])?;
    let d = parse_octet(&parts[3])?;
    assert(seq![a, b, c, d] =~= ipv4_of(chars@).unwrap());
    Some((a, b, c, d))
}

/// Reading the text of an address gives the address back.
pub proof fn lemma_ip_round_trip(address: IpAddress)
    ensures
        ip_of(ip_text(address)) == Some(address),
{
    match address {
        IpAddress::V4(a, b, c, d) => {
            lemma_ipv4_round_trip(seq![a, b, c, d]);
        },
        IpAddress::V6(a, b, c, d, e, f, g, h) => {
            crate::net::v6::lemma_ipv6_round_trip(seq![a, b, c, d, e, f, g, h]);
        },
    }
}

impl IpAddress {
    /// The address that a text writes.
    pub fn parse(text: &str) -> (r: Option<IpAddress>)
        ensures
            r == ip_of(text@),
    {
        let chars = chars_of(text);
        match parse_v4(&chars) {
            Some(o) => Some(IpAddress::V4(o.0, o.1, o.2, o.3)),
            None => match parse_v6(&chars) {
                Some(g) => Some(IpAddress::V6(g[0], g[1], g[2], g[3], g[4], g[5], g[6], g[7])),
                None => None,
            },
        }
    }

    /// The text of this address.
    pub fn to_text(&self) -> (r: String)
        ensures
            r@ == ip_text(*self),
    {
        match self {
            IpAddress::V4(a, b, c, d) => {
                let mut s = u64_to_decimal(*a as u64);
                s.append(".");
                s.append(u64_to_decimal(*b as u64).as_str());
                s.append(".");
                s.append(u64_to_decimal(*c as u64).as_str());
                s.append(".");
                s.append(u64_to_decimal(*d as u64).as_str());
                proof {
                    reveal_strlit(".");
                    assert("."@ =~= seq!['.']);
                }
                assert(s@ =~= ipv4_text(seq![*a, *b, *c, *d]));
                s
            },
            IpAddress::V6(a, b, c, d, e, f, g, h) => {
                let mut s = hex_text(*a);
                s.append(":");
                s.append(hex_text(*b).as_str());
                s.append(":");
                s.append(hex_text(*c).as_str());
                s.append(":");
                s.append(hex_text(*d).as_str());
                s.append(":");
                s.append(hex_text(*e).as_str());
                s.append(":");
                s.append(hex_text(*f).as_str());
                s.append(":");
                s.append(hex_text(*g).as_str());
                s.append(":");
                s.append(hex_text(*h).as_str());
                proof {
                    reveal_strlit(":");
                    assert(":"@ =~= seq![':']);
                }
                assert(s@ =~= ipv6_text(seq![*a, *b, *c, *d, *e, *f, *g, *h]));
                s
            },
        }
    }
}

/// An address travels as a string.
impl FromJson for IpAddress {
    open spec fn readable(j: Json) -> bool {
        j.as_str() is Some && ip_of(j.as_str().unwrap()) is Some
    }

    open spec fn read_from(&self, j: Json) -> bool {
        j.as_str() is Some && ip_of(j.as_str().unwrap()) == Some(*self)
    }

    fn from_json(json: &serde_json::Value) -> (r: Option<IpAddress>) {
        IpAddress::parse(json_as_str(json)?)
    }
}

} // verus!
