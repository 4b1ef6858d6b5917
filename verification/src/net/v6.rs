//! IPv6 addresses in colon notation: up to eight groups of hexadecimal
//! digits with colons between, at most one `::` that stands for one or more
//! groups of zeros, and optionally an IPv4 address in dotted decimal notation
//! in place of the last two groups.

use vstd::prelude::*;
use vstd::string::*;
use crate::net::{
    ipv4_of, lemma_parts_of_head, lemma_parts_of_whole, part_views, parse_v4, parts_of, split_at,
};
use crate::text::digit_value;

verus! {

/// The number that a hexadecimal digit stands for.
pub open spec fn hex_value(c: char) -> Option<int> {
    if digit_value(c) is Some {
        digit_value(c)
    } else if c == 'a' || c == 'A' {
        Some(10)
    } else if c == 'b' || c == 'B' {
        Some(11)
    } else if c == 'c' || c == 'C' {
        Some(12)
    } else if c == 'd' || c == 'D' {
        Some(13)
    } else if c == 'e' || c == 'E' {
        Some(14)
    } else if c == 'f' || c == 'F' {
        Some(15)
    } else {
        None
    }
}

/// Whether every character of `s` is a hexadecimal digit.
pub open spec fn all_hex(s: Seq<char>) -> bool {
    forall|i: int| 0 <= i < s.len() ==> (#[trigger] hex_value(s[i])) is Some
}

/// The number that a sequence of hexadecimal digits writes.
pub open spec fn hex_number(s: Seq<char>) -> nat
    decreases s.len(),
{
    if s.len() == 0 {
        0
    } else {
        let d = match hex_value(s.last()) {
            Some(d) => d,
            None => 0,
        };
        (hex_number(s.drop_last()) * 16 + d) as nat
    }
}

/// The group that one piece of an address writes: one to four hexadecimal
/// digits.
pub open spec fn group_of(part: Seq<char>) -> Option<u16> {
    if 1 <= part.len() <= 4 && all_hex(part) && hex_number(part) <= 0xFFFF {
        Some(hex_number(part) as u16)
    } else {
        None
    }
}

/// The groups that a list of pieces writes, if every piece writes one.
pub open spec fn hex_groups(parts: Seq<Seq<char>>) -> Option<Seq<u16>> {
    if forall|i: int| 0 <= i < parts.len() ==> (#[trigger] group_of(parts[i])) is Some {
        Some(Seq::new(parts.len(), |i: int| group_of(parts[i]).unwrap()))
    } else {
        None
    }
}

/// The two groups that the four bytes of an IPv4 address make.
pub open spec fn v4_groups(octets: Seq<u8>) -> Seq<u16> {
    seq![(octets[0] * 256 + octets[1]) as u16, (octets[2] * 256 + octets[3]) as u16]
}

/// The groups that the pieces at the end of an address write: every piece
/// writes a group, but the last may be an IPv4 address and write two.
pub open spec fn tail_groups(parts: Seq<Seq<char>>) -> Option<Seq<u16>> {
    if parts.len() == 0 {
        Some(Seq::empty())
    } else {
        match ipv4_of(parts.last()) {
            Some(octets) => match hex_groups(parts.drop_last()) {
                Some(groups) => Some(groups + v4_groups(octets)),
                None => None,
            },
            None => hex_groups(parts),
        }
    }
}

/// The index of the first empty piece at or behind `from`, or the number of
/// pieces if there is none.
pub open spec fn first_empty(parts: Seq<Seq<char>>, from: int) -> int
    decreases parts.len() - from,
{
    if from >= parts.len() {
        parts.len() as int
    } else if parts[from].len() == 0 {
        from
    } else {
        first_empty(parts, from + 1)
    }
}

/// So many groups of zeros.
pub open spec fn zeros(n: int) -> Seq<u16> {
    Seq::new(n as nat, |i: int| 0u16)
}

/// The eight groups that a text in colon notation writes. Without `::` the
/// text has to write all eight. With `::`, what stands in front of it writes
/// the first groups and what stands behind it the last, at most seven in
/// all; the groups between are zero.
pub open spec fn ipv6_of(s: Seq<char>) -> Option<Seq<u16>> {
    let p = parts_of(s, ':');
    let e = first_empty(p, 0);
    if e >= p.len() {
        match tail_groups(p) {
            Some(groups) => if groups.len() == 8 {
                Some(groups)
            } else {
                None
            },
            None => None,
        }
    } else {
        let after = if e == 0 {
            2int
        } else {
            e + 1
        };
        if (e == 0 && (p.len() < 2 || p[1].len() != 0)) || after >= p.len() {
            None
        } else {
            let rest = p.skip(after);
            let tail = if rest.len() == 1 && rest[0].len() == 0 {
                Seq::empty()
            } else {
                rest
            };
            match (hex_groups(p.take(e)), tail_groups(tail)) {
                (Some(head), Some(tail)) => if head.len() + tail.len() <= 7 {
                    Some(head + zeros(8 - head.len() - tail.len()) + tail)
                } else {
                    None
                },
                _ => None,
            }
        }
    }
}

/// The hexadecimal digit for a number below 16, in lower case.
pub open spec fn hex_char(d: int) -> char {
    if d == 0 {
        '0'
    } else if d == 1 {
        '1'
    } else if d == 2 {
        '2'
    } else if d == 3 {
        '3'
    } else if d == 4 {
        '4'
    } else if d == 5 {
        '5'
    } else if d == 6 {
        '6'
    } else if d == 7 {
        '7'
    } else if d == 8 {
        '8'
    } else if d == 9 {
        '9'
    } else if d == 10 {
        'a'
    } else if d == 11 {
        'b'
    } else if d == 12 {
        'c'
    } else if d == 13 {
        'd'
    } else if d == 14 {
        'e'
    } else {
        'f'
    }
}

/// The hexadecimal notation of `n`, in lower case and without leading
/// zeros.
pub open spec fn hex_chars(n: nat) -> Seq<char>
    decreases n,
{
    if n < 16 {
        seq![hex_char(n as int)]
    } else {
        hex_chars(n / 16).push(hex_char((n % 16) as int))
    }
}

/// The text of an IPv6 address: its eight groups in hexadecimal, with
/// colons between.
pub open spec fn ipv6_text(groups: Seq<u16>) -> Seq<char> {
    hex_chars(groups[0] as nat) + seq![':'] + hex_chars(groups[1] as nat) + seq![':'] + hex_chars(
        groups[2] as nat,
    ) + seq![':'] + hex_chars(groups[3] as nat) + seq![':'] + hex_chars(groups[4] as nat) + seq![
        ':',
    ] + hex_chars(groups[5] as nat) + seq![':'] + hex_chars(groups[6] as nat) + seq![':']
        + hex_chars(groups[7] as nat)
}

/// The hexadecimal notation of a group is made of one to four hexadecimal
/// digits and writes the group.
pub proof fn lemma_hex_chars(n: nat)
    requires
        n <= 0xFFFF,
    ensures
        all_hex(hex_chars(n)),
        hex_number(hex_chars(n)) == n,
        1 <= hex_chars(n).len() <= 4,
        n < 0x1000 ==> hex_chars(n).len() <= 3,
        n < 0x100 ==> hex_chars(n).len() <= 2,
        n < 0x10 ==> hex_chars(n).len() == 1,
        forall|i: int|
            0 <= i < hex_chars(n).len() ==> hex_chars(n)[i] != ':' && hex_chars(n)[i] != '.',
        group_of(hex_chars(n)) == Some(n as u16),
    decreases n,
{
    let s = hex_chars(n);
    if n < 16 {
        assert(s.drop_last() =~= Seq::<char>::empty());
        assert(hex_number(s.drop_last()) == 0);
        assert(s.last() == hex_char(n as int));
        assert(hex_value(hex_char(n as int)) == Some(n as int));
        assert(hex_value(s[0]) is Some);
    } else {
        lemma_hex_chars(n / 16);
        let p = hex_chars(n / 16);
        let d = (n % 16) as int;
        assert(s.drop_last() =~= p);
        assert(s.last() == hex_char(d));
        assert(hex_value(hex_char(d)) == Some(d));
        assert forall|i: int| 0 <= i < s.len() implies (#[trigger] hex_value(s[i])) is Some by {
            if i < p.len() {
                assert(s[i] == p[i]);
            }
        }
        assert forall|i: int| 0 <= i < s.len() implies s[i] != ':' && s[i] != '.' by {
            if i < p.len() {
                assert(s[i] == p[i]);
            }
        }
    }
}

/// Whether a text holds the character `c` nowhere.
pub open spec fn free_of(s: Seq<char>, c: char) -> bool {
    forall|i: int| 0 <= i < s.len() ==> s[i] != c
}

/// Two texts with a colon between.
pub open spec fn colon_joined(a: Seq<char>, b: Seq<char>) -> Seq<char> {
    a + seq![':'] + b
}

/// The pieces of a text that begins with a piece without a colon and a
/// colon.
proof fn lemma_colon_head(a: Seq<char>, rest: Seq<char>, pieces: Seq<Seq<char>>)
    requires
        free_of(a, ':'),
        parts_of(rest, ':') == pieces,
    ensures
        parts_of(colon_joined(a, rest), ':') == seq![a] + pieces,
{
    lemma_parts_of_head(a, ':', rest);
}

/// A text that is joined of two texts without a dot holds none.
proof fn lemma_colon_joined_free(a: Seq<char>, rest: Seq<char>)
    requires
        free_of(a, '.'),
        free_of(rest, '.'),
    ensures
        free_of(colon_joined(a, rest), '.'),
{
    let s = colon_joined(a, rest);
    assert forall|i: int| 0 <= i < s.len() implies s[i] != '.' by {
        if i < a.len() {
            assert(s[i] == a[i]);
        } else if i > a.len() {
            assert(s[i] == rest[i - a.len() - 1]);
        }
    }
}

/// The text of an IPv6 address, joined piece by piece from its end.
pub open spec fn ipv6_joined(groups: Seq<u16>, from: int) -> Seq<char>
    decreases 8 - from,
{
    if from >= 7 {
        hex_chars(groups[7] as nat)
    } else {
        colon_joined(hex_chars(groups[from] as nat), ipv6_joined(groups, from + 1))
    }
}

/// What is joined from the group at `from` on holds no dot, and its pieces
/// are the notations of those groups.
proof fn lemma_ipv6_joined(groups: Seq<u16>, from: int)
    requires
        groups.len() == 8,
        0 <= from <= 7,
    ensures
        free_of(ipv6_joined(groups, from), '.'),
        parts_of(ipv6_joined(groups, from), ':') == Seq::new(
            (8 - from) as nat,
            |i: int| hex_chars(groups[from + i] as nat),
        ),
    decreases 7 - from,
{
    let a = hex_chars(groups[from] as nat);
    lemma_hex_chars(groups[from] as nat);
    let want = Seq::new((8 - from) as nat, |i: int| hex_chars(groups[from + i] as nat));
    if from == 7 {
        lemma_parts_of_whole(a, ':');
        assert(seq![a] =~= want);
    } else {
        let rest = ipv6_joined(groups, from + 1);
        let pieces = Seq::new((7 - from) as nat, |i: int| hex_chars(groups[from + 1 + i] as nat));
        lemma_ipv6_joined(groups, from + 1);
        lemma_colon_head(a, rest, pieces);
        lemma_colon_joined_free(a, rest);
        assert(seq![a] + pieces =~= want);
    }
}

/// The text of an IPv6 address is what is joined from its first group on.
proof fn lemma_ipv6_text_joined(groups: Seq<u16>)
    requires
        groups.len() == 8,
    ensures
        ipv6_text(groups) == ipv6_joined(groups, 0),
{
    let c = seq![':'];
    let t0 = hex_chars(groups[0] as nat);
    let t1 = hex_chars(groups[1] as nat);
    let t2 = hex_chars(groups[2] as nat);
    let t3 = hex_chars(groups[3] as nat);
    let t4 = hex_chars(groups[4] as nat);
    let t5 = hex_chars(groups[5] as nat);
    let t6 = hex_chars(groups[6] as nat);
    let r7 = ipv6_joined(groups, 7);
    let r6 = ipv6_joined(groups, 6);
    let r5 = ipv6_joined(groups, 5);
    let r4 = ipv6_joined(groups, 4);
    let r3 = ipv6_joined(groups, 3);
    let r2 = ipv6_joined(groups, 2);
    let r1 = ipv6_joined(groups, 1);
    let r0 = ipv6_joined(groups, 0);
    let front6 = t0 + c + t1 + c + t2 + c + t3 + c + t4 + c + t5 + c + t6;
    let front5 = t0 + c + t1 + c + t2 + c + t3 + c + t4 + c + t5;
    let front4 = t0 + c + t1 + c + t2 + c + t3 + c + t4;
    let front3 = t0 + c + t1 + c + t2 + c + t3;
    let front2 = t0 + c + t1 + c + t2;
    let front1 = t0 + c + t1;
    assert(r6 == t6 + c + r7);
    assert(r5 == t5 + c + r6);
    assert(r4 == t4 + c + r5);
    assert(r3 == t3 + c + r4);
    assert(r2 == t2 + c + r3);
    assert(r1 == t1 + c + r2);
    assert(r0 == t0 + c + r1);
    assert(ipv6_text(groups) == front6 + c + r7);
    assert(front6 + c + r7 == front5 + c + r6) by {
        lemma_regroup(front5, t6, r7);
    }
    assert(front5 + c + r6 == front4 + c + r5) by {
        lemma_regroup(front4, t5, r6);
    }
    assert(front4 + c + r5 == front3 + c + r4) by {
        lemma_regroup(front3, t4, r5);
    }
    assert(front3 + c + r4 == front2 + c + r3) by {
        lemma_regroup(front2, t3, r4);
    }
    assert(front2 + c + r3 == front1 + c + r2) by {
        lemma_regroup(front1, t2, r3);
    }
    assert(front1 + c + r2 == t0 + c + r1) by {
        lemma_regroup(t0, t1, r2);
    }
}

/// Joining three texts with colons gives one text, whichever two are joined
/// first.
proof fn lemma_regroup(a: Seq<char>, b: Seq<char>, rest: Seq<char>)
    ensures
        (a + seq![':'] + b) + seq![':'] + rest == a + seq![':'] + (b + seq![':'] + rest),
{
    assert((a + seq![':'] + b) + seq![':'] + rest =~= a + seq![':'] + (b + seq![':'] + rest));
}

/// Reading the text of an IPv6 address gives the address back.
pub proof fn lemma_ipv6_round_trip(groups: Seq<u16>)
    requires
        groups.len() == 8,
    ensures
        ipv4_of(ipv6_text(groups)) is None,
        ipv6_of(ipv6_text(groups)) == Some(groups),
{
    let text = ipv6_text(groups);
    lemma_ipv6_text_joined(groups);
    lemma_ipv6_joined(groups, 0);
    let p = parts_of(text, ':');
    assert(p.len() == 8);
    assert forall|i: int| 0 <= i < 8 implies p[i] == hex_chars(groups[i] as nat) && group_of(
        #[trigger] p[i],
    ) == Some(groups[i]) && p[i].len() != 0 by {
        lemma_hex_chars(groups[i] as nat);
    }
    lemma_first_empty(p, 0, 8);
    assert(ipv4_of(p.last()) is None) by {
        lemma_hex_chars(groups[7] as nat);
        lemma_parts_of_whole(p[7], '.');
    }
    assert(hex_groups(p) == Some(groups)) by {
        assert(hex_groups(p).unwrap() =~= groups);
    }
    assert(ipv4_of(text) is None) by {
        lemma_parts_of_whole(text, '.');
    }
}

/// The one-character text of a hexadecimal digit.
fn hex_digit_text(d: u16) -> (r: &'static str)
    requires
        d < 16,
    ensures
        r@ == seq![hex_char(d as int)],
{
    proof {
        reveal_strlit("0");
        reveal_strlit("1");
        reveal_strlit("2");
        reveal_strlit("3");
        reveal_strlit("4");
        reveal_strlit("5");
        reveal_strlit("6");
        reveal_strlit("7");
        reveal_strlit("8");
        reveal_strlit("9");
        reveal_strlit("a");
        reveal_strlit("b");
        reveal_strlit("c");
        reveal_strlit("d");
        reveal_strlit("e");
        reveal_strlit("f");
    }
    let r = if d == 0 {
        "0"
    } else if d == 1 {
        "1"
    } else if d == 2 {
        "2"
    } else if d == 3 {
        "3"
    } else if d == 4 {
        "4"
    } else if d == 5 {
        "5"
    } else if d == 6 {
        "6"
    } else if d == 7 {
        "7"
    } else if d == 8 {
        "8"
    } else if d == 9 {
        "9"
    } else if d == 10 {
        "a"
    } else if d == 11 {
        "b"
    } else if d == 12 {
        "c"
    } else if d == 13 {
        "d"
    } else if d == 14 {
        "e"
    } else {
        "f"
    };
    assert(r@ =~= seq![hex_char(d as int)]);
    r
}

/// Writes `n` in hexadecimal notation.
pub fn hex_text(n: u16) -> (r: String)
    ensures
        r@ == hex_chars(n as nat),
    decreases n,
{
    if n < 16 {
        String::from_str(hex_digit_text(n))
    } else {
        let mut s = hex_text(n / 16);
        s.append(hex_digit_text(n % 16));
        assert(s@ =~= hex_chars(n as nat));
        s
    }
}

/// The number that a hexadecimal digit stands for.
fn hex_digit_of(c: char) -> (r: Option<u32>)
    ensures
        match r {
            Some(d) => hex_value(c) == Some(d as int) && d < 16,
            None => hex_value(c) is None,
        },
{
    if c == '0' {
        Some(0)
    } else if c == '1' {
        Some(1)
    } else if c == '2' {
        Some(2)
    } else if c == '3' {
        Some(3)
    } else if c == '4' {
        Some(4)
    } else if c == '5' {
        Some(5)
    } else if c == '6' {
        Some(6)
    } else if c == '7' {
        Some(7)
    } else if c == '8' {
        Some(8)
    } else if c == '9' {
        Some(9)
    } else if c == 'a' || c == 'A' {
        Some(10)
    } else if c == 'b' || c == 'B' {
        Some(11)
    } else if c == 'c' || c == 'C' {
        Some(12)
    } else if c == 'd' || c == 'D' {
        Some(13)
    } else if c == 'e' || c == 'E' {
        Some(14)
    } else if c == 'f' || c == 'F' {
        Some(15)
    } else {
        None
    }
}

/// The group that one piece of an address writes.
fn parse_group(part: &Vec<char>) -> (r: Option<u16>)
    ensures
        r == group_of(part@),
{
    if part.len() == 0 || part.len() > 4 {
        return None;
    }
    let mut acc: u32 = 0;
    let mut i: usize = 0;
    while i < part.len()
        invariant
            i <= part@.len() <= 4,
            all_hex(part@.take(i as int)),
            acc == hex_number(part@.take(i as int)),
            i == 0 ==> acc == 0,
            i == 1 ==> acc < 0x10,
            i == 2 ==> acc < 0x100,
            i == 3 ==> acc < 0x1000,
            i == 4 ==> acc < 0x10000,
        decreases part@.len() - i,
    {
        let ghost prefix = part@.take(i as int);
        let ghost next = part@.take(i + 1);
        proof {
            assert(next.drop_last() =~= prefix);
            assert(next.last() == part@[i as int]);
        }
        match hex_digit_of(part[i]) {
            Some(d) => {
                acc = acc * 16 + d;
                assert forall|j: int| 0 <= j < next.len() implies (#[trigger] hex_value(next[j]))
                    is Some by {
                    if j < prefix.len() {
                        assert(next[j] == prefix[j]);
                    }
                }
            },
            None => {
                assert(hex_value(part@[i as int]) is None);
                return None;
            },
        }
        i = i + 1;
    }
    assert(part@.take(i as int) =~= part@);
    Some(acc as u16)
}

/// The groups that the pieces `parts[from..to]` write, if every one of them
/// writes a group.
fn parse_hex_groups(parts: &Vec<Vec<char>>, from: usize, to: usize) -> (r: Option<Vec<u16>>)
    requires
        from <= to <= parts@.len(),
    ensures
        match r {
            Some(groups) => hex_groups(part_views(parts@).subrange(from as int, to as int))
                == Some(groups@),
            None => hex_groups(part_views(parts@).subrange(from as int, to as int)) is None,
        },
{
    let ghost pieces = part_views(parts@).subrange(from as int, to as int);
    let mut groups: Vec<u16> = Vec::new();
    let mut i: usize = from;
    while i < to
        invariant
            from <= i <= to <= parts@.len(),
            pieces == part_views(parts@).subrange(from as int, to as int),
            groups@.len() == i - from,
            forall|k: int| 0 <= k < i - from ==> group_of(#[trigger] pieces[k]) == Some(groups@[k]),
        decreases to - i,
    {
        assert(pieces[i - from] == parts@[i as int]@);
        match parse_group(&parts[i]) {
            Some(group) => {
                groups.push(group);
            },
            None => {
                assert(group_of(pieces[i - from]) is None);
                return None;
            },
        }
        i = i + 1;
    }
    assert(hex_groups(pieces).unwrap() =~= groups@);
    Some(groups)
}

/// The groups that the pieces `parts[from..to]` at the end of an address
/// write.
fn parse_tail_groups(parts: &Vec<Vec<char>>, from: usize, to: usize) -> (r: Option<Vec<u16>>)
    requires
        from <= to <= parts@.len(),
    ensures
        match r {
            Some(groups) => tail_groups(part_views(parts@).subrange(from as int, to as int))
                == Some(groups@),
            None => tail_groups(part_views(parts@).subrange(from as int, to as int)) is None,
        },
{
    let ghost pieces = part_views(parts@).subrange(from as int, to as int);
    if from == to {
        let groups: Vec<u16> = Vec::new();
        assert(groups@ =~= Seq::<u16>::empty());
        return Some(groups);
    }
    proof {
        assert(pieces.last() == parts@[to - 1]@);
        assert(pieces.drop_last() =~= part_views(parts@).subrange(from as int, to - 1));
    }
    match parse_v4(&parts[to - 1]) {
        Some(o) => {
            let mut groups = parse_hex_groups(parts, from, to - 1)?;
            let ghost head = groups@;
            groups.push(o.0 as u16 * 256 + o.1 as u16);
            groups.push(o.2 as u16 * 256 + o.3 as u16);
            assert(groups@ =~= head + v4_groups(seq![o.0, o.1, o.2, o.3]));
            Some(groups)
        },
        None => parse_hex_groups(parts, from, to),
    }
}

proof fn lemma_first_empty(parts: Seq<Seq<char>>, from: int, k: int)
    requires
        0 <= from <= k <= parts.len(),
        forall|j: int| from <= j < k ==> parts[j].len() != 0,
        k == parts.len() || parts[k].len() == 0,
    ensures
        first_empty(parts, from) == k,
    decreases k - from,
{
    if from < k {
        lemma_first_empty(parts, from + 1, k);
    }
}

/// The eight groups that a text in colon notation writes.
pub(crate) fn parse_v6(chars: &Vec<char>) -> (r: Option<Vec<u16>>)
    ensures
        match r {
            Some(groups) => ipv6_of(chars@) == Some(groups@) && groups@.len() == 8,
            None => ipv6_of(chars@) is None,
        },
{
    let parts = split_at(chars, ':');
    let ghost p = part_views(parts@);
    let n = parts.len();
    let mut e: usize = 0;
    while e < n && parts[e].len() != 0
        invariant
            e <= n,
            n == parts@.len(),
            p == part_views(parts@),
            forall|j: int| 0 <= j < e ==> p[j].len() != 0,
        decreases n - e,
    {
        assert(p[e as int] == parts@[e as int]@);
        e = e + 1;
    }
    proof {
        if e < n {
            assert(p[e as int] == parts@[e as int]@);
        }
        lemma_first_empty(p, 0, e as int);
        assert(p.subrange(0, n as int) =~= p);
    }
    if e >= n {
        let groups = parse_tail_groups(&parts, 0, n)?;
        if groups.len() == 8 {
            return Some(groups);
        } else {
            return None;
        }
    }
    let after: usize = if e == 0 {
        2
    } else {
        e + 1
    };
    proof {
        if n >= 2 {
            assert(p[1] == parts@[1]@);
        }
    }
    if (e == 0 && (n < 2 || parts[1].len() != 0)) || after >= n {
        return None;
    }
    proof {
        assert(p[after as int] == parts@[after as int]@);
        assert(p.take(e as int) =~= p.subrange(0, e as int));
        assert(p.skip(after as int) =~= p.subrange(after as int, n as int));
        assert(p.skip(after as int)[0] == p[after as int]);
    }
    let head = parse_hex_groups(&parts, 0, e)?;
    let tail = if after + 1 == n && parts[after].len() == 0 {
        let none: Vec<u16> = Vec::new();
        assert(none@ =~= Seq::<u16>::empty());
        assert(tail_groups(Seq::<Seq<char>>::empty()) == Some(Seq::<u16>::empty()));
        none
    } else {
        parse_tail_groups(&parts, after, n)?
    };
    if head.len() + tail.len() > 7 {
        return None;
    }
    let mut groups: Vec<u16> = Vec::new();
    let mut i: usize = 0;
    while i < head.len()
        invariant
            i <= head@.len(),
            groups@ == head@.take(i as int),
        decreases head@.len() - i,
    {
        groups.push(head[i]);
        assert(groups@ =~= head@.take(i + 1));
        i = i + 1;
    }
    assert(head@.take(head@.len() as int) =~= head@);
    let fill = 8 - head.len() - tail.len();
    let mut k: usize = 0;
    while k < fill
        invariant
            k <= fill,
            groups@ == head@ + zeros(k as int),
        decreases fill - k,
    {
        groups.push(0);
        assert(groups@ =~= head@ + zeros(k + 1));
        k = k + 1;
    }
    let mut t: usize = 0;
    while t < tail.len()
        invariant
            t <= tail@.len(),
            groups@ == head@ + zeros(fill as int) + tail@.take(t as int),
        decreases tail@.len() - t,
    {
        groups.push(tail[t]);
        assert(groups@ =~= head@ + zeros(fill as int) + tail@.take(t + 1));
        t = t + 1;
    }
    assert(tail@.take(tail@.len() as int) =~= tail@);
    Some(groups)
}

} // verus!
