//! The textual forms of IP addresses.

use vstd::prelude::*;

verus! {

/// The value of `c` as a digit: `0` to `9`, then `a` to `f` in either case
/// for ten to fifteen.
pub open spec fn digit_value(c: char) -> Option<int> {
    if '0' <= c <= '9' {
        Some(c as int - '0' as int)
    } else if 'a' <= c <= 'f' {
        Some(c as int - 'a' as int + 10)
    } else if 'A' <= c <= 'F' {
        Some(c as int - 'A' as int + 10)
    } else {
        None
    }
}

/// Whether `c` is a digit of the positional system with base `radix`.
pub open spec fn is_digit(c: char, radix: int) -> bool {
    digit_value(c) matches Some(d) && d < radix
}

/// Whether `text` is made of digits of base `radix` only.
pub open spec fn all_digits(text: Seq<char>, radix: int) -> bool {
    forall|i: int| 0 <= i < text.len() ==> is_digit(#[trigger] text[i], radix)
}

/// The number that the digits of `text` write in base `radix`, most
/// significant digit first.
pub open spec fn number(text: Seq<char>, radix: int) -> int
    decreases text.len(),
{
    if text.len() == 0 {
        0
    } else {
        number(text.drop_last(), radix) * radix + digit_value(text.last()).unwrap()
    }
}

/// One more than the largest number that `digits` digits of base `radix`
/// can write.
pub open spec fn span(radix: int, digits: nat) -> int
    decreases digits,
{
    if digits == 0 {
        1
    } else {
        radix * span(radix, (digits - 1) as nat)
    }
}

fn digit(c: char, radix: u32) -> (d: Option<u32>)
    requires
        radix == 10 || radix == 16,
    ensures
        d is Some <==> is_digit(c, radix as int),
        d matches Some(v) ==> digit_value(c) == Some(v as int),
{
    if '0' <= c && c <= '9' {
        Some(c as u32 - '0' as u32)
    } else if radix == 16 && 'a' <= c && c <= 'f' {
        Some(c as u32 - 'a' as u32 + 10)
    } else if radix == 16 && 'A' <= c && c <= 'F' {
        Some(c as u32 - 'A' as u32 + 10)
    } else {
        None
    }
}

/// Reads `text` as a number of one to `max_digits` digits.
fn parse_number(text: &[char], radix: u32, max_digits: usize) -> (n: Option<u32>)
    requires
        radix == 10 || radix == 16,
        max_digits <= 4,
    ensures
        n is Some <==> 1 <= text@.len() <= max_digits && all_digits(text@, radix as int),
        n matches Some(v) ==> v == number(text@, radix as int) && v < span(
            radix as int,
            text@.len(),
        ),
{
    if text.len() == 0 || text.len() > max_digits {
        return None;
    }
    let mut value: u32 = 0;
    let mut i: usize = 0;
    while i < text.len()
        invariant
            radix == 10 || radix == 16,
            i <= text@.len() <= 4,
            all_digits(text@.take(i as int), radix as int),
            value == number(text@.take(i as int), radix as int),
            value < span(radix as int, i as nat),
            span(radix as int, i as nat) <= span(16, i as nat),
        decreases text@.len() - i,
    {
        proof {
            reveal_with_fuel(span, 5);
        }
        match digit(text[i], radix) {
            None => {
                return None;
            },
            Some(d) => {
                assert(text@.take(i + 1).drop_last() =~= text@.take(i as int));
                value = value * radix + d;
                i += 1;
            },
        }
    }
    assert(text@.take(i as int) =~= text@);
    Some(value)
}

/// The pieces of `text` between occurrences of `sep`, in order. A text
/// without `sep` is one piece; two separators side by side, or one at either
/// end, enclose an empty piece.
pub open spec fn fields(text: Seq<char>, sep: char) -> Seq<Seq<char>>
    decreases text.len(),
{
    if text.len() == 0 {
        seq![Seq::empty()]
    } else {
        let before = fields(text.drop_last(), sep);
        if text.last() == sep {
            before.push(Seq::empty())
        } else {
            before.update(before.len() - 1, before.last().push(text.last()))
        }
    }
}

/// The byte that `text` writes in decimal: one to three digits, without a
/// leading zero in front of another digit, and at most 255.
pub open spec fn octet(text: Seq<char>) -> Option<u8> {
    if 1 <= text.len() <= 3 && all_digits(text, 10) && (text.len() > 1 ==> text[0] != '0')
        && number(text, 10) <= 255 {
        Some(number(text, 10) as u8)
    } else {
        None
    }
}

/// The 16-bit segment that `text` writes in hexadecimal: one to four digits.
pub open spec fn segment(text: Seq<char>) -> Option<u16> {
    if 1 <= text.len() <= 4 && all_digits(text, 16) {
        Some(number(text, 16) as u16)
    } else {
        None
    }
}

/// The four bytes that `text` writes in dotted decimal notation:
/// exactly four octets with a full stop between them.
pub open spec fn dotted_quad(text: Seq<char>) -> Option<Seq<u8>> {
    let parts = fields(text, '.');
    if parts.len() == 4 && forall|i: int| 0 <= i < 4 ==> octet(#[trigger] parts[i]) is Some {
        Some(parts.map_values(|p: Seq<char>| octet(p).unwrap()))
    } else {
        None
    }
}

spec fn texts_of(parts: Seq<Vec<char>>) -> Seq<Seq<char>> {
    parts.map_values(|p: Vec<char>| p@)
}

fn split(text: &[char], sep: char) -> (parts: Vec<Vec<char>>)
    ensures
        texts_of(parts@) == fields(text@, sep),
{
    let mut parts: Vec<Vec<char>> = Vec::new();
    let mut current: Vec<char> = Vec::new();
    let mut i: usize = 0;
    while i < text.len()
        invariant
            i <= text@.len(),
            parts@.map_values(|p: Vec<char>| p@).push(current@) == fields(
                text@.take(i as int),
                sep,
            ),
        decreases text@.len() - i,
    {
        let c = text[i];
        proof {
            assert(text@.take(i + 1).drop_last() =~= text@.take(i as int));
        }
        let ghost before = parts@.map_values(|p: Vec<char>| p@).push(current@);
        if c == sep {
            parts.push(current);
            current = Vec::new();
            assert(parts@.map_values(|p: Vec<char>| p@).push(current@) =~= before.push(
                Seq::empty(),
            ));
        } else {
            current.push(c);
            assert(parts@.map_values(|p: Vec<char>| p@).push(current@) =~= before.update(
                before.len() - 1,
                before.last().push(c),
            ));
        }
        i += 1;
    }
    assert(text@.take(i as int) =~= text@);
    let ghost before = parts@.map_values(|p: Vec<char>| p@).push(current@);
    parts.push(current);
    assert(parts@.map_values(|p: Vec<char>| p@) =~= before);
    parts
}

fn parse_octet(text: &[char]) -> (value: Option<u8>)
    ensures
        value == octet(text@),
{
    match parse_number(text, 10, 3) {
        Some(v) => {
            if v <= 255 && (text.len() == 1 || text[0] != '0') {
                Some(v as u8)
            } else {
                None
            }
        },
        None => None,
    }
}

fn parse_segment(text: &[char]) -> (value: Option<u16>)
    ensures
        value == segment(text@),
{
    match parse_number(text, 16, 4) {
        Some(v) => {
            proof {
                reveal_with_fuel(span, 5);
            }
            Some(v as u16)
        },
        None => None,
    }
}

fn parse_dotted_quad(text: &[char]) -> (quad: Option<[u8; 4]>)
    ensures
        match quad {
            Some(q) => dotted_quad(text@) == Some(q@),
            None => dotted_quad(text@) is None,
        },
{
    let parts = split(text, '.');
    if parts.len() != 4 {
        return None;
    }
    let ghost texts = texts_of(parts@);
    match (
        parse_octet(parts[0].as_slice()),
        parse_octet(parts[1].as_slice()),
        parse_octet(parts[2].as_slice()),
        parse_octet(parts[3].as_slice()),
    ) {
        (Some(a), Some(b), Some(c), Some(d)) => {
            let q = [a, b, c, d];
            assert(q@ =~= texts.map_values(|p: Seq<char>| octet(p).unwrap()));
            Some(q)
        },
        _ => {
            assert(octet(texts[0]) is None || octet(texts[1]) is None || octet(texts[2]) is None
                || octet(texts[3]) is None);
            None
        },
    }
}

/// The segments that a run of groups writes: hexadecimal segments with a
/// colon between them. The empty text is the run of no group.
pub open spec fn hex_run(text: Seq<char>) -> Option<Seq<u16>> {
    let groups = fields(text, ':');
    if text.len() == 0 {
        Some(Seq::empty())
    } else if forall|i: int| 0 <= i < groups.len() ==> segment(#[trigger] groups[i]) is Some {
        Some(groups.map_values(|g: Seq<char>| segment(g).unwrap()))
    } else {
        None
    }
}

/// The two segments that four bytes fill, first byte in the high half.
pub open spec fn quad_segments(quad: Seq<u8>) -> Seq<u16> {
    seq![(quad[0] * 256 + quad[1]) as u16, (quad[2] * 256 + quad[3]) as u16]
}

/// The segments that a run of groups writes when its last group may be a
/// dotted quad, which then stands for the last two segments.
pub open spec fn mixed_run(text: Seq<char>) -> Option<Seq<u16>> {
    let groups = fields(text, ':');
    if hex_run(text) is Some {
        hex_run(text)
    } else if dotted_quad(groups.last()) is Some && forall|i: int|
        0 <= i < groups.len() - 1 ==> segment(#[trigger] groups[i]) is Some {
        Some(
            groups.drop_last().map_values(|g: Seq<char>| segment(g).unwrap()) + quad_segments(
                dotted_quad(groups.last()).unwrap(),
            ),
        )
    } else {
        None
    }
}

/// Whether two colons stand side by side at `at`, and nowhere before.
pub open spec fn is_first_gap(text: Seq<char>, at: int) -> bool {
    &&& has_gap(text, at)
    &&& forall|before: int| 0 <= before < at ==> !has_gap(text, before)
}

/// Whether two colons stand side by side at `at`.
pub open spec fn has_gap(text: Seq<char>, at: int) -> bool {
    0 <= at && at + 1 < text.len() && text[at] == ':' && text[at + 1] == ':'
}

/// The eight segments of an address written with a double colon, from the
/// text in front of it and the text behind it. The double colon stands for
/// as many zero segments, at least one, as the two runs leave open; the run
/// in front of it has no dotted quad.
pub open spec fn compressed(front: Seq<char>, back: Seq<char>) -> Option<Seq<u16>> {
    match (hex_run(front), mixed_run(back)) {
        (Some(head), Some(tail)) => if head.len() + tail.len() <= 7 {
            Some(head + Seq::new((8 - head.len() - tail.len()) as nat, |i: int| 0u16) + tail)
        } else {
            None
        },
        _ => None,
    }
}

/// The eight segments that `text` writes as an IPv6 address: a run of
/// exactly eight segments, or two shorter runs around the first double
/// colon.
pub open spec fn ipv6_segments(text: Seq<char>) -> Option<Seq<u16>> {
    if exists|at: int| is_first_gap(text, at) {
        let at = choose|at: int| is_first_gap(text, at);
        compressed(text.take(at), text.skip(at + 2))
    } else if mixed_run(text) is Some && mixed_run(text).unwrap().len() == 8 {
        mixed_run(text)
    } else {
        None
    }
}

/// An IP address, as the bytes or segments that its text writes.
#[derive(Clone, Copy, Debug, PartialEq, Eq)]
pub enum IpLiteral {
    /// Four bytes, in the order of the dotted quad.
    V4([u8; 4]),
    /// Eight segments of sixteen bits, first segment first.
    V6([u16; 8]),
}

/// An IP address as a mathematical value.
pub enum Address {
    V4(Seq<u8>),
    V6(Seq<u16>),
}

impl View for IpLiteral {
    type V = Address;

    open spec fn view(&self) -> Address {
        match self {
            IpLiteral::V4(octets) => Address::V4(octets@),
            IpLiteral::V6(segments) => Address::V6(segments@),
        }
    }
}

/// The address that `text` writes: a dotted quad for IPv4, else the
/// colon-separated form for IPv6. `None` when `text` is neither.
pub open spec fn ip_literal(text: Seq<char>) -> Option<Address> {
    if dotted_quad(text) is Some {
        Some(Address::V4(dotted_quad(text).unwrap()))
    } else if ipv6_segments(text) is Some {
        Some(Address::V6(ipv6_segments(text).unwrap()))
    } else {
        None
    }
}

proof fn lemma_fields_len(text: Seq<char>, sep: char)
    ensures
        fields(text, sep).len() >= 1,
    decreases text.len(),
{
    if text.len() > 0 {
        lemma_fields_len(text.drop_last(), sep);
    }
}

/// Reads a run of colon-separated groups; with `allow_quad` the last of
/// them may be a dotted quad.
fn parse_run(text: &[char], allow_quad: bool) -> (run: Option<Vec<u16>>)
    ensures
        match run {
            Some(segments) => Some(segments@) == if allow_quad {
                mixed_run(text@)
            } else {
                hex_run(text@)
            },
            None => if allow_quad {
                mixed_run(text@) is None
            } else {
                hex_run(text@) is None
            },
        },
{
    let mut segments: Vec<u16> = Vec::new();
    if text.len() == 0 {
        return Some(segments);
    }
    let groups = split(text, ':');
    let ghost texts = fields(text@, ':');
    proof {
        lemma_fields_len(text@, ':');
        assert(texts == texts_of(groups@));
    }
    let last = groups.len() - 1;
    let mut i: usize = 0;
    while i < last
        invariant
            i <= last == groups@.len() - 1,
            text@.len() > 0,
            texts == fields(text@, ':'),
            texts.len() == groups@.len(),
            forall|j: int| 0 <= j < texts.len() ==> texts[j] == (#[trigger] groups@[j])@,
            segments@.len() == i,
            forall|j: int| 0 <= j < i ==> segment(#[trigger] texts[j]) is Some,
            forall|j: int| 0 <= j < i ==> segment(texts[j]) == Some(#[trigger] segments@[j]),
        decreases last - i,
    {
        match parse_segment(groups[i].as_slice()) {
            Some(value) => {
                segments.push(value);
            },
            None => {
                assert(segment(texts[i as int]) is None);
                return None;
            },
        }
        i += 1;
    }
    assert(texts.last() == groups@[last as int]@);
    match parse_segment(groups[last].as_slice()) {
        Some(value) => {
            segments.push(value);
            assert(segments@ =~= texts.map_values(|g: Seq<char>| segment(g).unwrap()));
            Some(segments)
        },
        None => {
            assert(segment(texts[last as int]) is None);
            if !allow_quad {
                return None;
            }
            match parse_dotted_quad(groups[last].as_slice()) {
                Some(quad) => {
                    segments.push(quad[0] as u16 * 256 + quad[1] as u16);
                    segments.push(quad[2] as u16 * 256 + quad[3] as u16);
                    assert(segments@ =~= texts.drop_last().map_values(
                        |g: Seq<char>| segment(g).unwrap(),
                    ) + quad_segments(quad@));
                    Some(segments)
                },
                None => None,
            }
        },
    }
}

/// Finds the first place where two colons stand side by side.
fn find_gap(text: &[char]) -> (gap: Option<usize>)
    ensures
        match gap {
            Some(at) => is_first_gap(text@, at as int),
            None => forall|at: int| !has_gap(text@, at),
        },
{
    let mut i: usize = 0;
    while i < text.len()
        invariant
            i <= text@.len(),
            forall|before: int| 0 <= before < i ==> !has_gap(text@, before),
        decreases text@.len() - i,
    {
        if text[i] == ':' && i + 1 < text.len() && text[i + 1] == ':' {
            return Some(i);
        }
        i += 1;
    }
    None
}

/// Puts the zero segments that a double colon stands for between the runs
/// on its two sides.
fn expand(head: Vec<u16>, tail: &Vec<u16>) -> (all: Vec<u16>)
    requires
        head@.len() + tail@.len() <= 7,
    ensures
        all@ == head@ + Seq::new((8 - head@.len() - tail@.len()) as nat, |i: int| 0u16) + tail@,
{
    let ghost front = head@;
    let zeros = 8 - head.len() - tail.len();
    let mut all = head;
    let mut i: usize = 0;
    while i < zeros
        invariant
            i <= zeros,
            all@ == front + Seq::new(i as nat, |i: int| 0u16),
        decreases zeros - i,
    {
        all.push(0);
        i += 1;
        assert(all@ =~= front + Seq::new(i as nat, |i: int| 0u16));
    }
    let mut j: usize = 0;
    while j < tail.len()
        invariant
            j <= tail@.len(),
            all@ == front + Seq::new(zeros as nat, |i: int| 0u16) + tail@.take(j as int),
        decreases tail@.len() - j,
    {
        all.push(tail[j]);
        j += 1;
        assert(all@ =~= front + Seq::new(zeros as nat, |i: int| 0u16) + tail@.take(j as int));
    }
    assert(tail@.take(j as int) =~= tail@);
    all
}

/// Reads the texts on the two sides of a double colon.
fn parse_compressed(front: &[char], back: &[char]) -> (all: Option<Vec<u16>>)
    ensures
        match all {
            Some(segments) => compressed(front@, back@) == Some(segments@),
            None => compressed(front@, back@) is None,
        },
{
    match parse_run(front, false) {
        Some(head) => match parse_run(back, true) {
            Some(tail) => {
                if head.len() > 7 || tail.len() > 7 - head.len() {
                    None
                } else {
                    Some(expand(head, &tail))
                }
            },
            None => None,
        },
        None => None,
    }
}

fn parse_ipv6(text: &[char]) -> (segments: Option<[u16; 8]>)
    ensures
        match segments {
            Some(s) => ipv6_segments(text@) == Some(s@),
            None => ipv6_segments(text@) is None,
        },
{
    let len = text.len();
    let parsed = match find_gap(text) {
        Some(at) => {
            assert(has_gap(text@, at as int));
            assert(forall|other: int| is_first_gap(text@, other) ==> other == at);
            assert(text@.take(at as int) =~= text@.subrange(0, at as int));
            assert(text@.skip(at + 2) =~= text@.subrange(at + 2, text@.len() as int));
            parse_compressed(
                vstd::slice::slice_subrange(text, 0, at),
                vstd::slice::slice_subrange(text, at + 2, len),
            )
        },
        None => {
            assert(!exists|at: int| is_first_gap(text@, at));
            parse_run(text, true)
        },
    };
    match parsed {
        Some(all) => {
            if all.len() != 8 {
                return None;
            }
            let s = [all[0], all[1], all[2], all[3], all[4], all[5], all[6], all[7]];
            assert(s@ =~= all@);
            Some(s)
        },
        None => None,
    }
}

fn chars_of(text: &str) -> (chars: Vec<char>)
    ensures
        chars@ == text@,
{
    let mut chars: Vec<char> = Vec::new();
    for c in it: text.chars()
        invariant
            it.seq() == text@,
            chars@ == text@.take(it.index() as int),
    {
        chars.push(c);
        assert(chars@ =~= text@.take(it.index() + 1));
    }
    assert(chars@ =~= text@);
    chars
}

/// Reads `text` as an IP address: a dotted quad, else the colon-separated
/// form. `None` when it is neither.
pub fn parse_ip_literal(text: &str) -> (ip: Option<IpLiteral>)
    ensures
        match ip {
            Some(ip) => ip_literal(text@) == Some(ip@),
            None => ip_literal(text@) is None,
        },
{
    let chars = chars_of(text);
    match parse_dotted_quad(chars.as_slice()) {
        Some(octets) => Some(IpLiteral::V4(octets)),
        None => match parse_ipv6(chars.as_slice()) {
            Some(segments) => Some(IpLiteral::V6(segments)),
            None => None,
        },
    }
}

} // verus!
