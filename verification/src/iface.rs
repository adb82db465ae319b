//! The address of a network interface, read from what the `ip` tool prints for
//! it in its one-line form.

use vstd::prelude::*;
use vstd::string::StrSliceExecFns;
use crate::text::{
    before_first, char_is_ascii_space, find_char, first_index, is_ascii_space, string_of, to_chars,
    trim_bounds, trimmed,
};

verus! {

/// What is wrong with the tool's output.
#[derive(Clone, Copy, Debug, PartialEq, Eq, Structural)]
pub enum IfaceError {
    /// The line has fewer than four fields.
    Malformed,
    /// The address field does not start with an IPv4 address.
    BadAddress,
}

/// An IPv4 address.
#[derive(Clone, Copy, Debug, PartialEq, Eq, Structural)]
pub struct Ipv4 {
    pub a: u8,
    pub b: u8,
    pub c: u8,
    pub d: u8,
}

/// The end of the run of ASCII whitespace that starts at `from`.
pub open spec fn spaces_end(s: Seq<char>, from: int) -> int
    decreases s.len() - from,
{
    if 0 <= from < s.len() && is_ascii_space(s[from]) {
        spaces_end(s, from + 1)
    } else {
        from
    }
}

/// The end of the run of other characters that starts at `from`.
pub open spec fn word_end(s: Seq<char>, from: int) -> int
    decreases s.len() - from,
{
    if 0 <= from < s.len() && !is_ascii_space(s[from]) {
        word_end(s, from + 1)
    } else {
        from
    }
}

/// The bounds of the field number `n`, counted from zero, among the fields of
/// `s` from index `from` on, fields being what ASCII whitespace separates.
pub open spec fn nth_field(s: Seq<char>, from: int, n: nat) -> Option<(int, int)>
    decreases n,
{
    let start = spaces_end(s, from);
    if start >= s.len() {
        None
    } else if n == 0 {
        Some((start, word_end(s, start)))
    } else {
        nth_field(s, word_end(s, start), (n - 1) as nat)
    }
}

/// The field of the tool's line that holds the address: the fourth.
pub const ADDRESS_FIELD: usize = 3;

/// The reading of the tool's output: nothing where the output is blank, the
/// fourth field of the trimmed line where there is one, an error otherwise.
pub open spec fn parse_iface_ip_spec(output: Seq<char>) -> Result<Option<Seq<char>>, IfaceError> {
    let line = trimmed(output);
    if line.len() == 0 {
        Ok(None)
    } else {
        match nth_field(line, 0, ADDRESS_FIELD as nat) {
            Some((a, b)) => Ok(Some(line.subrange(a, b))),
            None => Err(IfaceError::Malformed),
        }
    }
}

proof fn lemma_spaces_end(s: Seq<char>, from: int, to: int)
    requires
        0 <= from <= to <= s.len(),
        forall|k: int| from <= k < to ==> is_ascii_space(#[trigger] s[k]),
        to < s.len() ==> !is_ascii_space(s[to]),
    ensures
        spaces_end(s, from) == to,
    decreases to - from,
{
    if from < to {
        lemma_spaces_end(s, from + 1, to);
    }
}

proof fn lemma_word_end(s: Seq<char>, from: int, to: int)
    requires
        0 <= from <= to <= s.len(),
        forall|k: int| from <= k < to ==> !is_ascii_space(#[trigger] s[k]),
        to < s.len() ==> is_ascii_space(s[to]),
    ensures
        word_end(s, from) == to,
    decreases to - from,
{
    if from < to {
        lemma_word_end(s, from + 1, to);
    }
}

fn skip_spaces_from(v: &Vec<char>, from: usize) -> (to: usize)
    requires
        from <= v.len(),
    ensures
        from <= to <= v.len(),
        to == spaces_end(v@, from as int),
{
    let mut to: usize = from;
    while to < v.len() && char_is_ascii_space(v[to])
        invariant
            from <= to <= v.len(),
            forall|k: int| from <= k < to ==> is_ascii_space(#[trigger] v@[k]),
        decreases v.len() - to,
    {
        to += 1;
    }
    proof {
        lemma_spaces_end(v@, from as int, to as int);
    }
    to
}

fn skip_word_from(v: &Vec<char>, from: usize) -> (to: usize)
    requires
        from <= v.len(),
    ensures
        from <= to <= v.len(),
        to == word_end(v@, from as int),
{
    let mut to: usize = from;
    while to < v.len() && !char_is_ascii_space(v[to])
        invariant
            from <= to <= v.len(),
            forall|k: int| from <= k < to ==> !is_ascii_space(#[trigger] v@[k]),
        decreases v.len() - to,
    {
        to += 1;
    }
    proof {
        lemma_word_end(v@, from as int, to as int);
    }
    to
}

/// The bounds of the field number `n` of `v`, counted from zero.
pub fn find_field(v: &Vec<char>, n: usize) -> (r: Option<(usize, usize)>)
    ensures
        match r {
            Some((a, b)) => a <= b <= v.len() && nth_field(v@, 0, n as nat) == Some(
                (a as int, b as int),
            ),
            None => nth_field(v@, 0, n as nat) is None,
        },
{
    let mut from: usize = 0;
    let mut left: usize = n;
    loop
        invariant
            from <= v.len(),
            left <= n,
            nth_field(v@, 0, n as nat) == nth_field(v@, from as int, left as nat),
        decreases left,
    {
        let start = skip_spaces_from(v, from);
        if start >= v.len() {
            return None;
        }
        let end = skip_word_from(v, start);
        if left == 0 {
            return Some((start, end));
        }
        from = end;
        left -= 1;
    }
}

/// Reads the address field from what the tool printed for one interface:
/// nothing where it printed nothing, `Malformed` where the line has fewer than
/// four fields.
pub fn parse_iface_ip(output: &str) -> (r: Result<Option<&str>, IfaceError>)
    ensures
        match r {
            Ok(Some(field)) => parse_iface_ip_spec(output@) == Ok::<
                Option<Seq<char>>,
                IfaceError,
            >(Some(field@)),
            Ok(None) => parse_iface_ip_spec(output@) == Ok::<Option<Seq<char>>, IfaceError>(None),
            Err(e) => parse_iface_ip_spec(output@) == Err::<Option<Seq<char>>, IfaceError>(e),
        },
{
    let all = to_chars(output);
    let (ta, tb) = trim_bounds(&all);
    let line = output.substring_char(ta, tb);
    if ta == tb {
        return Ok(None);
    }
    let chars = to_chars(line);
    match find_field(&chars, ADDRESS_FIELD) {
        Some((a, b)) => Ok(Some(line.substring_char(a, b))),
        None => Err(IfaceError::Malformed),
    }
}

/// A decimal digit.
pub open spec fn is_digit(c: char) -> bool {
    '0' <= c <= '9'
}

/// The value of a run of decimal digits.
pub open spec fn digits_value(part: Seq<char>) -> nat
    decreases part.len(),
{
    if part.len() == 0 {
        0
    } else {
        digits_value(part.drop_last()) * 10 + (part.last() as u32 - 0x30) as nat
    }
}

/// The octet that a part of a dotted address stands for: one to three decimal
/// digits, without a leading zero unless the part is `0`, and at most 255.
pub open spec fn octet_of(part: Seq<char>) -> Option<u8> {
    if 1 <= part.len() <= 3 && (forall|i: int| 0 <= i < part.len() ==> is_digit(#[trigger] part[i]))
        && (part.len() > 1 ==> part[0] != '0') && digits_value(part) <= 255 {
        Some(digits_value(part) as u8)
    } else {
        None
    }
}

/// The address that a text stands for: four octets with a dot between each
/// two, and nothing else.
pub open spec fn parse_ipv4_spec(text: Seq<char>) -> Option<Ipv4> {
    let d1 = first_index(text, '.');
    let rest1 = text.skip(d1 + 1);
    let d2 = first_index(rest1, '.');
    let rest2 = rest1.skip(d2 + 1);
    let d3 = first_index(rest2, '.');
    let rest3 = rest2.skip(d3 + 1);
    if d1 < text.len() && d2 < rest1.len() && d3 < rest2.len() {
        match (octet_of(text.take(d1)), octet_of(rest1.take(d2)), octet_of(rest2.take(d3)), octet_of(rest3)) {
            (Some(a), Some(b), Some(c), Some(d)) => Some(Ipv4 { a, b, c, d }),
            _ => None,
        }
    } else {
        None
    }
}

fn char_is_digit(c: char) -> (r: bool)
    ensures
        r == is_digit(c),
{
    '0' <= c && c <= '9'
}

/// The octet that `v[from..to]` stands for.
fn read_octet(v: &Vec<char>, from: usize, to: usize) -> (r: Option<u8>)
    requires
        from <= to <= v.len(),
    ensures
        r == octet_of(v@.subrange(from as int, to as int)),
{
    let ghost part = v@.subrange(from as int, to as int);
    let len: usize = to - from;
    if len < 1 || len > 3 {
        return None;
    }
    if len > 1 && v[from] == '0' {
        assert(part[0] == '0');
        return None;
    }
    let mut value: u32 = 0;
    let mut i: usize = from;
    while i < to
        invariant
            from <= i <= to <= v.len(),
            to - from <= 3,
            part == v@.subrange(from as int, to as int),
            forall|k: int| 0 <= k < i - from ==> is_digit(#[trigger] part[k]),
            value == digits_value(part.take(i - from)),
            value < 1000,
            i - from == 0 ==> value == 0,
            i - from == 1 ==> value < 10,
            i - from == 2 ==> value < 100,
        decreases to - i,
    {
        let c = v[i];
        if !char_is_digit(c) {
            assert(part[i - from] == c);
            return None;
        }
        proof {
            let next = part.take(i - from + 1);
            assert(next.drop_last() =~= part.take(i - from));
            assert(next.last() == c);
        }
        value = value * 10 + (c as u32 - 0x30);
        i += 1;
    }
    assert(part.take(to - from) =~= part);
    if value > 255 {
        return None;
    }
    Some(value as u8)
}

/// Reads a dotted IPv4 address. `None` where the text is not one.
pub fn parse_ipv4(text: &str) -> (r: Option<Ipv4>)
    ensures
        r == parse_ipv4_spec(text@),
{
    let v = to_chars(text);
    let n = v.len();
    assert(v@.skip(0) =~= v@);
    let d1 = find_char(&v, 0, '.');
    if d1 >= n {
        return None;
    }
    let d2 = find_char(&v, d1 + 1, '.');
    if d2 >= n {
        return None;
    }
    assert(v@.skip(d1 + 1).skip(d2 - d1) =~= v@.skip(d2 + 1));
    let d3 = find_char(&v, d2 + 1, '.');
    if d3 >= n {
        return None;
    }
    proof {
        let rest1 = v@.skip(d1 + 1);
        let rest2 = rest1.skip(d2 - d1);
        let rest3 = rest2.skip(d3 - d2);
        assert(rest3 =~= v@.skip(d3 + 1));
        assert(v@.take(d1 as int) =~= v@.subrange(0, d1 as int));
        assert(rest1.take(d2 - d1 - 1) =~= v@.subrange(d1 + 1, d2 as int));
        assert(rest2.take(d3 - d2 - 1) =~= v@.subrange(d2 + 1, d3 as int));
        assert(rest3 =~= v@.subrange(d3 + 1, n as int));
    }
    let a = read_octet(&v, 0, d1);
    let b = read_octet(&v, d1 + 1, d2);
    let c = read_octet(&v, d2 + 1, d3);
    let d = read_octet(&v, d3 + 1, n);
    match (a, b, c, d) {
        (Some(a), Some(b), Some(c), Some(d)) => Some(Ipv4 { a, b, c, d }),
        _ => None,
    }
}

/// The address of the interface that the tool's output describes: what stands
/// before the first slash of the address field, read as an IPv4 address.
pub open spec fn iface_ipv4_spec(output: Seq<char>) -> Result<Option<Ipv4>, IfaceError> {
    match parse_iface_ip_spec(output) {
        Err(e) => Err(e),
        Ok(None) => Ok(None),
        Ok(Some(field)) => match parse_ipv4_spec(before_first(field, '/')) {
            Some(ip) => Ok(Some(ip)),
            None => Err(IfaceError::BadAddress),
        },
    }
}

/// The IPv4 address of the interface that the tool printed this output for:
/// none where the interface has none.
pub fn iface_ipv4(output: &str) -> (r: Result<Option<Ipv4>, IfaceError>)
    ensures
        r == iface_ipv4_spec(output@),
{
    match parse_iface_ip(output) {
        Err(e) => Err(e),
        Ok(None) => Ok(None),
        Ok(Some(field)) => {
            let chars = to_chars(field);
            assert(chars@.skip(0) =~= chars@);
            let slash = find_char(&chars, 0, '/');
            let address = string_of(&chars, 0, slash);
            assert(chars@.subrange(0, slash as int) =~= before_first(field@, '/'));
            match parse_ipv4(address.as_str()) {
                Some(ip) => Ok(Some(ip)),
                None => Err(IfaceError::BadAddress),
            }
        },
    }
}

/// The address that the daemon listens on where the interface has none: any.
pub open spec fn any_address() -> Ipv4 {
    Ipv4 { a: 0, b: 0, c: 0, d: 0 }
}

/// The address at which the daemon is reached where the interface has none:
/// this host.
pub open spec fn loopback() -> Ipv4 {
    Ipv4 { a: 127, b: 0, c: 0, d: 1 }
}

/// The address to write into the daemon's configuration.
pub fn listen_address(container: Option<Ipv4>) -> (ip: Ipv4)
    ensures
        ip == match container {
            Some(found) => found,
            None => any_address(),
        },
{
    match container {
        Some(found) => found,
        None => Ipv4 { a: 0, b: 0, c: 0, d: 0 },
    }
}

/// The address at which to wait for the daemon's control port.
pub fn control_address(container: Option<Ipv4>) -> (ip: Ipv4)
    ensures
        ip == match container {
            Some(found) => found,
            None => loopback(),
        },
{
    match container {
        Some(found) => found,
        None => Ipv4 { a: 127, b: 0, c: 0, d: 1 },
    }
}

} // verus!
