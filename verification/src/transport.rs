//! Framing of JSON-RPC messages on standard input: newline-delimited JSON,
//! or a `Content-Length: N` header followed by a blank line and N bytes.

use vstd::prelude::*;

use crate::text::{chars_of, decimal, digit_char, is_prefix_of, starts_with, trim, trim_str};

verus! {

/// Reads and writes JSON-RPC messages on standard input and output.
#[derive(Debug, Clone, Copy)]
pub struct StdioTransport;

impl StdioTransport {
    /// A transport on standard input and output.
    pub fn new() -> (r: StdioTransport) {
        StdioTransport
    }
}

impl Default for StdioTransport {
    fn default() -> (r: StdioTransport) {
        StdioTransport
    }
}

/// How a message is framed.
#[derive(Debug, Clone, Copy, PartialEq, Eq, Structural)]
pub enum Framing {
    /// One JSON object on one line.
    NewlineDelimited,
    /// A `Content-Length` header, a blank line, then the body.
    ContentLength,
}

/// The framing a message's first byte announces: `{` starts a JSON line,
/// anything else a header.
pub fn framing_of(first_byte: u8) -> (r: Framing)
    ensures
        r == (if first_byte == 0x7b {
            Framing::NewlineDelimited
        } else {
            Framing::ContentLength
        }),
{
    if first_byte == 0x7b {
        Framing::NewlineDelimited
    } else {
        Framing::ContentLength
    }
}

/// Whether `c` is an ASCII decimal digit.
pub open spec fn is_digit(c: char) -> bool {
    '0' <= c <= '9'
}

/// The value of a run of decimal digits.
pub open spec fn digits_value(s: Seq<char>) -> nat
    decreases s.len(),
{
    if s.len() == 0 {
        0
    } else {
        digits_value(s.drop_last()) * 10 + ((s.last() as u32) - ('0' as u32)) as nat
    }
}

/// The text after an optional leading `+`.
pub open spec fn digits_part(s: Seq<char>) -> Seq<char> {
    if s.len() > 0 && s[0] == '+' {
        s.drop_first()
    } else {
        s
    }
}

/// The number a text denotes as `usize::from_str` reads it: an optional `+`,
/// then one or more digits, within range.
pub open spec fn parsed_count(s: Seq<char>) -> Option<nat> {
    let d = digits_part(s);
    if d.len() > 0 && (forall|i: int| 0 <= i < d.len() ==> is_digit(#[trigger] d[i]))
        && digits_value(d) <= usize::MAX {
        Some(digits_value(d))
    } else {
        None
    }
}

proof fn lemma_decimal_digits(n: nat)
    ensures
        decimal(n).len() > 0,
        forall|i: int| 0 <= i < decimal(n).len() ==> is_digit(#[trigger] decimal(n)[i]),
        digits_value(decimal(n)) == n,
    decreases n,
{
    assert(forall|d: nat| d < 10 ==> (#[trigger] digit_char(d) as u32) == 48 + d);
    if n < 10 {
        assert(seq![digit_char(n)].drop_last() =~= Seq::<char>::empty());
        assert(digits_value(Seq::<char>::empty()) == 0);
        assert(digit_char(n) as u32 == 48 + n);
    } else {
        lemma_decimal_digits(n / 10);
        let p = decimal(n / 10);
        assert(decimal(n).drop_last() =~= p);
        assert(decimal(n).last() == digit_char(n % 10));
        assert(digit_char(n % 10) as u32 == 48 + n % 10);
        assert((n / 10) * 10 + n % 10 == n) by (nonlinear_arith);
        assert forall|i: int| 0 <= i < decimal(n).len() implies is_digit(#[trigger] decimal(n)[i]) by {
            if i < p.len() {
                assert(decimal(n)[i] == p[i]);
            }
        }
    }
}

/// A count written out in decimal reads back as the same count: what a
/// `Content-Length` header announces is the length that was written into it.
pub proof fn lemma_count_round_trip(n: nat)
    requires
        n <= usize::MAX,
    ensures
        parsed_count(decimal(n)) == Some(n),
{
    lemma_decimal_digits(n);
    assert(is_digit(decimal(n)[0]));
    assert(digits_part(decimal(n)) == decimal(n));
}

/// Parses a count as `usize::from_str` does (see `parsed_count`).
pub fn parse_count(s: &str) -> (r: Option<usize>)
    ensures
        match parsed_count(s@) {
            Some(n) => r == Some(n as usize),
            None => r is None,
        },
{
    let v = chars_of(s);
    let start: usize = if v.len() > 0 && v[0] == '+' {
        1
    } else {
        0
    };
    let ghost d = digits_part(s@);
    assert(v@.subrange(start as int, v@.len() as int) =~= d);
    if start == v.len() {
        return None;
    }
    let mut value: usize = 0;
    let mut i: usize = start;
    while i < v.len()
        invariant
            start <= i <= v@.len(),
            v@ == s@,
            d == v@.subrange(start as int, v@.len() as int),
            d == digits_part(s@),
            forall|k: int| 0 <= k < i - start ==> is_digit(#[trigger] d[k]),
            value == digits_value(d.take(i - start)),
        decreases v@.len() - i,
    {
        let c = v[i];
        assert(d[i - start] == c);
        if !('0' <= c && c <= '9') {
            assert(!is_digit(d[i - start]));
            return None;
        }
        let digit = (c as u32 - '0' as u32) as usize;
        assert(d.take(i - start + 1).drop_last() =~= d.take(i - start));
        if value > (usize::MAX - digit) / 10 {
            proof {
                let m = usize::MAX as int;
                assert(value * 10 + digit > m) by (nonlinear_arith)
                    requires
                        value > (m - digit) / 10,
                        0 <= digit <= 9,
                        m >= 9,
                ;
                assert(d.take(i - start + 1).last() == c);
                assert(digits_value(d.take(i - start + 1)) == value * 10 + digit);
                lemma_digits_mono(d, (i - start + 1) as nat);
            }
            return None;
        }
        value = value * 10 + digit;
        i = i + 1;
    }
    assert(d.take(i - start) =~= d);
    Some(value)
}

/// A prefix of a digit run is worth no more than the whole run.
proof fn lemma_digits_mono(d: Seq<char>, k: nat)
    requires
        k <= d.len(),
    ensures
        digits_value(d.take(k as int)) <= digits_value(d),
    decreases d.len(),
{
    if k < d.len() {
        lemma_digits_mono(d.drop_last(), k);
        assert(d.drop_last().take(k as int) =~= d.take(k as int));
    } else {
        assert(d.take(k as int) =~= d);
    }
}

/// The length a header line announces: the trimmed line must start with
/// `Content-Length:` (or `Content-Length :`), and the trimmed rest must be
/// a count.
pub open spec fn announced_length(line: Seq<char>) -> Option<nat> {
    let t = trim(line);
    if is_prefix_of("Content-Length:"@, t) {
        parsed_count(trim(t.skip("Content-Length:"@.len() as int)))
    } else if is_prefix_of("Content-Length :"@, t) {
        parsed_count(trim(t.skip("Content-Length :"@.len() as int)))
    } else {
        None
    }
}

/// The length a `Content-Length` header line announces (see
/// `announced_length`).
pub fn content_length(header_line: &str) -> (r: Option<usize>)
    ensures
        match announced_length(header_line@) {
            Some(n) => r == Some(n as usize),
            None => r is None,
        },
{
    let t = trim_str(header_line);
    let v = chars_of(t.as_str());
    let a = "Content-Length:";
    let b = "Content-Length :";
    let skip: usize = if starts_with(t.as_str(), a) {
        a.unicode_len()
    } else if starts_with(t.as_str(), b) {
        b.unicode_len()
    } else {
        return None;
    };
    let rest = crate::text::slice_chars(&v, skip, v.len());
    let rest_str = crate::text::string_from_chars(rest.as_slice());
    let value = trim_str(rest_str.as_str());
    assert(rest@ =~= t@.skip(skip as int));
    parse_count(value.as_str())
}

} // verus!
