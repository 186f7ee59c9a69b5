//! Identifiers and timestamps: UUID generation and validation, short IDs,
//! and the current time.

use vstd::prelude::*;

use crate::text::{byte_prefix, chars_within, cuts_at, split_chars, split_on, utf8_len};

verus! {

/// Whether `c` is an ASCII hexadecimal digit.
pub open spec fn is_hex_digit(c: char) -> bool {
    ('0' <= c <= '9') || ('a' <= c <= 'f') || ('A' <= c <= 'F')
}

/// Whether every character of `s` is a hexadecimal digit.
pub open spec fn all_hex(s: Seq<char>) -> bool {
    forall|i: int| 0 <= i < s.len() ==> is_hex_digit(#[trigger] s[i])
}

/// The textual UUID format `xxxxxxxx-xxxx-xxxx-xxxx-xxxxxxxxxxxx`: five
/// hyphen-separated groups of 8, 4, 4, 4 and 12 hexadecimal digits (either
/// case; version bits are not checked).
pub open spec fn is_uuid_format(s: Seq<char>) -> bool {
    let p = split_on(s, '-');
    &&& p.len() == 5
    &&& p[0].len() == 8
    &&& p[1].len() == 4
    &&& p[2].len() == 4
    &&& p[3].len() == 4
    &&& p[4].len() == 12
    &&& forall|i: int| 0 <= i < 5 ==> all_hex(#[trigger] p[i])
}

fn is_hex_digit_exec(c: char) -> (r: bool)
    ensures
        r == is_hex_digit(c),
{
    ('0' <= c && c <= '9') || ('a' <= c && c <= 'f') || ('A' <= c && c <= 'F')
}

fn all_hex_exec(v: &Vec<char>) -> (r: bool)
    ensures
        r == all_hex(v@),
{
    let mut i: usize = 0;
    while i < v.len()
        invariant
            i <= v@.len(),
            forall|j: int| 0 <= j < i ==> is_hex_digit(#[trigger] v@[j]),
        decreases v@.len() - i,
    {
        if !is_hex_digit_exec(v[i]) {
            return false;
        }
        i = i + 1;
    }
    true
}

/// Whether `s` has the textual UUID format (see `is_uuid_format`).
pub fn is_valid_uuid(s: &str) -> (r: bool)
    ensures
        r == is_uuid_format(s@),
{
    let segs = split_chars(s, '-');
    if segs.len() != 5 {
        return false;
    }
    if segs[0].len() != 8 || segs[1].len() != 4 || segs[2].len() != 4 || segs[3].len() != 4
        || segs[4].len() != 12 {
        return false;
    }
    let mut i: usize = 0;
    while i < 5
        invariant
            i <= 5,
            segs@.len() == 5,
            segs@.len() == split_on(s@, '-').len(),
            forall|k: int| 0 <= k < segs@.len() ==> #[trigger] segs@[k]@ == split_on(s@, '-')[k],
            forall|k: int| 0 <= k < i ==> all_hex(#[trigger] split_on(s@, '-')[k]),
        decreases 5 - i,
    {
        if !all_hex_exec(&segs[i]) {
            return false;
        }
        i = i + 1;
    }
    true
}

/// A fresh random version-4 UUID in lower-case hyphenated form
/// (`uuid::Uuid::new_v4().to_string()`). Trusted: uuid's `Display` writes the
/// hyphenated lower-case hex form, so the result has the UUID format; which
/// UUID comes back is left open (it is random).
#[verifier::external_body]
pub(crate) fn new_uuid() -> (r: String)
    ensures
        is_uuid_format(r@),
{
    uuid::Uuid::new_v4().to_string()
}

/// Whether every character of `s[i..j]` is an ASCII decimal digit.
pub open spec fn digits_between(s: Seq<char>, i: int, j: int) -> bool {
    forall|k: int| i <= k < j ==> '0' <= #[trigger] s[k] <= '9'
}

/// The year of an RFC 3339 timestamp: four digits, or (outside the years 0
/// to 9999) a sign followed by at least four digits.
pub open spec fn is_timestamp_year(y: Seq<char>) -> bool {
    ||| y.len() == 4 && digits_between(y, 0, 4)
    ||| y.len() >= 5 && (y[0] == '+' || y[0] == '-') && digits_between(y, 1, y.len() as int)
}

/// An RFC 3339 timestamp in UTC as chrono's `to_rfc3339` writes it:
/// `YYYY-MM-DDTHH:MM:SS`, then either nothing or `.` and 3, 6 or 9 digits of
/// the fraction of a second, then the offset `+00:00`. `t` is the position
/// of the `T`.
pub open spec fn is_utc_timestamp_at(s: Seq<char>, t: int) -> bool {
    let end = s.len() - 6;
    &&& 10 <= t
    &&& t + 9 <= end
    &&& is_timestamp_year(s.subrange(0, t - 6))
    &&& s[t - 6] == '-'
    &&& digits_between(s, t - 5, t - 3)
    &&& s[t - 3] == '-'
    &&& digits_between(s, t - 2, t)
    &&& s[t] == 'T'
    &&& digits_between(s, t + 1, t + 3)
    &&& s[t + 3] == ':'
    &&& digits_between(s, t + 4, t + 6)
    &&& s[t + 6] == ':'
    &&& digits_between(s, t + 7, t + 9)
    &&& (end == t + 9 || (s[t + 9] == '.' && (end - (t + 10) == 3 || end - (t + 10) == 6
        || end - (t + 10) == 9) && digits_between(s, t + 10, end)))
    &&& s.subrange(end, s.len() as int) == seq!['+', '0', '0', ':', '0', '0']
}

/// Whether `s` is a UTC timestamp in the form `is_utc_timestamp_at` gives.
pub open spec fn is_utc_timestamp(s: Seq<char>) -> bool {
    exists|t: int| is_utc_timestamp_at(s, t)
}

/// The current UTC time as an RFC 3339 string
/// (`chrono::Utc::now().to_rfc3339()`). Trusted: chrono writes the date, a
/// `T`, the time, the fraction of a second when it is not zero, and the
/// offset `+00:00` (see `is_utc_timestamp`). Which time comes back is left
/// open: it depends on the clock.
#[verifier::external_body]
pub(crate) fn now_rfc3339() -> (r: String)
    ensures
        is_utc_timestamp(r@),
{
    chrono::Utc::now().to_rfc3339()
}

/// The short form of an ID: its first 8 bytes (the whole ID if shorter),
/// as `&id[..8.min(id.len())]` for IDs whose eighth byte ends a character.
pub open spec fn short_id_of(id: Seq<char>) -> Seq<char> {
    id.take(chars_within(id, 8) as int)
}

/// The short form of an ID (see `short_id_of`).
pub fn short_id(id: &str) -> (r: String)
    requires
        cuts_at(id@, 8),
    ensures
        r@ == short_id_of(id@),
{
    byte_prefix(id, 8)
}

proof fn lemma_first_piece_prefix(s: Seq<char>, sep: char)
    ensures
        split_on(s, sep).len() >= 1,
        split_on(s, sep)[0].len() <= s.len(),
        split_on(s, sep)[0] == s.take(split_on(s, sep)[0].len() as int),
        split_on(s, sep).len() == 1 ==> split_on(s, sep)[0] == s,
    decreases s.len(),
{
    crate::text::lemma_split_nonempty(s, sep);
    if s.len() > 0 {
        lemma_first_piece_prefix(s.drop_last(), sep);
        let parts = split_on(s.drop_last(), sep);
        let k = parts[0].len();
        assert(s.drop_last().take(k as int) =~= s.take(k as int));
        if s.last() != sep && parts.len() == 1 {
            assert(s.drop_last().push(s.last()) =~= s);
            assert(s.take(s.len() as int) =~= s);
        }
    }
}

proof fn lemma_ascii_prefix_cuts(s: Seq<char>, k: nat)
    requires
        k <= s.len(),
        forall|i: int| 0 <= i < k ==> (#[trigger] s[i] as u32) < 0x80,
    ensures
        chars_within(s, k as int) >= k,
        utf8_len(s.take(k as int)) == k,
    decreases k,
{
    if k > 0 {
        assert forall|i: int| 0 <= i < k - 1 implies (#[trigger] s.drop_first()[i] as u32) < 0x80 by {
            assert(s.drop_first()[i] == s[i + 1]);
        }
        lemma_ascii_prefix_cuts(s.drop_first(), (k - 1) as nat);
        assert(s.take(k as int).drop_first() =~= s.drop_first().take(k - 1));
        assert(s.take(k as int)[0] == s[0]);
    }
}

proof fn lemma_chars_within_le(s: Seq<char>, n: int)
    requires
        n >= 0,
    ensures
        chars_within(s, n) <= n,
    decreases s.len(),
{
    if s.len() > 0 && crate::text::utf8_width(s[0]) <= n {
        lemma_chars_within_le(s.drop_first(), n - crate::text::utf8_width(s[0]));
    }
}

/// A text in UUID format can be cut to its 8-byte short form.
pub proof fn lemma_uuid_cuts(s: Seq<char>)
    requires
        is_uuid_format(s),
    ensures
        cuts_at(s, 8),
{
    lemma_first_piece_prefix(s, '-');
    let p0 = split_on(s, '-')[0];
    assert(all_hex(p0));
    assert forall|i: int| 0 <= i < 8 implies (#[trigger] s[i] as u32) < 0x80 by {
        assert(s[i] == p0[i]);
        assert(is_hex_digit(p0[i]));
    }
    lemma_ascii_prefix_cuts(s, 8);
    lemma_chars_within_le(s, 8);
    assert(s.take(chars_within(s, 8) as int) =~= s.take(8));
}

} // verus!
