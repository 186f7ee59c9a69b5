//! Text shaping shared by the list and detail views: truncation, wrapping
//! and short dates.

use vstd::prelude::*;

use crate::text::{chars_of, chars_within, is_boundary, slice_chars, string_from_chars, utf8_len};

verus! {

/// `s` cut to `max_len` characters, the last one replaced by `…` when it had
/// to be cut; unchanged when it fits.
pub open spec fn truncated(s: Seq<char>, max_len: nat) -> Seq<char> {
    if s.len() <= max_len {
        s
    } else {
        s.take(if max_len == 0 { 0 } else { max_len - 1 }) + seq!['…']
    }
}

/// Truncates `s` to at most `max_len` characters, ending in `…` when cut.
pub fn truncate_str(s: &str, max_len: usize) -> (r: String)
    ensures
        r@ == truncated(s@, max_len as nat),
{
    let v = chars_of(s);
    if v.len() <= max_len {
        s.to_owned()
    } else {
        let keep = if max_len == 0 { 0 } else { max_len - 1 };
        let part = slice_chars(&v, 0, keep);
        let mut out = string_from_chars(part.as_slice());
        crate::text::push_char(&mut out, '…');
        assert(out@ =~= truncated(s@, max_len as nat));
        out
    }
}

/// The state of wrapping after reading some characters: finished lines and
/// the line being filled.
pub open spec fn wrap_state(s: Seq<char>, w: nat) -> (Seq<Seq<char>>, Seq<char>)
    decreases s.len(),
{
    if s.len() == 0 {
        (Seq::empty(), Seq::empty())
    } else {
        let (lines, cur) = wrap_state(s.drop_last(), w);
        let c = s.last();
        if c == '\n' {
            (lines.push(cur), Seq::empty())
        } else if cur.len() >= w {
            (lines.push(cur), seq![c])
        } else {
            (lines, cur.push(c))
        }
    }
}

/// `text` wrapped at `w` characters per line, breaking at each newline; a
/// zero width leaves the text whole. There is always at least one line.
pub open spec fn wrapped(text: Seq<char>, w: nat) -> Seq<Seq<char>> {
    if w == 0 {
        seq![text]
    } else {
        let (lines, cur) = wrap_state(text, w);
        if cur.len() > 0 || lines.len() == 0 {
            lines.push(cur)
        } else {
            lines
        }
    }
}

/// Wrapping always gives at least one line.
pub proof fn lemma_wrapped_nonempty(text: Seq<char>, w: nat)
    ensures
        wrapped(text, w).len() >= 1,
{
}

/// Wraps text to lines of at most `max_width` characters (see `wrapped`).
pub fn wrap_text(text: &str, max_width: usize) -> (r: Vec<String>)
    ensures
        crate::models::strings_view(r@) == wrapped(text@, max_width as nat),
{
    if max_width == 0 {
        let mut out: Vec<String> = Vec::new();
        out.push(text.to_owned());
        assert(crate::models::strings_view(out@) =~= seq![text@]);
        return out;
    }
    let v = chars_of(text);
    let mut lines: Vec<String> = Vec::new();
    let mut cur: Vec<char> = Vec::new();
    let mut i: usize = 0;
    assert(v@.take(0) =~= Seq::<char>::empty());
    while i < v.len()
        invariant
            i <= v@.len(),
            v@ == text@,
            max_width > 0,
            (crate::models::strings_view(lines@), cur@) == wrap_state(v@.take(i as int), max_width as nat),
        decreases v@.len() - i,
    {
        assert(v@.take(i + 1).drop_last() =~= v@.take(i as int));
        assert(v@.take(i + 1).last() == v@[i as int]);
        let c = v[i];
        let ghost prev = crate::models::strings_view(lines@);
        if c == '\n' {
            let line = string_from_chars(cur.as_slice());
            lines.push(line);
            cur = Vec::new();
            assert(crate::models::strings_view(lines@) =~= prev.push(line@));
        } else if cur.len() >= max_width {
            let line = string_from_chars(cur.as_slice());
            lines.push(line);
            cur = Vec::new();
            cur.push(c);
            assert(crate::models::strings_view(lines@) =~= prev.push(line@));
            assert(cur@ =~= seq![c]);
        } else {
            cur.push(c);
        }
        i = i + 1;
    }
    assert(v@.take(v@.len() as int) =~= v@);
    if cur.len() > 0 || lines.len() == 0 {
        let ghost prev = crate::models::strings_view(lines@);
        let line = string_from_chars(cur.as_slice());
        lines.push(line);
        assert(crate::models::strings_view(lines@) =~= prev.push(line@));
    }
    lines
}

/// Whether `&s[5..10]` is valid when `s` has at least 10 bytes.
pub open spec fn date_cuttable(s: Seq<char>) -> bool {
    utf8_len(s) >= 10 ==> is_boundary(s, 5) && is_boundary(s, 10)
}

/// The "MM-DD" part of an ISO 8601 timestamp: bytes 5 to 10 when it has at
/// least 10 bytes, the whole string otherwise.
pub open spec fn short_date(s: Seq<char>) -> Seq<char> {
    if utf8_len(s) >= 10 {
        s.subrange(chars_within(s, 5) as int, chars_within(s, 10) as int)
    } else {
        s
    }
}

/// Formats a timestamp as its "MM-DD" part (see `short_date`).
pub fn format_created_at(datetime: &str) -> (r: String)
    requires
        date_cuttable(datetime@),
    ensures
        r@ == short_date(datetime@),
{
    let v = chars_of(datetime);
    if crate::text::byte_len_at_least(datetime, 10) {
        let a = crate::text::count_within(&v, 5);
        let b = crate::text::count_within(&v, 10);
        proof {
            lemma_within_monotone(v@, 5, 10);
        }
        let part = slice_chars(&v, a, b);
        string_from_chars(part.as_slice())
    } else {
        datetime.to_owned()
    }
}

proof fn lemma_within_monotone(s: Seq<char>, a: int, b: int)
    requires
        a <= b,
    ensures
        chars_within(s, a) <= chars_within(s, b),
        chars_within(s, b) <= s.len(),
    decreases s.len(),
{
    crate::text::lemma_chars_within_bound(s, b);
    if s.len() > 0 && crate::text::utf8_width(s[0]) <= a {
        lemma_within_monotone(s.drop_first(), a - crate::text::utf8_width(s[0]), b - crate::text::utf8_width(s[0]));
    }
}

} // verus!
