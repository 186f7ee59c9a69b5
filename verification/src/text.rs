//! Character-level text helpers used throughout the library.

use vstd::prelude::*;

verus! {

broadcast use vstd::string::group_string_axioms;

/// Appends one character to a `String` (std `String::push`).
/// Trusted: the new contents are the old contents followed by `c`.
#[verifier::external_body]
pub(crate) fn push_char(s: &mut String, c: char)
    ensures
        final(s)@ == old(s)@.push(c),
{
    s.push(c);
}

/// The characters of a string slice, in order.
pub fn chars_of(s: &str) -> (r: Vec<char>)
    ensures
        r@ == s@,
{
    let mut out: Vec<char> = Vec::new();
    for c in it: s.chars()
        invariant
            out@ == it.seq().take(it.index() as int),
    {
        out.push(c);
    }
    out
}

/// Builds a `String` holding exactly the given characters.
pub fn string_from_chars(v: &[char]) -> (r: String)
    ensures
        r@ == v@,
{
    let mut out = String::new();
    let mut i: usize = 0;
    while i < v.len()
        invariant
            i <= v@.len(),
            out@ == v@.take(i as int),
        decreases v@.len() - i,
    {
        push_char(&mut out, v[i]);
        i = i + 1;
        assert(v@.take(i as int) == v@.take(i - 1).push(v@[i - 1]));
    }
    assert(v@.take(v@.len() as int) == v@);
    out
}

/// `s` without its last character, when it has one.
pub open spec fn popped(s: Seq<char>) -> Seq<char> {
    if s.len() == 0 {
        s
    } else {
        s.drop_last()
    }
}

/// Removes the last character of `s` and returns it, as `String::pop` does.
pub fn pop_char(s: &mut String) -> (r: Option<char>)
    ensures
        final(s)@ == popped(old(s)@),
        r == (if old(s)@.len() == 0 {
            None
        } else {
            Some(old(s)@.last())
        }),
{
    let v = chars_of(s.as_str());
    if v.len() == 0 {
        return None;
    }
    let last = v[v.len() - 1];
    let kept = slice_chars(&v, 0, v.len() - 1);
    *s = string_from_chars(kept.as_slice());
    proof {
        assert(kept@ =~= v@.drop_last());
    }
    Some(last)
}

/// Whether two string slices hold the same characters.
pub fn str_eq(a: &str, b: &str) -> (r: bool)
    ensures
        r == (a@ == b@),
{
    let x = chars_of(a);
    let y = chars_of(b);
    if x.len() != y.len() {
        return false;
    }
    let mut i: usize = 0;
    while i < x.len()
        invariant
            x@ == a@,
            y@ == b@,
            x@.len() == y@.len(),
            i <= x@.len(),
            forall|j: int| 0 <= j < i ==> x@[j] == y@[j],
        decreases x@.len() - i,
    {
        if x[i] != y[i] {
            return false;
        }
        i = i + 1;
    }
    assert(x@ =~= y@);
    true
}

/// The decimal digit character for `d < 10`.
pub open spec fn digit_char(d: nat) -> char {
    ((48 + d) as u8) as char
}

/// The decimal representation of a natural number, without leading zeros.
pub open spec fn decimal(n: nat) -> Seq<char>
    decreases n,
{
    if n < 10 {
        seq![digit_char(n)]
    } else {
        decimal(n / 10).push(digit_char(n % 10))
    }
}

fn decimal_chars(n: usize) -> (r: Vec<char>)
    ensures
        r@ == decimal(n as nat),
    decreases n,
{
    let d: u8 = (n % 10) as u8;
    let c: char = (48u8 + d) as char;
    if n < 10 {
        let mut v: Vec<char> = Vec::new();
        v.push(c);
        v
    } else {
        let mut v = decimal_chars(n / 10);
        v.push(c);
        v
    }
}

/// The decimal representation of `n` (as `n.to_string()` renders it).
pub fn usize_to_decimal(n: usize) -> (r: String)
    ensures
        r@ == decimal(n as nat),
{
    let v = decimal_chars(n);
    string_from_chars(v.as_slice())
}

/// Number of bytes in the UTF-8 encoding of `c`.
pub open spec fn utf8_width(c: char) -> nat {
    if (c as u32) < 0x80 {
        1
    } else if (c as u32) < 0x800 {
        2
    } else if (c as u32) < 0x10000 {
        3
    } else {
        4
    }
}

/// Number of bytes in the UTF-8 encoding of `s` (what `str::len` reports).
pub open spec fn utf8_len(s: Seq<char>) -> nat
    decreases s.len(),
{
    if s.len() == 0 {
        0
    } else {
        utf8_width(s[0]) + utf8_len(s.drop_first())
    }
}

/// Number of leading characters of `s` whose encoding fits in `n` bytes.
pub open spec fn chars_within(s: Seq<char>, n: int) -> nat
    decreases s.len(),
{
    if s.len() == 0 || utf8_width(s[0]) > n {
        0
    } else {
        1 + chars_within(s.drop_first(), n - utf8_width(s[0]))
    }
}

/// Whether byte offset `n` falls on a character boundary of `s`
/// (offsets past the end are not boundaries).
pub open spec fn is_boundary(s: Seq<char>, n: int) -> bool {
    0 <= n && utf8_len(s.take(chars_within(s, n) as int)) == n
}

fn char_width_exec(c: char) -> (w: usize)
    ensures
        w == utf8_width(c),
{
    if (c as u32) < 0x80 {
        1
    } else if (c as u32) < 0x800 {
        2
    } else if (c as u32) < 0x10000 {
        3
    } else {
        4
    }
}

pub proof fn lemma_chars_within_bound(s: Seq<char>, n: int)
    ensures
        chars_within(s, n) <= s.len(),
        utf8_len(s.take(chars_within(s, n) as int)) <= if n < 0 { 0 } else { n },
    decreases s.len(),
{
    if s.len() == 0 || utf8_width(s[0]) > n {
        assert(s.take(0) =~= Seq::<char>::empty());
    } else {
        lemma_chars_within_bound(s.drop_first(), n - utf8_width(s[0]));
        let k = chars_within(s.drop_first(), n - utf8_width(s[0]));
        assert(s.take(k as int + 1).drop_first() =~= s.drop_first().take(k as int));
    }
}

/// Number of leading characters of `s` whose encoding fits in `n` bytes.
pub fn count_within(s: &Vec<char>, n: usize) -> (k: usize)
    ensures
        k == chars_within(s@, n as int),
        k <= s@.len(),
{
    let mut i: usize = 0;
    let mut budget: usize = n;
    assert(s@.skip(0) =~= s@);
    while i < s.len()
        invariant
            i <= s@.len(),
            budget <= n,
            chars_within(s@, n as int) == i + chars_within(s@.skip(i as int), budget as int),
        decreases s@.len() - i,
    {
        let w = char_width_exec(s[i]);
        assert(s@.skip(i as int)[0] == s@[i as int]);
        assert(s@.skip(i as int).drop_first() =~= s@.skip(i + 1));
        if w > budget {
            return i;
        }
        budget = budget - w;
        i = i + 1;
    }
    assert(s@.skip(i as int).len() == 0);
    proof {
        lemma_chars_within_bound(s@, n as int);
    }
    i
}

/// The first `n` bytes of `s`, rounded down to a character boundary; equals
/// `&s[..n]` whenever `n` is a boundary or lies past the end.
pub fn byte_prefix(s: &str, n: usize) -> (r: String)
    ensures
        r@ == s@.take(chars_within(s@, n as int) as int),
{
    let v = chars_of(s);
    let k = count_within(&v, n);
    proof {
        lemma_chars_within_bound(s@, n as int);
    }
    let part = slice_chars(&v, 0, k);
    string_from_chars(part.as_slice())
}

/// The characters `v[from..to]`.
pub fn slice_chars(v: &Vec<char>, from: usize, to: usize) -> (r: Vec<char>)
    requires
        from <= to <= v@.len(),
    ensures
        r@ == v@.subrange(from as int, to as int),
{
    let mut out: Vec<char> = Vec::new();
    let mut i = from;
    while i < to
        invariant
            from <= i <= to,
            to <= v@.len(),
            out@ == v@.subrange(from as int, i as int),
        decreases to - i,
    {
        out.push(v[i]);
        i = i + 1;
        assert(out@ =~= v@.subrange(from as int, i as int));
    }
    out
}

/// Whether the UTF-8 encoding of `s` has at least `n` bytes.
pub fn byte_len_at_least(s: &str, n: usize) -> (r: bool)
    ensures
        r == (utf8_len(s@) >= n),
{
    if n == 0 {
        return true;
    }
    let v = chars_of(s);
    let k = count_within(&v, n - 1);
    proof {
        lemma_chars_within_bound(s@, n - 1);
        lemma_len_at_least(s@, n as int);
    }
    k < v.len()
}

proof fn lemma_len_at_least(s: Seq<char>, n: int)
    requires
        n >= 1,
    ensures
        (utf8_len(s) >= n) == (chars_within(s, n - 1) < s.len()),
    decreases s.len(),
{
    if s.len() == 0 {
    } else if utf8_width(s[0]) > n - 1 {
        assert(utf8_len(s) >= utf8_width(s[0]));
    } else {
        let w = utf8_width(s[0]) as int;
        if n - w >= 1 {
            lemma_len_at_least(s.drop_first(), n - w);
        } else {
            assert(n - w == 0);
            lemma_chars_within_nonneg_full(s.drop_first());
        }
    }
}

proof fn lemma_chars_within_nonneg_full(s: Seq<char>)
    ensures
        chars_within(s, 0) == 0,
        utf8_len(s) >= 0,
{
}

/// Whether `p` is a prefix of `s`.
pub open spec fn is_prefix_of(p: Seq<char>, s: Seq<char>) -> bool {
    p.len() <= s.len() && s.take(p.len() as int) == p
}

/// Whether `s` starts with `p` (as `str::starts_with`).
pub fn starts_with(s: &str, p: &str) -> (r: bool)
    ensures
        r == is_prefix_of(p@, s@),
{
    let x = chars_of(s);
    let y = chars_of(p);
    chars_start_with(&x, &y, 0)
}

/// Whether `y` occurs in `x` starting at index `at`.
fn chars_start_with(x: &Vec<char>, y: &Vec<char>, at: usize) -> (r: bool)
    requires
        at <= x@.len(),
    ensures
        r == (y@.len() <= x@.len() - at && x@.subrange(at as int, at + y@.len()) == y@),
{
    if y.len() > x.len() - at {
        return false;
    }
    let mut i: usize = 0;
    while i < y.len()
        invariant
            y@.len() <= x@.len() - at,
            at <= x@.len(),
            i <= y@.len(),
            forall|j: int| 0 <= j < i ==> x@[at + j] == y@[j],
        decreases y@.len() - i,
    {
        assert(at + i < x.len());
        if x[at + i] != y[i] {
            assert(x@.subrange(at as int, at + y@.len())[i as int] != y@[i as int]);
            return false;
        }
        i = i + 1;
    }
    assert(x@.subrange(at as int, at + y@.len()) =~= y@);
    true
}

/// Whether `p` occurs as a contiguous run inside `s`.
pub open spec fn occurs_in(p: Seq<char>, s: Seq<char>) -> bool {
    exists|i: int| 0 <= i <= s.len() - p.len() && #[trigger] s.subrange(i, i + p.len()) == p
}

/// Whether `s` contains `p` (as `str::contains` with a string pattern).
pub fn contains_str(s: &str, p: &str) -> (r: bool)
    ensures
        r == occurs_in(p@, s@),
{
    let x = chars_of(s);
    let y = chars_of(p);
    if y.len() > x.len() {
        return false;
    }
    let last = x.len() - y.len();
    let mut i: usize = 0;
    while i <= last
        invariant
            x@ == s@,
            y@ == p@,
            last == x@.len() - y@.len(),
            i <= last + 1,
            forall|j: int| 0 <= j < i ==> #[trigger] x@.subrange(j, j + y@.len()) != y@,
        decreases last + 1 - i,
    {
        if chars_start_with(&x, &y, i) {
            return true;
        }
        if i == last {
            return false;
        }
        i = i + 1;
    }
    false
}

/// Unicode `White_Space` characters (what `char::is_whitespace` accepts).
pub open spec fn is_whitespace(c: char) -> bool {
    let u = c as u32;
    ||| 0x9 <= u <= 0xD
    ||| u == 0x20
    ||| u == 0x85
    ||| u == 0xA0
    ||| u == 0x1680
    ||| 0x2000 <= u <= 0x200A
    ||| u == 0x2028
    ||| u == 0x2029
    ||| u == 0x202F
    ||| u == 0x205F
    ||| u == 0x3000
}

/// Whether `c` is whitespace (as `char::is_whitespace`).
pub fn is_whitespace_char(c: char) -> (r: bool)
    ensures
        r == is_whitespace(c),
{
    let u = c as u32;
    (0x9 <= u && u <= 0xD) || u == 0x20 || u == 0x85 || u == 0xA0 || u == 0x1680 || (0x2000 <= u
        && u <= 0x200A) || u == 0x2028 || u == 0x2029 || u == 0x202F || u == 0x205F || u == 0x3000
}

/// `s` without leading whitespace.
pub open spec fn trim_start(s: Seq<char>) -> Seq<char>
    decreases s.len(),
{
    if s.len() > 0 && is_whitespace(s[0]) {
        trim_start(s.drop_first())
    } else {
        s
    }
}

/// `s` without trailing whitespace.
pub open spec fn trim_end(s: Seq<char>) -> Seq<char>
    decreases s.len(),
{
    if s.len() > 0 && is_whitespace(s.last()) {
        trim_end(s.drop_last())
    } else {
        s
    }
}

/// `s` without leading and trailing whitespace (as `str::trim`).
pub open spec fn trim(s: Seq<char>) -> Seq<char> {
    trim_end(trim_start(s))
}

/// The characters of `s` with leading and trailing whitespace removed.
pub fn trim_chars(s: &Vec<char>) -> (r: Vec<char>)
    ensures
        r@ == trim(s@),
{
    let mut i: usize = 0;
    assert(s@.skip(0) =~= s@);
    while i < s.len() && is_whitespace_char(s[i])
        invariant
            i <= s@.len(),
            trim_start(s@) == trim_start(s@.skip(i as int)),
        decreases s@.len() - i,
    {
        assert(s@.skip(i as int).drop_first() =~= s@.skip(i + 1));
        i = i + 1;
    }
    let ghost t = s@.skip(i as int);
    assert(trim_start(s@) == t);
    let mut j: usize = s.len();
    assert(t.take(t.len() as int) =~= t);
    while j > i && is_whitespace_char(s[j - 1])
        invariant
            i <= j <= s@.len(),
            t == s@.skip(i as int),
            trim_end(t) == trim_end(s@.subrange(i as int, j as int)),
        decreases j,
    {
        assert(s@.subrange(i as int, j as int).drop_last() =~= s@.subrange(i as int, j - 1));
        j = j - 1;
    }
    assert(t =~= s@.subrange(i as int, s@.len() as int));
    slice_chars(s, i, j)
}

/// `s` with leading and trailing whitespace removed (as `str::trim`).
pub fn trim_str(s: &str) -> (r: String)
    ensures
        r@ == trim(s@),
{
    let v = chars_of(s);
    let t = trim_chars(&v);
    string_from_chars(t.as_slice())
}

/// `n` copies of `c`.
pub fn repeat_char(c: char, n: usize) -> (r: String)
    ensures
        r@ == Seq::new(n as nat, |i: int| c),
{
    let mut out = String::new();
    let mut i: usize = 0;
    while i < n
        invariant
            i <= n,
            out@ == Seq::new(i as nat, |k: int| c),
        decreases n - i,
    {
        push_char(&mut out, c);
        i = i + 1;
        assert(out@ =~= Seq::new(i as nat, |k: int| c));
    }
    out
}

/// Appends the characters of `v` to `s`.
pub fn append_chars(s: &mut String, v: &Vec<char>)
    ensures
        final(s)@ == old(s)@ + v@,
{
    let mut i: usize = 0;
    while i < v.len()
        invariant
            i <= v@.len(),
            s@ == old(s)@ + v@.take(i as int),
        decreases v@.len() - i,
    {
        push_char(s, v[i]);
        i = i + 1;
        assert(s@ =~= old(s)@ + v@.take(i as int));
    }
    assert(v@.take(v@.len() as int) =~= v@);
}

/// Appends a string slice to `s`.
pub fn append_str(s: &mut String, t: &str)
    ensures
        final(s)@ == old(s)@ + t@,
{
    let v = chars_of(t);
    append_chars(s, &v);
}

/// Unicode lower-case mapping of a character sequence, as computed by
/// std's `str::to_lowercase`.
pub uninterp spec fn lowercase(s: Seq<char>) -> Seq<char>;

/// Lower-cases a string with std's `str::to_lowercase`. Trusted: the result
/// is the `lowercase` mapping of the argument, a function of it alone.
#[verifier::external_body]
pub(crate) fn to_lowercase(s: &str) -> (r: String)
    ensures
        r@ == lowercase(s@),
{
    s.to_lowercase()
}

/// `parts` joined with `sep` between consecutive parts (as `[String]::join`).
pub open spec fn join(parts: Seq<Seq<char>>, sep: Seq<char>) -> Seq<char>
    decreases parts.len(),
{
    if parts.len() == 0 {
        Seq::empty()
    } else if parts.len() == 1 {
        parts[0]
    } else {
        join(parts.drop_last(), sep) + sep + parts.last()
    }
}

/// Joins strings with a separator.
pub fn join_strings(parts: &Vec<String>, sep: &str) -> (r: String)
    ensures
        r@ == join(crate::models::strings_view(parts@), sep@),
{
    let ghost pv = crate::models::strings_view(parts@);
    let mut out = String::new();
    let mut i: usize = 0;
    while i < parts.len()
        invariant
            i <= parts@.len(),
            pv == crate::models::strings_view(parts@),
            out@ == join(pv.take(i as int), sep@),
        decreases parts@.len() - i,
    {
        assert(pv.take(i + 1).drop_last() =~= pv.take(i as int));
        if i > 0 {
            append_str(&mut out, sep);
        }
        append_str(&mut out, parts[i].as_str());
        i = i + 1;
        assert(pv.take(i as int).last() == parts@[i - 1]@);
        if i == 1 {
            assert(out@ =~= join(pv.take(i as int), sep@));
        }
    }
    assert(pv.take(parts@.len() as int) =~= pv);
    out
}

/// The pieces of `s` between occurrences of `sep` (as `str::split` with a
/// character pattern); there is always at least one piece.
pub open spec fn split_on(s: Seq<char>, sep: char) -> Seq<Seq<char>>
    decreases s.len(),
{
    if s.len() == 0 {
        seq![Seq::empty()]
    } else {
        let parts = split_on(s.drop_last(), sep);
        if s.last() == sep {
            parts.push(Seq::empty())
        } else {
            parts.update(parts.len() - 1, parts.last().push(s.last()))
        }
    }
}

pub proof fn lemma_split_nonempty(s: Seq<char>, sep: char)
    ensures
        split_on(s, sep).len() >= 1,
    decreases s.len(),
{
    if s.len() > 0 {
        lemma_split_nonempty(s.drop_last(), sep);
    }
}

/// Splits a string on a separator character.
pub fn split_chars(s: &str, sep: char) -> (r: Vec<Vec<char>>)
    ensures
        r@.len() == split_on(s@, sep).len(),
        forall|i: int| 0 <= i < r@.len() ==> #[trigger] r@[i]@ == split_on(s@, sep)[i],
{
    let v = chars_of(s);
    let mut parts: Vec<Vec<char>> = Vec::new();
    let mut cur: Vec<char> = Vec::new();
    let mut i: usize = 0;
    assert(v@.take(0) =~= Seq::<char>::empty());
    while i < v.len()
        invariant
            v@ == s@,
            i <= v@.len(),
            parts@.len() + 1 == split_on(v@.take(i as int), sep).len(),
            forall|j: int| 0 <= j < parts@.len() ==> #[trigger] parts@[j]@ == split_on(v@.take(i as int), sep)[j],
            cur@ == split_on(v@.take(i as int), sep).last(),
        decreases v@.len() - i,
    {
        proof {
            lemma_split_nonempty(v@.take(i as int), sep);
        }
        assert(v@.take(i + 1).drop_last() =~= v@.take(i as int));
        assert(v@.take(i + 1).last() == v@[i as int]);
        if v[i] == sep {
            let done_part = cur;
            parts.push(done_part);
            cur = Vec::new();
        } else {
            cur.push(v[i]);
        }
        i = i + 1;
    }
    assert(v@.take(v@.len() as int) =~= v@);
    parts.push(cur);
    parts
}

/// The tags written in a comma-separated list: each piece trimmed, empty
/// pieces dropped, order kept.
pub open spec fn parse_tag_list(s: Seq<char>) -> Seq<Seq<char>> {
    split_on(s, ',').map_values(|p: Seq<char>| trim(p)).filter(|t: Seq<char>| t.len() > 0)
}

/// Parses a comma-separated tag list: split on `,`, trim each piece, keep
/// the non-empty ones.
pub fn parse_tags(s: &str) -> (r: Vec<String>)
    ensures
        crate::models::strings_view(r@) == parse_tag_list(s@),
{
    let pieces = split_chars(s, ',');
    let ghost trimmed = split_on(s@, ',').map_values(|p: Seq<char>| trim(p));
    let mut out: Vec<String> = Vec::new();
    let mut i: usize = 0;
    while i < pieces.len()
        invariant
            i <= pieces@.len(),
            pieces@.len() == split_on(s@, ',').len(),
            forall|k: int| 0 <= k < pieces@.len() ==> #[trigger] pieces@[k]@ == split_on(s@, ',')[k],
            trimmed == split_on(s@, ',').map_values(|p: Seq<char>| trim(p)),
            crate::models::strings_view(out@) == trimmed.take(i as int).filter(|t: Seq<char>| t.len() > 0),
        decreases pieces@.len() - i,
    {
        reveal_with_fuel(Seq::<_>::filter, 1);
        let t = trim_chars(&pieces[i]);
        assert(trimmed.take(i + 1).drop_last() =~= trimmed.take(i as int));
        assert(trimmed.take(i + 1).last() == t@);
        let ghost prev = out@;
        if t.len() > 0 {
            let st = string_from_chars(t.as_slice());
            out.push(st);
            assert(crate::models::strings_view(out@) =~= crate::models::strings_view(prev).push(t@));
        }
        i = i + 1;
    }
    assert(trimmed.take(pieces@.len() as int) =~= trimmed);
    out
}

proof fn lemma_split_pieces_free_of(s: Seq<char>, sep: char)
    ensures
        forall|i: int| 0 <= i < split_on(s, sep).len() ==> !(#[trigger] split_on(s, sep)[i]).contains(sep),
    decreases s.len(),
{
    if s.len() > 0 {
        lemma_split_pieces_free_of(s.drop_last(), sep);
        lemma_split_nonempty(s.drop_last(), sep);
        let parts = split_on(s.drop_last(), sep);
        if s.last() != sep {
            let lastp = parts.last().push(s.last());
            assert(!parts[parts.len() - 1].contains(sep));
            assert forall|k: int| 0 <= k < lastp.len() implies lastp[k] != sep by {
                if k < parts.last().len() {
                    assert(lastp[k] == parts.last()[k]);
                }
            }
        } else {
            assert(!Seq::<char>::empty().contains(sep));
        }
    }
}

proof fn lemma_trim_start_shape(s: Seq<char>)
    ensures
        exists|k: int| 0 <= k <= s.len() && trim_start(s) == s.skip(k),
        trim_start(s).len() > 0 ==> !is_whitespace(trim_start(s)[0]),
    decreases s.len(),
{
    if s.len() > 0 && is_whitespace(s[0]) {
        lemma_trim_start_shape(s.drop_first());
        let k = choose|k: int| 0 <= k <= s.drop_first().len() && trim_start(s.drop_first()) == s.drop_first().skip(k);
        assert(s.drop_first().skip(k) =~= s.skip(k + 1));
    } else {
        assert(s.skip(0) =~= s);
    }
}

proof fn lemma_trim_end_shape(s: Seq<char>)
    ensures
        exists|k: int| 0 <= k <= s.len() && trim_end(s) == s.take(k),
        trim_end(s).len() > 0 ==> !is_whitespace(trim_end(s).last()),
    decreases s.len(),
{
    if s.len() > 0 && is_whitespace(s.last()) {
        lemma_trim_end_shape(s.drop_last());
        let k = choose|k: int| 0 <= k <= s.drop_last().len() && trim_end(s.drop_last()) == s.drop_last().take(k);
        assert(s.drop_last().take(k) =~= s.take(k));
    } else {
        assert(s.take(s.len() as int) =~= s);
    }
}

/// Every tag that a comma-separated list yields is non-empty, begins and ends
/// with a character that is not whitespace, and holds no comma.
pub proof fn lemma_parsed_tags_clean(s: Seq<char>)
    ensures
        forall|i: int|
            0 <= i < parse_tag_list(s).len() ==> {
                let t = #[trigger] parse_tag_list(s)[i];
                &&& t.len() > 0
                &&& !is_whitespace(t[0])
                &&& !is_whitespace(t.last())
                &&& !t.contains(',')
            },
{
    let pieces = split_on(s, ',');
    let trimmed = pieces.map_values(|p: Seq<char>| trim(p));
    let kept = trimmed.filter(|t: Seq<char>| t.len() > 0);
    lemma_split_pieces_free_of(s, ',');
    assert forall|j: int| 0 <= j < trimmed.len() implies {
        let t = #[trigger] trimmed[j];
        t.len() > 0 ==> (!is_whitespace(t[0]) && !is_whitespace(t.last()) && !t.contains(','))
    } by {
        let p = pieces[j];
        lemma_trim_start_shape(p);
        lemma_trim_end_shape(trim_start(p));
        let a = choose|k: int| 0 <= k <= p.len() && trim_start(p) == p.skip(k);
        let b = choose|k: int| 0 <= k <= trim_start(p).len() && trim_end(trim_start(p)) == trim_start(p).take(k);
        let t = trimmed[j];
        assert(t == trim_start(p).take(b));
        if t.len() > 0 {
            assert(t[0] == trim_start(p)[0]);
            assert forall|k: int| 0 <= k < t.len() implies t[k] != ',' by {
                assert(t[k] == p[a + k]);
                assert(!p.contains(','));
            }
        }
    }
    assert forall|i: int| 0 <= i < kept.len() implies {
        let t = #[trigger] kept[i];
        &&& t.len() > 0
        &&& !is_whitespace(t[0])
        &&& !is_whitespace(t.last())
        &&& !t.contains(',')
    } by {
        trimmed.lemma_filter_pred(|t: Seq<char>| t.len() > 0, i);
        assert(kept.contains(kept[i]));
        trimmed.lemma_filter_contains_rev(|t: Seq<char>| t.len() > 0, kept[i]);
        let j = choose|j: int| 0 <= j < trimmed.len() && trimmed[j] == kept[i];
        assert(trimmed[j] == kept[i]);
    }
}

/// Lexicographic `<=` on character sequences (the order of `String`'s `Ord`,
/// since UTF-8 preserves code point order).
pub open spec fn chars_le(a: Seq<char>, b: Seq<char>) -> bool
    decreases a.len(),
{
    if a.len() == 0 {
        true
    } else if b.len() == 0 {
        false
    } else if a[0] != b[0] {
        a[0] < b[0]
    } else {
        chars_le(a.drop_first(), b.drop_first())
    }
}

/// Whether `a <= b` in string order.
pub fn str_le(a: &str, b: &str) -> (r: bool)
    ensures
        r == chars_le(a@, b@),
{
    let x = chars_of(a);
    let y = chars_of(b);
    let mut i: usize = 0;
    assert(x@.skip(0) =~= x@);
    assert(y@.skip(0) =~= y@);
    while i < x.len() && i < y.len() && x[i] == y[i]
        invariant
            x@ == a@,
            y@ == b@,
            i <= x@.len(),
            i <= y@.len(),
            chars_le(a@, b@) == chars_le(x@.skip(i as int), y@.skip(i as int)),
        decreases x@.len() - i,
    {
        assert(x@.skip(i as int).drop_first() =~= x@.skip(i + 1));
        assert(y@.skip(i as int).drop_first() =~= y@.skip(i + 1));
        i = i + 1;
    }
    if i == x.len() {
        return true;
    }
    if i == y.len() {
        return false;
    }
    assert(x@.skip(i as int)[0] == x@[i as int]);
    assert(y@.skip(i as int)[0] == y@[i as int]);
    x[i] < y[i]
}

/// Appending a character adds its width to the byte length.
pub proof fn lemma_utf8_len_push(s: Seq<char>, c: char)
    ensures
        utf8_len(s.push(c)) == utf8_len(s) + utf8_width(c),
    decreases s.len(),
{
    let t = s.push(c);
    assert(t[0] == if s.len() == 0 { c } else { s[0] });
    if s.len() == 0 {
        assert(t.drop_first() =~= Seq::<char>::empty());
        assert(utf8_len(t.drop_first()) == 0);
    } else {
        assert(t.drop_first() =~= s.drop_first().push(c));
        lemma_utf8_len_push(s.drop_first(), c);
    }
}

/// The byte length of `s`, or `cap` if it is larger.
pub fn byte_len_capped(s: &Vec<char>, cap: usize) -> (r: usize)
    ensures
        r == if utf8_len(s@) < cap { utf8_len(s@) } else { cap as nat },
{
    if cap == 0 {
        return 0;
    }
    let mut total: usize = 0;
    let mut i: usize = 0;
    assert(s@.take(0) =~= Seq::<char>::empty());
    while i < s.len()
        invariant
            i <= s@.len(),
            total == utf8_len(s@.take(i as int)),
            total < cap,
        decreases s@.len() - i,
    {
        let w = char_width_exec(s[i]);
        proof {
            lemma_utf8_len_push(s@.take(i as int), s@[i as int]);
            assert(s@.take(i as int).push(s@[i as int]) =~= s@.take(i + 1));
        }
        if w >= cap - total {
            proof {
                lemma_utf8_len_prefix_le(s@, i + 1);
            }
            return cap;
        }
        total = total + w;
        i = i + 1;
    }
    assert(s@.take(s@.len() as int) =~= s@);
    total
}

/// A prefix is never longer in bytes than the whole.
pub proof fn lemma_utf8_len_prefix_le(s: Seq<char>, k: int)
    requires
        0 <= k <= s.len(),
    ensures
        utf8_len(s.take(k)) <= utf8_len(s),
    decreases s.len(),
{
    if k > 0 {
        assert(s.take(k).drop_first() =~= s.drop_first().take(k - 1));
        lemma_utf8_len_prefix_le(s.drop_first(), k - 1);
    }
}

/// Whether byte offset `n` is a character boundary of `s` (as
/// `str::is_char_boundary`, except that the end is a boundary only when `n`
/// equals the length).
pub fn is_char_boundary_at(s: &Vec<char>, n: usize) -> (r: bool)
    ensures
        r == is_boundary(s@, n as int),
{
    let k = count_within(s, n);
    proof {
        lemma_chars_within_bound(s@, n as int);
    }
    let prefix = slice_chars(s, 0, k);
    assert(prefix@ =~= s@.take(k as int));
    let b = byte_len_capped(&prefix, n);
    if b == n {
        proof {
            lemma_chars_within_bound(s@, n as int);
        }
        true
    } else {
        false
    }
}

/// Whether `&s[..n]` is valid: `n` is within `s` and on a character boundary
/// (or `s` is at most `n` bytes long and the slice is the whole of it).
pub open spec fn cuts_at(s: Seq<char>, n: int) -> bool {
    utf8_len(s) <= n || is_boundary(s, n)
}

} // verus!
