//! Layout and text helpers of the terminal views.

use vstd::prelude::*;

use crate::text::{append_str, chars_of, repeat_char, string_from_chars, slice_chars};

pub mod project_detail;
pub mod project_form;
pub mod project_list;
pub mod task_detail;
pub mod task_list;
pub mod lines;
pub mod list_screen;
pub mod screens;
pub mod text;
pub mod theme;

verus! {

/// `s` truncated to `max_len` characters with a trailing ellipsis, or padded
/// with spaces to `max_len` characters when shorter.
pub open spec fn truncated_padded(s: Seq<char>, max_len: nat) -> Seq<char> {
    if s.len() <= max_len {
        s + Seq::new((max_len - s.len()) as nat, |i: int| ' ')
    } else {
        s.take(if max_len == 0 { 0 } else { max_len - 1 }) + seq!['…']
    }
}

/// Truncates `s` to `max_len` characters (ending in `…`) or pads it with spaces
/// to that width.
pub fn truncate_str(s: &str, max_len: usize) -> (r: String)
    ensures
        r@ == truncated_padded(s@, max_len as nat),
{
    let v = chars_of(s);
    if v.len() <= max_len {
        let mut out = s.to_owned();
        append_str(&mut out, repeat_char(' ', max_len - v.len()).as_str());
        out
    } else {
        let keep = if max_len == 0 { 0 } else { max_len - 1 };
        let part = slice_chars(&v, 0, keep);
        let mut out = string_from_chars(part.as_slice());
        crate::text::push_char(&mut out, '…');
        assert(out@ =~= truncated_padded(s@, max_len as nat));
        out
    }
}

/// A bracketed bar of `width` cells: `pct` percent of the inner cells filled
/// with `█` (rounded down), the rest `░`; empty when `width < 2`.
pub open spec fn bar_text(pct: nat, width: nat) -> Seq<char> {
    if width < 2 {
        Seq::empty()
    } else {
        let inner = (width - 2) as nat;
        let filled = pct * inner / 100;
        let empty = if filled < inner { (inner - filled) as nat } else { 0nat };
        seq!['['] + Seq::new(filled, |i: int| '█') + Seq::new(empty, |i: int| '░') + seq![']']
    }
}

/// A plain text progress bar (see `bar_text`).
pub fn progress_bar(pct: usize, width: usize) -> (r: String)
    requires
        width >= 2 ==> pct * (width - 2) <= usize::MAX,
    ensures
        r@ == bar_text(pct as nat, width as nat),
{
    if width < 2 {
        return String::new();
    }
    let inner = width - 2;
    let filled = pct * inner / 100;
    let empty = if filled < inner { inner - filled } else { 0 };
    let mut out = String::new();
    crate::text::push_char(&mut out, '[');
    append_str(&mut out, repeat_char('█', filled).as_str());
    append_str(&mut out, repeat_char('░', empty).as_str());
    crate::text::push_char(&mut out, ']');
    assert(out@ =~= bar_text(pct as nat, width as nat));
    out
}

} // verus!
