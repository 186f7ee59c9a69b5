//! Workspace association: the contents of a `.pinchproject` file name the
//! project that commands run in that directory belong to.

use vstd::prelude::*;

pub use crate::ids::is_valid_uuid;
use crate::ids::is_uuid_format;
use crate::text::{split_chars, split_on, string_from_chars, trim, trim_chars};

verus! {

/// Name of the workspace file.
pub const PINPROJECT_FILE: &'static str = ".pinchproject";

/// What the upward search for a workspace file does after looking in one
/// directory.
#[derive(Debug, Clone, Copy, PartialEq, Eq, Structural)]
pub enum SearchStep {
    /// The file is in this directory: use it.
    Found,
    /// Look in the parent directory next.
    Up,
    /// Give up: no workspace file.
    Stop,
}

/// The step after looking in a directory: the file there is taken; else the
/// search stops at the HOME directory and at the root, and goes up
/// otherwise.
pub open spec fn search_step_of(found_here: bool, here_is_home: bool, has_parent: bool) -> SearchStep {
    if found_here {
        SearchStep::Found
    } else if here_is_home || !has_parent {
        SearchStep::Stop
    } else {
        SearchStep::Up
    }
}

/// The outcome of the upward search over a chain of directories, the
/// current one first and then each parent up to the root: `found[k]` says
/// whether directory `k` holds the workspace file and `home[k]` whether it
/// is the HOME directory. The result is the first directory from `k` on
/// that holds the file, looking no further than HOME (or the root).
pub open spec fn search_result(found: Seq<bool>, home: Seq<bool>, k: nat) -> Option<nat>
    decreases found.len() - k,
{
    if k >= found.len() {
        None
    } else if found[k as int] {
        Some(k)
    } else if k < home.len() && home[k as int] {
        None
    } else {
        search_result(found, home, k + 1)
    }
}

/// Decides the step after looking in a directory (see `search_step_of`).
pub fn search_step(found_here: bool, here_is_home: bool, has_parent: bool) -> (r: SearchStep)
    ensures
        r == search_step_of(found_here, here_is_home, has_parent),
{
    if found_here {
        SearchStep::Found
    } else if here_is_home || !has_parent {
        SearchStep::Stop
    } else {
        SearchStep::Up
    }
}

/// Following the steps walks the search: at directory `k` of the chain, a
/// `Found` step means the search ends at `k`, a `Stop` step that it finds
/// nothing, and an `Up` step that its outcome is that of the search from the
/// parent.
pub proof fn lemma_search_steps(found: Seq<bool>, home: Seq<bool>, k: nat)
    requires
        k < found.len(),
        home.len() == found.len(),
    ensures
        ({
            let s = search_step_of(found[k as int], home[k as int], k + 1 < found.len());
            &&& s == SearchStep::Found ==> search_result(found, home, k) == Some(k)
            &&& s == SearchStep::Stop ==> search_result(found, home, k) is None
            &&& s == SearchStep::Up ==> search_result(found, home, k) == search_result(found, home, k + 1)
        }),
{
    if !found[k as int] && !home[k as int] && k + 1 >= found.len() {
        assert(search_result(found, home, k + 1) is None);
    }
}

/// The first line of `lines` that, once trimmed, is a UUID; blank lines and
/// `#` comments are skipped.
pub open spec fn first_uuid_line(lines: Seq<Seq<char>>) -> Option<Seq<char>>
    decreases lines.len(),
{
    if lines.len() == 0 {
        None
    } else {
        let t = trim(lines[0]);
        if t.len() > 0 && t[0] != '#' && is_uuid_format(t) {
            Some(t)
        } else {
            first_uuid_line(lines.drop_first())
        }
    }
}

/// The project ID named by the contents of a `.pinchproject` file: the first
/// non-blank, non-comment line that is a UUID after trimming. (Splitting on
/// `\n` and trimming gives the same lines as `str::lines` followed by trimming,
/// since a trailing `\r` is whitespace and empty lines are skipped.)
pub fn parse_pinproject_content(content: &str) -> (r: Option<String>)
    ensures
        match r {
            Some(s) => first_uuid_line(split_on(content@, '\n')) == Some(s@),
            None => first_uuid_line(split_on(content@, '\n')) is None,
        },
{
    let lines = split_chars(content, '\n');
    let ghost ls = split_on(content@, '\n');
    let mut i: usize = 0;
    assert(ls.skip(0) =~= ls);
    while i < lines.len()
        invariant
            i <= lines@.len(),
            lines@.len() == ls.len(),
            forall|k: int| 0 <= k < lines@.len() ==> #[trigger] lines@[k]@ == ls[k],
            ls == split_on(content@, '\n'),
            first_uuid_line(ls) == first_uuid_line(ls.skip(i as int)),
        decreases lines@.len() - i,
    {
        assert(ls.skip(i as int)[0] == ls[i as int]);
        assert(ls.skip(i as int).drop_first() =~= ls.skip(i + 1));
        let t = trim_chars(&lines[i]);
        if t.len() > 0 && t[0] != '#' {
            let s = string_from_chars(t.as_slice());
            if is_valid_uuid(s.as_str()) {
                assert(t@ == trim(ls.skip(i as int)[0]));
                assert(first_uuid_line(ls.skip(i as int)) == Some(s@));
                assert(first_uuid_line(ls) == Some(s@));
                return Some(s);
            }
        }
        i = i + 1;
    }
    None
}

} // verus!
