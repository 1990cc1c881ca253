//! Build information: the version data holds the commit sha on its first
//! line and the build date on its second.

use vstd::prelude::*;
use vstd::string::StrSliceExecFns;

verus! {

/// The index of the first newline in `s`, or its length if there is none.
pub open spec fn newline_pos(s: Seq<char>) -> int
    decreases s.len(),
{
    if s.len() == 0 {
        0
    } else if s[0] == '\n' {
        0
    } else {
        1 + newline_pos(s.drop_first())
    }
}

/// The first line of a nonempty text, as `str::lines` yields it: up to the
/// first `\n`, without a `\r` right before that `\n`.
pub open spec fn first_line(s: Seq<char>) -> Seq<char> {
    let p = newline_pos(s);
    if p < s.len() && p > 0 && s[p - 1] == '\r' {
        s.take(p - 1)
    } else {
        s.take(p)
    }
}

/// What follows the first line ending (empty if there is none).
pub open spec fn after_first_line(s: Seq<char>) -> Seq<char> {
    let p = newline_pos(s);
    if p < s.len() {
        s.skip(p + 1)
    } else {
        Seq::empty()
    }
}

/// The `n`th line of a text (counting from 0), as `str::lines` yields it.
pub open spec fn nth_line(s: Seq<char>, n: nat) -> Option<Seq<char>>
    decreases n,
{
    if s.len() == 0 {
        None
    } else if n == 0 {
        Some(first_line(s))
    } else {
        nth_line(after_first_line(s), (n - 1) as nat)
    }
}

/// The `n`th line, or the empty text if there are fewer lines.
pub open spec fn nth_line_or_empty(s: Seq<char>, n: nat) -> Seq<char> {
    match nth_line(s, n) {
        Some(l) => l,
        None => Seq::empty(),
    }
}

proof fn lemma_newline_pos(s: Seq<char>)
    ensures
        0 <= newline_pos(s) <= s.len(),
        forall|i: int| 0 <= i < newline_pos(s) ==> s[i] != '\n',
        newline_pos(s) < s.len() ==> s[newline_pos(s)] == '\n',
    decreases s.len(),
{
    if s.len() > 0 && s[0] != '\n' {
        lemma_newline_pos(s.drop_first());
        assert forall|i: int| 0 <= i < newline_pos(s) implies s[i] != '\n' by {
            if i > 0 {
                assert(s[i] == s.drop_first()[i - 1]);
            }
        }
    }
}

/// The first line of `s` and the rest after its line ending, or `None` when
/// `s` is empty.
fn split_first_line(s: &str) -> (r: Option<(&str, &str)>)
    ensures
        s@.len() == 0 ==> r is None,
        s@.len() > 0 ==> (r matches Some((l, rest)) && l@ == first_line(s@) && rest@
            == after_first_line(s@)),
{
    let len = s.unicode_len();
    if len == 0 {
        return None;
    }
    proof {
        lemma_newline_pos(s@);
    }
    let mut p: usize = 0;
    while p < len && s.get_char(p) != '\n'
        invariant
            len == s@.len(),
            p <= len,
            p <= newline_pos(s@),
            0 <= newline_pos(s@) <= s@.len(),
            forall|i: int| 0 <= i < newline_pos(s@) ==> s@[i] != '\n',
            newline_pos(s@) < s@.len() ==> s@[newline_pos(s@)] == '\n',
        decreases len - p,
    {
        p = p + 1;
    }
    assert(p == newline_pos(s@));
    let line_end = if p < len && p > 0 && s.get_char(p - 1) == '\r' {
        p - 1
    } else {
        p
    };
    let line = s.substring_char(0, line_end);
    let rest = if p < len {
        s.substring_char(p + 1, len)
    } else {
        s.substring_char(len, len)
    };
    assert(line@ =~= first_line(s@));
    assert(rest@ =~= after_first_line(s@));
    Some((line, rest))
}

/// The commit sha: the first line of the version data, or "".
pub fn commit_sha(version_data: &str) -> (r: &str)
    ensures
        r@ == nth_line_or_empty(version_data@, 0),
{
    match split_first_line(version_data) {
        Some((line, _)) => line,
        None => version_data,
    }
}

/// The build date: the second line of the version data, or "".
pub fn build_date(version_data: &str) -> (r: &str)
    ensures
        r@ == nth_line_or_empty(version_data@, 1),
{
    proof {
        reveal_with_fuel(nth_line, 2);
    }
    match split_first_line(version_data) {
        Some((_, rest)) => match split_first_line(rest) {
            Some((line, _)) => line,
            None => rest,
        },
        None => version_data,
    }
}

} // verus!
