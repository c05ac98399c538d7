//! Sequences of characters: searching, splitting and slicing.
//!
//! Text is modelled as `Seq<char>`. The executable functions work on the
//! characters of a string slice, never on its bytes, so an offset always
//! counts characters.

use vstd::prelude::*;
use vstd::string::*;

verus! {

/// `needle` stands in `hay` at offset `at`.
pub open spec fn occurs_at(needle: Seq<char>, hay: Seq<char>, at: int) -> bool {
    &&& 0 <= at
    &&& at + needle.len() <= hay.len()
    &&& hay.subrange(at, at + needle.len()) == needle
}

/// `needle` is a contiguous part of `hay`.
pub open spec fn occurs_in(needle: Seq<char>, hay: Seq<char>) -> bool {
    exists|at: int| occurs_at(needle, hay, at)
}

/// Offset of the first `c` in `s`, or the length of `s` where it holds none.
pub open spec fn first_index(s: Seq<char>, c: char) -> int
    decreases s.len(),
{
    if s.len() == 0 || s[0] == c {
        0
    } else {
        1 + first_index(s.skip(1), c)
    }
}

/// The first line of `text`, without its terminator. A line ends at the first
/// line feed; one carriage return directly before that line feed belongs to
/// the terminator. Text without a line feed is one line, and empty text has
/// an empty first line.
pub open spec fn first_line(text: Seq<char>) -> Seq<char> {
    let cut = first_index(text, '\n');
    if 0 < cut < text.len() && text[cut - 1] == '\r' {
        text.take(cut - 1)
    } else {
        text.take(cut)
    }
}

/// What follows the last `/` of `path`; all of `path` where it holds none.
pub open spec fn last_segment(path: Seq<char>) -> Seq<char>
    decreases path.len(),
{
    if path.len() == 0 || path.last() == '/' {
        Seq::empty()
    } else {
        last_segment(path.drop_last()).push(path.last())
    }
}

/// How many characters stand behind the `n`-th `c` of `s`, counted from the
/// end: `Some(0)` where `n` is 1 and `s` ends in `c`. `None` where `n` is 0 or
/// `s` holds fewer than `n` of them.
pub open spec fn rfind_nth_spec(s: Seq<char>, c: char, n: nat) -> Option<nat>
    decreases s.len(),
{
    if s.len() == 0 || n == 0 {
        None
    } else if s.last() == c && n == 1 {
        Some(0)
    } else {
        let left: nat = if s.last() == c {
            (n - 1) as nat
        } else {
            n
        };
        match rfind_nth_spec(s.drop_last(), c, left) {
            Some(behind) => Some(behind + 1),
            None => None,
        }
    }
}

/// `first_index` is the least offset that holds `c`, or the length.
pub proof fn lemma_first_index(s: Seq<char>, c: char, at: int)
    requires
        0 <= at <= s.len(),
        at < s.len() ==> s[at] == c,
        forall|k: int| 0 <= k < at ==> s[k] != c,
    ensures
        first_index(s, c) == at,
    decreases at,
{
    if at > 0 {
        let rest = s.skip(1);
        assert forall|k: int| 0 <= k < at - 1 implies rest[k] != c by {
            assert(rest[k] == s[k + 1]);
        }
        lemma_first_index(rest, c, at - 1);
    }
}

/// `last_segment` starts right behind the last `/`.
pub proof fn lemma_last_segment(path: Seq<char>, start: int)
    requires
        0 <= start <= path.len(),
        start > 0 ==> path[start - 1] == '/',
        forall|k: int| start <= k < path.len() ==> path[k] != '/',
    ensures
        last_segment(path) == path.skip(start),
    decreases path.len() - start,
{
    if start == path.len() {
        assert(path.skip(start) =~= Seq::<char>::empty());
    } else {
        let front = path.drop_last();
        assert forall|k: int| start <= k < front.len() implies front[k] != '/' by {
            assert(front[k] == path[k]);
        }
        lemma_last_segment(front, start);
        assert(front.skip(start).push(path.last()) =~= path.skip(start));
    }
}

/// A found offset lies inside `s` and holds `c`.
pub proof fn lemma_rfind_nth_in_bounds(s: Seq<char>, c: char, n: nat)
    ensures
        rfind_nth_spec(s, c, n) matches Some(behind) ==> behind < s.len() && s[s.len() - 1
            - behind] == c,
    decreases s.len(),
{
    if s.len() == 0 || n == 0 {
    } else if s.last() == c && n == 1 {
    } else {
        let left: nat = if s.last() == c {
            (n - 1) as nat
        } else {
            n
        };
        lemma_rfind_nth_in_bounds(s.drop_last(), c, left);
    }
}

/// The characters of `s`, in order.
pub fn chars_of(s: &str) -> (chars: Vec<char>)
    ensures
        chars@ == s@,
{
    broadcast use axiom_spec_iter;

    let mut chars: Vec<char> = Vec::new();
    for c in it: s.chars()
        invariant
            it.seq() == s@,
            chars@ == it.seq().take(it.index()),
    {
        chars.push(c);
    }
    chars
}

/// Whether `needle` stands in `hay` at offset `at`.
pub fn matches_at(needle: &Vec<char>, hay: &Vec<char>, at: usize) -> (found: bool)
    ensures
        found == occurs_at(needle@, hay@, at as int),
{
    let size: usize = hay.len();
    if at > size || size - at < needle.len() {
        return false;
    }
    let mut i: usize = 0;
    while i < needle.len()
        invariant
            i <= needle@.len(),
            at + needle@.len() <= hay@.len() == size,
            forall|k: int| 0 <= k < i ==> hay@[at + k] == needle@[k],
        decreases needle@.len() - i,
    {
        if hay[at + i] != needle[i] {
            assert(hay@.subrange(at as int, at + needle@.len())[i as int] == hay@[at + i]);
            return false;
        }
        i += 1;
    }
    assert(hay@.subrange(at as int, at + needle@.len()) =~= needle@);
    true
}

/// Whether `needle` is a contiguous part of `hay`.
pub fn contains(hay: &Vec<char>, needle: &Vec<char>) -> (found: bool)
    ensures
        found == occurs_in(needle@, hay@),
{
    if needle.len() > hay.len() {
        return false;
    }
    let last: usize = hay.len() - needle.len();
    let mut at: usize = 0;
    loop
        invariant
            at <= last,
            last == hay@.len() - needle@.len(),
            forall|k: int| 0 <= k < at ==> !occurs_at(needle@, hay@, k),
        decreases last - at,
    {
        if matches_at(needle, hay, at) {
            return true;
        }
        if at == last {
            return false;
        }
        at += 1;
    }
}

/// Length of the first line of `text`.
pub fn first_line_len(text: &Vec<char>) -> (len: usize)
    ensures
        len <= text@.len(),
        text@.take(len as int) == first_line(text@),
{
    let mut cut: usize = 0;
    while cut < text.len() && text[cut] != '\n'
        invariant
            cut <= text@.len(),
            forall|k: int| 0 <= k < cut ==> text@[k] != '\n',
        decreases text@.len() - cut,
    {
        cut += 1;
    }
    proof {
        lemma_first_index(text@, '\n', cut as int);
    }
    if 0 < cut && cut < text.len() && text[cut - 1] == '\r' {
        cut - 1
    } else {
        cut
    }
}

/// Offset at which the last segment of `path` starts.
pub fn last_segment_start(path: &Vec<char>) -> (start: usize)
    ensures
        start <= path@.len(),
        path@.skip(start as int) == last_segment(path@),
{
    let mut start: usize = path.len();
    while start > 0 && path[start - 1] != '/'
        invariant
            start <= path@.len(),
            forall|k: int| start <= k < path@.len() ==> path@[k] != '/',
        decreases start,
    {
        start -= 1;
    }
    proof {
        lemma_last_segment(path@, start as int);
    }
    start
}

/// How many characters stand behind the `n`-th `c` of `s`, counted from the
/// end of `s`.
pub fn rfind_nth_in(s: &Vec<char>, c: char, n: usize) -> (found: Option<usize>)
    ensures
        found matches Some(behind) ==> behind < s@.len() && s@[s@.len() - 1 - behind] == c,
        match found {
            Some(behind) => rfind_nth_spec(s@, c, n as nat) == Some(behind as nat),
            None => rfind_nth_spec(s@, c, n as nat) is None,
        },
{
    proof {
        lemma_rfind_nth_in_bounds(s@, c, n as nat);
    }
    if n == 0 {
        return None;
    }
    let mut left: usize = n;
    let mut i: usize = s.len();
    assert(s@.take(i as int) =~= s@);
    while i > 0
        invariant
            i <= s@.len(),
            1 <= left <= n,
            rfind_nth_spec(s@, c, n as nat) == match rfind_nth_spec(
                s@.take(i as int),
                c,
                left as nat,
            ) {
                Some(behind) => Some((behind + (s@.len() - i)) as nat),
                None => None,
            },
        decreases i,
    {
        assert(s@.take(i as int).drop_last() =~= s@.take(i - 1));
        if s[i - 1] == c {
            if left == 1 {
                return Some(s.len() - i);
            }
            left -= 1;
        }
        i -= 1;
    }
    None
}

/// How many characters stand behind the `n`-th `c` of `s`, counted from the
/// end of `s`: `Some(0)` where `n` is 1 and `s` ends in `c`. `None` where `n`
/// is 0 or `s` holds fewer than `n` of them.
pub fn rfind_nth(s: &str, c: char, n: usize) -> (found: Option<usize>)
    ensures
        found matches Some(behind) ==> behind < s@.len() && s@[s@.len() - 1 - behind] == c,
        match found {
            Some(behind) => rfind_nth_spec(s@, c, n as nat) == Some(behind as nat),
            None => rfind_nth_spec(s@, c, n as nat) is None,
        },
{
    let chars = chars_of(s);
    rfind_nth_in(&chars, c, n)
}

} // verus!
