//! Mirror templates and the names taken from an archive's location.

use vstd::prelude::*;
use vstd::string::*;
use crate::error::MakeError;
use crate::text::{
    chars_of, last_segment, last_segment_start, lemma_rfind_nth_in_bounds, matches_at, occurs_at,
    rfind_nth_in, rfind_nth_spec,
};

verus! {

/// The placeholder that stands for the version in a mirror template.
pub open spec fn placeholder() -> Seq<char> {
    seq!['{', 'v', 'e', 'r', 's', 'i', 'o', 'n', '}']
}

/// Whether `c` is one of the two characters that delimit a placeholder.
pub open spec fn is_brace(c: char) -> bool {
    c == '{' || c == '}'
}

/// `head` put in front of `tail`, where there is a `tail`.
pub open spec fn prepend(head: Seq<char>, tail: Option<Seq<char>>) -> Option<Seq<char>> {
    match tail {
        Some(rest) => Some(head + rest),
        None => None,
    }
}

/// The location that `template` gives for `version`: every placeholder is
/// replaced by `version`, every other character stands for itself. A brace
/// that is not part of a placeholder makes the template malformed, and there
/// is no location.
pub open spec fn resolve(template: Seq<char>, version: Seq<char>) -> Option<Seq<char>>
    decreases template.len(),
{
    if template.len() == 0 {
        Some(Seq::empty())
    } else if occurs_at(placeholder(), template, 0) {
        prepend(version, resolve(template.skip(placeholder().len() as int), version))
    } else if is_brace(template[0]) {
        None
    } else {
        prepend(seq![template[0]], resolve(template.skip(1), version))
    }
}

/// The directory that an archive named `file_name` is taken to unpack to:
/// `file_name` up to its second dot from the end. There is none where
/// `file_name` holds fewer than two dots.
pub open spec fn directory_name_spec(file_name: Seq<char>) -> Option<Seq<char>> {
    match rfind_nth_spec(file_name, '.', 2) {
        Some(behind) => Some(file_name.take(file_name.len() - 1 - behind)),
        None => None,
    }
}

/// Text without braces resolves to itself.
pub proof fn lemma_resolve_plain(text: Seq<char>, version: Seq<char>)
    requires
        forall|k: int| 0 <= k < text.len() ==> !is_brace(text[k]),
    ensures
        resolve(text, version) == Some(text),
    decreases text.len(),
{
    if text.len() > 0 {
        assert(occurs_at(placeholder(), text, 0) ==> text.subrange(0, 9)[0] == text[0]);
        lemma_resolve_plain(text.skip(1), version);
        assert(seq![text[0]] + text.skip(1) =~= text);
    }
}

/// A template with one placeholder between two texts without braces resolves
/// to the first text, the version and the second text, whatever the version
/// holds.
pub proof fn law_resolve_substitutes(prefix: Seq<char>, suffix: Seq<char>, version: Seq<char>)
    requires
        forall|k: int| 0 <= k < prefix.len() ==> !is_brace(prefix[k]),
        forall|k: int| 0 <= k < suffix.len() ==> !is_brace(suffix[k]),
    ensures
        resolve(prefix + placeholder() + suffix, version) == Some(prefix + version + suffix),
    decreases prefix.len(),
{
    let template = prefix + placeholder() + suffix;
    if prefix.len() == 0 {
        assert(template.subrange(0, 9) =~= placeholder());
        assert(template.skip(9) =~= suffix);
        lemma_resolve_plain(suffix, version);
        assert(version + suffix =~= prefix + version + suffix);
    } else {
        assert(template[0] == prefix[0]);
        assert(template.subrange(0, 9)[0] == template[0]);
        assert(placeholder()[0] == '{');
        assert(template.skip(1) =~= prefix.skip(1) + placeholder() + suffix);
        law_resolve_substitutes(prefix.skip(1), suffix, version);
        assert(seq![template[0]] + (prefix.skip(1) + version + suffix) =~= prefix + version
            + suffix);
    }
}

/// Characters other than `c` at the end of `s` only move the found offset.
pub proof fn lemma_rfind_nth_tail(s: Seq<char>, tail: Seq<char>, c: char, n: nat)
    requires
        forall|k: int| 0 <= k < tail.len() ==> tail[k] != c,
    ensures
        rfind_nth_spec(s + tail, c, n) == match rfind_nth_spec(s, c, n) {
            Some(behind) => Some(behind + tail.len()),
            None => None,
        },
    decreases tail.len(),
{
    if tail.len() == 0 {
        assert(s + tail =~= s);
    } else if n > 0 {
        assert((s + tail).drop_last() =~= s + tail.drop_last());
        lemma_rfind_nth_tail(s, tail.drop_last(), c, n);
    }
}

/// For a name that ends in two extensions, the directory is the name without
/// them: `stem.first.second` gives `stem`, whatever `stem` holds.
pub proof fn law_directory_name_two_extensions(
    stem: Seq<char>,
    first: Seq<char>,
    second: Seq<char>,
)
    requires
        forall|k: int| 0 <= k < first.len() ==> first[k] != '.',
        forall|k: int| 0 <= k < second.len() ==> second[k] != '.',
    ensures
        directory_name_spec(stem + seq!['.'] + first + seq!['.'] + second) == Some(stem),
{
    let inner = stem + seq!['.'];
    let outer = inner + first + seq!['.'];
    let name = outer + second;
    assert(inner.drop_last() =~= stem);
    assert(outer.drop_last() =~= inner + first);
    lemma_rfind_nth_tail(inner, first, '.', 1);
    lemma_rfind_nth_tail(outer, second, '.', 2);
    assert(name.take(stem.len() as int) =~= stem);
}

/// For a name that ends in one extension only, the directory is never the
/// name without it: `stem.only` gives no directory where `stem` has no dot,
/// and else a proper prefix of `stem`.
pub proof fn law_directory_name_one_extension(stem: Seq<char>, only: Seq<char>)
    requires
        forall|k: int| 0 <= k < only.len() ==> only[k] != '.',
    ensures
        directory_name_spec(stem + seq!['.'] + only) != Some(stem),
        directory_name_spec(stem + seq!['.'] + only) matches Some(directory) ==> directory.len()
            < stem.len() && directory == stem.take(directory.len() as int),
        directory_name_spec(stem + seq!['.'] + only) is Some <==> stem.contains('.'),
{
    let inner = stem + seq!['.'];
    let name = inner + only;
    assert(inner.drop_last() =~= stem);
    lemma_rfind_nth_tail(inner, only, '.', 2);
    lemma_rfind_nth_in_bounds(stem, '.', 1);
    lemma_rfind_nth_first_found(stem, '.');
    match rfind_nth_spec(stem, '.', 1) {
        Some(behind) => {
            let keep = stem.len() - 1 - behind;
            assert(name.take(keep) =~= stem.take(keep));
        },
        None => {},
    }
}

/// The first `c` from the end is found exactly where `s` holds a `c`.
pub proof fn lemma_rfind_nth_first_found(s: Seq<char>, c: char)
    ensures
        rfind_nth_spec(s, c, 1) is Some <==> s.contains(c),
    decreases s.len(),
{
    if s.len() > 0 {
        lemma_rfind_nth_first_found(s.drop_last(), c);
        if s.last() == c {
            assert(s[s.len() - 1] == c);
        } else if s.contains(c) {
            let k = choose|k: int| 0 <= k < s.len() && s[k] == c;
            assert(s.drop_last()[k] == c);
        } else if s.drop_last().contains(c) {
            let k = choose|k: int| 0 <= k < s.drop_last().len() && s.drop_last()[k] == c;
            assert(s[k] == c);
        }
    }
}

/// Whether the placeholder stands in `template` at offset `at`.
fn placeholder_at(template: &Vec<char>, at: usize) -> (found: bool)
    ensures
        found == occurs_at(placeholder(), template@, at as int),
{
    let marker: Vec<char> = vec!['{', 'v', 'e', 'r', 's', 'i', 'o', 'n', '}'];
    assert(marker@ =~= placeholder());
    matches_at(&marker, template, at)
}

/// The location of the archive: `mirror` with every placeholder `{version}`
/// replaced by `version`. Fails with `MalformedMirror` exactly where `mirror`
/// holds a brace outside a placeholder.
pub fn format_mirror(mirror: &str, version: &str) -> (url: Result<String, MakeError>)
    ensures
        match url {
            Ok(location) => resolve(mirror@, version@) == Some(location@),
            Err(e) => e == MakeError::MalformedMirror && resolve(mirror@, version@) is None,
        },
{
    let template = chars_of(mirror);
    let size: usize = template.len();
    let mut url = String::new();
    let mut run: usize = 0;
    let mut i: usize = 0;
    assert(template@.skip(0) =~= template@);
    assert(url@ + template@.subrange(0, 0) =~= Seq::<char>::empty());
    while i < size
        invariant
            run <= i <= size == template@.len(),
            template@ == mirror@,
            forall|k: int| run <= k < i ==> !is_brace(template@[k]),
            resolve(template@, version@) == prepend(
                url@ + template@.subrange(run as int, i as int),
                resolve(template@.skip(i as int), version@),
            ),
        decreases size - i,
    {
        let ghost rest = template@.skip(i as int);
        let ghost done = url@ + template@.subrange(run as int, i as int);
        let c = template[i];
        assert(rest[0] == c);
        assert(occurs_at(placeholder(), rest, 0) <==> occurs_at(
            placeholder(),
            template@,
            i as int,
        )) by {
            assert(rest.len() >= 9 ==> rest.subrange(0, 9) =~= template@.subrange(
                i as int,
                i + 9,
            ));
        }
        assert(occurs_at(placeholder(), rest, 0) ==> c == '{') by {
            assert(rest.len() >= 9 ==> rest.subrange(0, 9)[0] == rest[0]);
        }
        if placeholder_at(&template, i) {
            assert(rest.skip(9) =~= template@.skip(i + 9));
            url.append(mirror.substring_char(run, i));
            url.append(version);
            i += 9;
            run = i;
            assert(url@ + template@.subrange(run as int, i as int) =~= done + version@);
            assert forall|tail: Seq<char>| done + (version@ + tail) =~= (done + version@)
                + tail by {}
        } else if c == '{' || c == '}' {
            return Err(MakeError::MalformedMirror);
        } else {
            assert(rest.skip(1) =~= template@.skip(i + 1));
            i += 1;
            assert(url@ + template@.subrange(run as int, i as int) =~= done + seq![c]);
            assert forall|tail: Seq<char>| done + (seq![c] + tail) =~= (done + seq![c])
                + tail by {}
        }
    }
    url.append(mirror.substring_char(run, i));
    assert(url@ + Seq::<char>::empty() =~= url@);
    Ok(url)
}

/// The directory that an archive named `file_name` is taken to unpack to:
/// `file_name` without what follows its second dot from the end, and without
/// that dot. There is none where `file_name` holds fewer than two dots.
pub fn directory_name(file_name: &str) -> (directory: Option<String>)
    ensures
        match directory {
            Some(name) => directory_name_spec(file_name@) == Some(name@),
            None => directory_name_spec(file_name@) is None,
        },
{
    let chars = chars_of(file_name);
    match rfind_nth_in(&chars, '.', 2) {
        Some(behind) => {
            let keep: usize = chars.len() - 1 - behind;
            Some(file_name.substring_char(0, keep).to_owned())
        },
        None => None,
    }
}

/// The directory that the archive at `url` is taken to unpack to: the
/// directory name of the last segment of `url`.
pub fn archive_directory(url: &str) -> (directory: Option<String>)
    ensures
        match directory {
            Some(name) => directory_name_spec(last_segment(url@)) == Some(name@),
            None => directory_name_spec(last_segment(url@)) is None,
        },
{
    let chars = chars_of(url);
    let start = last_segment_start(&chars);
    directory_name(url.substring_char(start, chars.len()))
}

} // verus!
