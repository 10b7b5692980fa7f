//! Small operations on text that the launcher's rules are stated with:
//! searching the bytes of one text in another, cutting a text at a
//! separator, and joining a relative path to a directory.

use vstd::prelude::*;
use vstd::string::*;

verus! {

/// `needle` stands in `haystack` at offset `at`.
pub open spec fn occurs_at(haystack: Seq<u8>, needle: Seq<u8>, at: int) -> bool {
    &&& 0 <= at
    &&& at + needle.len() <= haystack.len()
    &&& haystack.subrange(at, at + needle.len()) == needle
}

/// `needle` stands somewhere in `haystack`, as one contiguous run.
pub open spec fn occurs_in(haystack: Seq<u8>, needle: Seq<u8>) -> bool {
    exists|at: int| occurs_at(haystack, needle, at)
}

/// The part of `text` before the first `separator`; all of it where there
/// is none.
pub open spec fn first_segment(text: Seq<char>, separator: char) -> Seq<char> {
    match text.index_of_first(separator) {
        Some(at) => text.take(at),
        None => text,
    }
}

/// `relative` below the directory `base`: one `/` is put between them
/// unless `base` is empty or ends in one already.
pub open spec fn joined(base: Seq<char>, relative: Seq<char>) -> Seq<char> {
    if base.len() == 0 || base.last() == '/' {
        base + relative
    } else {
        base + seq!['/'] + relative
    }
}

/// The first segment is the longest beginning of the text that is free of
/// the separator: it is a beginning, the separator is not in it, and behind
/// it the text ends or the separator stands.
pub proof fn law_first_segment(text: Seq<char>, separator: char)
    ensures
        first_segment(text, separator).is_prefix_of(text),
        !first_segment(text, separator).contains(separator),
        first_segment(text, separator).len() == text.len() || text[first_segment(
            text,
            separator,
        ).len() as int] == separator,
{
    text.index_of_first_ensures(separator);
}

/// A text occurs in itself, the empty text occurs in every text, and
/// nothing longer than a text occurs in it.
pub proof fn law_occurs_in_bounds(haystack: Seq<u8>, needle: Seq<u8>)
    ensures
        occurs_in(haystack, haystack),
        occurs_in(haystack, Seq::empty()),
        needle.len() > haystack.len() ==> !occurs_in(haystack, needle),
{
    assert(haystack.subrange(0, haystack.len() as int) =~= haystack);
    assert(occurs_at(haystack, haystack, 0));
    assert(haystack.subrange(0, 0) =~= Seq::<u8>::empty());
    assert(occurs_at(haystack, Seq::empty(), 0));
}

fn matches_at(haystack: &[u8], needle: &[u8], at: usize) -> (found: bool)
    requires
        at + needle@.len() <= haystack@.len(),
    ensures
        found == occurs_at(haystack@, needle@, at as int),
{
    let length: usize = haystack.len();
    let mut i: usize = 0;
    while i < needle.len()
        invariant
            i <= needle@.len(),
            at + needle@.len() <= haystack@.len() == length,
            forall|j: int| 0 <= j < i ==> haystack@[at + j] == needle@[j],
        decreases needle@.len() - i,
    {
        if haystack[at + i] != needle[i] {
            return false;
        }
        i += 1;
    }
    assert(haystack@.subrange(at as int, at + needle@.len()) =~= needle@);
    true
}

/// Whether the bytes of `needle` occur in those of `haystack`.
pub fn contains_bytes(haystack: &[u8], needle: &[u8]) -> (found: bool)
    ensures
        found == occurs_in(haystack@, needle@),
{
    if needle.len() > haystack.len() {
        return false;
    }
    let last: usize = haystack.len() - needle.len();
    let mut at: usize = 0;
    loop
        invariant
            last == haystack@.len() - needle@.len(),
            at <= last,
            forall|k: int| 0 <= k < at ==> !occurs_at(haystack@, needle@, k),
        decreases last - at,
    {
        if matches_at(haystack, needle, at) {
            return true;
        }
        if at == last {
            return false;
        }
        at += 1;
    }
}

/// Whether `needle` occurs in `haystack`, both taken as their UTF-8 bytes.
pub fn contains(haystack: &str, needle: &str) -> (found: bool)
    ensures
        found == occurs_in(haystack.spec_bytes(), needle.spec_bytes()),
{
    contains_bytes(haystack.as_bytes(), needle.as_bytes())
}

/// The part of `text` before the first `separator`.
pub fn before_first<'a>(text: &'a str, separator: char) -> (segment: &'a str)
    ensures
        segment@ == first_segment(text@, separator),
{
    let length: usize = text.unicode_len();
    let mut at: usize = 0;
    while at < length && text.get_char(at) != separator
        invariant
            length == text@.len(),
            at <= length,
            forall|j: int| 0 <= j < at ==> text@[j] != separator,
        decreases length - at,
    {
        at += 1;
    }
    proof {
        text@.index_of_first_ensures(separator);
    }
    text.substring_char(0, at)
}

/// `relative` joined to the directory `base`.
pub fn join_path(base: &str, relative: &str) -> (path: String)
    ensures
        path@ == joined(base@, relative@),
{
    let length: usize = base.unicode_len();
    let mut path = String::from_str(base);
    if length > 0 && base.get_char(length - 1) != '/' {
        path.append("/");
        proof {
            reveal_strlit("/");
        }
    }
    path.append(relative);
    path
}

} // verus!
