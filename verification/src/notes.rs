//! Digests that release notes state in their text, in one of two forms:
//! `SHA256: <digest> <asset name>` or `<asset name>: <digest>`.

use crate::hash::{is_hex_digit, is_sha256_hex};
use crate::text::{
    chars_of, is_whitespace, is_whitespace_exec, lemma_prefix_len_is, occurs_at, occurs_at_exec,
    prefix_len, string_of_range,
};
use vstd::prelude::*;

verus! {

/// How many characters of whitespace `s` begins with.
pub open spec fn space_len(s: Seq<char>) -> nat {
    prefix_len(s, |c: char| !is_whitespace(c))
}

/// The 64 characters of `s` from `at` on are hex digits.
pub open spec fn is_digest_at(s: Seq<char>, at: int) -> bool {
    0 <= at && at + 64 <= s.len() && is_sha256_hex(s.subrange(at, at + 64))
}

/// The label that the first form begins with.
pub open spec fn digest_label() -> Seq<char> {
    "SHA256:"@
}

/// `name` stands in `notes` behind `gap` characters of the whitespace that
/// begins at `from`.
pub open spec fn name_follows(notes: Seq<char>, name: Seq<char>, from: int, gap: int) -> bool {
    0 <= gap <= space_len(notes.skip(from)) && occurs_at(notes, name, from + gap)
}

/// The digest that the first form states for `name`, where the form begins
/// at `at`: the label, any whitespace, 64 hex digits, any whitespace, the name.
pub open spec fn labelled_digest_at(notes: Seq<char>, name: Seq<char>, at: int) -> Option<
    Seq<char>,
> {
    let from = at + digest_label().len();
    let digest = from + space_len(notes.skip(from));
    let after = digest + 64;
    if 0 <= at && occurs_at(notes, digest_label(), at) && is_digest_at(notes, digest) && exists|
        gap: int,
    | #[trigger]
        name_follows(notes, name, after, gap) {
        Some(notes.subrange(digest, after))
    } else {
        None
    }
}

/// The digest that the second form states for `name`, where the form begins
/// at `at`: the name, any whitespace, a colon, any whitespace, 64 hex digits.
pub open spec fn named_digest_at(notes: Seq<char>, name: Seq<char>, at: int) -> Option<Seq<char>> {
    let from = at + name.len();
    let colon = from + space_len(notes.skip(from));
    let digest = colon + 1 + space_len(notes.skip(colon + 1));
    if 0 <= at && occurs_at(notes, name, at) && colon < notes.len() && notes[colon] == ':'
        && is_digest_at(notes, digest) {
        Some(notes.subrange(digest, digest + 64))
    } else {
        None
    }
}

/// The digest that a form states for `name` where it begins at `at`: the
/// first form if `labelled`, else the second.
pub open spec fn digest_at(notes: Seq<char>, name: Seq<char>, labelled: bool, at: int) -> Option<
    Seq<char>,
> {
    if labelled {
        labelled_digest_at(notes, name, at)
    } else {
        named_digest_at(notes, name, at)
    }
}

/// The form states no digest for `name` anywhere before `end`.
pub open spec fn no_digest_before(
    notes: Seq<char>,
    name: Seq<char>,
    labelled: bool,
    end: int,
) -> bool {
    forall|at: int| 0 <= at < end ==> (#[trigger] digest_at(notes, name, labelled, at)) is None
}

/// The form states no digest for `name` anywhere in `notes`.
pub open spec fn no_digest(notes: Seq<char>, name: Seq<char>, labelled: bool) -> bool {
    no_digest_before(notes, name, labelled, notes.len() as int + 1)
}

/// `digest` is what the form states for `name` where it first occurs in `notes`.
pub open spec fn first_digest(
    notes: Seq<char>,
    name: Seq<char>,
    labelled: bool,
    digest: Seq<char>,
) -> bool {
    exists|at: int|
        0 <= at <= notes.len() && #[trigger] digest_at(notes, name, labelled, at) == Some(digest)
            && no_digest_before(notes, name, labelled, at)
}

/// The end of the whitespace that begins at `from`.
fn skip_spaces(s: &Vec<char>, from: usize) -> (to: usize)
    requires
        from <= s.len(),
    ensures
        from <= to <= s.len(),
        to - from == space_len(s@.skip(from as int)),
{
    let mut to: usize = from;
    while to < s.len() && is_whitespace_exec(s[to])
        invariant
            from <= to <= s.len(),
            forall|k: int| from <= k < to ==> is_whitespace(#[trigger] s@[k]),
        decreases s.len() - to,
    {
        to += 1;
    }
    proof {
        let stop = |c: char| !is_whitespace(c);
        assert forall|k: int| from <= k < to implies !stop(#[trigger] s@[k]) by {}
        lemma_prefix_len_is(s@, stop, from as int, to as int);
    }
    to
}

/// Whether `c` is a hex digit.
fn is_hex(c: char) -> (yes: bool)
    ensures
        yes == is_hex_digit(c),
{
    ('0' <= c && c <= '9') || ('a' <= c && c <= 'f') || ('A' <= c && c <= 'F')
}

/// Whether 64 hex digits stand in `s` from `at` on.
fn digest_stands_at(s: &Vec<char>, at: usize) -> (yes: bool)
    ensures
        yes == is_digest_at(s@, at as int),
{
    if s.len() < 64 || at > s.len() - 64 {
        return false;
    }
    let ghost part = s@.subrange(at as int, at + 64);
    let mut k: usize = 0;
    while k < 64
        invariant
            k <= 64,
            at + 64 <= s.len(),
            part == s@.subrange(at as int, at + 64),
            forall|j: int| 0 <= j < k ==> is_hex_digit(#[trigger] part[j]),
        decreases 64 - k,
    {
        if !is_hex(s[at + k]) {
            assert(!is_hex_digit(part[k as int]));
            return false;
        }
        k += 1;
    }
    true
}

/// Where the digest of the first form stands, if the form begins at `at`
/// and states a digest for `name`.
fn labelled_digest_exec(notes: &Vec<char>, name: &Vec<char>, label: &Vec<char>, at: usize) -> (found:
    Option<usize>)
    requires
        label@ == digest_label(),
        at <= notes.len(),
    ensures
        match found {
            Some(digest) => digest + 64 <= notes.len() && labelled_digest_at(
                notes@,
                name@,
                at as int,
            ) == Some(notes@.subrange(digest as int, digest + 64)),
            None => labelled_digest_at(notes@, name@, at as int) is None,
        },
{
    if !occurs_at_exec(notes, label, at) {
        return None;
    }
    let digest = skip_spaces(notes, at + label.len());
    if !digest_stands_at(notes, digest) {
        return None;
    }
    let after: usize = digest + 64;
    let end = skip_spaces(notes, after);
    let mut gap: usize = 0;
    loop
        invariant
            label@ == digest_label(),
            occurs_at(notes@, label@, at as int),
            digest == at + label.len() + space_len(notes@.skip(at + label.len())),
            is_digest_at(notes@, digest as int),
            after == digest + 64,
            after <= end <= notes.len(),
            end - after == space_len(notes@.skip(after as int)),
            gap <= end - after,
            forall|g: int| 0 <= g < gap ==> !name_follows(notes@, name@, after as int, g),
        decreases end - after - gap,
    {
        if occurs_at_exec(notes, name, after + gap) {
            assert(name_follows(notes@, name@, after as int, gap as int));
            return Some(digest);
        }
        if gap == end - after {
            return None;
        }
        gap += 1;
    }
}

/// Where the digest of the second form stands, if the form begins at `at`
/// and states a digest for `name`.
fn named_digest_exec(notes: &Vec<char>, name: &Vec<char>, at: usize) -> (found: Option<usize>)
    requires
        at <= notes.len(),
    ensures
        match found {
            Some(digest) => digest + 64 <= notes.len() && named_digest_at(notes@, name@, at as int)
                == Some(notes@.subrange(digest as int, digest + 64)),
            None => named_digest_at(notes@, name@, at as int) is None,
        },
{
    if !occurs_at_exec(notes, name, at) {
        return None;
    }
    let colon = skip_spaces(notes, at + name.len());
    if colon >= notes.len() || notes[colon] != ':' {
        return None;
    }
    let digest = skip_spaces(notes, colon + 1);
    if digest_stands_at(notes, digest) {
        Some(digest)
    } else {
        None
    }
}

/// The digest that the form states for `name` where it first occurs.
fn find_digest(notes: &Vec<char>, name: &Vec<char>, labelled: bool) -> (found: Option<String>)
    ensures
        match found {
            Some(digest) => first_digest(notes@, name@, labelled, digest@),
            None => no_digest(notes@, name@, labelled),
        },
{
    let label = chars_of("SHA256:");
    let mut at: usize = 0;
    while at <= notes.len()
        invariant
            at <= notes.len() + 1,
            label@ == digest_label(),
            no_digest_before(notes@, name@, labelled, at as int),
        decreases notes.len() + 1 - at,
    {
        let here = if labelled {
            labelled_digest_exec(notes, name, &label, at)
        } else {
            named_digest_exec(notes, name, at)
        };
        match here {
            Some(digest) => {
                let text = string_of_range(notes, digest, digest + 64);
                assert(digest_at(notes@, name@, labelled, at as int) == Some(text@));
                return Some(text);
            },
            None => {},
        }
        if at == notes.len() {
            return None;
        }
        at += 1;
    }
    None
}

/// Looks in release notes for the digest of the asset `asset_name`.
///
/// The notes may state it as `SHA256: <digest> <asset name>` or as
/// `<asset name>: <digest>`, with any whitespace, or none, between the
/// parts; the digest is made of 64 hex digits. Where the first form occurs,
/// its first occurrence counts; else the first occurrence of the second.
pub fn parse_sha256_hash(release_notes: &str, asset_name: &str) -> (found: Option<String>)
    ensures
        match found {
            Some(digest) => first_digest(release_notes@, asset_name@, true, digest@) || (no_digest(
                release_notes@,
                asset_name@,
                true,
            ) && first_digest(release_notes@, asset_name@, false, digest@)),
            None => no_digest(release_notes@, asset_name@, true) && no_digest(
                release_notes@,
                asset_name@,
                false,
            ),
        },
{
    let notes = chars_of(release_notes);
    let name = chars_of(asset_name);
    match find_digest(&notes, &name, true) {
        Some(digest) => Some(digest),
        None => find_digest(&notes, &name, false),
    }
}

} // verus!
