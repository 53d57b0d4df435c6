//! The manual update by installer package: whether a release is newer than
//! the running version, which of its assets are the package and its digest,
//! and whether the package's digest is the expected one. Also the custom
//! address scheme of the application.

use crate::text::{
    chars_of, ends_with, ends_with_exec, occurs_at_exec, push_chars, same_chars,
    split_words, starts_with, string_of, string_of_range, views, words,
};
use vstd::prelude::*;

verus! {

/// The greeting for `name`.
pub open spec fn greeting(name: Seq<char>) -> Seq<char> {
    "Hello, "@ + name + "! You've been greeted from Rust!"@
}

/// Greets `name`.
pub fn greet(name: &str) -> (text: String)
    ensures
        text@ == greeting(name@),
{
    let mut text = String::new();
    push_chars(&mut text, &chars_of("Hello, "));
    push_chars(&mut text, &chars_of(name));
    push_chars(&mut text, &chars_of("! You've been greeted from Rust!"));
    text
}

/// The prefix of the application's own address scheme.
pub open spec fn scheme_prefix() -> Seq<char> {
    "wab2b-helper:"@
}

/// The address is not one of the application's own scheme.
#[derive(Debug, Clone, Copy, PartialEq, Eq, Structural)]
pub struct InvalidUrlFormat;

impl InvalidUrlFormat {
    /// The text that the user is shown for the error.
    pub fn message(&self) -> (message: String)
        ensures
            message@ == "Invalid URL format"@,
    {
        "Invalid URL format".to_owned()
    }
}

/// The address that an address of the application's own scheme carries:
/// what follows the scheme's prefix. An address without the prefix is refused.
pub fn parse_url_scheme(url: &str) -> (target: Result<String, InvalidUrlFormat>)
    ensures
        starts_with(url@, scheme_prefix()) ==> target is Ok && target->Ok_0@ == url@.skip(
            scheme_prefix().len() as int,
        ),
        !starts_with(url@, scheme_prefix()) ==> target is Err,
{
    let chars = chars_of(url);
    let prefix = chars_of("wab2b-helper:");
    if occurs_at_exec(&chars, &prefix, 0) {
        Ok(string_of_range(&chars, prefix.len(), chars.len()))
    } else {
        Err(InvalidUrlFormat)
    }
}

/// `url` without the scheme's prefix, as often as it stands at the front.
pub open spec fn without_scheme(url: Seq<char>) -> Seq<char>
    decreases url.len(),
{
    if scheme_prefix().len() > 0 && starts_with(url, scheme_prefix()) {
        without_scheme(url.skip(scheme_prefix().len() as int))
    } else {
        url
    }
}

/// The address that an opened deep link hands to the application: the link
/// without the scheme's prefix, however often it is repeated at the front.
pub fn deep_link_target(url: &str) -> (target: String)
    ensures
        target@ == without_scheme(url@),
{
    let chars = chars_of(url);
    let prefix = chars_of("wab2b-helper:");
    if prefix.len() == 0 {
        return string_of(&chars);
    }
    let mut from: usize = 0;
    assert(chars@.skip(0) == chars@);
    while occurs_at_exec(&chars, &prefix, from)
        invariant
            from <= chars.len(),
            prefix@ == scheme_prefix(),
            prefix.len() > 0,
            without_scheme(chars@) == without_scheme(chars@.skip(from as int)),
        decreases chars.len() - from,
    {
        proof {
            let rest = chars@.skip(from as int);
            assert(rest.subrange(0, prefix.len() as int) == chars@.subrange(
                from as int,
                from + prefix.len(),
            ));
            assert(rest.skip(prefix.len() as int) == chars@.skip(from + prefix.len()));
        }
        from += prefix.len();
    }
    proof {
        let rest = chars@.skip(from as int);
        if from + prefix.len() <= chars.len() {
            assert(rest.subrange(0, prefix.len() as int) == chars@.subrange(
                from as int,
                from + prefix.len(),
            ));
        }
    }
    string_of_range(&chars, from, chars.len())
}

/// `a` comes before `b` in the order of the dictionary, or is `b`; the
/// characters are ordered by their code points.
pub open spec fn lex_le(a: Seq<char>, b: Seq<char>) -> bool
    decreases a.len(),
{
    if a.len() == 0 {
        true
    } else if b.len() == 0 {
        false
    } else if a[0] != b[0] {
        a[0] < b[0]
    } else {
        lex_le(a.drop_first(), b.drop_first())
    }
}

/// Whether `a` comes before `b` in the order of the dictionary, or is `b`.
pub fn lex_le_exec(a: &Vec<char>, b: &Vec<char>) -> (le: bool)
    ensures
        le == lex_le(a@, b@),
{
    let mut i: usize = 0;
    assert(a@.skip(0) == a@ && b@.skip(0) == b@);
    while i < a.len() && i < b.len()
        invariant
            i <= a.len(),
            i <= b.len(),
            lex_le(a@, b@) == lex_le(a@.skip(i as int), b@.skip(i as int)),
        decreases a.len() - i,
    {
        proof {
            assert(a@.skip(i as int).drop_first() == a@.skip(i + 1));
            assert(b@.skip(i as int).drop_first() == b@.skip(i + 1));
        }
        if a[i] != b[i] {
            return a[i] < b[i];
        }
        i += 1;
    }
    i == a.len()
}

/// One asset of a release, as the manual update reads it.
#[derive(Debug, PartialEq, Eq)]
pub struct PackageAsset {
    pub name: String,
    pub browser_download_url: String,
}

/// A release, as the manual update reads it.
#[derive(Debug, PartialEq, Eq)]
pub struct PackageRelease {
    pub tag_name: String,
    pub assets: Vec<PackageAsset>,
}

/// What the manual update is to do.
#[derive(Debug, Clone, Copy, PartialEq, Eq, Structural)]
pub enum ManualUpdate {
    /// The running version is the release's or a later one.
    UpToDate,
    /// The assets at these positions are to be downloaded: the installer
    /// package and the file with its digest.
    Install { package: usize, digest: usize },
}

/// Why a release cannot be installed by package.
#[derive(Debug, Clone, Copy, PartialEq, Eq, Structural)]
pub enum ManualError {
    MsiNotFound,
    ShaNotFound,
    /// The file with the digest holds no word.
    InvalidShaFile,
    /// The package's digest is not the one that the file with the digest holds.
    ShaMismatch,
}

impl ManualError {
    /// The text that the user is shown for the error.
    pub open spec fn text(self) -> Seq<char> {
        match self {
            ManualError::MsiNotFound => "MSI asset not found"@,
            ManualError::ShaNotFound => "SHA asset not found"@,
            ManualError::InvalidShaFile => "Invalid SHA file"@,
            ManualError::ShaMismatch => "SHA256 mismatch"@,
        }
    }

    /// The text that the user is shown for the error.
    pub fn message(&self) -> (message: String)
        ensures
            message@ == self.text(),
    {
        let text = match self {
            ManualError::MsiNotFound => "MSI asset not found",
            ManualError::ShaNotFound => "SHA asset not found",
            ManualError::InvalidShaFile => "Invalid SHA file",
            ManualError::ShaMismatch => "SHA256 mismatch",
        };
        text.to_owned()
    }
}

/// The asset at `i` is the first of `assets` whose name ends with `suffix`.
pub open spec fn first_with_suffix(assets: Seq<PackageAsset>, suffix: Seq<char>, i: int) -> bool {
    &&& 0 <= i < assets.len()
    &&& ends_with(assets[i].name@, suffix)
    &&& forall|j: int| 0 <= j < i ==> !ends_with(#[trigger] assets[j].name@, suffix)
}

/// No asset of `assets` has a name that ends with `suffix`.
pub open spec fn none_with_suffix(assets: Seq<PackageAsset>, suffix: Seq<char>) -> bool {
    forall|j: int| 0 <= j < assets.len() ==> !ends_with(#[trigger] assets[j].name@, suffix)
}

/// The position of the first asset whose name ends with `suffix`.
fn find_by_suffix(assets: &Vec<PackageAsset>, suffix: &str) -> (found: Option<usize>)
    ensures
        match found {
            Some(i) => first_with_suffix(assets@, suffix@, i as int),
            None => none_with_suffix(assets@, suffix@),
        },
{
    let wanted = chars_of(suffix);
    let mut i: usize = 0;
    while i < assets.len()
        invariant
            i <= assets.len(),
            wanted@ == suffix@,
            forall|j: int| 0 <= j < i ==> !ends_with(#[trigger] assets@[j].name@, suffix@),
        decreases assets.len() - i,
    {
        if ends_with_exec(&chars_of(assets[i].name.as_str()), &wanted) {
            return Some(i);
        }
        i += 1;
    }
    None
}

/// Decides on a manual update from `current_version` to `release`.
///
/// A release whose tag does not come after the running version in the order
/// of the dictionary needs nothing. Otherwise the first asset ending in
/// `.msi` is the package and the first ending in `.sha256` holds its
/// digest; a release that lacks one of them cannot be installed.
pub fn plan_manual_update(release: &PackageRelease, current_version: &str) -> (plan: Result<
    ManualUpdate,
    ManualError,
>)
    ensures
        lex_le(release.tag_name@, current_version@) ==> plan == Ok::<ManualUpdate, ManualError>(
            ManualUpdate::UpToDate,
        ),
        !lex_le(release.tag_name@, current_version@) ==> match plan {
            Ok(ManualUpdate::Install { package, digest }) => {
                &&& first_with_suffix(release.assets@, ".msi"@, package as int)
                &&& first_with_suffix(release.assets@, ".sha256"@, digest as int)
            },
            Ok(ManualUpdate::UpToDate) => false,
            Err(ManualError::MsiNotFound) => none_with_suffix(release.assets@, ".msi"@),
            Err(ManualError::ShaNotFound) => {
                &&& !none_with_suffix(release.assets@, ".msi"@)
                &&& none_with_suffix(release.assets@, ".sha256"@)
            },
            Err(_) => false,
        },
{
    if lex_le_exec(&chars_of(release.tag_name.as_str()), &chars_of(current_version)) {
        return Ok(ManualUpdate::UpToDate);
    }
    let package = match find_by_suffix(&release.assets, ".msi") {
        Some(i) => i,
        None => { return Err(ManualError::MsiNotFound); },
    };
    let digest = match find_by_suffix(&release.assets, ".sha256") {
        Some(i) => i,
        None => { return Err(ManualError::ShaNotFound); },
    };
    Ok(ManualUpdate::Install { package, digest })
}

/// The arguments with which the system's installer installs the package at
/// `package_path` without questions.
pub fn installer_arguments(package_path: &str) -> (arguments: Vec<String>)
    ensures
        arguments@.len() == 3,
        arguments@[0]@ == "/i"@,
        arguments@[1]@ == package_path@,
        arguments@[2]@ == "/passive"@,
{
    let mut arguments: Vec<String> = Vec::new();
    arguments.push("/i".to_owned());
    arguments.push(package_path.to_owned());
    arguments.push("/passive".to_owned());
    arguments
}

/// The digest that a digest file states: its first word.
pub open spec fn stated_sha(sha_file: Seq<char>) -> Result<Seq<char>, ManualError> {
    if words(sha_file).len() == 0 {
        Err(ManualError::InvalidShaFile)
    } else {
        Ok(words(sha_file)[0])
    }
}

/// What comparing the digest `actual` with the content of the digest file
/// comes to: the file's first word is the expected digest, and has to be
/// the actual one letter for letter.
pub open spec fn sha_verdict(actual: Seq<char>, sha_file: Seq<char>) -> Result<(), ManualError> {
    match stated_sha(sha_file) {
        Err(e) => Err(e),
        Ok(expected) => if expected == actual {
            Ok(())
        } else {
            Err(ManualError::ShaMismatch)
        },
    }
}

/// The digest that the digest file with the text `sha_file_text` states; a
/// file without a word states none.
pub fn expected_sha(sha_file_text: &str) -> (expected: Result<String, ManualError>)
    ensures
        match stated_sha(sha_file_text@) {
            Ok(digest) => expected is Ok && expected->Ok_0@ == digest,
            Err(e) => expected == Err::<String, ManualError>(e),
        },
{
    let found = split_words(&chars_of(sha_file_text));
    if found.len() == 0 {
        return Err(ManualError::InvalidShaFile);
    }
    Ok(string_of(&found[0]))
}

/// Holds the digest of a downloaded package, in small hex digits, against
/// the content of the digest file that came with it.
pub fn verify_sha(actual_hash: &str, sha_file_text: &str) -> (verdict: Result<(), ManualError>)
    ensures
        verdict == sha_verdict(actual_hash@, sha_file_text@),
{
    match expected_sha(sha_file_text) {
        Err(e) => Err(e),
        Ok(expected) => {
            if same_chars(&chars_of(expected.as_str()), &chars_of(actual_hash)) {
                Ok(())
            } else {
                Err(ManualError::ShaMismatch)
            }
        },
    }
}


/// Every text comes before itself or is itself.
pub proof fn lemma_lex_le_reflexive(a: Seq<char>)
    ensures
        lex_le(a, a),
    decreases a.len(),
{
    if a.len() > 0 {
        lemma_lex_le_reflexive(a.drop_first());
    }
}

/// Of two texts one comes before the other or is the other; where both
/// hold, the two are the same text.
pub proof fn lemma_lex_le_total(a: Seq<char>, b: Seq<char>)
    ensures
        lex_le(a, b) || lex_le(b, a),
        lex_le(a, b) && lex_le(b, a) ==> a == b,
    decreases a.len(),
{
    if a.len() > 0 && b.len() > 0 && a[0] == b[0] {
        lemma_lex_le_total(a.drop_first(), b.drop_first());
        if lex_le(a, b) && lex_le(b, a) {
            assert(a =~= seq![a[0]] + a.drop_first());
            assert(b =~= seq![b[0]] + b.drop_first());
        }
    } else if a.len() == 0 && b.len() == 0 {
        assert(a =~= b);
    }
}

/// The order of the dictionary passes on: what comes before a text comes
/// before all that the text comes before.
pub proof fn lemma_lex_le_transitive(a: Seq<char>, b: Seq<char>, c: Seq<char>)
    requires
        lex_le(a, b),
        lex_le(b, c),
    ensures
        lex_le(a, c),
    decreases a.len(),
{
    if a.len() > 0 && b.len() > 0 && c.len() > 0 && a[0] == b[0] && b[0] == c[0] {
        lemma_lex_le_transitive(a.drop_first(), b.drop_first(), c.drop_first());
    }
}

} // verus!
