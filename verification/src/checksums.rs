//! The checksums manifest of a release: a text asset that gives, line by
//! line, the digest of a file and the file's path. Its digests are attached
//! to the assets that it names.

use crate::release::{asset_views, Asset, AssetView, ReleaseInfo, ReleaseView};
use crate::text::{
    base_name, base_name_exec, chars_of, copy_range, ends_with, ends_with_exec, is_line,
    is_separator, is_space, is_word, lemma_base_name_of_name, lemma_one_line, lemma_words_after_space,
    lemma_words_after_word, lemma_words_of_word, lowercase, same_chars, split_lines,
    split_lines_exec, split_words, string_of, to_lowercase, views, words,
};
use vstd::prelude::*;

verus! {

/// The asset's name marks it as the checksums manifest of its release.
pub open spec fn is_manifest_name(name: Seq<char>) -> bool {
    ends_with(lowercase(name), "checksums.txt"@)
}

/// No asset of `assets` is a checksums manifest.
pub open spec fn no_manifest(assets: Seq<AssetView>) -> bool {
    forall|i: int| 0 <= i < assets.len() ==> !is_manifest_name(#[trigger] assets[i].name)
}

/// The asset at `i` is the first checksums manifest among `assets`.
pub open spec fn first_manifest(assets: Seq<AssetView>, i: int) -> bool {
    &&& 0 <= i < assets.len()
    &&& is_manifest_name(assets[i].name)
    &&& no_manifest(assets.take(i))
}

/// The position of the first asset that is a checksums manifest.
pub fn find_checksums_asset(assets: &[Asset]) -> (found: Option<usize>)
    ensures
        match found {
            Some(i) => first_manifest(asset_views(assets@), i as int),
            None => no_manifest(asset_views(assets@)),
        },
{
    let ghost all = asset_views(assets@);
    let suffix = chars_of("checksums.txt");
    let mut i: usize = 0;
    while i < assets.len()
        invariant
            i <= assets.len(),
            all == asset_views(assets@),
            suffix@ == "checksums.txt"@,
            no_manifest(all.take(i as int)),
        decreases assets.len() - i,
    {
        let lower = to_lowercase(assets[i].name.as_str());
        if ends_with_exec(&chars_of(lower.as_str()), &suffix) {
            return Some(i);
        }
        i += 1;
    }
    assert(all.take(assets.len() as int) == all);
    None
}

/// What one line of a checksums manifest says: the file name and the digest
/// that stands for it. A line says something if it has two words or more:
/// the first is the digest, and the second the file's path, of which only
/// the file name counts.
pub open spec fn line_entry(line: Seq<char>) -> Option<(Seq<char>, Seq<char>)> {
    let w = words(line);
    if w.len() >= 2 {
        Some((base_name(w[1]), w[0]))
    } else {
        None
    }
}

/// The digests that `lines` give, by file name. Where two lines name one
/// file, the later one counts.
pub open spec fn digests_of_lines(lines: Seq<Seq<char>>) -> Map<Seq<char>, Seq<char>>
    decreases lines.len(),
{
    if lines.len() == 0 {
        Map::empty()
    } else {
        let before = digests_of_lines(lines.drop_last());
        match line_entry(lines.last()) {
            Some((name, digest)) => before.insert(name, digest),
            None => before,
        }
    }
}

/// The digests that a checksums manifest with the text `text` gives, by file name.
pub open spec fn manifest_of(text: Seq<char>) -> Map<Seq<char>, Seq<char>> {
    digests_of_lines(split_lines(text))
}

/// The map that a list of pairs of file name and digest stands for.
pub open spec fn digests_of_entries(entries: Seq<(Vec<char>, Vec<char>)>) -> Map<
    Seq<char>,
    Seq<char>,
>
    decreases entries.len(),
{
    if entries.len() == 0 {
        Map::empty()
    } else {
        digests_of_entries(entries.drop_last()).insert(entries.last().0@, entries.last().1@)
    }
}

/// The value of `m` at `key`, if it has one.
pub open spec fn lookup(m: Map<Seq<char>, Seq<char>>, key: Seq<char>) -> Option<Seq<char>> {
    if m.contains_key(key) {
        Some(m[key])
    } else {
        None
    }
}

/// A parsed checksums manifest: the digest of each file that it names.
pub struct ChecksumManifest {
    entries: Vec<(Vec<char>, Vec<char>)>,
}

impl View for ChecksumManifest {
    type V = Map<Seq<char>, Seq<char>>;

    closed spec fn view(&self) -> Map<Seq<char>, Seq<char>> {
        digests_of_entries(self.entries@)
    }
}

impl ChecksumManifest {
    /// Reads a checksums manifest: one entry per line, the digest first, then
    /// the file's path.
    pub fn parse(text: &str) -> (manifest: ChecksumManifest)
        ensures
            manifest@ == manifest_of(text@),
    {
        let lines = split_lines_exec(&chars_of(text));
        let mut entries: Vec<(Vec<char>, Vec<char>)> = Vec::new();
        let mut i: usize = 0;
        while i < lines.len()
            invariant
                i <= lines.len(),
                digests_of_entries(entries@) == digests_of_lines(views(lines@).take(i as int)),
            decreases lines.len() - i,
        {
            let line_words = split_words(&lines[i]);
            proof {
                let upto = views(lines@).take(i + 1);
                assert(upto.drop_last() == views(lines@).take(i as int));
            }
            if line_words.len() >= 2 {
                let name = base_name_exec(&line_words[1]);
                let digest = copy_range(&line_words[0], 0, line_words[0].len());
                proof {
                    assert(digest@ == line_words@[0]@);
                    assert(entries@.push((name, digest)).drop_last() == entries@);
                }
                entries.push((name, digest));
            }
            i += 1;
        }
        assert(views(lines@).take(lines.len() as int) == views(lines@));
        ChecksumManifest { entries }
    }

    /// The digest that the manifest gives for the file `name`.
    pub fn digest_for(&self, name: &str) -> (digest: Option<String>)
        ensures
            match digest {
                Some(d) => lookup(self@, name@) == Some(d@),
                None => lookup(self@, name@) is None,
            },
    {
        let key = chars_of(name);
        let mut i: usize = self.entries.len();
        assert(self.entries@.take(i as int) == self.entries@);
        while i > 0
            invariant
                i <= self.entries.len(),
                key@ == name@,
                lookup(self@, name@) == lookup(
                    digests_of_entries(self.entries@.take(i as int)),
                    name@,
                ),
            decreases i,
        {
            proof {
                let upto = self.entries@.take(i as int);
                assert(upto.drop_last() == self.entries@.take(i - 1));
            }
            if same_chars(&self.entries[i - 1].0, &key) {
                return Some(string_of(&self.entries[i - 1].1));
            }
            i -= 1;
        }
        None
    }
}

/// The asset with the digest that `digests` gives for its name, if any.
pub open spec fn with_checksum(asset: AssetView, digests: Map<Seq<char>, Seq<char>>) -> AssetView {
    if digests.contains_key(asset.name) {
        AssetView { sha256: digests[asset.name], ..asset }
    } else {
        asset
    }
}

/// The release with each asset given the digest that `digests` holds for its name.
pub open spec fn with_checksums(
    release: ReleaseView,
    digests: Map<Seq<char>, Seq<char>>,
) -> ReleaseView {
    ReleaseView {
        assets: release.assets.map_values(|a: AssetView| with_checksum(a, digests)),
        ..release
    }
}

/// Gives each asset that the checksums manifest names its digest; the other
/// assets keep the digest that they had.
pub fn attach_checksums(release: ReleaseInfo, manifest_text: &str) -> (annotated: ReleaseInfo)
    ensures
        annotated@ == with_checksums(release@, manifest_of(manifest_text@)),
{
    let manifest = ChecksumManifest::parse(manifest_text);
    let mut assets: Vec<Asset> = Vec::new();
    let mut i: usize = 0;
    while i < release.assets.len()
        invariant
            i <= release.assets.len(),
            assets.len() == i,
            manifest@ == manifest_of(manifest_text@),
            forall|j: int|
                0 <= j < i ==> (#[trigger] assets@[j])@ == with_checksum(
                    release.assets@[j]@,
                    manifest@,
                ),
        decreases release.assets.len() - i,
    {
        let asset = &release.assets[i];
        let sha256 = match manifest.digest_for(asset.name.as_str()) {
            Some(digest) => digest,
            None => asset.sha256.clone(),
        };
        assets.push(
            Asset {
                name: asset.name.clone(),
                download_url: asset.download_url.clone(),
                size: asset.size,
                sha256,
            },
        );
        i += 1;
    }
    assert(asset_views(assets@) =~= release@.assets.map_values(
        |a: AssetView| with_checksum(a, manifest@),
    ));
    ReleaseInfo {
        version: release.version,
        release_notes: release.release_notes,
        assets,
        published_at: release.published_at,
    }
}


/// A manifest of one line, made of a digest, whitespace and a file name,
/// gives that file this digest and names no other file. So an asset with
/// that name gets the digest as the line spells it, and any other asset
/// keeps what it had.
pub proof fn lemma_manifest_line(digest: Seq<char>, gap: Seq<char>, name: Seq<char>)
    requires
        is_word(digest),
        gap.len() > 0,
        is_space(gap),
        is_line(gap),
        is_word(name),
        forall|i: int| 0 <= i < name.len() ==> !is_separator(#[trigger] name[i]),
    ensures
        manifest_of(digest + gap + name) == Map::<Seq<char>, Seq<char>>::empty().insert(
            name,
            digest,
        ),
        forall|asset: AssetView|
            asset.name == name ==> (#[trigger] with_checksum(
                asset,
                manifest_of(digest + gap + name),
            )).sha256 == digest,
        forall|asset: AssetView|
            asset.name != name ==> #[trigger] with_checksum(
                asset,
                manifest_of(digest + gap + name),
            ) == asset,
{
    let line = digest + gap + name;
    assert(line == digest + (gap + name));
    lemma_words_after_word(digest, gap + name);
    lemma_words_after_space(gap, name);
    lemma_words_of_word(name);
    lemma_base_name_of_name(name);
    assert(is_line(line));
    lemma_one_line(line);
    assert(seq![line].drop_last() == Seq::<Seq<char>>::empty());
    assert(digests_of_lines(seq![line]) == digests_of_lines(Seq::<Seq<char>>::empty()).insert(
        name,
        digest,
    ));
}

} // verus!
