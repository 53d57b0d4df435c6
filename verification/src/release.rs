//! The release resolver: from what the release feed returned to a
//! `ReleaseInfo` with its assets, their checksums and the warnings that the
//! user is to see.

use crate::checksums::{find_checksums_asset, first_manifest, no_manifest};
use crate::platform::{
    arch_from_name, arch_of, find_platform_asset, fits, none_fits, os_from_name, os_of, Arch, Os,
};
use crate::text::{chars_of, decimal, push_chars, push_decimal, string_of, string_of_range};
use vstd::prelude::*;

verus! {

/// One downloadable artifact of a release.
#[derive(Debug, PartialEq, Eq)]
pub struct Asset {
    /// Asset name; it identifies the asset within its release.
    pub name: String,
    /// Download URL.
    pub download_url: String,
    /// File size in bytes, as the feed states it.
    pub size: u64,
    /// SHA-256 digest in hex; empty as long as no checksums manifest named the asset.
    pub sha256: String,
}

/// What an `Asset` holds, as mathematical values.
pub struct AssetView {
    pub name: Seq<char>,
    pub download_url: Seq<char>,
    pub size: u64,
    pub sha256: Seq<char>,
}

impl View for Asset {
    type V = AssetView;

    open spec fn view(&self) -> AssetView {
        AssetView {
            name: self.name@,
            download_url: self.download_url@,
            size: self.size,
            sha256: self.sha256@,
        }
    }
}

impl Clone for Asset {
    fn clone(&self) -> (copy: Self)
        ensures
            copy@ == self@,
    {
        Asset {
            name: self.name.clone(),
            download_url: self.download_url.clone(),
            size: self.size,
            sha256: self.sha256.clone(),
        }
    }
}

/// The views of the assets in `assets`, in order.
pub open spec fn asset_views(assets: Seq<Asset>) -> Seq<AssetView> {
    assets.map_values(|a: Asset| a@)
}

/// A published release.
#[derive(Debug, PartialEq, Eq)]
pub struct ReleaseInfo {
    /// Version string, without the `v` that a tag may begin with.
    pub version: String,
    /// Release notes; warnings for the user are appended to them.
    pub release_notes: String,
    /// The assets of the release, in the order of the feed.
    pub assets: Vec<Asset>,
    /// Publication date of the release.
    pub published_at: String,
}

/// What a `ReleaseInfo` holds, as mathematical values.
pub struct ReleaseView {
    pub version: Seq<char>,
    pub release_notes: Seq<char>,
    pub assets: Seq<AssetView>,
    pub published_at: Seq<char>,
}

impl View for ReleaseInfo {
    type V = ReleaseView;

    open spec fn view(&self) -> ReleaseView {
        ReleaseView {
            version: self.version@,
            release_notes: self.release_notes@,
            assets: asset_views(self.assets@),
            published_at: self.published_at@,
        }
    }
}

/// One entry of the feed's asset list. A field is `None` where the feed does
/// not hold it with the expected type.
#[derive(Debug, PartialEq, Eq)]
pub struct FeedAsset {
    /// The string under `name`.
    pub name: Option<String>,
    /// The string under `browser_download_url`.
    pub browser_download_url: Option<String>,
    /// The unsigned number under `size`.
    pub size: Option<u64>,
}

/// The latest-release document of the feed. A field is `None` where the
/// document does not hold it with the expected type.
#[derive(Debug, PartialEq, Eq)]
pub struct FeedRelease {
    /// The string under `tag_name`.
    pub tag_name: Option<String>,
    /// The string under `body`.
    pub body: Option<String>,
    /// The string under `published_at`.
    pub published_at: Option<String>,
    /// The array under `assets`.
    pub assets: Option<Vec<FeedAsset>>,
}

/// Why a feed document is not a release.
#[derive(Debug, Clone, Copy, PartialEq, Eq, Structural)]
pub enum ReleaseError {
    MissingTagName,
    MissingAssets,
    MissingAssetName,
    MissingAssetUrl,
    MissingAssetSize,
}

impl ReleaseError {
    /// The text that the user is shown for the error.
    pub open spec fn text(self) -> Seq<char> {
        match self {
            ReleaseError::MissingTagName => "Missing tag_name in release data"@,
            ReleaseError::MissingAssets => "Missing assets in release data"@,
            ReleaseError::MissingAssetName => "Missing asset name"@,
            ReleaseError::MissingAssetUrl => "Missing asset download URL"@,
            ReleaseError::MissingAssetSize => "Missing asset size"@,
        }
    }

    /// The text that the user is shown for the error.
    pub fn message(&self) -> (message: String)
        ensures
            message@ == self.text(),
    {
        let text = match self {
            ReleaseError::MissingTagName => "Missing tag_name in release data",
            ReleaseError::MissingAssets => "Missing assets in release data",
            ReleaseError::MissingAssetName => "Missing asset name",
            ReleaseError::MissingAssetUrl => "Missing asset download URL",
            ReleaseError::MissingAssetSize => "Missing asset size",
        };
        text.to_owned()
    }
}

/// The prefix of the feed's address.
pub open spec fn feed_prefix() -> Seq<char> {
    "https://api.github.com/repos/"@
}

/// The suffix of the feed's address.
pub open spec fn feed_suffix() -> Seq<char> {
    "/releases/latest"@
}

/// The address of the latest release of `owner`'s repository `repo`.
pub open spec fn feed_url(owner: Seq<char>, repo: Seq<char>) -> Seq<char> {
    feed_prefix() + owner + seq!['/'] + repo + feed_suffix()
}

/// The address to ask for the latest release of `owner`'s repository `repo`.
pub fn latest_release_url(owner: &str, repo: &str) -> (url: String)
    ensures
        url@ == feed_url(owner@, repo@),
{
    let mut url = String::new();
    push_chars(&mut url, &chars_of("https://api.github.com/repos/"));
    push_chars(&mut url, &chars_of(owner));
    url.push('/');
    push_chars(&mut url, &chars_of(repo));
    push_chars(&mut url, &chars_of("/releases/latest"));
    url
}

/// The version that a tag stands for: the tag without one leading `v`.
pub open spec fn version_of(tag: Seq<char>) -> Seq<char> {
    if tag.len() > 0 && tag[0] == 'v' {
        tag.drop_first()
    } else {
        tag
    }
}

/// The first field that the feed entry `a` lacks.
pub open spec fn asset_defect(a: FeedAsset) -> Option<ReleaseError> {
    if a.name is None {
        Some(ReleaseError::MissingAssetName)
    } else if a.browser_download_url is None {
        Some(ReleaseError::MissingAssetUrl)
    } else if a.size is None {
        Some(ReleaseError::MissingAssetSize)
    } else {
        None
    }
}

/// The defect of the first defective entry of `assets`.
pub open spec fn first_defect(assets: Seq<FeedAsset>) -> Option<ReleaseError>
    decreases assets.len(),
{
    if assets.len() == 0 {
        None
    } else if asset_defect(assets[0]) is Some {
        asset_defect(assets[0])
    } else {
        first_defect(assets.drop_first())
    }
}

/// Why `feed` is not a release, if it is none.
pub open spec fn feed_defect(feed: FeedRelease) -> Option<ReleaseError> {
    if feed.tag_name is None {
        Some(ReleaseError::MissingTagName)
    } else if feed.assets is None {
        Some(ReleaseError::MissingAssets)
    } else {
        first_defect(feed.assets->0@)
    }
}

/// The text of an optional field; the empty text where it is missing.
pub open spec fn text_or_empty(field: Option<String>) -> Seq<char> {
    match field {
        Some(s) => s@,
        None => Seq::empty(),
    }
}

/// The asset that a complete feed entry describes. Its digest is empty.
pub open spec fn asset_of(a: FeedAsset) -> AssetView {
    AssetView {
        name: a.name->0@,
        download_url: a.browser_download_url->0@,
        size: a.size->0,
        sha256: Seq::empty(),
    }
}

/// The release that a feed document without defect describes.
pub open spec fn release_of(feed: FeedRelease) -> ReleaseView {
    ReleaseView {
        version: version_of(feed.tag_name->0@),
        release_notes: text_or_empty(feed.body),
        assets: feed.assets->0@.map_values(|a: FeedAsset| asset_of(a)),
        published_at: text_or_empty(feed.published_at),
    }
}

/// A defect among the first entries is the first defect of the whole list.
proof fn lemma_first_defect_skip(assets: Seq<FeedAsset>, i: int)
    requires
        0 <= i <= assets.len(),
        forall|j: int| 0 <= j < i ==> asset_defect(#[trigger] assets[j]) is None,
    ensures
        first_defect(assets) == first_defect(assets.skip(i)),
    decreases i,
{
    if i > 0 {
        lemma_first_defect_skip(assets, i - 1);
        let rest = assets.skip(i - 1);
        assert(rest.drop_first() == assets.skip(i));
    } else {
        assert(assets.skip(0) == assets);
    }
}

/// A copy of an optional text; the empty string where it is missing.
fn copy_or_empty(field: &Option<String>) -> (copy: String)
    ensures
        copy@ == text_or_empty(*field),
{
    match field {
        Some(s) => s.clone(),
        None => String::new(),
    }
}

/// The version string for a tag.
pub fn strip_version_prefix(tag: &str) -> (version: String)
    ensures
        version@ == version_of(tag@),
{
    let chars = chars_of(tag);
    if chars.len() > 0 && chars[0] == 'v' {
        let version = string_of_range(&chars, 1, chars.len());
        version
    } else {
        string_of(&chars)
    }
}

/// Reads a release out of the feed's document.
///
/// The document is rejected if it lacks the tag or the asset list, or if an
/// entry of the list lacks its name, address or size; the first such defect,
/// in this order, is the error. Notes and date are optional.
pub fn parse_release_info(feed: &FeedRelease) -> (parsed: Result<ReleaseInfo, ReleaseError>)
    ensures
        match feed_defect(*feed) {
            Some(e) => parsed == Err::<ReleaseInfo, ReleaseError>(e),
            None => parsed is Ok && parsed->Ok_0@ == release_of(*feed),
        },
{
    let version = match &feed.tag_name {
        Some(tag) => strip_version_prefix(tag.as_str()),
        None => { return Err(ReleaseError::MissingTagName); },
    };
    let release_notes = copy_or_empty(&feed.body);
    let published_at = copy_or_empty(&feed.published_at);
    let entries = match &feed.assets {
        Some(entries) => entries,
        None => { return Err(ReleaseError::MissingAssets); },
    };
    let mut assets: Vec<Asset> = Vec::new();
    let mut i: usize = 0;
    while i < entries.len()
        invariant
            i <= entries.len(),
            assets.len() == i,
            feed.tag_name is Some,
            feed.assets == Some(*entries),
            forall|j: int| 0 <= j < i ==> asset_defect(#[trigger] entries@[j]) is None,
            forall|j: int| 0 <= j < i ==> (#[trigger] assets@[j])@ == asset_of(entries@[j]),
        decreases entries.len() - i,
    {
        let entry = &entries[i];
        proof {
            lemma_first_defect_skip(entries@, i as int);
        }
        let name = match &entry.name {
            Some(name) => name.clone(),
            None => { return Err(ReleaseError::MissingAssetName); },
        };
        let download_url = match &entry.browser_download_url {
            Some(url) => url.clone(),
            None => { return Err(ReleaseError::MissingAssetUrl); },
        };
        let size = match entry.size {
            Some(size) => size,
            None => { return Err(ReleaseError::MissingAssetSize); },
        };
        assets.push(Asset { name, download_url, size, sha256: String::new() });
        i += 1;
    }
    proof {
        lemma_first_defect_skip(entries@, entries.len() as int);
        assert(asset_views(assets@) =~= entries@.map_values(|a: FeedAsset| asset_of(a)));
    }
    Ok(ReleaseInfo { version, release_notes, assets, published_at })
}


/// How far the resolver has come with a feed document.
#[derive(Debug, PartialEq, Eq)]
pub enum Resolution {
    /// The release has a checksums manifest, which is to be fetched from
    /// `manifest_url` and handed to `attach_checksums`.
    NeedsChecksums { release: ReleaseInfo, manifest_url: String },
    /// The release has no checksums manifest: its assets stay without digest.
    Complete { release: ReleaseInfo },
}

/// Reads the latest release out of the feed's document and says whether a
/// checksums manifest is to be fetched for it: the first asset whose name in
/// lower case ends in `checksums.txt`.
pub fn check_latest_release(feed: &FeedRelease) -> (resolved: Result<Resolution, ReleaseError>)
    ensures
        match feed_defect(*feed) {
            Some(e) => resolved == Err::<Resolution, ReleaseError>(e),
            None => match resolved {
                Ok(Resolution::NeedsChecksums { release, manifest_url }) => {
                    &&& release@ == release_of(*feed)
                    &&& exists|i: int|
                        first_manifest(release@.assets, i) && manifest_url@
                            == (#[trigger] release@.assets[i]).download_url
                },
                Ok(Resolution::Complete { release }) => {
                    &&& release@ == release_of(*feed)
                    &&& no_manifest(release@.assets)
                },
                Err(_) => false,
            },
        },
{
    let release = match parse_release_info(feed) {
        Ok(release) => release,
        Err(e) => { return Err(e); },
    };
    match find_checksums_asset(release.assets.as_slice()) {
        Some(i) => {
            let manifest_url = release.assets[i].download_url.clone();
            assert(release@.assets[i as int] == release.assets@[i as int]@);
            Ok(Resolution::NeedsChecksums { release, manifest_url })
        },
        None => Ok(Resolution::Complete { release }),
    }
}

/// The warning for a release without assets.
pub const NO_ASSETS_WARNING: &'static str =
    "\n\n**Warning:** No update packages were found for this release. Please check the GitHub releases page.";

/// The warning for a release without an asset for the platform.
pub const NO_COMPATIBLE_ASSET_WARNING: &'static str =
    "\n\n**Warning:** No compatible update package was found for your platform. Please download the update manually from the GitHub releases page.";

/// The warning that the release notes are to end in, if any.
pub open spec fn warning_for(assets: Seq<AssetView>, os: Os, arch: Arch) -> Seq<char> {
    if assets.len() == 0 {
        NO_ASSETS_WARNING@
    } else if none_fits(assets, os, arch) {
        NO_COMPATIBLE_ASSET_WARNING@
    } else {
        Seq::empty()
    }
}

/// Completes a check for updates: where the release has no asset at all, or
/// none for the platform, a warning is appended to its notes. The check
/// succeeds either way, and nothing else of the release changes.
pub fn check_for_updates(release: ReleaseInfo, os: &str, arch: &str) -> (checked: ReleaseInfo)
    ensures
        checked@ == (ReleaseView {
            release_notes: release@.release_notes + warning_for(
                release@.assets,
                os_of(os@),
                arch_of(arch@),
            ),
            ..release@
        }),
{
    let mut release_notes = release.release_notes;
    if release.assets.len() == 0 {
        push_chars(&mut release_notes, &chars_of(NO_ASSETS_WARNING));
    } else {
        let found = find_platform_asset(
            release.assets.as_slice(),
            os_from_name(os),
            arch_from_name(arch),
        );
        if found.is_none() {
            push_chars(&mut release_notes, &chars_of(NO_COMPATIBLE_ASSET_WARNING));
        }
    }
    ReleaseInfo {
        version: release.version,
        release_notes,
        assets: release.assets,
        published_at: release.published_at,
    }
}


/// Why the release feed could not be read.
#[derive(Debug, PartialEq, Eq)]
pub enum FeedError {
    /// The request for the feed could not be sent.
    Request(String),
    /// The feed answered with a status that is no success; it is carried along.
    Status(u16),
    /// The feed's answer is no document of the expected format.
    MalformedBody(String),
    /// The checksums manifest could not be requested.
    ChecksumsRequest(String),
    /// The checksums manifest could not be read.
    ChecksumsBody(String),
}

/// A `FeedError` as a mathematical value.
pub enum FeedErrorView {
    Request(Seq<char>),
    Status(u16),
    MalformedBody(Seq<char>),
    ChecksumsRequest(Seq<char>),
    ChecksumsBody(Seq<char>),
}

impl View for FeedError {
    type V = FeedErrorView;

    open spec fn view(&self) -> FeedErrorView {
        match self {
            FeedError::Request(why) => FeedErrorView::Request(why@),
            FeedError::Status(status) => FeedErrorView::Status(*status),
            FeedError::MalformedBody(why) => FeedErrorView::MalformedBody(why@),
            FeedError::ChecksumsRequest(why) => FeedErrorView::ChecksumsRequest(why@),
            FeedError::ChecksumsBody(why) => FeedErrorView::ChecksumsBody(why@),
        }
    }
}

impl FeedErrorView {
    /// The text that the user is shown for the error.
    pub open spec fn text(self) -> Seq<char> {
        match self {
            FeedErrorView::Request(why) => "Failed to send request: "@ + why,
            FeedErrorView::Status(status) => "GitHub API request failed with status: "@
                + decimal(status as nat),
            FeedErrorView::MalformedBody(why) => "Failed to parse response: "@ + why,
            FeedErrorView::ChecksumsRequest(why) => "Failed to download checksums file: "@ + why,
            FeedErrorView::ChecksumsBody(why) => "Failed to read checksums file: "@ + why,
        }
    }
}

impl FeedError {
    /// The text that the user is shown for the error.
    pub fn message(&self) -> (message: String)
        ensures
            message@ == self@.text(),
    {
        let mut message = String::new();
        match self {
            FeedError::Request(why) => {
                push_chars(&mut message, &chars_of("Failed to send request: "));
                push_chars(&mut message, &chars_of(why.as_str()));
            },
            FeedError::Status(status) => {
                push_chars(&mut message, &chars_of("GitHub API request failed with status: "));
                push_decimal(&mut message, *status as u128);
            },
            FeedError::MalformedBody(why) => {
                push_chars(&mut message, &chars_of("Failed to parse response: "));
                push_chars(&mut message, &chars_of(why.as_str()));
            },
            FeedError::ChecksumsRequest(why) => {
                push_chars(&mut message, &chars_of("Failed to download checksums file: "));
                push_chars(&mut message, &chars_of(why.as_str()));
            },
            FeedError::ChecksumsBody(why) => {
                push_chars(&mut message, &chars_of("Failed to read checksums file: "));
                push_chars(&mut message, &chars_of(why.as_str()));
            },
        }
        message
    }
}

/// Lets the resolver go on with the feed's answer if its status is a
/// success, one of the codes from 200 to 299; any other status is an error
/// that carries it.
pub fn check_feed_status(status: u16) -> (checked: Result<(), FeedError>)
    ensures
        crate::fetch::is_success(status) ==> checked is Ok,
        !crate::fetch::is_success(status) ==> checked is Err && checked->Err_0@
            == FeedErrorView::Status(status),
{
    if 200 <= status && status <= 299 {
        Ok(())
    } else {
        Err(FeedError::Status(status))
    }
}

/// A tag that begins with `v` stands for the version that follows the `v`:
/// whatever else a feed document without defect holds, the release read from
/// it has that version.
pub proof fn lemma_version_follows_v(feed: FeedRelease, version: Seq<char>)
    requires
        feed_defect(feed) is None,
        feed.tag_name->0@ == seq!['v'] + version,
    ensures
        release_of(feed).version == version,
{
}

/// A tag that does not begin with `v` is the version as it stands.
pub proof fn lemma_version_without_v(feed: FeedRelease)
    requires
        feed_defect(feed) is None,
        feed.tag_name->0@.len() == 0 || feed.tag_name->0@[0] != 'v',
    ensures
        release_of(feed).version == feed.tag_name->0@,
{
}

} // verus!
