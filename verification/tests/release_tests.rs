use wab2b_helper::checksums::{attach_checksums, find_checksums_asset, ChecksumManifest};
use wab2b_helper::release::{
    check_feed_status, check_for_updates, check_latest_release, latest_release_url,
    parse_release_info, strip_version_prefix, Asset, FeedAsset, FeedError, FeedRelease,
    ReleaseError, ReleaseInfo, Resolution,
};

const DIGEST_A: &str = "ba7816bf8f01cfea414140de5dae2223b00361a396177a9cb410ff61f20015ad";
const DIGEST_B: &str = "e3b0c44298fc1c149afbf4c8996fb92427ae41e4649b934ca495991b7852b855";
const NO_ASSETS: &str = "\n\n**Warning:** No update packages were found for this release. Please check the GitHub releases page.";
const NO_COMPATIBLE: &str = "\n\n**Warning:** No compatible update package was found for your platform. Please download the update manually from the GitHub releases page.";

fn feed_asset(name: &str, size: u64) -> FeedAsset {
    FeedAsset {
        name: Some(name.to_string()),
        browser_download_url: Some(format!("https://example.com/dl/{}", name)),
        size: Some(size),
    }
}

fn feed(tag: &str, assets: Vec<FeedAsset>) -> FeedRelease {
    FeedRelease {
        tag_name: Some(tag.to_string()),
        body: Some("Notes".to_string()),
        published_at: Some("2024-05-01T10:00:00Z".to_string()),
        assets: Some(assets),
    }
}

fn asset(name: &str, size: u64, sha256: &str) -> Asset {
    Asset {
        name: name.to_string(),
        download_url: format!("https://example.com/dl/{}", name),
        size,
        sha256: sha256.to_string(),
    }
}

fn release(assets: Vec<Asset>) -> ReleaseInfo {
    ReleaseInfo {
        version: "2.3.0".to_string(),
        release_notes: "Notes".to_string(),
        assets,
        published_at: "2024-05-01T10:00:00Z".to_string(),
    }
}

fn text_field(value: &serde_json::Value, key: &str) -> Option<String> {
    value[key].as_str().map(|s| s.to_string())
}

fn feed_from_json(text: &str) -> FeedRelease {
    let value: serde_json::Value = serde_json::from_str(text).unwrap();
    FeedRelease {
        tag_name: text_field(&value, "tag_name"),
        body: text_field(&value, "body"),
        published_at: text_field(&value, "published_at"),
        assets: value["assets"].as_array().map(|entries| {
            entries
                .iter()
                .map(|entry| FeedAsset {
                    name: text_field(entry, "name"),
                    browser_download_url: text_field(entry, "browser_download_url"),
                    size: entry["size"].as_u64(),
                })
                .collect()
        }),
    }
}

#[test]
fn feed_address_names_owner_and_repository() {
    assert_eq!(
        latest_release_url("octo", "helper"),
        "https://api.github.com/repos/octo/helper/releases/latest"
    );
    assert_eq!(latest_release_url("", ""), "https://api.github.com/repos///releases/latest");
}

#[test]
fn tag_v2_3_0_gives_version_2_3_0() {
    let parsed = parse_release_info(&feed("v2.3.0", vec![feed_asset("a.exe", 5)])).unwrap();
    assert_eq!(parsed.version, "2.3.0");
    let bare = parse_release_info(&feed("v2.3.0", vec![])).unwrap();
    assert_eq!(bare.version, "2.3.0");
}

#[test]
fn one_leading_v_is_stripped() {
    assert_eq!(strip_version_prefix("v2.3.0"), "2.3.0");
    assert_eq!(strip_version_prefix("2.3.0"), "2.3.0");
    assert_eq!(strip_version_prefix("vv1"), "v1");
    assert_eq!(strip_version_prefix("V1"), "V1");
    assert_eq!(strip_version_prefix("v"), "");
    assert_eq!(strip_version_prefix(""), "");
    assert_eq!(strip_version_prefix("1.0-v2"), "1.0-v2");
}

#[test]
fn release_is_read_field_by_field() {
    let parsed = parse_release_info(&feed(
        "v1.2.3",
        vec![feed_asset("app.exe", 10), feed_asset("app.dmg", 20)],
    ));
    assert_eq!(
        parsed,
        Ok(ReleaseInfo {
            version: "1.2.3".to_string(),
            release_notes: "Notes".to_string(),
            assets: vec![asset("app.exe", 10, ""), asset("app.dmg", 20, "")],
            published_at: "2024-05-01T10:00:00Z".to_string(),
        })
    );
}

#[test]
fn notes_and_date_are_optional() {
    let mut document = feed("v1.0.0", vec![]);
    document.body = None;
    document.published_at = None;
    let parsed = parse_release_info(&document).unwrap();
    assert_eq!(parsed.release_notes, "");
    assert_eq!(parsed.published_at, "");
    assert_eq!(parsed.assets, vec![]);
}

#[test]
fn each_defect_has_its_error() {
    let mut no_tag = feed("v1", vec![]);
    no_tag.tag_name = None;
    assert_eq!(parse_release_info(&no_tag), Err(ReleaseError::MissingTagName));

    let mut no_assets = feed("v1", vec![]);
    no_assets.assets = None;
    assert_eq!(parse_release_info(&no_assets), Err(ReleaseError::MissingAssets));

    let mut nameless = feed_asset("a", 1);
    nameless.name = None;
    assert_eq!(
        parse_release_info(&feed("v1", vec![feed_asset("ok", 1), nameless])),
        Err(ReleaseError::MissingAssetName)
    );

    let mut no_url = feed_asset("a", 1);
    no_url.browser_download_url = None;
    assert_eq!(
        parse_release_info(&feed("v1", vec![no_url])),
        Err(ReleaseError::MissingAssetUrl)
    );

    let mut no_size = feed_asset("a", 1);
    no_size.size = None;
    assert_eq!(
        parse_release_info(&feed("v1", vec![no_size])),
        Err(ReleaseError::MissingAssetSize)
    );
}

#[test]
fn the_first_defect_is_reported() {
    let mut both = feed("v1", vec![]);
    both.tag_name = None;
    both.assets = None;
    assert_eq!(parse_release_info(&both), Err(ReleaseError::MissingTagName));

    let mut no_size = feed_asset("first", 1);
    no_size.size = None;
    let mut nameless = feed_asset("second", 1);
    nameless.name = None;
    assert_eq!(
        parse_release_info(&feed("v1", vec![no_size, nameless])),
        Err(ReleaseError::MissingAssetSize)
    );

    let mut empty = feed_asset("x", 1);
    empty.name = None;
    empty.browser_download_url = None;
    empty.size = None;
    assert_eq!(
        parse_release_info(&feed("v1", vec![empty])),
        Err(ReleaseError::MissingAssetName)
    );
}

#[test]
fn error_texts() {
    assert_eq!(ReleaseError::MissingTagName.message(), "Missing tag_name in release data");
    assert_eq!(ReleaseError::MissingAssets.message(), "Missing assets in release data");
    assert_eq!(ReleaseError::MissingAssetName.message(), "Missing asset name");
    assert_eq!(ReleaseError::MissingAssetUrl.message(), "Missing asset download URL");
    assert_eq!(ReleaseError::MissingAssetSize.message(), "Missing asset size");
}

#[test]
fn a_feed_document_in_json_is_read() {
    let document = feed_from_json(
        r#"{
            "tag_name": "v2.3.0",
            "body": "What is new",
            "published_at": "2024-05-01T10:00:00Z",
            "assets": [
                {"name": "app-windows-x64.exe",
                 "browser_download_url": "https://example.com/app-windows-x64.exe",
                 "size": 1234},
                {"name": "checksums.txt",
                 "browser_download_url": "https://example.com/checksums.txt",
                 "size": 99}
            ]
        }"#,
    );
    let resolved = check_latest_release(&document).unwrap();
    match resolved {
        Resolution::NeedsChecksums { release, manifest_url } => {
            assert_eq!(release.version, "2.3.0");
            assert_eq!(release.release_notes, "What is new");
            assert_eq!(release.assets.len(), 2);
            assert_eq!(release.assets[0].size, 1234);
            assert_eq!(manifest_url, "https://example.com/checksums.txt");
        }
        Resolution::Complete { .. } => panic!("the release has a checksums manifest"),
    }
}

#[test]
fn a_feed_document_with_wrong_types_is_refused() {
    let no_tag = feed_from_json(r#"{"tag_name": 7, "assets": []}"#);
    assert_eq!(check_latest_release(&no_tag), Err(ReleaseError::MissingTagName));
    let no_list = feed_from_json(r#"{"tag_name": "v1", "assets": {}}"#);
    assert_eq!(check_latest_release(&no_list), Err(ReleaseError::MissingAssets));
    let negative = feed_from_json(
        r#"{"tag_name": "v1", "assets": [{"name": "a", "browser_download_url": "u", "size": -1}]}"#,
    );
    assert_eq!(check_latest_release(&negative), Err(ReleaseError::MissingAssetSize));
}

#[test]
fn the_first_manifest_asset_is_found_whatever_its_case() {
    let assets = vec![
        asset("app.exe", 1, ""),
        asset("App-Checksums.TXT", 2, ""),
        asset("checksums.txt", 3, ""),
    ];
    assert_eq!(find_checksums_asset(&assets), Some(1));
    assert_eq!(find_checksums_asset(&[asset("checksums.txt.sig", 1, "")]), None);
    assert_eq!(find_checksums_asset(&[asset("sha256sums.txt", 1, "")]), None);
    assert_eq!(find_checksums_asset(&[]), None);
}

#[test]
fn a_release_without_manifest_is_complete() {
    let resolved = check_latest_release(&feed("v1.0.0", vec![feed_asset("app.exe", 1)]));
    assert_eq!(
        resolved,
        Ok(Resolution::Complete {
            release: ReleaseInfo {
                version: "1.0.0".to_string(),
                release_notes: "Notes".to_string(),
                assets: vec![asset("app.exe", 1, "")],
                published_at: "2024-05-01T10:00:00Z".to_string(),
            }
        })
    );
}

#[test]
fn manifest_line_gives_the_asset_its_digest() {
    let line = format!("{}  myapp-windows-x64.exe", DIGEST_A);
    let annotated = attach_checksums(release(vec![asset("myapp-windows-x64.exe", 9, "")]), &line);
    assert_eq!(annotated.assets[0].sha256, DIGEST_A);
    assert_eq!(annotated.assets, vec![asset("myapp-windows-x64.exe", 9, DIGEST_A)]);
    assert_eq!(annotated.version, "2.3.0");
    assert_eq!(annotated.release_notes, "Notes");
    assert_eq!(annotated.published_at, "2024-05-01T10:00:00Z");
}

#[test]
fn manifest_paths_count_by_their_file_name() {
    let text = format!(
        "{}  ./dist/app.exe\r\n{} *other.bin\n\nnot-an-entry\n{}\tbuild\\win\\app.msi  trailing words\n",
        DIGEST_A, DIGEST_B, DIGEST_B
    );
    let manifest = ChecksumManifest::parse(&text);
    assert_eq!(manifest.digest_for("app.exe"), Some(DIGEST_A.to_string()));
    assert_eq!(manifest.digest_for("app.msi"), Some(DIGEST_B.to_string()));
    assert_eq!(manifest.digest_for("*other.bin"), Some(DIGEST_B.to_string()));
    assert_eq!(manifest.digest_for("other.bin"), None);
    assert_eq!(manifest.digest_for("./dist/app.exe"), None);
    assert_eq!(manifest.digest_for("not-an-entry"), None);
    assert_eq!(manifest.digest_for(""), None);
}

#[test]
fn a_later_manifest_line_replaces_an_earlier_one() {
    let text = format!("{} app.exe\n{} app.exe\n", DIGEST_A, DIGEST_B);
    let manifest = ChecksumManifest::parse(&text);
    assert_eq!(manifest.digest_for("app.exe"), Some(DIGEST_B.to_string()));
}

#[test]
fn an_empty_manifest_names_nothing() {
    assert_eq!(ChecksumManifest::parse("").digest_for("app.exe"), None);
    assert_eq!(ChecksumManifest::parse("\n\n").digest_for(""), None);
}

#[test]
fn assets_without_manifest_line_keep_their_digest() {
    let text = format!("{}  app.exe\n", DIGEST_A);
    let annotated = attach_checksums(
        release(vec![asset("app.exe", 1, "old"), asset("app.dmg", 2, ""), asset("x.deb", 3, "kept")]),
        &text,
    );
    assert_eq!(
        annotated.assets,
        vec![asset("app.exe", 1, DIGEST_A), asset("app.dmg", 2, ""), asset("x.deb", 3, "kept")]
    );
}

#[test]
fn a_release_without_assets_gets_its_warning() {
    let checked = check_for_updates(release(vec![]), "windows", "x86_64");
    assert_eq!(checked.release_notes, format!("Notes{}", NO_ASSETS));
    assert_eq!(checked.version, "2.3.0");
    assert_eq!(checked.assets, vec![]);
}

#[test]
fn a_release_without_fitting_asset_gets_its_warning() {
    let assets = vec![asset("app-macos-arm64.dmg", 1, "")];
    let checked = check_for_updates(release(assets), "windows", "x86_64");
    assert_eq!(checked.release_notes, format!("Notes{}", NO_COMPATIBLE));
    assert_eq!(checked.assets, vec![asset("app-macos-arm64.dmg", 1, "")]);
    let unknown = check_for_updates(release(vec![asset("app-linux-x64.deb", 1, "")]), "haiku", "x86_64");
    assert_eq!(unknown.release_notes, format!("Notes{}", NO_COMPATIBLE));
}

#[test]
fn a_release_with_a_fitting_asset_keeps_its_notes() {
    let assets = vec![asset("readme.txt", 1, ""), asset("app-windows-x64.exe", 2, "")];
    let checked = check_for_updates(release(assets), "windows", "x86_64");
    assert_eq!(checked, release(vec![asset("readme.txt", 1, ""), asset("app-windows-x64.exe", 2, "")]));
}

#[test]
fn the_feed_is_read_after_a_success_only() {
    assert_eq!(check_feed_status(200), Ok(()));
    assert_eq!(check_feed_status(299), Ok(()));
    assert_eq!(check_feed_status(199), Err(FeedError::Status(199)));
    assert_eq!(check_feed_status(300), Err(FeedError::Status(300)));
    assert_eq!(check_feed_status(403), Err(FeedError::Status(403)));
    assert_eq!(check_feed_status(404), Err(FeedError::Status(404)));
}

#[test]
fn feed_error_texts() {
    assert_eq!(FeedError::Status(403).message(), "GitHub API request failed with status: 403");
    assert_eq!(FeedError::Request("dns".to_string()).message(), "Failed to send request: dns");
    assert_eq!(
        FeedError::MalformedBody("eof".to_string()).message(),
        "Failed to parse response: eof"
    );
    assert_eq!(
        FeedError::ChecksumsRequest("dns".to_string()).message(),
        "Failed to download checksums file: dns"
    );
    assert_eq!(
        FeedError::ChecksumsBody("utf8".to_string()).message(),
        "Failed to read checksums file: utf8"
    );
}
