//! Which asset of a release is meant for which operating system and
//! processor: the rules by which an asset's name is read.

use crate::release::{Asset, AssetView};
use crate::text::{
    chars_of, contains, contains_exec, ends_with, ends_with_exec, lowercase, same_chars,
    to_lowercase,
};
use vstd::prelude::*;

verus! {

/// The operating systems that assets are published for.
#[derive(Debug, Clone, Copy, PartialEq, Eq, Structural)]
pub enum Os {
    Windows,
    MacOs,
    Linux,
    /// Any other system; no asset is meant for it.
    Other,
}

/// The processor architectures that assets are published for.
#[derive(Debug, Clone, Copy, PartialEq, Eq, Structural)]
pub enum Arch {
    X86_64,
    X86,
    Aarch64,
    /// Any other architecture; no asset is meant for it.
    Other,
}

/// The operating system that goes by `name`.
pub open spec fn os_of(name: Seq<char>) -> Os {
    if name == "windows"@ {
        Os::Windows
    } else if name == "macos"@ {
        Os::MacOs
    } else if name == "linux"@ {
        Os::Linux
    } else {
        Os::Other
    }
}

/// The architecture that goes by `name`.
pub open spec fn arch_of(name: Seq<char>) -> Arch {
    if name == "x86_64"@ {
        Arch::X86_64
    } else if name == "x86"@ {
        Arch::X86
    } else if name == "aarch64"@ {
        Arch::Aarch64
    } else {
        Arch::Other
    }
}

/// The name holds a keyword of the operating system `os`.
pub open spec fn names_os(lower: Seq<char>, os: Os) -> bool {
    match os {
        Os::Windows => contains(lower, "windows"@) || contains(lower, "win"@),
        Os::MacOs => contains(lower, "macos"@) || contains(lower, "mac"@) || contains(
            lower,
            "darwin"@,
        ),
        Os::Linux => contains(lower, "linux"@),
        Os::Other => false,
    }
}

/// The name holds a keyword of some operating system.
pub open spec fn names_any_os(lower: Seq<char>) -> bool {
    names_os(lower, Os::Windows) || names_os(lower, Os::MacOs) || names_os(lower, Os::Linux)
}

/// The name passes for the architecture `arch` among the assets for `os`.
///
/// For `x86_64` a Windows asset passes unless it says `x86` without `x64` or
/// `amd64`, and a macOS asset unless it says `arm` without them; a Linux
/// asset has to say `x64`, `amd64` or `x86_64`.
pub open spec fn names_arch(lower: Seq<char>, os: Os, arch: Arch) -> bool {
    match (os, arch) {
        (Os::Windows, Arch::X86_64) => contains(lower, "x64"@) || contains(lower, "amd64"@)
            || !contains(lower, "x86"@),
        (Os::Windows, Arch::X86) => contains(lower, "x86"@) || contains(lower, "i686"@),
        (Os::Windows, Arch::Aarch64) => contains(lower, "arm64"@) || contains(lower, "aarch64"@),
        (Os::MacOs, Arch::X86_64) => contains(lower, "x64"@) || contains(lower, "amd64"@)
            || !contains(lower, "arm"@),
        (Os::MacOs, Arch::Aarch64) => contains(lower, "arm64"@) || contains(lower, "aarch64"@)
            || contains(lower, "m1"@),
        (Os::Linux, Arch::X86_64) => contains(lower, "x64"@) || contains(lower, "amd64"@)
            || contains(lower, "x86_64"@),
        (Os::Linux, Arch::X86) => contains(lower, "x86"@) || contains(lower, "i686"@),
        (Os::Linux, Arch::Aarch64) => contains(lower, "arm64"@) || contains(lower, "aarch64"@),
        _ => false,
    }
}

/// The name ends in an extension that `os` installs. The name is in lower
/// case, so the extensions are too.
pub open spec fn names_package(lower: Seq<char>, os: Os) -> bool {
    match os {
        Os::Windows => ends_with(lower, ".exe"@) || ends_with(lower, ".msi"@) || ends_with(
            lower,
            ".zip"@,
        ),
        Os::MacOs => ends_with(lower, ".dmg"@) || ends_with(lower, ".pkg"@) || ends_with(
            lower,
            ".zip"@,
        ),
        Os::Linux => ends_with(lower, ".appimage"@) || ends_with(lower, ".deb"@) || ends_with(
            lower,
            ".rpm"@,
        ) || ends_with(lower, ".tar.gz"@),
        Os::Other => false,
    }
}

/// An asset whose name in lower case is `lower` is meant for `os` on `arch`.
pub open spec fn matches_platform(lower: Seq<char>, os: Os, arch: Arch) -> bool {
    names_os(lower, os) && names_arch(lower, os, arch) && names_package(lower, os)
}

/// The asset is meant for `os` on `arch`, going by its name in lower case.
pub open spec fn fits(asset: AssetView, os: Os, arch: Arch) -> bool {
    matches_platform(lowercase(asset.name), os, arch)
}

/// No asset of `assets` is meant for `os` on `arch`.
pub open spec fn none_fits(assets: Seq<AssetView>, os: Os, arch: Arch) -> bool {
    forall|i: int| 0 <= i < assets.len() ==> !fits(#[trigger] assets[i], os, arch)
}

/// The asset at `i` is the first of `assets` that is meant for `os` on `arch`.
pub open spec fn first_fit(assets: Seq<AssetView>, os: Os, arch: Arch, i: int) -> bool {
    &&& 0 <= i < assets.len()
    &&& fits(assets[i], os, arch)
    &&& none_fits(assets.take(i), os, arch)
}

/// The operating system that goes by `name`, as `std::env::consts::OS` spells it.
pub fn os_from_name(name: &str) -> (os: Os)
    ensures
        os == os_of(name@),
{
    let chars = chars_of(name);
    if same_chars(&chars, &chars_of("windows")) {
        Os::Windows
    } else if same_chars(&chars, &chars_of("macos")) {
        Os::MacOs
    } else if same_chars(&chars, &chars_of("linux")) {
        Os::Linux
    } else {
        Os::Other
    }
}

/// The architecture that goes by `name`, as `std::env::consts::ARCH` spells it.
pub fn arch_from_name(name: &str) -> (arch: Arch)
    ensures
        arch == arch_of(name@),
{
    let chars = chars_of(name);
    if same_chars(&chars, &chars_of("x86_64")) {
        Arch::X86_64
    } else if same_chars(&chars, &chars_of("x86")) {
        Arch::X86
    } else if same_chars(&chars, &chars_of("aarch64")) {
        Arch::Aarch64
    } else {
        Arch::Other
    }
}

/// Whether `word` occurs in `text`.
fn mentions(text: &Vec<char>, word: &str) -> (found: bool)
    ensures
        found == contains(text@, word@),
{
    contains_exec(text, &chars_of(word))
}

/// Whether `text` ends with `word`.
fn ends_in(text: &Vec<char>, word: &str) -> (found: bool)
    ensures
        found == ends_with(text@, word@),
{
    ends_with_exec(text, &chars_of(word))
}

/// Whether an asset whose name in lower case is `lower_name` is meant for
/// `os` on `arch`.
pub fn asset_matches(lower_name: &str, os: Os, arch: Arch) -> (fit: bool)
    ensures
        fit == matches_platform(lower_name@, os, arch),
{
    let n = chars_of(lower_name);
    match os {
        Os::Windows => {
            let keyword = mentions(&n, "windows") || mentions(&n, "win");
            let processor = match arch {
                Arch::X86_64 => mentions(&n, "x64") || mentions(&n, "amd64") || !mentions(&n, "x86"),
                Arch::X86 => mentions(&n, "x86") || mentions(&n, "i686"),
                Arch::Aarch64 => mentions(&n, "arm64") || mentions(&n, "aarch64"),
                Arch::Other => false,
            };
            let package = ends_in(&n, ".exe") || ends_in(&n, ".msi") || ends_in(&n, ".zip");
            keyword && processor && package
        },
        Os::MacOs => {
            let keyword = mentions(&n, "macos") || mentions(&n, "mac") || mentions(&n, "darwin");
            let processor = match arch {
                Arch::X86_64 => mentions(&n, "x64") || mentions(&n, "amd64") || !mentions(&n, "arm"),
                Arch::Aarch64 => mentions(&n, "arm64") || mentions(&n, "aarch64") || mentions(&n, "m1"),
                _ => false,
            };
            let package = ends_in(&n, ".dmg") || ends_in(&n, ".pkg") || ends_in(&n, ".zip");
            keyword && processor && package
        },
        Os::Linux => {
            let keyword = mentions(&n, "linux");
            let processor = match arch {
                Arch::X86_64 => mentions(&n, "x64") || mentions(&n, "amd64") || mentions(&n, "x86_64"),
                Arch::X86 => mentions(&n, "x86") || mentions(&n, "i686"),
                Arch::Aarch64 => mentions(&n, "arm64") || mentions(&n, "aarch64"),
                Arch::Other => false,
            };
            let package = ends_in(&n, ".appimage") || ends_in(&n, ".deb") || ends_in(&n, ".rpm") || ends_in(
                &n,
                ".tar.gz",
            );
            keyword && processor && package
        },
        Os::Other => false,
    }
}

/// The position of the first asset that is meant for `os` on `arch`.
pub fn find_platform_asset(assets: &[Asset], os: Os, arch: Arch) -> (found: Option<usize>)
    ensures
        match found {
            Some(i) => first_fit(crate::release::asset_views(assets@), os, arch, i as int),
            None => none_fits(crate::release::asset_views(assets@), os, arch),
        },
{
    let ghost all = crate::release::asset_views(assets@);
    let mut i: usize = 0;
    while i < assets.len()
        invariant
            i <= assets.len(),
            all == crate::release::asset_views(assets@),
            none_fits(all.take(i as int), os, arch),
        decreases assets.len() - i,
    {
        let lower = to_lowercase(assets[i].name.as_str());
        if asset_matches(lower.as_str(), os, arch) {
            return Some(i);
        }
        i += 1;
    }
    assert(all.take(assets.len() as int) == all);
    None
}

/// Picks the asset for the platform: the first one, in the order of the
/// release, whose name in lower case names the system `os`, passes for the
/// architecture `arch` and ends in an extension that the system installs.
///
/// No asset is picked for a system or an architecture that is not known, nor
/// where no name holds the keyword of any system.
pub fn select_platform_asset(assets: &[Asset], os: &str, arch: &str) -> (selected: Option<Asset>)
    ensures
        match selected {
            Some(asset) => exists|i: int|
                first_fit(crate::release::asset_views(assets@), os_of(os@), arch_of(arch@), i)
                    && asset@ == #[trigger] assets@[i]@,
            None => none_fits(crate::release::asset_views(assets@), os_of(os@), arch_of(arch@)),
        },
        (forall|i: int| 0 <= i < assets@.len() ==> !names_any_os(lowercase(#[trigger] assets@[i].name@)))
            ==> selected is None,
{
    match find_platform_asset(assets, os_from_name(os), arch_from_name(arch)) {
        Some(i) => {
            Some(assets[i].clone())
        },
        None => None,
    }
}


/// A name that holds the keyword of no operating system is meant for no
/// platform: whatever the system and the architecture, it does not match.
pub proof fn lemma_no_keyword_no_match(lower: Seq<char>, os: Os, arch: Arch)
    requires
        !names_any_os(lower),
    ensures
        !matches_platform(lower, os, arch),
{
}

/// Where no asset's name, in lower case, holds the keyword of an operating
/// system, no asset fits, whatever the platform.
pub proof fn lemma_no_keyword_none_fits(assets: Seq<AssetView>, os: Os, arch: Arch)
    requires
        forall|i: int| 0 <= i < assets.len() ==> !names_any_os(lowercase(#[trigger] assets[i].name)),
    ensures
        none_fits(assets, os, arch),
{
    assert forall|i: int| 0 <= i < assets.len() implies !fits(#[trigger] assets[i], os, arch) by {
        lemma_no_keyword_no_match(lowercase(assets[i].name), os, arch);
    }
}

/// No asset fits a system or an architecture that is not known.
pub proof fn lemma_unknown_platform_none_fits(assets: Seq<AssetView>, os: Os, arch: Arch)
    requires
        os == Os::Other || arch == Arch::Other,
    ensures
        none_fits(assets, os, arch),
{
}

} // verus!
