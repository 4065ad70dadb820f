//! Release-asset selection for downloadable worker binaries.
//!
//! A release carries a list of named assets, one per platform. The adapters
//! here pick, for a given operating system and CPU architecture, the first
//! asset whose name matches the platform's naming pattern — and, for
//! repositories that publish several binaries per release, an additional
//! binary-specific pattern. Fetching release lists and downloading assets is
//! network work and stays with the runtime; selection is decided here.

use vstd::prelude::*;

use crate::pattern::CompiledPattern;
use crate::pattern::regex_match;
use crate::pattern::regex_pattern_valid;
use crate::platform::CpuArchitecture;
use crate::platform::CurrentOperatingSystem;

verus! {

/// One downloadable file of a release.
#[derive(Clone)]
pub struct VersionAsset {
    pub name: String,
    pub url: String,
}

/// One release: its version string and its assets.
pub struct VersionDownloadInfo {
    pub version: String,
    pub assets: Vec<VersionAsset>,
}

/// Errors of asset selection.
#[derive(Clone, Copy, PartialEq, Eq, Structural, Debug)]
pub enum BinaryError {
    /// The naming pattern was rejected by the pattern engine.
    UnsupportedPattern,
    /// No asset of the release matches the platform.
    NoMatchingAsset,
}

/// The asset-name pattern of releases published per platform with a
/// `<os>-<arch>…zip` naming scheme.
pub open spec fn github_platform_pattern_spec(
    os: CurrentOperatingSystem,
    arch: CpuArchitecture,
) -> Seq<char> {
    match os {
        CurrentOperatingSystem::Windows => "windows-x64.*\\.zip"@,
        CurrentOperatingSystem::Linux => "linux-x86_64.*\\.zip"@,
        CurrentOperatingSystem::MacOS => match arch {
            CpuArchitecture::X64 => "macos-x86_64.*\\.zip"@,
            CpuArchitecture::Arm64 => "macos-arm64.*\\.zip"@,
        },
    }
}

pub fn github_platform_pattern(os: &CurrentOperatingSystem, arch: &CpuArchitecture) -> (pattern:
    &'static str)
    ensures
        pattern@ == github_platform_pattern_spec(*os, *arch),
{
    match os {
        CurrentOperatingSystem::Windows => "windows-x64.*\\.zip",
        CurrentOperatingSystem::Linux => "linux-x86_64.*\\.zip",
        CurrentOperatingSystem::MacOS => match arch {
            CpuArchitecture::X64 => "macos-x86_64.*\\.zip",
            CpuArchitecture::Arm64 => "macos-arm64.*\\.zip",
        },
    }
}

/// The asset-name pattern of the mining-engine releases, which use their own
/// naming scheme per platform.
pub open spec fn xmrig_platform_pattern_spec(
    os: CurrentOperatingSystem,
    arch: CpuArchitecture,
) -> Seq<char> {
    match os {
        CurrentOperatingSystem::Windows => ".*msvc-win64\\.zip"@,
        CurrentOperatingSystem::Linux => ".*linux-static-x64\\.tar.gz"@,
        CurrentOperatingSystem::MacOS => match arch {
            CpuArchitecture::X64 => ".*macos-x64\\.tar.gz"@,
            CpuArchitecture::Arm64 => ".*macos-arm64\\.tar.gz"@,
        },
    }
}

pub fn xmrig_platform_pattern(os: &CurrentOperatingSystem, arch: &CpuArchitecture) -> (pattern:
    &'static str)
    ensures
        pattern@ == xmrig_platform_pattern_spec(*os, *arch),
{
    match os {
        CurrentOperatingSystem::Windows => ".*msvc-win64\\.zip",
        CurrentOperatingSystem::Linux => ".*linux-static-x64\\.tar.gz",
        CurrentOperatingSystem::MacOS => match arch {
            CpuArchitecture::X64 => ".*macos-x64\\.tar.gz",
            CpuArchitecture::Arm64 => ".*macos-arm64\\.tar.gz",
        },
    }
}

/// Whether an asset name satisfies the platform pattern and, when one is
/// set, the binary-specific pattern.
pub open spec fn asset_name_matches(
    specific: Option<Seq<char>>,
    suffix: Seq<char>,
    name: Seq<char>,
) -> bool {
    &&& match specific {
        Some(pattern) => regex_match(pattern, name),
        None => true,
    }
    &&& regex_match(suffix, name)
}

/// No asset before index `i` matches.
pub open spec fn no_match_before(
    assets: Seq<VersionAsset>,
    specific: Option<Seq<char>>,
    suffix: Seq<char>,
    i: int,
) -> bool {
    forall|j: int|
        0 <= j < i ==> !(#[trigger] asset_name_matches(specific, suffix, assets[j].name@))
}

/// The pattern text of an optional compiled pattern.
pub open spec fn specific_pattern_view(specific: Option<&CompiledPattern>) -> Option<Seq<char>> {
    match specific {
        Some(compiled) => Some(compiled.pattern()),
        None => None,
    }
}

/// Index of the first asset whose name matches.
fn find_first_matching(
    assets: &Vec<VersionAsset>,
    specific: Option<&CompiledPattern>,
    suffix: &CompiledPattern,
) -> (r: Option<usize>)
    ensures
        match r {
            Some(i) => {
                &&& 0 <= i < assets@.len()
                &&& asset_name_matches(
                    specific_pattern_view(specific),
                    suffix.pattern(),
                    assets@[i as int].name@,
                )
                &&& no_match_before(
                    assets@,
                    specific_pattern_view(specific),
                    suffix.pattern(),
                    i as int,
                )
            },
            None => no_match_before(
                assets@,
                specific_pattern_view(specific),
                suffix.pattern(),
                assets@.len() as int,
            ),
        },
{
    let mut i: usize = 0;
    while i < assets.len()
        invariant
            0 <= i <= assets@.len(),
            no_match_before(assets@, specific_pattern_view(specific), suffix.pattern(), i as int),
        decreases assets@.len() - i,
    {
        let matched = match specific {
            Some(pattern) => pattern.is_match(assets[i].name.as_str()) && suffix.is_match(
                assets[i].name.as_str(),
            ),
            None => suffix.is_match(assets[i].name.as_str()),
        };
        if matched {
            return Some(i);
        }
        i = i + 1;
    }
    None
}

/// Selection result: either the first matching asset (by name and download
/// address), or the reason none was picked.
pub open spec fn selection_spec(
    r: Result<VersionAsset, BinaryError>,
    assets: Seq<VersionAsset>,
    specific: Option<Seq<char>>,
    suffix: Seq<char>,
) -> bool {
    match r {
        Ok(asset) => exists|i: int|
            {
                &&& 0 <= i < assets.len()
                &&& #[trigger] asset_name_matches(specific, suffix, assets[i].name@)
                &&& no_match_before(assets, specific, suffix, i)
                &&& asset.name@ == assets[i].name@
                &&& asset.url@ == assets[i].url@
            },
        Err(e) => e == BinaryError::NoMatchingAsset && no_match_before(
            assets,
            specific,
            suffix,
            assets.len() as int,
        ),
    }
}

fn select_asset(
    version: &VersionDownloadInfo,
    specific: Option<&CompiledPattern>,
    suffix: &CompiledPattern,
) -> (r: Result<VersionAsset, BinaryError>)
    ensures
        selection_spec(r, version.assets@, specific_pattern_view(specific), suffix.pattern()),
{
    match find_first_matching(&version.assets, specific, suffix) {
        Some(i) => {
            let asset = &version.assets[i];
            let picked = VersionAsset { name: asset.name.clone(), url: asset.url.clone() };
            proof {
                assert(asset_name_matches(
                    specific_pattern_view(specific),
                    suffix.pattern(),
                    version.assets@[i as int].name@,
                ));
            }
            Ok(picked)
        },
        None => Err(BinaryError::NoMatchingAsset),
    }
}

/// Adapter for repositories that publish worker binaries as release assets,
/// optionally narrowed to one binary by an extra name pattern.
pub struct GithubReleasesAdapter {
    pub repo: String,
    pub owner: String,
    pub specific_name: Option<CompiledPattern>,
}

impl GithubReleasesAdapter {
    /// The pattern text of the binary-specific name pattern, if one is set.
    pub open spec fn specific_name_view(self) -> Option<Seq<char>> {
        match self.specific_name {
            Some(compiled) => Some(compiled.pattern()),
            None => None,
        }
    }

    /// Build an adapter, compiling the binary-specific name pattern when one
    /// is given. Fails exactly when that pattern is rejected.
    pub fn new(repo: String, owner: String, specific_name: Option<&str>) -> (r: Result<
        GithubReleasesAdapter,
        BinaryError,
    >)
        ensures
            specific_name is None ==> (r matches Ok(adapter) && adapter.repo@ == repo@
                && adapter.owner@ == owner@ && adapter.specific_name_view() is None),
            specific_name matches Some(pattern) ==> if regex_pattern_valid(pattern@) {
                r matches Ok(adapter) && adapter.repo@ == repo@ && adapter.owner@ == owner@
                    && adapter.specific_name_view() == Some(pattern@)
            } else {
                r == Result::<GithubReleasesAdapter, BinaryError>::Err(
                    BinaryError::UnsupportedPattern,
                )
            },
    {
        match specific_name {
            Some(pattern) => {
                match CompiledPattern::compile(pattern) {
                    Some(compiled) => Ok(
                        GithubReleasesAdapter { repo, owner, specific_name: Some(compiled) },
                    ),
                    None => Err(BinaryError::UnsupportedPattern),
                }
            },
            None => Ok(GithubReleasesAdapter { repo, owner, specific_name: None }),
        }
    }

    /// Pick the release asset for the given platform: the first asset whose
    /// name matches the platform pattern and, when set, the binary-specific
    /// pattern. Fails with `NoMatchingAsset` exactly when no asset matches.
    pub fn find_version_for_platform(
        &self,
        version: &VersionDownloadInfo,
        os: &CurrentOperatingSystem,
        arch: &CpuArchitecture,
    ) -> (r: Result<VersionAsset, BinaryError>)
        ensures
            !regex_pattern_valid(github_platform_pattern_spec(*os, *arch)) ==> r == Result::<
                VersionAsset,
                BinaryError,
            >::Err(BinaryError::UnsupportedPattern),
            regex_pattern_valid(github_platform_pattern_spec(*os, *arch)) ==> selection_spec(
                r,
                version.assets@,
                self.specific_name_view(),
                github_platform_pattern_spec(*os, *arch),
            ),
    {
        let pattern_text = github_platform_pattern(os, arch);
        let suffix = match CompiledPattern::compile(pattern_text) {
            Some(compiled) => compiled,
            None => {
                return Err(BinaryError::UnsupportedPattern);
            },
        };
        select_asset(version, self.specific_name.as_ref(), &suffix)
    }
}

/// Adapter for the mining-engine releases, which are published under their
/// own per-platform naming scheme.
pub struct XmrigVersionApiAdapter {}

impl XmrigVersionApiAdapter {
    /// Pick the release asset for the given platform: the first asset whose
    /// name matches the mining-engine naming scheme. Fails with
    /// `NoMatchingAsset` exactly when no asset matches.
    pub fn find_version_for_platform(
        &self,
        version: &VersionDownloadInfo,
        os: &CurrentOperatingSystem,
        arch: &CpuArchitecture,
    ) -> (r: Result<VersionAsset, BinaryError>)
        ensures
            !regex_pattern_valid(xmrig_platform_pattern_spec(*os, *arch)) ==> r == Result::<
                VersionAsset,
                BinaryError,
            >::Err(BinaryError::UnsupportedPattern),
            regex_pattern_valid(xmrig_platform_pattern_spec(*os, *arch)) ==> selection_spec(
                r,
                version.assets@,
                None,
                xmrig_platform_pattern_spec(*os, *arch),
            ),
    {
        let pattern_text = xmrig_platform_pattern(os, arch);
        let suffix = match CompiledPattern::compile(pattern_text) {
            Some(compiled) => compiled,
            None => {
                return Err(BinaryError::UnsupportedPattern);
            },
        };
        select_asset(version, None, &suffix)
    }
}

} // verus!
