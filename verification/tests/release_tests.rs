use process_orchestrator::binaries::BinaryError;
use process_orchestrator::binaries::GithubReleasesAdapter;
use process_orchestrator::binaries::VersionAsset;
use process_orchestrator::binaries::VersionDownloadInfo;
use process_orchestrator::binaries::XmrigVersionApiAdapter;
use process_orchestrator::latest_release::Asset;
use process_orchestrator::latest_release::XmrigRelease;
use process_orchestrator::platform::CpuArchitecture;
use process_orchestrator::platform::CurrentOperatingSystem;
use process_orchestrator::systemtray::SystrayItemId;
use process_orchestrator::hardware_readers::AppleCpuParametersReader;
use process_orchestrator::hardware_readers::IntelGpuReader;

fn release() -> XmrigRelease {
    XmrigRelease::new(
        "6.22.0".to_string(),
        vec![
            Asset::new(
                "a1".to_string(),
                "xmrig-6.22.0-msvc-win64.zip".to_string(),
                "https://example.invalid/win".to_string(),
            ),
            Asset::new(
                "a2".to_string(),
                "xmrig-6.22.0-linux-static-x64.tar.gz".to_string(),
                "https://example.invalid/linux".to_string(),
            ),
            Asset::new(
                "a2".to_string(),
                "duplicate-id".to_string(),
                "https://example.invalid/dup".to_string(),
            ),
        ],
    )
}

#[test]
fn get_asset_finds_the_first_asset_with_the_id() {
    let release = release();
    let asset = release.get_asset("a2").unwrap();
    // Two assets carry the id: the first one in document order wins.
    assert_eq!(asset.name(), "xmrig-6.22.0-linux-static-x64.tar.gz");
}

#[test]
fn get_asset_returns_none_for_an_unknown_id() {
    let release = release();
    assert!(release.get_asset("missing").is_none());
    assert_eq!(release.version(), "6.22.0");
}

fn download_info() -> VersionDownloadInfo {
    VersionDownloadInfo {
        version: "1.9.1".to_string(),
        assets: vec![
            VersionAsset {
                name: "tool-1.9.1-windows-x64.zip".to_string(),
                url: "https://example.invalid/win".to_string(),
            },
            VersionAsset {
                name: "other-1.9.1-linux-x86_64.zip".to_string(),
                url: "https://example.invalid/linux-other".to_string(),
            },
            VersionAsset {
                name: "tool-1.9.1-linux-x86_64.zip".to_string(),
                url: "https://example.invalid/linux".to_string(),
            },
            VersionAsset {
                name: "tool-1.9.1-macos-arm64.zip".to_string(),
                url: "https://example.invalid/mac-arm".to_string(),
            },
        ],
    }
}

#[test]
fn github_adapter_picks_the_first_platform_asset() {
    let adapter =
        GithubReleasesAdapter::new("tool".to_string(), "owner".to_string(), None).unwrap();
    let info = download_info();
    let asset = adapter
        .find_version_for_platform(&info, &CurrentOperatingSystem::Linux, &CpuArchitecture::X64)
        .unwrap();
    // Both linux assets match the platform pattern; the first one wins.
    assert_eq!(asset.name, "other-1.9.1-linux-x86_64.zip");
    assert_eq!(asset.url, "https://example.invalid/linux-other");
}

#[test]
fn github_adapter_narrows_by_the_specific_name_pattern() {
    let adapter =
        GithubReleasesAdapter::new("tool".to_string(), "owner".to_string(), Some("^tool-"))
            .unwrap();
    let info = download_info();
    let asset = adapter
        .find_version_for_platform(&info, &CurrentOperatingSystem::Linux, &CpuArchitecture::X64)
        .unwrap();
    assert_eq!(asset.name, "tool-1.9.1-linux-x86_64.zip");

    let mac = adapter
        .find_version_for_platform(&info, &CurrentOperatingSystem::MacOS, &CpuArchitecture::Arm64)
        .unwrap();
    assert_eq!(mac.name, "tool-1.9.1-macos-arm64.zip");
}

#[test]
fn github_adapter_reports_when_nothing_matches() {
    let adapter =
        GithubReleasesAdapter::new("tool".to_string(), "owner".to_string(), None).unwrap();
    let info = download_info();
    // No macOS x86_64 asset exists in this release.
    let r = adapter.find_version_for_platform(
        &info,
        &CurrentOperatingSystem::MacOS,
        &CpuArchitecture::X64,
    );
    assert!(matches!(r, Err(BinaryError::NoMatchingAsset)));
}

#[test]
fn github_adapter_rejects_a_malformed_specific_pattern() {
    let r = GithubReleasesAdapter::new("tool".to_string(), "owner".to_string(), Some("tool("));
    assert!(matches!(r, Err(BinaryError::UnsupportedPattern)));
}

#[test]
fn xmrig_adapter_picks_the_engine_asset_per_platform() {
    let adapter = XmrigVersionApiAdapter {};
    let info = VersionDownloadInfo {
        version: "6.22.0".to_string(),
        assets: vec![
            VersionAsset {
                name: "xmrig-6.22.0-macos-x64.tar.gz".to_string(),
                url: "https://example.invalid/mac".to_string(),
            },
            VersionAsset {
                name: "xmrig-6.22.0-msvc-win64.zip".to_string(),
                url: "https://example.invalid/win".to_string(),
            },
            VersionAsset {
                name: "xmrig-6.22.0-linux-static-x64.tar.gz".to_string(),
                url: "https://example.invalid/linux".to_string(),
            },
        ],
    };
    let win = adapter
        .find_version_for_platform(&info, &CurrentOperatingSystem::Windows, &CpuArchitecture::X64)
        .unwrap();
    assert_eq!(win.name, "xmrig-6.22.0-msvc-win64.zip");
    let linux = adapter
        .find_version_for_platform(&info, &CurrentOperatingSystem::Linux, &CpuArchitecture::X64)
        .unwrap();
    assert_eq!(linux.url, "https://example.invalid/linux");
    let mac = adapter
        .find_version_for_platform(&info, &CurrentOperatingSystem::MacOS, &CpuArchitecture::X64)
        .unwrap();
    assert_eq!(mac.name, "xmrig-6.22.0-macos-x64.tar.gz");
}

#[test]
fn systray_item_keys_are_stable() {
    assert_eq!(SystrayItemId::CpuHashrate.to_str(), "cpu_hashrate");
    assert_eq!(SystrayItemId::GpuHashrate.to_str(), "gpu_hashrate");
    assert_eq!(SystrayItemId::CpuUsage.to_str(), "cpu_usage");
    assert_eq!(SystrayItemId::GpuUsage.to_str(), "gpu_usage");
    assert_eq!(SystrayItemId::EstimatedEarning.to_str(), "estimated_earning");
    assert_eq!(SystrayItemId::Show.to_str(), "show");
    assert_eq!(SystrayItemId::Hide.to_str(), "hide");
    assert_eq!(SystrayItemId::Minimize.to_str(), "minimize");
    assert_eq!(SystrayItemId::UnMinimize.to_str(), "unminimize");
}

#[test]
fn hardware_readers_report_their_platform_support() {
    let apple = AppleCpuParametersReader::new();
    assert!(apple.get_is_reader_implemented(&CurrentOperatingSystem::MacOS));
    assert!(!apple.get_is_reader_implemented(&CurrentOperatingSystem::Windows));
    assert!(!apple.get_is_reader_implemented(&CurrentOperatingSystem::Linux));

    let intel = IntelGpuReader::new();
    assert!(!intel.get_is_reader_implemented(&CurrentOperatingSystem::MacOS));
    assert!(!intel.get_is_reader_implemented(&CurrentOperatingSystem::Windows));
    assert!(!intel.get_is_reader_implemented(&CurrentOperatingSystem::Linux));
}
