use xkeen_ui::release::{list_releases, listing_core, normalize_version, resolve_asset, Arch, Asset, Core, GithubRelease};
use xkeen_ui::update::UpdateError;

fn asset(name: &str, url: &str) -> Asset {
    Asset { file_name: name.to_string(), url: url.to_string() }
}

fn release(tag: &str, assets: Vec<Asset>) -> GithubRelease {
    GithubRelease {
        tag_name: tag.to_string(),
        name: format!("Release {}", tag),
        published_at: "2024-05-01T10:00:00Z".to_string(),
        prerelease: false,
        assets,
    }
}

#[test]
fn versions_are_normalized_with_a_leading_v() {
    assert_eq!(normalize_version("1.2.3"), "v1.2.3");
    assert_eq!(normalize_version("v1.2.3"), "v1.2.3");
    assert_eq!(normalize_version("alpha"), "alpha");
    assert_eq!(normalize_version(""), "");
}

#[test]
fn core_and_arch_names() {
    assert_eq!(Core::from_name("xray"), Some(Core::Xray));
    assert_eq!(Core::from_name("mihomo"), Some(Core::Mihomo));
    assert_eq!(Core::from_name("Xray"), None);
    assert_eq!(Core::Mihomo.name(), "mihomo");
    assert_eq!(Arch::from_name("aarch64"), Some(Arch::Arm64));
    assert_eq!(Arch::from_name("mipsle"), Some(Arch::MipsLe));
    assert_eq!(Arch::from_name("x86_64"), None);
}

#[test]
fn every_supported_pair_resolves_to_a_name() {
    for core in ["xray", "mihomo"] {
        for arch in ["aarch64", "mips", "mipsle"] {
            let a = resolve_asset(core, arch, "1.2.3", &None).unwrap();
            assert!(!a.file_name.is_empty());
            assert!(a.url.ends_with(&a.file_name));
        }
        for arch in ["x86_64", "arm", ""] {
            assert!(matches!(resolve_asset(core, arch, "1.2.3", &None), Err(UpdateError::UnsupportedArchitecture)));
        }
    }
}

#[test]
fn xray_assets_come_from_the_table() {
    let a = resolve_asset("xray", "mips", "1.8.4", &None).unwrap();
    assert_eq!(a.file_name, "Xray-linux-mips32.zip");
    assert_eq!(a.url, "https://github.com/XTLS/Xray-core/releases/download/v1.8.4/Xray-linux-mips32.zip");
    let b = resolve_asset("xray", "aarch64", "v1.8.4", &None).unwrap();
    assert_eq!(b.file_name, "Xray-linux-arm64-v8a.zip");
}

#[test]
fn mihomo_name_is_built_without_a_listing() {
    let a = resolve_asset("mihomo", "mipsle", "1.18.0", &None).unwrap();
    assert_eq!(a.file_name, "mihomo-linux-mipsle-hardfloat-v1.18.0.gz");
    assert_eq!(a.url, "https://github.com/MetaCubeX/mihomo/releases/download/v1.18.0/mihomo-linux-mipsle-hardfloat-v1.18.0.gz");
}

#[test]
fn mihomo_asset_is_taken_from_the_listing() {
    let listing = vec![
        release("v1.19.0", vec![asset("mihomo-linux-arm64-v1.19.0.gz", "https://dl/other")]),
        release("v1.18.0", vec![
            asset("mihomo-linux-arm64-v1.18.0.deb", "https://dl/deb"),
            asset("mihomo-linux-arm64-v1.18.0.gz", "https://dl/gz"),
            asset("mihomo-linux-arm64-alpha.gz", "https://dl/late"),
        ]),
    ];
    let a = resolve_asset("mihomo", "aarch64", "1.18.0", &Some(listing)).unwrap();
    assert_eq!(a.file_name, "mihomo-linux-arm64-v1.18.0.gz");
    assert_eq!(a.url, "https://dl/gz");
}

#[test]
fn mihomo_listing_without_a_fitting_asset_falls_back() {
    let listing = vec![release("v1.18.0", vec![asset("mihomo-linux-mips-softfloat-v1.18.0.zip", "https://dl/zip")])];
    let a = resolve_asset("mihomo", "mips", "1.18.0", &Some(listing)).unwrap();
    assert_eq!(a.file_name, "mihomo-linux-mips-hardfloat-v1.18.0.gz");
}

#[test]
fn unknown_core_has_no_asset() {
    assert!(matches!(resolve_asset("singbox", "aarch64", "1.0", &None), Err(UpdateError::AssetNotFound)));
}

#[test]
fn primary_listing_is_cut_to_ten_and_dates_shortened() {
    let rels: Vec<GithubRelease> = (0..12).map(|i| release(&format!("{}.0.0", 20 - i), vec![])).collect();
    let l = list_releases(Some(rels), Some(vec!["9.9.9".to_string()])).unwrap();
    assert_eq!(l.len(), 10);
    assert_eq!(l[0].version, "v20.0.0");
    assert_eq!(l[0].name, "Release 20.0.0");
    assert_eq!(l[0].published_at, "2024-05-01");
    assert_eq!(l[9].version, "v11.0.0");
}

#[test]
fn secondary_listing_synthesizes_names() {
    let l = list_releases(None, Some(vec!["1.8.4".to_string(), "v1.8.3".to_string()])).unwrap();
    assert_eq!(l.len(), 2);
    assert_eq!(l[0].version, "v1.8.4");
    assert_eq!(l[0].name, "Release 1.8.4");
    assert_eq!(l[0].published_at, "");
    assert!(!l[0].is_prerelease);
    assert_eq!(l[1].version, "v1.8.3");
}

#[test]
fn no_listing_at_all_is_an_error() {
    assert!(matches!(list_releases(None, None), Err(UpdateError::ReleaseLookupFailed)));
}

#[test]
fn listing_needs_a_known_core() {
    assert_eq!(listing_core("mihomo"), Ok(Core::Mihomo));
    assert_eq!(listing_core("clash"), Err(UpdateError::UnknownCore));
}

#[test]
fn listed_asset_without_an_address_is_skipped() {
    let listing = vec![release("v1.18.0", vec![
        asset("mihomo-linux-arm64-v1.18.0.gz", ""),
    ])];
    let a = resolve_asset("mihomo", "aarch64", "1.18.0", &Some(listing)).unwrap();
    assert_eq!(a.file_name, "mihomo-linux-arm64-v1.18.0.gz");
    assert_eq!(a.url, "https://github.com/MetaCubeX/mihomo/releases/download/v1.18.0/mihomo-linux-arm64-v1.18.0.gz");
}
