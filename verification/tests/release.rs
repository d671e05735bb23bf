use harper_zed::error::ProvisionError;
use harper_zed::platform::{Architecture, ArchiveKind, Cpu, Os};
use harper_zed::release::{find_asset, Asset, Release};
use harper_zed::resolver::{plan_for, stale_entries, Plan};

fn asset(name: &str, url: &str) -> Asset {
    Asset {
        name: name.to_string(),
        download_url: url.to_string(),
    }
}

#[test]
fn find_asset_takes_the_exact_name() {
    let assets = vec![
        asset("harper-ls-aarch64-unknown-linux-gnu.tar.gz.sha256", "a"),
        asset("harper-ls-aarch64-unknown-linux-gnu.tar.gz", "b"),
        asset("Harper-ls-aarch64-unknown-linux-gnu.tar.gz", "c"),
    ];
    let name = "harper-ls-aarch64-unknown-linux-gnu.tar.gz".to_string();
    assert_eq!(find_asset(&assets, &name), Some(1));
}

#[test]
fn find_asset_takes_the_first_of_several() {
    let assets = vec![asset("x", "0"), asset("y", "1"), asset("y", "2")];
    assert_eq!(find_asset(&assets, &"y".to_string()), Some(1));
    assert_eq!(find_asset(&assets, &"x".to_string()), Some(0));
}

#[test]
fn find_asset_finds_nothing_in_an_empty_list() {
    assert_eq!(find_asset(&Vec::new(), &"x".to_string()), None);
    assert_eq!(find_asset(&vec![asset("y", "1")], &"x".to_string()), None);
}

#[test]
fn plan_takes_version_and_url_from_the_release() {
    let release = Release {
        version: "1.2.3".to_string(),
        assets: vec![
            asset("harper-ls-x86_64-apple-darwin.tar.gz", "https://example.test/intel"),
            asset("harper-ls-aarch64-apple-darwin.tar.gz", "https://example.test/arm"),
        ],
    };

    let plan = plan_for(Os::Mac, Cpu::Aarch64, release).unwrap();

    assert_eq!(
        plan,
        Plan {
            version: "1.2.3".to_string(),
            os: Os::Mac,
            download_url: "https://example.test/arm".to_string(),
        }
    );
    assert_eq!(plan.directory(), "harper-ls-1.2.3");
    assert_eq!(plan.binary_path(), "harper-ls-1.2.3/harper-ls");
}

#[test]
fn plan_fails_without_an_asset_for_the_platform() {
    let release = Release {
        version: "1.2.3".to_string(),
        assets: vec![asset("harper-ls-x86_64-apple-darwin.tar.gz", "u")],
    };

    assert_eq!(
        plan_for(Os::Windows, Cpu::X8664, release),
        Err(ProvisionError::NoCompatibleAsset {
            target: "x86_64-pc-windows-msvc".to_string()
        })
    );
}

#[test]
fn stale_entries_are_all_but_the_one_kept() {
    let names = vec![
        "harper-ls-1.0.0".to_string(),
        "harper-ls-1.2.3".to_string(),
        "readme".to_string(),
        "harper-ls-1.2.3".to_string(),
        "harper-ls-1.2.30".to_string(),
    ];

    let stale = stale_entries(&names, &"harper-ls-1.2.3".to_string());

    assert_eq!(
        stale,
        vec![
            "harper-ls-1.0.0".to_string(),
            "readme".to_string(),
            "harper-ls-1.2.30".to_string(),
        ]
    );
}

#[test]
fn stale_entries_of_nothing_are_nothing() {
    assert_eq!(
        stale_entries(&Vec::new(), &"harper-ls-1".to_string()),
        Vec::<String>::new()
    );
    assert_eq!(
        stale_entries(&vec!["harper-ls-1".to_string()], &"harper-ls-1".to_string()),
        Vec::<String>::new()
    );
}

#[test]
fn only_x86_has_no_release() {
    assert_eq!(Architecture::Aarch64.cpu(), Some(Cpu::Aarch64));
    assert_eq!(Architecture::X8664.cpu(), Some(Cpu::X8664));
    assert_eq!(Architecture::X86.cpu(), None);
}

#[test]
fn platform_tags() {
    assert_eq!(Cpu::Aarch64.target_tag(), "aarch64");
    assert_eq!(Cpu::X8664.target_tag(), "x86_64");
    assert_eq!(Os::Mac.target_tag(), "apple-darwin");
    assert_eq!(Os::Linux.target_tag(), "unknown-linux-gnu");
    assert_eq!(Os::Windows.target_tag(), "pc-windows-msvc");
}

#[test]
fn archives_are_zip_on_windows_only() {
    assert_eq!(Os::Mac.archive_kind(), ArchiveKind::GzipTar);
    assert_eq!(Os::Linux.archive_kind(), ArchiveKind::GzipTar);
    assert_eq!(Os::Windows.archive_kind(), ArchiveKind::Zip);
    assert_eq!(Os::Mac.archive_extension(), "tar.gz");
    assert_eq!(Os::Linux.archive_extension(), "tar.gz");
    assert_eq!(Os::Windows.archive_extension(), "zip");
    assert_eq!(Os::Windows.executable_suffix(), ".exe");
    assert_eq!(Os::Linux.executable_suffix(), "");
    assert_eq!(Os::Mac.executable_suffix(), "");
}
