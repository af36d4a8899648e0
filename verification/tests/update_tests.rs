use truffle::commands::update::{
    binary_names, binary_note, explain, extract_archive, find_file_in_dir, is_newer, parse_version,
    plan_update, platform_asset, replace_binaries, replace_binary, report_update,
    strip_version_prefix, up_to_date_text, updated_text, ArchiveKind, ExitKind, GitHubAsset,
    GitHubRelease, Platform, ReplaceAction, ReplaceEvent, Trouble, UpdatePlan,
};

#[test]
fn test_platform_asset_returns_valid_name() {
    for p in [
        Platform::MacArm64,
        Platform::MacX64,
        Platform::LinuxX64,
        Platform::LinuxArm64,
        Platform::WindowsX64,
    ] {
        let name = platform_asset(p);
        assert!(
            name.starts_with("truffle-"),
            "Asset name should start with 'truffle-'"
        );
        assert!(
            name.ends_with(".tar.gz") || name.ends_with(".zip"),
            "Asset name should end with .tar.gz or .zip"
        );
    }
    assert_eq!(platform_asset(Platform::LinuxX64), "truffle-linux-x64.tar.gz");
    assert_eq!(platform_asset(Platform::WindowsX64), "truffle-win32-x64.zip");
}

#[test]
fn test_version_comparison_newer() {
    assert!(is_newer("0.3.0", "v0.4.0"));
    assert!(is_newer("0.3.0", "truffle-v0.3.1"));
    assert!(is_newer("0.3.0", "1.0.0"));
    assert!(is_newer("0.3.9", "0.4.0"));
    assert!(is_newer("1.2.3", "1.2.4"));
    assert!(is_newer("1.2.3", "1.3.0"));
    assert!(is_newer("1.2.3", "2.0.0"));
}

#[test]
fn test_version_comparison_not_newer() {
    assert!(!is_newer("0.3.0", "v0.3.0"));
    assert!(!is_newer("0.3.0", "truffle-v0.2.0"));
    assert!(!is_newer("1.0.0", "0.9.9"));
    assert!(!is_newer("0.3.0", "0.3.0"));
}

#[test]
fn test_version_comparison_invalid() {
    assert!(!is_newer("0.3.0", "invalid"));
    assert!(!is_newer("invalid", "0.3.0"));
    assert!(!is_newer("abc", "def"));
}

#[test]
fn test_parse_version_formats() {
    assert_eq!(parse_version("truffle-v0.3.0"), Some((0, 3, 0)));
    assert_eq!(parse_version("v1.2.3"), Some((1, 2, 3)));
    assert_eq!(parse_version("0.3.0"), Some((0, 3, 0)));
    assert_eq!(parse_version("invalid"), None);
    assert_eq!(parse_version("1.2"), None);
    assert_eq!(parse_version("1.2.3.4"), None);
}

#[test]
fn version_numbers_have_an_end_and_a_sign() {
    assert_eq!(parse_version("1.2.4294967295"), Some((1, 2, 4294967295)));
    assert_eq!(parse_version("1.2.4294967296"), None);
    assert_eq!(parse_version("1.+2.3"), Some((1, 2, 3)));
    assert_eq!(parse_version("1.-2.3"), None);
    assert_eq!(parse_version("1..3"), None);
    assert_eq!(parse_version("1.+.3"), None);
    assert_eq!(parse_version("vv1.2.3"), None);
}

#[test]
fn test_strip_version_prefix() {
    assert_eq!(strip_version_prefix("truffle-v0.3.0"), "0.3.0");
    assert_eq!(strip_version_prefix("v1.2.3"), "1.2.3");
    assert_eq!(strip_version_prefix("0.3.0"), "0.3.0");
}

fn asset(name: &str, size: u64) -> GitHubAsset {
    GitHubAsset {
        name: name.to_string(),
        browser_download_url: format!("https://example.test/{name}"),
        size,
    }
}

fn release(tag: &str) -> GitHubRelease {
    GitHubRelease {
        tag_name: tag.to_string(),
        assets: vec![asset("truffle-linux-x64.tar.gz", 7), asset("truffle-win32-x64.zip", 9)],
    }
}

#[test]
fn plan_is_up_to_date_update_or_not_found() {
    let same = plan_update("0.4.0", &release("truffle-v0.4.0"), "truffle-linux-x64.tar.gz");
    assert!(matches!(same, Ok(UpdatePlan::UpToDate)));

    let plan = plan_update("0.3.0", &release("truffle-v0.4.0"), "truffle-win32-x64.zip").unwrap();
    match &plan {
        UpdatePlan::Update { latest_version, asset } => {
            assert_eq!(latest_version, "0.4.0");
            assert_eq!(asset.size, 9);
            assert_eq!(asset.browser_download_url, "https://example.test/truffle-win32-x64.zip");
        }
        UpdatePlan::UpToDate => panic!("there is an update"),
    }
    let report = report_update("0.3.0", &plan);
    assert!(report.updated);
    assert_eq!((report.from.as_str(), report.to.as_str()), ("0.3.0", "0.4.0"));
    let report = report_update("0.3.0", &UpdatePlan::UpToDate);
    assert!(!report.updated);
    assert_eq!((report.from.as_str(), report.to.as_str()), ("0.3.0", "0.3.0"));

    let (kind, text) =
        plan_update("0.3.0", &release("v0.4.0"), "truffle-darwin-x64.tar.gz").unwrap_err();
    assert_eq!(kind, ExitKind::NotFound);
    assert_eq!(
        text,
        "No release asset found for this platform (truffle-darwin-x64.tar.gz). Available assets: \
         truffle-linux-x64.tar.gz, truffle-win32-x64.zip"
    );
}

#[test]
fn archives_are_told_apart_by_name() {
    assert_eq!(extract_archive("/tmp/a/truffle.tar.gz", false), Ok(ArchiveKind::TarGz));
    assert_eq!(extract_archive("/tmp/a/truffle.tgz", true), Ok(ArchiveKind::TarGz));
    assert_eq!(extract_archive("/tmp/a/truffle.zip", true), Ok(ArchiveKind::Zip));
    assert_eq!(
        extract_archive("/tmp/a/truffle.zip", false),
        Err("Zip extraction is only supported on Windows".to_string())
    );
    assert_eq!(
        extract_archive("/tmp/a/truffle.rar", false),
        Err("Unsupported archive format: truffle.rar".to_string())
    );
    assert_eq!(
        extract_archive("/", false),
        Err("Unsupported archive format: ".to_string())
    );
    assert_eq!(
        extract_archive("C:\\tmp\\truffle.rar", true),
        Err("Unsupported archive format: truffle.rar".to_string())
    );
}

#[test]
fn programs_are_looked_for_at_the_top_first() {
    let below = vec!["/x/bin".to_string(), "/x/lib/".to_string()];
    assert_eq!(
        find_file_in_dir("/x", &below, "truffle", false),
        vec!["/x/truffle", "/x/bin/truffle", "/x/lib/truffle"]
    );
    let below = vec!["C:\\x\\bin".to_string()];
    assert_eq!(
        find_file_in_dir("C:\\x", &below, "truffle.exe", true),
        vec!["C:\\x\\truffle.exe", "C:\\x\\bin\\truffle.exe"]
    );
}

#[test]
fn only_found_programs_are_replaced() {
    let plan = replace_binaries(
        &Some("/x/truffle".to_string()),
        &Some("/x/sidecar-slim".to_string()),
        "/opt/bin",
        false,
    );
    assert_eq!(plan.len(), 2);
    assert_eq!(plan[0].name, "truffle");
    assert_eq!(plan[0].new_binary, "/x/truffle");
    assert_eq!(plan[0].target, "/opt/bin/truffle");
    assert_eq!(plan[0].backup, "/opt/bin/truffle.bak");
    assert_eq!(plan[1].name, "sidecar-slim");
    let plan = replace_binaries(&None, &Some("s".to_string()), "C:", true);
    assert_eq!(plan.len(), 1);
    assert_eq!(plan[0].target, "C:sidecar-slim.exe");
    let plan = replace_binaries(&None, &Some("s".to_string()), "C:\\bin", true);
    assert_eq!(plan[0].backup, "C:\\bin\\sidecar-slim.exe.bak");
    assert_eq!(binary_names(true), ("truffle.exe", "sidecar-slim.exe"));
}

#[test]
fn a_program_is_backed_up_before_it_is_replaced() {
    let yes = ReplaceEvent::Yes;
    let no = ReplaceEvent::No;
    let mut at = ReplaceAction::LookTarget;
    let mut seen = vec![at];
    while at != ReplaceAction::Done {
        at = replace_binary(at, &yes, true, "truffle").unwrap();
        seen.push(at);
    }
    assert_eq!(
        seen,
        vec![
            ReplaceAction::LookTarget,
            ReplaceAction::BackUp,
            ReplaceAction::Install,
            ReplaceAction::SetMode,
            ReplaceAction::LookBackup,
            ReplaceAction::RemoveBackup,
            ReplaceAction::Done,
        ]
    );
    assert_eq!(
        replace_binary(ReplaceAction::LookTarget, &no, true, "truffle"),
        Ok(ReplaceAction::Install)
    );
    assert_eq!(
        replace_binary(ReplaceAction::Install, &yes, false, "truffle"),
        Ok(ReplaceAction::LookBackup)
    );
    for (action, text) in [
        (ReplaceAction::BackUp, "Failed to back up truffle: disk full"),
        (ReplaceAction::Install, "Failed to install truffle: disk full"),
        (ReplaceAction::SetMode, "Failed to set permissions on truffle: disk full"),
    ] {
        let failed = ReplaceEvent::Failed("disk full".to_string());
        assert_eq!(replace_binary(action, &failed, true, "truffle"), Err(text.to_string()));
    }
}

#[test]
fn update_texts() {
    assert_eq!(explain(Trouble::Fetch, "no route"), "Failed to fetch latest release: no route");
    assert_eq!(explain(Trouble::TempDir, "x"), "Failed to create temp directory: x");
    assert_eq!(up_to_date_text("0.3.0"), "Already up to date (v0.3.0)");
    assert_eq!(updated_text("0.3.0", "0.4.0"), "Updated truffle v0.3.0 -> v0.4.0");
    let note = binary_note(true, false);
    assert!(!note.pass);
    assert_eq!((note.label, note.detail), ("sidecar binary", "not found in archive (skipped)"));
    let note = binary_note(false, true);
    assert!(note.pass);
    assert_eq!((note.label, note.detail), ("Updated truffle binary", ""));
}
