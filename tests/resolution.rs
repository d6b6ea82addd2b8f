use rumdl_zed::platform::{asset_name, binary_path, download_kind, version_dir, Architecture, DownloadKind, Os};
use rumdl_zed::release::{find_asset, starts_with, stale_version_dirs, Asset, Release};
use rumdl_zed::resolver::{plan_install, Answer, Phase, Query, ResolveError, RumdlExtension};

fn release(version: &str, names: &[&str]) -> Release {
    Release {
        version: version.to_string(),
        assets: names
            .iter()
            .map(|n| Asset { name: n.to_string(), download_url: format!("https://example.invalid/{n}") })
            .collect(),
    }
}

fn strings(v: &[&str]) -> Vec<String> {
    v.iter().map(|s| s.to_string()).collect()
}

fn resolved(q: &Query) -> Option<String> {
    match q {
        Query::Resolved(p) => Some(p.clone()),
        _ => None,
    }
}

#[test]
fn test_new_extension_initial_state() {
    let ext = RumdlExtension::new();
    assert!(
        ext.cached_binary_path.is_none(),
        "A new extension instance should have no cached binary path"
    );
    assert!(
        !ext.use_system_binary,
        "A new extension instance should not use system binary by default"
    );
}

#[test]
fn fresh_linux_install_downloads_and_cleans_up() {
    let mut ext = RumdlExtension::new();
    let (ph, q) = ext.begin();
    assert!(matches!(q, Query::ReadOverride));
    let (ph, q) = ext.advance(ph, Answer::Override(Ok(None)));
    match &q {
        Query::FindOnPath(name) => assert_eq!(name, "rumdl"),
        _ => panic!("expected a search path lookup"),
    }
    let (ph, q) = ext.advance(ph, Answer::OnPath(None));
    assert!(matches!(q, Query::FetchLatestRelease));
    let rel = release("1.2.0", &["rumdl-aarch64-apple-darwin.tar.gz", "rumdl-x86_64-unknown-linux-gnu.tar.gz"]);
    let (ph, q) = ext.advance(ph, Answer::Release(Ok(rel), Os::Linux, Architecture::X8664));
    match &q {
        Query::IsFile(p) => assert_eq!(p, "rumdl-1.2.0/rumdl"),
        _ => panic!("expected an install check"),
    }
    let (ph, q) = ext.advance(ph, Answer::IsFile(false));
    match &q {
        Query::Download { url, dir, kind } => {
            assert_eq!(url, "https://example.invalid/rumdl-x86_64-unknown-linux-gnu.tar.gz");
            assert_eq!(dir, "rumdl-1.2.0");
            assert_eq!(*kind, DownloadKind::GzipTar);
        }
        _ => panic!("expected a download"),
    }
    let (ph, q) = ext.advance(ph, Answer::Downloaded(Ok(())));
    match &q {
        Query::MakeExecutable(p) => assert_eq!(p, "rumdl-1.2.0/rumdl"),
        _ => panic!("expected a permission change"),
    }
    let (ph, q) = ext.advance(ph, Answer::MadeExecutable(Ok(())));
    assert!(matches!(q, Query::ListWorkingDir));
    let (ph, q) = ext.advance(ph, Answer::Listed(Ok(strings(&["rumdl-1.2.0", "extension.wasm"]))));
    match &q {
        Query::RemoveDirs(v) => assert!(v.is_empty()),
        _ => panic!("expected a cleanup"),
    }
    let (ph, q) = ext.advance(ph, Answer::Removed(Vec::new()));
    assert!(matches!(ph, Phase::Finished));
    assert_eq!(resolved(&q).as_deref(), Some("rumdl-1.2.0/rumdl"));
    assert_eq!(ext.cached_binary_path.as_deref(), Some("rumdl-1.2.0/rumdl"));
    assert!(!ext.use_system_binary);
}

#[test]
fn binary_on_search_path_needs_no_network() {
    let mut ext = RumdlExtension::new();
    let (ph, _) = ext.begin();
    let (ph, _) = ext.advance(ph, Answer::Override(Ok(None)));
    let (ph, q) = ext.advance(ph, Answer::OnPath(Some("/usr/local/bin/rumdl".to_string())));
    assert!(matches!(ph, Phase::Finished));
    assert_eq!(resolved(&q).as_deref(), Some("/usr/local/bin/rumdl"));
    assert_eq!(ext.cached_binary_path.as_deref(), Some("/usr/local/bin/rumdl"));
    assert!(ext.use_system_binary);
}

#[test]
fn valid_cache_is_returned_before_anything_else() {
    let mut ext = RumdlExtension::new();
    ext.cached_binary_path = Some("cached/rumdl".to_string());
    let (ph, q) = ext.begin();
    match &q {
        Query::IsFile(p) => assert_eq!(p, "cached/rumdl"),
        _ => panic!("expected a cache check"),
    }
    let (ph, q) = ext.advance(ph, Answer::IsFile(true));
    assert!(matches!(ph, Phase::Finished));
    assert_eq!(resolved(&q).as_deref(), Some("cached/rumdl"));
}

#[test]
fn invalid_cache_falls_back_to_settings() {
    let mut ext = RumdlExtension::new();
    ext.cached_binary_path = Some("gone/rumdl".to_string());
    let (ph, _) = ext.begin();
    let (ph, q) = ext.advance(ph, Answer::IsFile(false));
    assert!(matches!(q, Query::ReadOverride));
    let (_, q) = ext.advance(ph, Answer::Override(Err("bad settings".to_string())));
    match &q {
        Query::Failed(ResolveError::Configuration(m)) => assert_eq!(m, "bad settings"),
        _ => panic!("expected a configuration error"),
    }
    assert_eq!(ext.cached_binary_path.as_deref(), Some("gone/rumdl"));
}

#[test]
fn override_is_trusted_without_existence_check() {
    let mut ext = RumdlExtension::new();
    let (ph, _) = ext.begin();
    let (ph, q) = ext.advance(ph, Answer::Override(Ok(Some("/does/not/exist/rumdl".to_string()))));
    assert!(matches!(ph, Phase::Finished));
    assert_eq!(resolved(&q).as_deref(), Some("/does/not/exist/rumdl"));
    assert_eq!(ext.cached_binary_path.as_deref(), Some("/does/not/exist/rumdl"));
    assert!(ext.use_system_binary);
}

#[test]
fn empty_override_is_ignored() {
    let mut ext = RumdlExtension::new();
    let (ph, _) = ext.begin();
    let (_, q) = ext.advance(ph, Answer::Override(Ok(Some(String::new()))));
    assert!(matches!(q, Query::FindOnPath(_)));
    assert!(ext.cached_binary_path.is_none());
}

#[test]
fn second_resolution_reuses_the_first_result() {
    let mut ext = RumdlExtension::new();
    let (ph, _) = ext.begin();
    let (ph, _) = ext.advance(ph, Answer::Override(Ok(None)));
    let (_, q) = ext.advance(ph, Answer::OnPath(Some("/opt/rumdl".to_string())));
    let first = resolved(&q).unwrap();
    let (ph, q) = ext.begin();
    assert!(matches!(q, Query::IsFile(_)));
    let (_, q) = ext.advance(ph, Answer::IsFile(true));
    assert_eq!(resolved(&q).unwrap(), first);
}

#[test]
fn present_binary_skips_download() {
    let mut ext = RumdlExtension::new();
    let (ph, _) = ext.begin();
    let (ph, _) = ext.advance(ph, Answer::Override(Ok(None)));
    let (ph, _) = ext.advance(ph, Answer::OnPath(None));
    let rel = release("2.0.1", &["rumdl-aarch64-apple-darwin.tar.gz"]);
    let (ph, _) = ext.advance(ph, Answer::Release(Ok(rel), Os::Mac, Architecture::Aarch64));
    let (ph, q) = ext.advance(ph, Answer::IsFile(true));
    assert!(matches!(ph, Phase::Finished));
    assert_eq!(resolved(&q).as_deref(), Some("rumdl-2.0.1/rumdl"));
    assert_eq!(ext.cached_binary_path.as_deref(), Some("rumdl-2.0.1/rumdl"));
    assert!(!ext.use_system_binary);
}

#[test]
fn cleanup_removes_only_other_versions_and_ignores_failures() {
    let mut ext = RumdlExtension::new();
    let plan = plan_install(&release("1.2.0", &["rumdl-x86_64-unknown-linux-gnu.tar.gz"]), Os::Linux, Architecture::X8664)
        .ok()
        .unwrap();
    let (ph, q) = ext.advance(
        Phase::ListingWorkingDir(plan),
        Answer::Listed(Ok(strings(&["rumdl-1.0.0", "rumdl-1.2.0", "rumdl-1.1.0", "notes"]))),
    );
    match &q {
        Query::RemoveDirs(v) => assert_eq!(v, &strings(&["rumdl-1.0.0", "rumdl-1.1.0"])),
        _ => panic!("expected a cleanup"),
    }
    let (_, q) = ext.advance(ph, Answer::Removed(strings(&["rumdl-1.0.0"])));
    assert_eq!(resolved(&q).as_deref(), Some("rumdl-1.2.0/rumdl"));
}

#[test]
fn listing_failure_fails_resolution() {
    let mut ext = RumdlExtension::new();
    let plan = plan_install(&release("1.2.0", &["rumdl-x86_64-unknown-linux-gnu.tar.gz"]), Os::Linux, Architecture::X8664)
        .ok()
        .unwrap();
    let (_, q) = ext.advance(Phase::ListingWorkingDir(plan), Answer::Listed(Err("denied".to_string())));
    match &q {
        Query::Failed(e) => {
            assert!(matches!(e, ResolveError::DirectoryList(_)));
            assert_eq!(e.message(), "failed to list working directory denied");
        }
        _ => panic!("expected a failure"),
    }
    assert!(ext.cached_binary_path.is_none());
}

#[test]
fn missing_asset_names_the_expected_file() {
    let mut ext = RumdlExtension::new();
    let (ph, _) = ext.begin();
    let (ph, _) = ext.advance(ph, Answer::Override(Ok(None)));
    let (ph, _) = ext.advance(ph, Answer::OnPath(None));
    let rel = release("1.2.0", &["rumdl-x86_64-unknown-linux-gnu.tar.gz"]);
    let (_, q) = ext.advance(ph, Answer::Release(Ok(rel), Os::Windows, Architecture::X8664));
    match &q {
        Query::Failed(e) => {
            assert!(matches!(e, ResolveError::AssetNotFound(n) if n == "rumdl-x86_64-pc-windows-msvc.zip"));
            assert_eq!(e.message(), "no asset found matching rumdl-x86_64-pc-windows-msvc.zip");
        }
        _ => panic!("expected a missing asset"),
    }
}

#[test]
fn release_fetch_failure_fails_resolution() {
    let mut ext = RumdlExtension::new();
    let (_, q) = ext.advance(Phase::FetchingRelease, Answer::Release(Err("offline".to_string()), Os::Linux, Architecture::X86));
    match &q {
        Query::Failed(e) => {
            assert!(matches!(e, ResolveError::ReleaseFetch(_)));
            assert_eq!(e.message(), "offline");
        }
        _ => panic!("expected a failure"),
    }
}

#[test]
fn download_and_permission_failures_fail_resolution() {
    let mut ext = RumdlExtension::new();
    let rel = release("3.0.0", &["rumdl-x86-pc-windows-msvc.zip"]);
    let plan = plan_install(&rel, Os::Windows, Architecture::X86).ok().unwrap();
    assert_eq!(plan.binary_path, "rumdl-3.0.0/rumdl.exe");
    assert_eq!(plan.kind, DownloadKind::Zip);
    let (_, q) = ext.advance(Phase::Downloading(plan), Answer::Downloaded(Err("timeout".to_string())));
    match &q {
        Query::Failed(e) => assert_eq!(e.message(), "failed to download file: timeout"),
        _ => panic!("expected a download failure"),
    }
    let plan = plan_install(&rel, Os::Windows, Architecture::X86).ok().unwrap();
    let (_, q) = ext.advance(Phase::MarkingExecutable(plan), Answer::MadeExecutable(Err("eperm".to_string())));
    match &q {
        Query::Failed(e) => {
            assert!(matches!(e, ResolveError::Permission(_)));
            assert_eq!(e.message(), "eperm");
        }
        _ => panic!("expected a permission failure"),
    }
}

#[test]
fn asset_names_for_every_platform() {
    let cases = [
        (Os::Mac, Architecture::Aarch64, "rumdl-aarch64-apple-darwin.tar.gz"),
        (Os::Mac, Architecture::X86, "rumdl-x86-apple-darwin.tar.gz"),
        (Os::Mac, Architecture::X8664, "rumdl-x86_64-apple-darwin.tar.gz"),
        (Os::Linux, Architecture::Aarch64, "rumdl-aarch64-unknown-linux-gnu.tar.gz"),
        (Os::Linux, Architecture::X86, "rumdl-x86-unknown-linux-gnu.tar.gz"),
        (Os::Linux, Architecture::X8664, "rumdl-x86_64-unknown-linux-gnu.tar.gz"),
        (Os::Windows, Architecture::Aarch64, "rumdl-aarch64-pc-windows-msvc.zip"),
        (Os::Windows, Architecture::X86, "rumdl-x86-pc-windows-msvc.zip"),
        (Os::Windows, Architecture::X8664, "rumdl-x86_64-pc-windows-msvc.zip"),
    ];
    for (os, arch, expected) in cases {
        assert_eq!(asset_name(os, arch), expected);
    }
}

#[test]
fn install_layout_names() {
    assert_eq!(version_dir("0.0.150"), "rumdl-0.0.150");
    assert_eq!(binary_path("0.0.150", Os::Linux), "rumdl-0.0.150/rumdl");
    assert_eq!(binary_path("0.0.150", Os::Windows), "rumdl-0.0.150/rumdl.exe");
    assert_eq!(download_kind(Os::Mac), DownloadKind::GzipTar);
    assert_eq!(download_kind(Os::Windows), DownloadKind::Zip);
}

#[test]
fn asset_lookup_takes_first_exact_match() {
    let mut rel = release("1.0.0", &["rumdl-x86-apple-darwin.tar.gz.sha256", "rumdl-x86-apple-darwin.tar.gz"]);
    rel.assets.push(Asset { name: "rumdl-x86-apple-darwin.tar.gz".to_string(), download_url: "second".to_string() });
    assert_eq!(find_asset(&rel.assets, &"rumdl-x86-apple-darwin.tar.gz".to_string()), Some(1));
    assert_eq!(find_asset(&rel.assets, &"rumdl-x86".to_string()), None);
    assert_eq!(find_asset(&Vec::new(), &"rumdl".to_string()), None);
}

#[test]
fn stale_dirs_selection() {
    let entries = strings(&["rumdl-0.1.0", "rumdl", "rumdl-0.2.0", "xrumdl-0.1.0", "rumdl-0.2.0-rc"]);
    assert_eq!(
        stale_version_dirs(&entries, &"rumdl-0.2.0".to_string()),
        strings(&["rumdl-0.1.0", "rumdl-0.2.0-rc"])
    );
    assert!(stale_version_dirs(&Vec::new(), &"rumdl-0.2.0".to_string()).is_empty());
}

#[test]
fn prefix_test() {
    assert!(starts_with("rumdl-1", "rumdl-"));
    assert!(starts_with("abc", ""));
    assert!(!starts_with("rumd", "rumdl-"));
    assert!(!starts_with("rumdl_1", "rumdl-"));
}

#[test]
fn launch_command_environment_follows_binary_origin() {
    let env = vec![("PATH".to_string(), "/usr/bin".to_string())];
    let mut ext = RumdlExtension::new();
    let cmd = ext.launch_command("rumdl-1.2.0/rumdl".to_string(), env.clone());
    assert_eq!(cmd.command, "rumdl-1.2.0/rumdl");
    assert_eq!(cmd.args, vec!["server".to_string()]);
    assert!(cmd.env.is_empty());
    ext.use_system_binary = true;
    let cmd = ext.launch_command("/usr/local/bin/rumdl".to_string(), env.clone());
    assert_eq!(cmd.args, vec!["server".to_string()]);
    assert_eq!(cmd.env, env);
}

#[test]
fn phase_accepts_only_its_answer() {
    assert!(Phase::CheckingCache.accepts(&Answer::IsFile(true)));
    assert!(!Phase::CheckingCache.accepts(&Answer::OnPath(None)));
    assert!(!Phase::Finished.accepts(&Answer::IsFile(true)));
    assert!(Phase::SearchingPath.accepts(&Answer::OnPath(None)));
}
