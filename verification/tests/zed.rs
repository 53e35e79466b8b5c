use tombi_ext::zed::{Architecture, DownloadedFileType, Os, ServerSource, TombiExtension};

#[test]
fn parses_release_versions() {
    assert_eq!(TombiExtension::parse_release_version("0.9.23"), Some((0, 9, 23)));
    assert_eq!(TombiExtension::parse_release_version("1.2.3-beta.1"), Some((1, 2, 3)));
    assert_eq!(TombiExtension::parse_release_version("1.2.3+build.5"), Some((1, 2, 3)));
    assert_eq!(TombiExtension::parse_release_version("1.2"), None);
    assert_eq!(TombiExtension::parse_release_version("1.2.3.4"), None);
    assert_eq!(TombiExtension::parse_release_version("1..3"), None);
    assert_eq!(TombiExtension::parse_release_version("a.b.c"), None);
    assert_eq!(
        TombiExtension::parse_release_version("18446744073709551615.0.0"),
        Some((u64::MAX, 0, 0))
    );
    assert_eq!(TombiExtension::parse_release_version("18446744073709551616.0.0"), None);
}

#[test]
fn legacy_unix_artifacts_end_before_0_9_23() {
    assert!(TombiExtension::uses_legacy_unix_artifact("0.9.22"));
    assert!(TombiExtension::uses_legacy_unix_artifact("0.8.99"));
    assert!(!TombiExtension::uses_legacy_unix_artifact("0.9.23"));
    assert!(!TombiExtension::uses_legacy_unix_artifact("1.0.0"));
    assert!(!TombiExtension::uses_legacy_unix_artifact("latest"));
}

#[test]
fn release_assets_are_named_per_platform() {
    assert_eq!(TombiExtension::release_tag_version("v0.9.23"), "0.9.23");
    assert_eq!(TombiExtension::release_tag_version("0.9.23"), "0.9.23");
    assert_eq!(
        TombiExtension::asset_name("0.9.23", Architecture::X8664, Os::Linux),
        "tombi-cli-0.9.23-x86_64-unknown-linux-musl.tar.gz"
    );
    assert_eq!(
        TombiExtension::asset_name("0.9.22", Architecture::Aarch64, Os::Mac),
        "tombi-cli-0.9.22-aarch64-apple-darwin.gz"
    );
    assert_eq!(
        TombiExtension::asset_name("0.9.22", Architecture::X86, Os::Windows),
        "tombi-cli-0.9.22-x86-pc-windows-msvc.zip"
    );
    assert_eq!(
        TombiExtension::downloaded_file_type(Os::Linux, "0.9.0"),
        DownloadedFileType::Gzip
    );
    assert_eq!(TombiExtension::version_dir("0.9.23"), "tombi-0.9.23");
    assert_eq!(TombiExtension::binary_name(Os::Windows), "tombi.exe");
    assert_eq!(TombiExtension::binary_name(Os::Mac), "tombi");
}

#[test]
fn newest_installed_binary_is_chosen() {
    assert_eq!(TombiExtension::installed_version("tombi-0.9.23"), Some((0, 9, 23)));
    assert_eq!(TombiExtension::installed_version("other-0.9.23"), None);
    assert_eq!(TombiExtension::installed_version("tombi-"), None);
    let candidates = vec![
        ((0, 9, 1), "a".to_string()),
        ((0, 10, 0), "b".to_string()),
        ((0, 10, 0), "c".to_string()),
        ((0, 2, 0), "d".to_string()),
    ];
    assert_eq!(TombiExtension::newest_installed(&candidates), Some("c".to_string()));
    assert_eq!(TombiExtension::newest_installed(&Vec::new()), None);
}

#[test]
fn server_arguments_default_to_lsp() {
    assert_eq!(TombiExtension::server_arguments(None), vec!["lsp".to_string()]);
    let configured = vec!["lsp".to_string(), "--offline".to_string()];
    assert_eq!(TombiExtension::server_arguments(Some(&configured)), configured);
}

#[test]
fn project_local_install_paths() {
    assert_eq!(TombiExtension::venv_binary_path(Os::Windows, "tombi.exe"), ".venv/Scripts/tombi.exe");
    assert_eq!(TombiExtension::venv_binary_path(Os::Linux, "tombi"), ".venv/bin/tombi");
    assert_eq!(
        TombiExtension::node_modules_binary_paths(Os::Windows, "tombi.exe"),
        vec![
            "node_modules/.bin/tombi.cmd".to_string(),
            "node_modules/.bin/tombi.ps1".to_string(),
            "node_modules/.bin/tombi.exe".to_string(),
        ]
    );
    assert_eq!(
        TombiExtension::node_modules_binary_paths(Os::Mac, "tombi"),
        vec!["node_modules/.bin/tombi".to_string()]
    );
}

#[test]
fn release_assets_and_install_paths() {
    let assets = vec![
        ("tombi-cli-0.9.23-x86_64-unknown-linux-musl.tar.gz".to_string(), "https://example.com/a".to_string()),
        ("tombi-cli-0.9.23-aarch64-apple-darwin.tar.gz".to_string(), "https://example.com/b".to_string()),
        ("tombi-cli-0.9.23-aarch64-apple-darwin.tar.gz".to_string(), "https://example.com/c".to_string()),
    ];
    assert_eq!(
        TombiExtension::find_asset(&assets, "tombi-cli-0.9.23-aarch64-apple-darwin.tar.gz").map(|s| s.as_str()),
        Some("https://example.com/b")
    );
    assert!(TombiExtension::find_asset(&assets, "tombi-cli-0.9.23-x86-pc-windows-msvc.zip").is_none());
    assert_eq!(TombiExtension::installed_binary_path("tombi-0.9.23", "tombi"), "tombi-0.9.23/tombi");
    assert_eq!(
        TombiExtension::extracted_binary_path("tombi-0.9.23", "tombi-cli-0.9.23-aarch64-apple-darwin", "tombi"),
        "tombi-0.9.23/tombi-cli-0.9.23-aarch64-apple-darwin/tombi"
    );
    let names = vec!["tombi-0.9.22".to_string(), "tombi-0.9.23".to_string(), "notes".to_string()];
    assert_eq!(
        TombiExtension::stale_entries(&names, "tombi-0.9.23"),
        vec!["tombi-0.9.22".to_string(), "notes".to_string()]
    );
}

#[test]
fn download_plans_follow_the_artifact_kind() {
    let assets = vec![
        (
            "tombi-cli-0.9.23-x86_64-unknown-linux-musl.tar.gz".to_string(),
            "https://example.com/linux.tar.gz".to_string(),
        ),
        (
            "tombi-cli-0.9.23-x86_64-pc-windows-msvc.zip".to_string(),
            "https://example.com/windows.zip".to_string(),
        ),
        ("tombi-cli-0.9.1-aarch64-apple-darwin.gz".to_string(), "https://example.com/mac.gz".to_string()),
    ];
    let linux = TombiExtension::plan_github_download("v0.9.23", &assets, Os::Linux, Architecture::X8664, "tombi").unwrap();
    assert_eq!(linux.version, "0.9.23");
    assert_eq!(linux.download_url, "https://example.com/linux.tar.gz");
    assert_eq!(linux.version_dir, "tombi-0.9.23");
    assert_eq!(linux.binary_path, "tombi-0.9.23/tombi");
    assert_eq!(linux.download_target, "tombi-0.9.23");
    assert_eq!(
        linux.extracted_binary,
        Some("tombi-0.9.23/tombi-cli-0.9.23-x86_64-unknown-linux-musl/tombi".to_string())
    );
    assert!(linux.make_executable);

    let windows = TombiExtension::plan_github_download("0.9.23", &assets, Os::Windows, Architecture::X8664, "tombi.exe").unwrap();
    assert_eq!(windows.file_type, DownloadedFileType::Zip);
    assert_eq!(windows.download_target, "tombi-0.9.23");
    assert!(windows.extracted_binary.is_none());
    assert!(!windows.make_executable);

    let mac = TombiExtension::plan_github_download("v0.9.1", &assets, Os::Mac, Architecture::Aarch64, "tombi").unwrap();
    assert_eq!(mac.file_type, DownloadedFileType::Gzip);
    assert_eq!(mac.download_target, "tombi-0.9.1/tombi");

    let missing = TombiExtension::plan_github_download("v1.0.0", &assets, Os::Linux, Architecture::X86, "tombi");
    assert_eq!(
        missing.unwrap_err(),
        "no asset found matching \"tombi-cli-1.0.0-x86-unknown-linux-musl.tar.gz\""
    );
}

#[test]
fn server_sources_are_tried_in_priority_order() {
    let mut order = vec![TombiExtension::first_server_source()];
    while let Some(next) = TombiExtension::next_server_source(*order.last().unwrap()) {
        order.push(next);
    }
    assert_eq!(
        order,
        vec![
            ServerSource::Configured,
            ServerSource::VirtualEnv,
            ServerSource::NodeModules,
            ServerSource::SearchPath,
            ServerSource::MemoryCache,
            ServerSource::Download,
            ServerSource::FileCache,
        ]
    );
    let remembered: Vec<bool> = order.iter().map(|s| TombiExtension::remembers_server_path(*s)).collect();
    assert_eq!(remembered, vec![false, false, false, false, true, true, true]);
}
