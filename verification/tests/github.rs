use micasa::error::MicasaError;
use micasa::package_manager::archive::{components_of, extraction_layout, shared_root_of};
use micasa::package_manager::github::{
    file_name_of, score_lowered, FileEntry, GitHubAsset, GitHubRelease, GitHubWrapper,
    UninstallStep,
};
use micasa::package_manager::installation::{Action, Event, Installation};
use micasa::package_manager::ledger::{InstallState, InstalledPackage};

fn strings(items: &[&str]) -> Vec<String> {
    items.iter().map(|s| s.to_string()).collect()
}

fn asset(name: &str) -> GitHubAsset {
    GitHubAsset {
        name: name.to_string(),
        browser_download_url: format!("https://example.invalid/{}", name),
    }
}

fn release(tag: &str) -> GitHubRelease {
    GitHubRelease {
        tag_name: tag.to_string(),
        assets: Vec::new(),
    }
}

#[test]
fn paths_of_the_connector() {
    let gh = GitHubWrapper::new("/home/u");
    assert_eq!(gh.name(), "github");
    assert!(gh.is_available());
    assert_eq!(gh.packages_dir(), "/home/u/.local/packages");
    assert_eq!(gh.bin_dir(), "/home/u/.local/bin");
    assert_eq!(
        gh.state_file(),
        "/home/u/.local/share/micasa/github-installed.json"
    );
    assert_eq!(gh.cache_dir(), "/home/u/.local/packages/.cache");
    assert_eq!(
        gh.archive_path("fd.tar.gz"),
        "/home/u/.local/packages/.cache/fd.tar.gz"
    );
    assert_eq!(gh.install_dir("fd", "10.2.0"), "/home/u/.local/packages/fd/10.2.0");
    assert_eq!(
        GitHubWrapper::release_url("sharkdp/fd"),
        "https://api.github.com/repos/sharkdp/fd/releases/latest"
    );
}

#[test]
fn registry_holds_the_known_packages() {
    let gh = GitHubWrapper::new("/home/u");
    let expected = [
        ("fd", "sharkdp/fd", vec!["fd"]),
        ("bat", "sharkdp/bat", vec!["bat"]),
        ("ripgrep", "BurntSushi/ripgrep", vec!["rg"]),
        ("eza", "eza-community/eza", vec!["eza"]),
        ("fzf", "junegunn/fzf", vec!["fzf"]),
        ("lazygit", "jesseduffield/lazygit", vec!["lazygit"]),
        ("chezmoi", "twpayne/chezmoi", vec!["chezmoi"]),
        ("neovim", "neovim/neovim", vec!["nvim"]),
        ("uv", "astral-sh/uv", vec!["uv", "uvx"]),
    ];
    for (name, repo, executables) in expected {
        let source = gh.lookup(name).unwrap();
        assert_eq!(source.repo, repo);
        assert_eq!(source.executables, executables);
    }
    assert!(gh.lookup("rg").is_none());
    assert!(gh.lookup("").is_none());
    assert!(gh.lookup("FD").is_none());
}

#[test]
fn version_of_a_tag() {
    let gh = GitHubWrapper::new("/h");
    assert_eq!(gh.parse_version("v1.2.3"), "1.2.3");
    assert_eq!(gh.parse_version("1.2.3"), "1.2.3");
    assert_eq!(gh.parse_version("vv1"), "v1");
    assert_eq!(gh.parse_version("v"), "");
    assert_eq!(gh.parse_version(""), "");
    assert_eq!(gh.parse_version("V1"), "V1");
}

#[test]
fn asset_scores() {
    let gh = GitHubWrapper::new("/h");
    assert_eq!(gh.score_asset("linux", "x86_64", "app-linux-x86_64.tar.gz"), 32);
    assert_eq!(gh.score_asset("linux", "x86_64", "app-darwin-arm64.tar.gz"), 2);
    assert_eq!(gh.score_asset("linux", "x86_64", "app-linux-x86_64-debug.tar.gz"), 22);
    assert_eq!(gh.score_asset("linux", "x86_64", "APP-LINUX-AMD64.TGZ"), 32);
    assert_eq!(gh.score_asset("linux", "aarch64", "fd-aarch64-unknown-linux-musl.zip"), 36);
    assert_eq!(gh.score_asset("linux", "aarch64", "fd-arm64-unknown-linux-gnu.tar.gz"), 35);
    assert_eq!(gh.score_asset("linux", "x86_64", "fd-musl-gnu"), 5);
    assert_eq!(gh.score_asset("macos", "aarch64", "app-darwin-arm64.tar.gz"), 32);
    assert_eq!(gh.score_asset("macos", "x86_64", "app-apple-musl.zip"), 21);
    assert_eq!(gh.score_asset("macos", "x86_64", "app-macOS.pkg"), 20);
    assert_eq!(gh.score_asset("windows", "x86_64", "app-windows-x86_64.zip"), 11);
    assert_eq!(gh.score_asset("linux", "riscv64", "debug"), -10);
    assert_eq!(gh.score_asset("freebsd", "mips", "checksums.txt"), 0);
    assert_eq!(score_lowered("linux", "x86_64", "APP-LINUX-X86_64.TAR.GZ"), 0);
}

#[test]
fn operating_system_outweighs_architecture() {
    let gh = GitHubWrapper::new("/h");
    let os_only = gh.score_asset("linux", "x86_64", "app-linux-arm64.tar.gz");
    let arch_only = gh.score_asset("linux", "x86_64", "app-darwin-x86_64.tar.gz");
    assert_eq!(os_only, 22);
    assert_eq!(arch_only, 12);
    assert!(os_only > arch_only);
    assert_eq!(gh.score_asset("linux", "x86_64", "app-linux-arm64"), 20);
    assert_eq!(gh.score_asset("linux", "x86_64", "app-x86_64-musl.tar.gz"), 17);
    assert_eq!(gh.score_asset("macos", "aarch64", "app-macos-x86_64.zip"), 21);
    assert_eq!(gh.score_asset("macos", "aarch64", "app-linux-aarch64.tar.gz"), 12);

    let assets = vec![
        asset("app-darwin-x86_64.tar.gz"),
        asset("app-linux-arm64.tar.gz"),
    ];
    assert_eq!(gh.best_asset_index("linux", "x86_64", &assets), Some(1));
    assert_eq!(gh.best_asset_index("macos", "aarch64", &assets), Some(0));
}

#[test]
fn best_asset_on_linux_x86_64() {
    let gh = GitHubWrapper::new("/h");
    let assets = vec![
        asset("app-linux-x86_64.tar.gz"),
        asset("app-darwin-arm64.tar.gz"),
        asset("app-linux-x86_64-debug.tar.gz"),
    ];
    let best = gh.find_best_asset("linux", "x86_64", &assets).unwrap();
    assert_eq!(best.name, "app-linux-x86_64.tar.gz");
    assert_eq!(gh.best_asset_index("linux", "x86_64", &assets), Some(0));
    assert_eq!(gh.best_asset_index("macos", "aarch64", &assets), Some(1));
}

#[test]
fn best_asset_takes_the_first_of_equals_and_needs_a_positive_score() {
    let gh = GitHubWrapper::new("/h");
    let assets = vec![
        asset("notes.txt"),
        asset("a-linux-x86_64.tar.gz"),
        asset("b-linux-x86_64.tar.gz"),
        asset("c-linux-amd64.tgz"),
    ];
    assert_eq!(gh.best_asset_index("linux", "x86_64", &assets), Some(1));
    let assets = vec![asset("notes.txt"), asset("debug.zip"), asset("sha256sums")];
    assert!(gh.find_best_asset("linux", "x86_64", &assets).is_none());
    assert!(gh.find_best_asset("linux", "x86_64", &[]).is_none());
}

#[test]
fn components_of_paths() {
    assert_eq!(components_of("pkg-1.0/bin/tool"), strings(&["pkg-1.0", "bin", "tool"]));
    assert_eq!(components_of("pkg-1.0/"), strings(&["pkg-1.0"]));
    assert_eq!(components_of("./a//b/./c/"), strings(&[".", "a", "b", "c"]));
    assert_eq!(components_of("/a/b"), strings(&["/", "a", "b"]));
    assert_eq!(components_of("a/../b"), strings(&["a", "..", "b"]));
    assert_eq!(components_of(""), strings(&[]));
    assert_eq!(components_of("/"), strings(&["/"]));
    assert_eq!(components_of("."), strings(&["."]));
    assert_eq!(components_of("a/."), strings(&["a"]));
}

#[test]
fn components_agree_with_the_standard_library() {
    let samples = [
        "", "/", ".", "..", "a", "a/", "/a", "./a", "a/.", "a/./b", "a//b", "//a", "a/..",
        "../a", "./", ".//", "/.", "/./a", "a/b/c.txt", ".hidden/x", "a/.b", "..a/b",
    ];
    for s in samples {
        let expected: Vec<String> = std::path::Path::new(s)
            .components()
            .map(|c| c.as_os_str().to_string_lossy().into_owned())
            .collect();
        assert_eq!(components_of(s), expected, "components of {:?}", s);
        let name = std::path::Path::new(s)
            .file_name()
            .map(|n| n.to_string_lossy().into_owned());
        assert_eq!(file_name_of(s), name, "file name of {:?}", s);
    }
}

#[test]
fn wrapped_archive_loses_its_top_directory() {
    let paths = strings(&[
        "pkg-1.0/",
        "pkg-1.0/README.md",
        "pkg-1.0/bin/",
        "pkg-1.0/bin/tool",
    ]);
    assert_eq!(
        extraction_layout(&paths).unwrap(),
        strings(&["", "README.md", "bin", "bin/tool"])
    );
}

#[test]
fn flat_or_mixed_archive_is_unchanged() {
    let flat = strings(&["tool", "README.md"]);
    assert_eq!(extraction_layout(&flat).unwrap(), flat);
    let mixed = strings(&["pkg-1.0/bin/tool", "LICENSE", "doc/manual.txt"]);
    assert_eq!(extraction_layout(&mixed).unwrap(), mixed);
    let single = strings(&["pkg-1.0/"]);
    assert_eq!(extraction_layout(&single).unwrap(), strings(&["pkg-1.0"]));
    assert_eq!(extraction_layout(&strings(&[])).unwrap(), strings(&[]));
    let same_top_flat = strings(&["tool", "tool"]);
    assert_eq!(extraction_layout(&same_top_flat).unwrap(), same_top_flat);
}

#[test]
fn shared_root_of_entries() {
    let entries = vec![strings(&["a", "b"]), strings(&[]), strings(&["a"])];
    assert_eq!(shared_root_of(&entries), Some("a".to_string()));
    let entries = vec![strings(&["a", "b"]), strings(&["c"])];
    assert_eq!(shared_root_of(&entries), None);
    let entries = vec![strings(&["a"]), strings(&["a"])];
    assert_eq!(shared_root_of(&entries), None);
    assert_eq!(shared_root_of(&vec![]), None);
    let entries = vec![strings(&[".", "a", "x"]), strings(&[".", "b"])];
    assert_eq!(shared_root_of(&entries), Some(".".to_string()));
}

#[test]
fn escaping_entries_are_refused() {
    for bad in ["../evil", "pkg/../../evil", "/etc/passwd", "pkg/.."] {
        let paths = strings(&["pkg/ok", bad, "/also/bad"]);
        let err = extraction_layout(&paths).unwrap_err();
        match err {
            MicasaError::ExtractionFailed(why) => {
                assert_eq!(why, format!("Unsafe path in archive: {}", bad))
            }
            other => panic!("unexpected error: {:?}", other),
        }
    }
    assert!(extraction_layout(&strings(&["a/..b", "a/...", "a/b.."])).is_ok());
}

fn file(path: &str, is_file: bool, mode: u32) -> FileEntry {
    FileEntry {
        path: path.to_string(),
        is_file,
        mode,
    }
}

#[test]
fn executables_are_found_by_name_kind_and_mode() {
    let gh = GitHubWrapper::new("/h");
    let files = vec![
        file("/p/uv/1/README.md", true, 0o644),
        file("/p/uv/1/uvx", true, 0o755),
        file("/p/uv/1/uv", true, 0o644),
        file("/p/uv/1/bin", false, 0o755),
        file("/p/uv/1/bin/uv", true, 0o100),
        file("/p/uv/1/bin/uv.sig", true, 0o755),
        file("/p/uv/1/bin/uvx", false, 0o777),
        file("/p/uv/1/bin/uvx/", true, 0o001),
    ];
    let found = gh.find_executables(&files, &strings(&["uv", "uvx"])).unwrap();
    assert_eq!(
        found,
        strings(&["/p/uv/1/uvx", "/p/uv/1/bin/uv", "/p/uv/1/bin/uvx/"])
    );
    let err = gh.find_executables(&files, &strings(&["fd"])).unwrap_err();
    assert!(matches!(err, MicasaError::NoExecutablesFound));
    assert_eq!(err.message(), "No executables found in extracted package");
    assert!(gh.find_executables(&vec![], &strings(&["fd"])).is_err());
    assert!(gh.find_executables(&files, &strings(&[])).is_err());
}

#[test]
fn links_are_named_after_the_executables() {
    let gh = GitHubWrapper::new("/home/u");
    let links = gh.create_symlinks(&strings(&["/p/uv/1/uvx", "/p/uv/1/bin/uv", "/p/.."]));
    assert_eq!(links.len(), 2);
    assert_eq!(links[0].link, "/home/u/.local/bin/uvx");
    assert_eq!(links[0].target, "/p/uv/1/uvx");
    assert_eq!(links[1].link, "/home/u/.local/bin/uv");
    assert_eq!(links[1].target, "/p/uv/1/bin/uv");
    assert!(gh.create_symlinks(&vec![]).is_empty());
}

fn record(version: &str) -> InstalledPackage {
    InstalledPackage {
        version: version.to_string(),
        source: "github".to_string(),
        install_path: format!("/p/fd/{}", version),
        symlinks: strings(&["/b/fd"]),
    }
}

#[test]
fn ledger_inserts_replaces_and_removes() {
    let mut state = InstallState::new();
    assert!(state.get("fd").is_none());
    assert!(state.remove("fd").is_none());
    assert!(state.records().is_empty());

    state.insert("fd".to_string(), record("1.0"));
    state.insert("bat".to_string(), record("0.24"));
    assert_eq!(state.get("fd").unwrap().version, "1.0");
    assert_eq!(state.records().len(), 2);

    state.insert("fd".to_string(), record("2.0"));
    assert_eq!(state.records().len(), 2);
    assert_eq!(state.get("fd").unwrap().version, "2.0");
    assert_eq!(state.get("bat").unwrap().version, "0.24");

    let removed = state.remove("fd").unwrap();
    assert_eq!(removed.version, "2.0");
    assert!(state.get("fd").is_none());
    assert_eq!(state.get("bat").unwrap().version, "0.24");
    assert_eq!(state.records().len(), 1);
    assert_eq!(state.records()[0].name, "bat");
}

#[test]
fn info_of_a_registered_package() {
    let gh = GitHubWrapper::new("/home/u");
    let mut state = InstallState::new();
    let info = gh.get_info("ripgrep", &state, &release("v14.1.0")).unwrap();
    assert_eq!(info.name, "ripgrep");
    assert_eq!(info.installed_version, None);
    assert_eq!(info.available_version, Some("14.1.0".to_string()));
    assert_eq!(info.description, Some("GitHub: BurntSushi/ripgrep".to_string()));
    assert_eq!(info.source, "github");

    gh.install(
        &mut state,
        "ripgrep",
        "14.0.0".to_string(),
        gh.install_dir("ripgrep", "14.0.0"),
        strings(&["/home/u/.local/bin/rg"]),
    );
    let stored = state.get("ripgrep").unwrap();
    assert_eq!(stored.version, "14.0.0");
    assert_eq!(stored.source, "github");
    assert_eq!(stored.install_path, "/home/u/.local/packages/ripgrep/14.0.0");
    assert_eq!(stored.symlinks, strings(&["/home/u/.local/bin/rg"]));
    let info = gh.get_info("ripgrep", &state, &release("14.1.0")).unwrap();
    assert_eq!(info.installed_version, Some("14.0.0".to_string()));
    assert_eq!(info.available_version, Some("14.1.0".to_string()));

    let err = gh.get_info("unknown", &state, &release("v1")).unwrap_err();
    assert!(matches!(err, MicasaError::PackageNotFound(ref n) if n == "unknown"));
}

#[test]
fn uninstall_then_info_reports_no_installed_version() {
    let gh = GitHubWrapper::new("/home/u");
    let mut state = InstallState::new();
    gh.install(
        &mut state,
        "uv",
        "0.9.17".to_string(),
        gh.install_dir("uv", "0.9.17"),
        strings(&["/home/u/.local/bin/uv", "/home/u/.local/bin/uvx"]),
    );
    let steps = gh.uninstall(&state, "uv").unwrap();
    assert_eq!(steps.len(), 5);
    assert!(matches!(&steps[0], UninstallStep::RemoveLink(p) if p == "/home/u/.local/bin/uv"));
    assert!(matches!(&steps[1], UninstallStep::RemoveLink(p) if p == "/home/u/.local/bin/uvx"));
    assert!(
        matches!(&steps[2], UninstallStep::RemoveTree(p) if p == "/home/u/.local/packages/uv/0.9.17")
    );
    assert!(matches!(&steps[3], UninstallStep::Forget(n) if n == "uv"));
    assert!(matches!(&steps[4], UninstallStep::Persist));
    for step in steps {
        if let UninstallStep::Forget(name) = step {
            assert!(state.remove(&name).is_some());
        }
    }
    let info = gh.get_info("uv", &state, &release("v0.9.20")).unwrap();
    assert_eq!(info.installed_version, None);
    assert_eq!(info.available_version, Some("0.9.20".to_string()));

    let err = gh.uninstall(&state, "uv").unwrap_err();
    assert!(matches!(err, MicasaError::PackageNotFound(ref n) if n == "uv"));
}

fn fd_release() -> GitHubRelease {
    GitHubRelease {
        tag_name: "v10.2.0".to_string(),
        assets: vec![
            asset("fd-v10.2.0-aarch64-apple-darwin.tar.gz"),
            asset("fd-v10.2.0-x86_64-unknown-linux-gnu.tar.gz"),
            asset("fd-v10.2.0-x86_64-unknown-linux-musl.tar.gz"),
        ],
    }
}

#[test]
fn installation_walks_through_its_steps() {
    let gh = GitHubWrapper::new("/home/u");
    let i = Installation::start(&gh, "fd", "linux", "x86_64");
    assert!(matches!(i.action(), Action::EnsureFetcher));
    let i = i.step(Event::Ready);
    match i.action() {
        Action::FetchRelease { repo, url } => {
            assert_eq!(repo, "sharkdp/fd");
            assert_eq!(url, "https://api.github.com/repos/sharkdp/fd/releases/latest");
        }
        other => panic!("unexpected action: {:?}", other),
    }
    let i = i.step(Event::Release(fd_release()));
    match i.action() {
        Action::Download { url, to } => {
            assert_eq!(
                url,
                "https://example.invalid/fd-v10.2.0-x86_64-unknown-linux-musl.tar.gz"
            );
            assert_eq!(
                to,
                "/home/u/.local/packages/.cache/fd-v10.2.0-x86_64-unknown-linux-musl.tar.gz"
            );
        }
        other => panic!("unexpected action: {:?}", other),
    }
    let i = i.step(Event::Ready);
    match i.action() {
        Action::Extract { archive, into } => {
            assert_eq!(
                archive,
                "/home/u/.local/packages/.cache/fd-v10.2.0-x86_64-unknown-linux-musl.tar.gz"
            );
            assert_eq!(into, "/home/u/.local/packages/fd/10.2.0");
        }
        other => panic!("unexpected action: {:?}", other),
    }
    let i = i.step(Event::Ready);
    match i.action() {
        Action::ListFiles { dir, bin } => {
            assert_eq!(dir, "/home/u/.local/packages/fd/10.2.0");
            assert_eq!(bin, "/home/u/.local/packages/fd/10.2.0/bin");
        }
        other => panic!("unexpected action: {:?}", other),
    }
    let i = i.step(Event::Files(vec![
        file("/home/u/.local/packages/fd/10.2.0/fd", true, 0o755),
        file("/home/u/.local/packages/fd/10.2.0/fd.1", true, 0o644),
    ]));
    assert!(matches!(i.action(), Action::Publish));
    assert_eq!(i.links().len(), 1);
    assert_eq!(i.links()[0].link, "/home/u/.local/bin/fd");
    assert_eq!(i.links()[0].target, "/home/u/.local/packages/fd/10.2.0/fd");
    assert!(i.ledger().is_none());
    let i = i.step(Event::Ready);
    assert!(matches!(i.action(), Action::LoadLedger));
    let mut before = InstallState::new();
    before.insert("fd".to_string(), record("9.0.0"));
    before.insert("bat".to_string(), record("0.24"));
    let i = i.step(Event::Ledger(before));
    assert!(matches!(i.action(), Action::SaveLedger));
    {
        let ledger = i.ledger().unwrap();
        assert_eq!(ledger.records().len(), 2);
        let fd = ledger.get("fd").unwrap();
        assert_eq!(fd.version, "10.2.0");
        assert_eq!(fd.source, "github");
        assert_eq!(fd.install_path, "/home/u/.local/packages/fd/10.2.0");
        assert_eq!(fd.symlinks, strings(&["/home/u/.local/bin/fd"]));
        assert_eq!(ledger.get("bat").unwrap().version, "0.24");
    }
    let i = i.step(Event::Ready);
    assert!(matches!(i.action(), Action::Done));
    assert!(matches!(i.result(), Some(Ok(()))));
}

#[test]
fn installation_fails_where_a_step_fails() {
    let gh = GitHubWrapper::new("/home/u");

    let i = Installation::start(&gh, "unknown", "linux", "x86_64").step(Event::Ready);
    assert!(matches!(i.action(), Action::Done));
    assert!(matches!(i.result(), Some(Err(MicasaError::PackageNotFound(n))) if n == "unknown"));

    let i = Installation::start(&gh, "fd", "linux", "x86_64")
        .step(Event::Failed(MicasaError::CommandExecutionFailed("no curl".to_string())));
    assert!(
        matches!(i.result(), Some(Err(MicasaError::CommandExecutionFailed(m))) if m == "no curl")
    );

    let i = Installation::start(&gh, "fd", "windows", "x86_64")
        .step(Event::Ready)
        .step(Event::Release(GitHubRelease {
            tag_name: "v1".to_string(),
            assets: vec![asset("fd.exe"), asset("notes.txt")],
        }));
    assert!(matches!(i.result(), Some(Err(MicasaError::NoSuitableAsset(p))) if p == "fd"));

    let i = Installation::start(&gh, "fd", "linux", "x86_64")
        .step(Event::Ready)
        .step(Event::Release(fd_release()))
        .step(Event::Ready)
        .step(Event::Ready)
        .step(Event::Files(vec![file("/x/README", true, 0o755)]));
    assert!(matches!(i.result(), Some(Err(MicasaError::NoExecutablesFound))));

    let i = Installation::start(&gh, "fd", "linux", "x86_64")
        .step(Event::Ready)
        .step(Event::Release(fd_release()))
        .step(Event::Ready)
        .step(Event::Ready)
        .step(Event::Files(vec![file("/x/fd", true, 0o755)]))
        .step(Event::Ready)
        .step(Event::Ledger(InstallState::new()))
        .step(Event::Failed(MicasaError::Io("disk full".to_string())));
    assert!(i.ledger().is_none());
    assert!(matches!(i.result(), Some(Err(MicasaError::Io(m))) if m == "disk full"));
}

#[test]
fn installation_ignores_what_answers_nothing() {
    let gh = GitHubWrapper::new("/home/u");
    let i = Installation::start(&gh, "fd", "linux", "x86_64");
    let i = i.step(Event::Release(fd_release()));
    assert!(matches!(i.action(), Action::EnsureFetcher));
    let i = i.step(Event::Ledger(InstallState::new()));
    assert!(matches!(i.action(), Action::EnsureFetcher));
    let i = i.step(Event::Ready).step(Event::Ready);
    assert!(matches!(i.action(), Action::FetchRelease { .. }));
    let i = i.step(Event::Files(vec![]));
    assert!(matches!(i.action(), Action::FetchRelease { .. }));
    assert!(Installation::start(&gh, "fd", "linux", "x86_64").result().is_none());
}
