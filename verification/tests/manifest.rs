use micasa::error::MicasaError;
use micasa::manifest::Manifest;

#[test]
fn test_parse_simple_package() {
    let content = "neovim";
    let entries = Manifest::parse_content(content).unwrap();

    assert_eq!(entries.len(), 1);
    assert_eq!(entries[0].name, "neovim");
    assert_eq!(entries[0].version_spec, None);
}

#[test]
fn test_parse_package_with_version() {
    let content = "neovim: >=0.11.5";
    let entries = Manifest::parse_content(content).unwrap();

    assert_eq!(entries.len(), 1);
    assert_eq!(entries[0].name, "neovim");
    assert_eq!(entries[0].version_spec, Some(">=0.11.5".to_string()));
}

#[test]
fn test_parse_multiple_packages() {
    let content = "\nneovim: >=0.11.5\ncurl\neza\nuv: ~=0.9.17\n";
    let entries = Manifest::parse_content(content).unwrap();

    assert_eq!(entries.len(), 4);
    assert_eq!(entries[0].name, "neovim");
    assert_eq!(entries[0].version_spec, Some(">=0.11.5".to_string()));
    assert_eq!(entries[1].name, "curl");
    assert_eq!(entries[1].version_spec, None);
    assert_eq!(entries[2].name, "eza");
    assert_eq!(entries[3].name, "uv");
}

#[test]
fn test_parse_with_comments() {
    let content = "\n# This is a comment\nneovim: >=0.11.5\n# Another comment\ncurl\n";
    let entries = Manifest::parse_content(content).unwrap();

    assert_eq!(entries.len(), 2);
    assert_eq!(entries[0].name, "neovim");
    assert_eq!(entries[1].name, "curl");
}

#[test]
fn test_parse_with_blank_lines() {
    let content = "\nneovim\n\n\ncurl\n";
    let entries = Manifest::parse_content(content).unwrap();

    assert_eq!(entries.len(), 2);
}

#[test]
fn test_parse_with_whitespace() {
    let content = "  neovim  :  >=0.11.5  ";
    let entries = Manifest::parse_content(content).unwrap();

    assert_eq!(entries.len(), 1);
    assert_eq!(entries[0].name, "neovim");
    assert_eq!(entries[0].version_spec, Some(">=0.11.5".to_string()));
}

#[test]
fn test_parse_compatible_release_operator() {
    let content = "chezmoi: ~=2.68.1";
    let entries = Manifest::parse_content(content).unwrap();

    assert_eq!(entries.len(), 1);
    assert_eq!(entries[0].name, "chezmoi");
    assert_eq!(entries[0].version_spec, Some("~=2.68.1".to_string()));
}

#[test]
fn test_parse_empty_content() {
    let content = "";
    let entries = Manifest::parse_content(content).unwrap();

    assert_eq!(entries.len(), 0);
}

#[test]
fn test_parse_only_comments() {
    let content = "\n# Comment 1\n# Comment 2\n";
    let entries = Manifest::parse_content(content).unwrap();

    assert_eq!(entries.len(), 0);
}

#[test]
fn parse_rejects_a_line_without_a_name() {
    let err = Manifest::parse_content("curl\n\n  : >=1.0\nfd").unwrap_err();
    assert!(matches!(err, MicasaError::ManifestParseError(_)));
    assert_eq!(
        err.message(),
        "Failed to parse manifest: Empty package name on line 3"
    );
}

#[test]
fn parse_counts_lines_beyond_nine() {
    let mut content = String::new();
    for _ in 0..11 {
        content.push_str("# filler\n");
    }
    content.push_str(":x\n");
    let err = Manifest::parse_content(&content).unwrap_err();
    assert_eq!(
        err.message(),
        "Failed to parse manifest: Empty package name on line 12"
    );
}

#[test]
fn parse_keeps_an_empty_constraint_and_later_colons() {
    let entries = Manifest::parse_content("fd:\nrg: a:b\r\n").unwrap();
    assert_eq!(entries.len(), 2);
    assert_eq!(entries[0].name, "fd");
    assert_eq!(entries[0].version_spec, Some(String::new()));
    assert_eq!(entries[1].name, "rg");
    assert_eq!(entries[1].version_spec, Some("a:b".to_string()));
}

#[test]
fn default_path_prefers_xdg_config_home() {
    assert_eq!(
        Manifest::get_default_path(Some("/xdg"), Some("/home/u")).unwrap(),
        "/xdg/micasa/micasa.txt"
    );
    assert_eq!(
        Manifest::get_default_path(None, Some("/home/u")).unwrap(),
        "/home/u/.config/micasa/micasa.txt"
    );
    assert_eq!(
        Manifest::get_default_path(None, Some("/home/u/")).unwrap(),
        "/home/u/.config/micasa/micasa.txt"
    );
    let err = Manifest::get_default_path(None, None).unwrap_err();
    assert_eq!(
        err.message(),
        "Manifest file not found at Unable to determine home directory"
    );
}

#[test]
fn read_from_path_reports_a_missing_file() {
    let err = Manifest::read_from_path("/nowhere/micasa.txt", None).unwrap_err();
    assert!(matches!(err, MicasaError::ManifestNotFound(ref p) if p == "/nowhere/micasa.txt"));

    let manifest = Manifest::read_from_path("/x", Some("curl\nfd: >=8\n")).unwrap();
    assert!(!manifest.is_empty());
    assert_eq!(manifest.entries().len(), 2);
    assert_eq!(manifest.entries()[1].name, "fd");

    let empty = Manifest::read_from_path("/x", Some("# nothing\n")).unwrap();
    assert!(empty.is_empty());
    assert_eq!(empty.entries().len(), 0);
}
