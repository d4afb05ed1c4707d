use micasa::error::MicasaError;
use micasa::text::{
    char_is_whitespace, chars_of, contains_str, decimal_of, ends_with, find_char,
    first_chars, join_path_of, join_strings, lines_of, repeat, split_of, split_once, starts_with,
    str_eq, strip_prefix, trim_matches_of, trim_of, trim_start_of,
};

#[test]
fn whitespace_is_what_the_standard_library_calls_whitespace() {
    let mut n: u32 = 0;
    while n <= 0x10FFFF {
        if let Some(c) = char::from_u32(n) {
            assert_eq!(char_is_whitespace(c), c.is_whitespace(), "U+{:04X}", n);
        }
        n += 1;
    }
}

#[test]
fn trimming() {
    assert_eq!(trim_of("  a b \t\r\n"), "a b");
    assert_eq!(trim_of("\u{3000}x\u{a0}"), "x");
    assert_eq!(trim_of("   "), "");
    assert_eq!(trim_of(""), "");
    assert_eq!(trim_of("é"), "é");
    assert_eq!(trim_start_of("  a "), "a ");
    assert_eq!(trim_start_of("  "), "");
    assert_eq!(trim_matches_of("\"\"ubuntu\"", '"'), "ubuntu");
    assert_eq!(trim_matches_of("'a'b'", '\''), "a'b");
    assert_eq!(trim_matches_of("''", '\''), "");
}

#[test]
fn lines_like_the_standard_library() {
    let samples = [
        "", "\n", "a", "a\n", "a\nb", "a\r\nb\r\n", "a\rb", "a\r", "\r\n", "\n\n", "a\n\nb\n",
        "\r\r\n", "é\n\u{2028}x",
    ];
    for s in samples {
        let expected: Vec<&str> = s.lines().collect();
        assert_eq!(lines_of(s), expected, "lines of {:?}", s);
    }
}

#[test]
fn splitting_like_the_standard_library() {
    let samples = ["", "/", "a", "a/b", "/a/", "a//b", "//", "é/ü"];
    for s in samples {
        let expected: Vec<&str> = s.split('/').collect();
        assert_eq!(split_of(s, '/'), expected, "split of {:?}", s);
        assert_eq!(split_once(s, '/'), s.split_once('/'));
        assert_eq!(find_char(s, '/'), s.chars().position(|c| c == '/'));
    }
}

#[test]
fn searching() {
    assert!(contains_str("fd-v10-x86_64-unknown-linux-musl", "linux"));
    assert!(contains_str("linux", "linux"));
    assert!(contains_str("linux", ""));
    assert!(contains_str("", ""));
    assert!(!contains_str("linu", "linux"));
    assert!(!contains_str("", "x"));
    assert!(!contains_str("lin-ux", "linux"));
    assert!(contains_str("aab", "ab"));
    assert!(starts_with("Installed: 1", "Installed:"));
    assert!(!starts_with("Inst", "Installed:"));
    assert!(starts_with("x", ""));
    assert!(ends_with("a.tar.gz", ".tar.gz"));
    assert!(!ends_with("a.tar.gz.sha", ".tar.gz"));
    assert!(!ends_with("gz", ".tar.gz"));
    assert_eq!(strip_prefix("ID=ubuntu", "ID="), Some("ubuntu"));
    assert_eq!(strip_prefix("ID", "ID="), None);
    assert_eq!(strip_prefix("éa", "é"), Some("a"));
    assert!(str_eq("abc", "abc"));
    assert!(!str_eq("abc", "abd"));
    assert!(!str_eq("abc", "ab"));
    assert_eq!(chars_of("aé"), vec!['a', 'é']);
}

#[test]
fn building() {
    assert_eq!(micasa::text::concat("ab", "cd"), "abcd");
    assert_eq!(join_strings(&vec![], ", "), "");
    assert_eq!(join_strings(&vec!["a".to_string()], ", "), "a");
    assert_eq!(
        join_strings(&vec!["a".to_string(), "".to_string(), "c".to_string()], ", "),
        "a, , c"
    );
    assert_eq!(repeat("=", 3), "===");
    assert_eq!(repeat("ab", 0), "");
    assert_eq!(first_chars("héllo", 2), "hé");
    assert_eq!(first_chars("hi", 5), "hi");
    for n in [0u64, 1, 9, 10, 11, 99, 100, 12345, u64::MAX] {
        assert_eq!(decimal_of(n), n.to_string());
    }
}

#[test]
fn joining_paths_like_the_standard_library() {
    let bases = ["", "/", "/home/u", "/home/u/", "rel", "rel/"];
    let children = ["", ".local", "/abs", "a/b", "micasa.txt"];
    for b in bases {
        for c in children {
            let expected = std::path::Path::new(b).join(c);
            assert_eq!(
                join_path_of(b, c),
                expected.to_string_lossy(),
                "{:?} joined with {:?}",
                b,
                c
            );
        }
    }
}

#[test]
fn every_failure_has_its_sentence() {
    let s = |t: &str| t.to_string();
    let cases = vec![
        (
            MicasaError::PackageManagerNotAvailable(s("apt")),
            "Package manager 'apt' is not available on this system",
        ),
        (
            MicasaError::CommandExecutionFailed(s("boom")),
            "Failed to execute command: boom",
        ),
        (
            MicasaError::CommandFailed {
                status: s("exit status: 1"),
                stderr: s("no"),
            },
            "Command exited with status exit status: 1: no",
        ),
        (
            MicasaError::NoPackageManagers,
            "No package managers available on this platform",
        ),
        (
            MicasaError::JsonParseError(s("eof")),
            "Failed to parse JSON response: eof",
        ),
        (MicasaError::Io(s("denied")), "IO error: denied"),
        (MicasaError::Utf8(s("bad byte")), "UTF-8 conversion error: bad byte"),
        (
            MicasaError::ManifestNotFound(s("/x/micasa.txt")),
            "Manifest file not found at /x/micasa.txt",
        ),
        (
            MicasaError::ManifestParseError(s("line 1")),
            "Failed to parse manifest: line 1",
        ),
        (
            MicasaError::InvalidVersionSpec(s(">>1"), s("why")),
            "Invalid version specification '>>1': why",
        ),
        (
            MicasaError::NoSatisfactoryVersion(s("uv"), s(">=9")),
            "No package manager provides satisfactory version for 'uv'. Required: >=9",
        ),
        (
            MicasaError::PackageNotFound(s("zz")),
            "Package 'zz' not found in any available package manager",
        ),
        (
            MicasaError::NoSuitableAsset(s("fd")),
            "No suitable release asset found for fd on this platform",
        ),
        (
            MicasaError::NetworkFetchFailed(s("timeout")),
            "Network fetch failed: timeout",
        ),
        (
            MicasaError::ExtractionFailed(s("Unsafe path in archive: ../x")),
            "Archive extraction failed: Unsafe path in archive: ../x",
        ),
        (
            MicasaError::NoExecutablesFound,
            "No executables found in extracted package",
        ),
    ];
    for (error, sentence) in cases {
        assert_eq!(error.message(), sentence);
    }
}
