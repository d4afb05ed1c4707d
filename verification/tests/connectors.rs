use micasa::error::MicasaError;
use micasa::package_manager::apt::AptWrapper;
use micasa::package_manager::brew::BrewWrapper;
use micasa::package_manager::candidates::{
    choose_info, installed_candidate, removal_target, Answer, Facts,
};
use micasa::package_manager::dnf::DnfWrapper;
use micasa::package_manager::elevation;
use micasa::package_manager::tool_install_commands;
use micasa::package_manager::npm::NpmWrapper;
use micasa::package_manager::setup::{SetupAction, SetupEvent, ToolSetup};
use micasa::platform::ManagerKind::{Apt, Brew, Dnf, GitHub, Npm};
use micasa::platform::{
    detect_linux_distro, detect_os, get_available_managers, is_supported_os, OsType,
};

#[test]
fn apt_test_name() {
    let apt = AptWrapper::new();
    assert_eq!(apt.name(), "apt");
}

#[test]
fn test_parse_policy_installed() {
    let apt = AptWrapper::new();
    let output = "curl:\n  Installed: 7.81.0-1ubuntu1.18\n  Candidate: 7.81.0-1ubuntu1.18";
    let (installed, available) = apt.parse_policy_output(output);

    assert_eq!(installed, Some("7.81.0-1ubuntu1.18".to_string()));
    assert_eq!(available, Some("7.81.0-1ubuntu1.18".to_string()));
}

#[test]
fn test_parse_policy_not_installed() {
    let apt = AptWrapper::new();
    let output = "curl:\n  Installed: (none)\n  Candidate: 7.81.0-1ubuntu1.18";
    let (installed, available) = apt.parse_policy_output(output);

    assert_eq!(installed, None);
    assert_eq!(available, Some("7.81.0-1ubuntu1.18".to_string()));
}

#[test]
fn test_parse_show_description() {
    let apt = AptWrapper::new();
    let output =
        "Package: curl\nDescription: command line tool for transferring data\nHomepage: https://curl.se";
    let description = apt.parse_show_output(output);

    assert_eq!(
        description,
        Some("command line tool for transferring data".to_string())
    );
}

#[test]
fn test_parse_show_multiline() {
    let apt = AptWrapper::new();
    let output = "Package: curl\nDescription: command line tool\n  for transferring data with URL syntax\n  supporting various protocols\nHomepage: https://curl.se";
    let description = apt.parse_show_output(output);

    assert!(description.is_some());
    let desc = description.unwrap();
    assert!(desc.contains("command line tool"));
    assert!(desc.contains("for transferring data"));
}

#[test]
fn apt_show_joins_pieces_and_stops_at_the_next_field() {
    let apt = AptWrapper::new();
    let output = "Description-en: tool\n\tfor data\n more\nHomepage: x\n ignored";
    assert_eq!(
        apt.parse_show_output(output),
        Some("tool for data more".to_string())
    );
    assert_eq!(apt.parse_show_output("Package: curl\n indented"), None);
    assert_eq!(apt.parse_show_output(""), None);
    assert_eq!(
        apt.parse_show_output("Description: a: b\n c"),
        Some("a c".to_string())
    );
    assert_eq!(apt.parse_show_output("Description:\n c"), Some("c".to_string()));
}

#[test]
fn apt_policy_takes_the_last_value_and_skips_none() {
    let apt = AptWrapper::new();
    let output = "Installed: 1.0\nInstalled: (none)\nCandidate: 2.0\r\n  Candidate:   3.0  ";
    let (installed, available) = apt.parse_policy_output(output);
    assert_eq!(installed, Some("1.0".to_string()));
    assert_eq!(available, Some("3.0".to_string()));
    assert_eq!(apt.parse_policy_output(""), (None, None));
}

#[test]
fn apt_retries_on_permission_trouble_only() {
    let apt = AptWrapper::new();
    let failed = |stderr: &str| MicasaError::CommandFailed {
        status: "exit status: 100".to_string(),
        stderr: stderr.to_string(),
    };
    assert!(apt.retries_elevated(&failed("E: Could not open lock file /var/lib/dpkg/lock"), true));
    assert!(apt.retries_elevated(&failed("operation not permitted"), true));
    assert!(apt.retries_elevated(&failed("are you root? permission denied"), true));
    assert!(!apt.retries_elevated(&failed("permission denied"), false));
    assert!(!apt.retries_elevated(&failed("E: Unable to locate package"), true));
    assert!(!apt.retries_elevated(&failed("Permission denied"), true));
    assert!(!apt.retries_elevated(
        &MicasaError::CommandExecutionFailed("permission".to_string()),
        true
    ));
}

#[test]
fn apt_commands() {
    let apt = AptWrapper::new();
    assert_eq!(
        apt.command(false, "curl", false),
        vec!["apt-get", "install", "-y", "curl"]
    );
    assert_eq!(
        apt.command(true, "curl", true),
        vec!["sudo", "apt-get", "remove", "-y", "curl"]
    );
}

#[test]
fn brew_test_name() {
    let brew = BrewWrapper::new();
    assert_eq!(brew.name(), "brew");
}

#[test]
fn brew_candidates_facts_and_commands() {
    let brew = BrewWrapper::new();
    assert_eq!(brew.resolve_package_candidates("fd"), vec!["fd"]);
    let facts = brew.facts(
        "10.2.0".to_string(),
        Some("find".to_string()),
        &vec!["10.1.0".to_string(), "9.0.0".to_string()],
    );
    assert_eq!(facts.installed_version, Some("10.1.0".to_string()));
    assert_eq!(facts.available_version, Some("10.2.0".to_string()));
    assert_eq!(facts.description, Some("find".to_string()));
    let facts = brew.facts("10.2.0".to_string(), None, &vec![]);
    assert_eq!(facts.installed_version, None);
    assert_eq!(brew.info_command("fd"), vec!["brew", "info", "fd", "--json=v2"]);
    assert_eq!(brew.command(false, "fd"), vec!["brew", "install", "fd"]);
    assert_eq!(brew.command(true, "fd"), vec!["brew", "uninstall", "fd"]);
}

#[test]
fn dnf_test_name() {
    let dnf = DnfWrapper::new();
    assert_eq!(dnf.name(), "dnf");
}

#[test]
fn test_parse_info_not_installed() {
    let dnf = DnfWrapper::new();
    let output = "Available Packages\nName         : curl\nVersion      : 7.76.1\nRelease      : 8.amzn2023.0.2\nDescription  : command line tool for transferring data";
    let (installed, available, description) = dnf.parse_info_output(output);

    assert_eq!(installed, None);
    assert_eq!(available, Some("7.76.1-8.amzn2023.0.2".to_string()));
    assert_eq!(
        description,
        Some("command line tool for transferring data".to_string())
    );
}

#[test]
fn test_parse_info_installed() {
    let dnf = DnfWrapper::new();
    let output = "Available Packages\nName         : curl\nVersion      : 7.76.1\nRelease      : 8.amzn2023.0.2\nDescription  : newer version\n\nInstalled Packages\nName         : curl\nVersion      : 7.76.1\nRelease      : 7.amzn2023.0.1\nDescription  : command line tool";
    let (installed, available, description) = dnf.parse_info_output(output);

    assert_eq!(installed, Some("7.76.1-7.amzn2023.0.1".to_string()));
    assert_eq!(available, Some("7.76.1-8.amzn2023.0.2".to_string()));
    assert!(description.is_some());
}

#[test]
fn test_parse_info_with_multiline_description() {
    let dnf = DnfWrapper::new();
    let output = "Available Packages\nName         : curl\nVersion      : 7.76.1\nRelease      : 8.amzn2023.0.2\nDescription  : command line tool\n             : for transferring data\n             : with URL syntax";
    let (installed, available, description) = dnf.parse_info_output(output);

    assert_eq!(installed, None);
    assert_eq!(available, Some("7.76.1-8.amzn2023.0.2".to_string()));
    assert_eq!(
        description,
        Some("command line tool for transferring data with URL syntax".to_string())
    );
}

#[test]
fn test_parse_info_skip_metadata() {
    let dnf = DnfWrapper::new();
    let output = "Last metadata expiration check: 0:05:32 ago on Tue Dec 17 12:34:56 2024.\nAvailable Packages\nName         : curl\nVersion      : 7.76.1\nRelease      : 8.amzn2023.0.2\nDescription  : tool";
    let (installed, available, _) = dnf.parse_info_output(output);

    assert_eq!(installed, None);
    assert_eq!(available, Some("7.76.1-8.amzn2023.0.2".to_string()));
}

#[test]
fn dnf_info_keeps_the_first_description_and_versions_under_headings_only() {
    let dnf = DnfWrapper::new();
    let output = "Version : 0.1\nDescription : stray\n more\nInstalled Packages\nVersion : 1.0\nDescription : second";
    let (installed, available, description) = dnf.parse_info_output(output);
    assert_eq!(installed, Some("1.0".to_string()));
    assert_eq!(available, None);
    assert_eq!(description, Some("stray more".to_string()));

    let (installed, available, description) =
        dnf.parse_info_output("Available Packages\nRelease : 3\nURL : https://x");
    assert_eq!(installed, None);
    assert_eq!(available, None);
    assert_eq!(description, None);
    assert_eq!(dnf.parse_info_output(""), (None, None, None));
}

#[test]
fn dnf_candidates() {
    let dnf = DnfWrapper::new();
    assert_eq!(dnf.resolve_package_candidates("curl"), vec!["curl", "curl-minimal"]);
    assert_eq!(dnf.resolve_package_candidates("fd"), vec!["fd-find"]);
    assert_eq!(dnf.resolve_package_candidates("bat"), vec!["bat"]);
}

#[test]
fn dnf_retries_on_permission_trouble_only() {
    let dnf = DnfWrapper::new();
    let failed = |stderr: &str| MicasaError::CommandFailed {
        status: "exit status: 1".to_string(),
        stderr: stderr.to_string(),
    };
    assert!(dnf.retries_elevated(
        &failed("Error: This command has to be run with superuser privileges (under the root user on most systems)."),
        true
    ));
    assert!(dnf.retries_elevated(&failed("Cannot open /var/log/dnf.log"), true));
    assert!(dnf.retries_elevated(&failed("not permitted"), true));
    assert!(dnf.retries_elevated(&failed("permission"), true));
    assert!(!dnf.retries_elevated(&failed("lock file"), true));
    assert!(!dnf.retries_elevated(&failed("Cannot open"), false));
    assert!(!dnf.retries_elevated(&MicasaError::NoPackageManagers, true));
    assert_eq!(
        dnf.command(false, "fd-find", true),
        vec!["sudo", "dnf", "install", "-y", "fd-find"]
    );
    assert_eq!(dnf.command(true, "curl", false), vec!["dnf", "remove", "-y", "curl"]);
}

#[test]
fn npm_test_name() {
    let npm = NpmWrapper::new();
    assert_eq!(npm.name(), "npm");
}

#[test]
fn npm_is_always_available_and_acts_with_sudo() {
    let npm = NpmWrapper::new();
    assert!(npm.is_available());
    assert_eq!(
        npm.command(false, "typescript"),
        vec!["sudo", "npm", "install", "-g", "typescript"]
    );
    assert_eq!(
        npm.command(true, "typescript"),
        vec!["sudo", "npm", "uninstall", "-g", "typescript"]
    );
}

fn known(installed: Option<&str>, available: Option<&str>, description: Option<&str>) -> Answer {
    Answer::Known(Facts {
        installed_version: installed.map(|s| s.to_string()),
        available_version: available.map(|s| s.to_string()),
        description: description.map(|s| s.to_string()),
    })
}

#[test]
fn info_prefers_installed_then_available_then_the_first_failure() {
    let answers = vec![
        Answer::Failed(MicasaError::CommandExecutionFailed("first".to_string())),
        known(None, Some("8.0"), Some("plain")),
        known(Some("7.9"), Some("8.1"), Some("minimal")),
    ];
    let info = choose_info("curl", "dnf", &answers).unwrap();
    assert_eq!(info.name, "curl");
    assert_eq!(info.source, "dnf");
    assert_eq!(info.installed_version, Some("7.9".to_string()));
    assert_eq!(info.available_version, Some("8.1".to_string()));
    assert_eq!(info.description, Some("minimal".to_string()));
    assert_eq!(installed_candidate(&answers), Some(2));

    let answers = vec![
        Answer::Unreadable,
        known(None, None, Some("nothing")),
        known(None, Some("8.0"), None),
        known(None, Some("8.1"), Some("later")),
    ];
    let info = choose_info("curl", "brew", &answers).unwrap();
    assert_eq!(info.installed_version, None);
    assert_eq!(info.available_version, Some("8.0".to_string()));
    assert_eq!(info.description, None);
    assert_eq!(installed_candidate(&answers), None);

    let answers = vec![
        Answer::Unreadable,
        Answer::Failed(MicasaError::CommandExecutionFailed("first".to_string())),
        Answer::Failed(MicasaError::CommandExecutionFailed("second".to_string())),
    ];
    let err = choose_info("curl", "dnf", &answers).unwrap_err();
    assert!(matches!(err, MicasaError::CommandExecutionFailed(ref m) if m == "first"));

    let err = choose_info("curl", "dnf", &vec![Answer::Unreadable]).unwrap_err();
    assert!(
        matches!(err, MicasaError::CommandExecutionFailed(ref m) if m == "No information found for package: curl")
    );
    let err = choose_info("curl", "dnf", &vec![]).unwrap_err();
    assert!(matches!(err, MicasaError::CommandExecutionFailed(_)));
}

#[test]
fn operating_systems() {
    assert_eq!(detect_os("linux"), OsType::Linux);
    assert_eq!(detect_os("macos"), OsType::MacOS);
    assert_eq!(detect_os("windows"), OsType::Windows);
    assert!(is_supported_os("linux"));
    assert!(is_supported_os("macos"));
    assert!(is_supported_os("windows"));
    assert!(!is_supported_os("freebsd"));
    assert!(!is_supported_os("Linux"));
    assert!(!is_supported_os(""));
}

#[test]
fn distributions() {
    assert_eq!(
        detect_linux_distro("NAME=\"Ubuntu\"\nID=ubuntu\nID_LIKE=debian\n"),
        Some("ubuntu".to_string())
    );
    assert_eq!(
        detect_linux_distro("ID=\"amzn\"\nID=other"),
        Some("amzn".to_string())
    );
    assert_eq!(detect_linux_distro("ID= 'rocky' \r\n"), Some("rocky".to_string()));
    assert_eq!(detect_linux_distro("ID_LIKE=debian\nVERSION_ID=1"), None);
    assert_eq!(detect_linux_distro(" ID=fedora"), None);
    assert_eq!(detect_linux_distro("ID="), Some(String::new()));
}

#[test]
fn managers_by_platform() {
    assert_eq!(get_available_managers(OsType::MacOS, None), vec![Brew, GitHub, Npm]);
    assert_eq!(get_available_managers(OsType::Windows, Some("ubuntu")), vec![GitHub, Npm]);
    assert_eq!(get_available_managers(OsType::Linux, Some("ubuntu")), vec![Apt, GitHub, Npm]);
    assert_eq!(get_available_managers(OsType::Linux, Some("debian")), vec![Apt, GitHub, Npm]);
    for distro in ["amzn", "fedora", "rhel", "centos", "rocky", "almalinux"] {
        assert_eq!(
            get_available_managers(OsType::Linux, Some(distro)),
            vec![Dnf, GitHub, Npm]
        );
    }
    assert_eq!(
        get_available_managers(OsType::Linux, Some("arch")),
        vec![Apt, Dnf, GitHub, Npm]
    );
    assert_eq!(get_available_managers(OsType::Linux, None), vec![Apt, Dnf, GitHub, Npm]);
}

fn refused(stderr: &str) -> MicasaError {
    MicasaError::CommandFailed {
        status: "exit status: 1".to_string(),
        stderr: stderr.to_string(),
    }
}

#[test]
fn a_plain_run_that_succeeds_ends_the_attempt() {
    let a = elevation::Attempt::start(elevation::Tool::Apt);
    assert_eq!(a.action(), elevation::Action::Run { elevated: false });
    let a = a.step(elevation::Event::CanElevate(true));
    assert_eq!(a.action(), elevation::Action::Run { elevated: false });
    let a = a.step(elevation::Event::Succeeded);
    assert_eq!(a.action(), elevation::Action::Done);
    assert!(matches!(a.result(), Some(Ok(()))));
    assert!(elevation::Attempt::start(elevation::Tool::Dnf).result().is_none());
}

#[test]
fn a_refused_run_is_retried_once_with_elevation() {
    let a = elevation::Attempt::start(elevation::Tool::Apt);
    let a = a.step(elevation::Event::Failed(refused("Could not open lock file")));
    assert_eq!(a.action(), elevation::Action::Ask);
    let a = a.step(elevation::Event::CanElevate(true));
    assert_eq!(a.action(), elevation::Action::Run { elevated: true });
    let a = a.step(elevation::Event::Failed(refused("still no permission")));
    assert_eq!(a.action(), elevation::Action::Done);
    assert!(
        matches!(a.result(), Some(Err(MicasaError::CommandFailed { stderr, .. })) if stderr == "still no permission")
    );

    let a = elevation::Attempt::start(elevation::Tool::Dnf);
    let a = a.step(elevation::Event::Failed(refused("Cannot open log")));
    let a = a.step(elevation::Event::CanElevate(true));
    let a = a.step(elevation::Event::Succeeded);
    assert!(matches!(a.result(), Some(Ok(()))));
}

#[test]
fn the_first_failure_stands_without_cause_or_means() {
    let a = elevation::Attempt::start(elevation::Tool::Apt);
    let a = a.step(elevation::Event::Failed(refused("Cannot open log")));
    assert_eq!(a.action(), elevation::Action::Done);
    assert!(
        matches!(a.result(), Some(Err(MicasaError::CommandFailed { stderr, .. })) if stderr == "Cannot open log")
    );

    let a = elevation::Attempt::start(elevation::Tool::Dnf);
    let a = a.step(elevation::Event::Failed(refused("not permitted")));
    assert_eq!(a.action(), elevation::Action::Ask);
    let a = a.step(elevation::Event::Succeeded);
    assert_eq!(a.action(), elevation::Action::Ask);
    let a = a.step(elevation::Event::CanElevate(false));
    assert_eq!(a.action(), elevation::Action::Done);
    assert!(
        matches!(a.result(), Some(Err(MicasaError::CommandFailed { stderr, .. })) if stderr == "not permitted")
    );
}

#[test]
fn installers_of_a_missing_tool() {
    assert_eq!(
        tool_install_commands(&["nodejs", "npm"], "nodejs", "node"),
        vec![
            vec!["sudo", "apt-get", "install", "-y", "nodejs", "npm"],
            vec!["sudo", "dnf", "install", "-y", "nodejs"],
            vec!["sudo", "yum", "install", "-y", "nodejs"],
            vec!["sudo", "brew", "install", "node"],
        ]
    );
    assert_eq!(
        tool_install_commands(&["curl"], "curl", "curl")[0],
        vec!["sudo", "apt-get", "install", "-y", "curl"]
    );
}

#[test]
fn removal_targets() {
    let candidates = vec!["curl".to_string(), "curl-minimal".to_string()];
    let answers = vec![known(None, Some("8.0"), None), known(Some("7.9"), None, None)];
    assert_eq!(removal_target("curl", &candidates, &answers).unwrap(), "curl-minimal");
    let answers = vec![known(None, Some("8.0"), None), Answer::Unreadable];
    let err = removal_target("curl", &candidates, &answers).unwrap_err();
    assert!(
        matches!(err, MicasaError::CommandExecutionFailed(ref m) if m == "Package curl is not installed")
    );
    let answers = vec![Answer::Unreadable, Answer::Unreadable, known(Some("1"), None, None)];
    assert!(removal_target("curl", &candidates, &answers).is_err());
}

fn two_installers() -> Vec<Vec<String>> {
    tool_install_commands(&["curl"], "curl", "curl")
        .into_iter()
        .take(2)
        .collect()
}

#[test]
fn a_tool_that_starts_needs_no_installer() {
    let s = ToolSetup::start(two_installers());
    assert_eq!(s.action(), SetupAction::Probe);
    assert!(s.result("no").is_none());
    let s = s.step(SetupEvent::Ran(true));
    assert_eq!(s.action(), SetupAction::Probe);
    let s = s.step(SetupEvent::Starts(true));
    assert_eq!(s.action(), SetupAction::Done);
    assert!(matches!(s.result("no"), Some(Ok(()))));
    let s = s.step(SetupEvent::Starts(false));
    assert!(matches!(s.result("no"), Some(Ok(()))));
}

#[test]
fn installers_are_tried_in_order_until_the_tool_starts() {
    let s = ToolSetup::start(two_installers());
    assert_eq!(s.installers()[1], vec!["sudo", "dnf", "install", "-y", "curl"]);
    let s = s.step(SetupEvent::Starts(false));
    assert_eq!(s.action(), SetupAction::Run(0));
    let s = s.step(SetupEvent::Starts(true));
    assert_eq!(s.action(), SetupAction::Run(0));
    let s = s.step(SetupEvent::Ran(true));
    assert_eq!(s.action(), SetupAction::Probe);
    let s = s.step(SetupEvent::Starts(false));
    assert_eq!(s.action(), SetupAction::Run(1));
    let s = s.step(SetupEvent::Ran(true));
    assert_eq!(s.action(), SetupAction::Probe);
    let s = s.step(SetupEvent::Starts(true));
    assert_eq!(s.action(), SetupAction::Done);
    assert!(matches!(s.result("no"), Some(Ok(()))));
}

#[test]
fn a_setup_fails_when_no_installer_helps() {
    let s = ToolSetup::start(two_installers())
        .step(SetupEvent::Starts(false))
        .step(SetupEvent::Ran(false));
    assert_eq!(s.action(), SetupAction::Run(1));
    let s = s.step(SetupEvent::Ran(true));
    assert_eq!(s.action(), SetupAction::Probe);
    let s = s.step(SetupEvent::Starts(false));
    assert_eq!(s.action(), SetupAction::Done);
    assert!(
        matches!(s.result("Failed to install curl."), Some(Err(MicasaError::CommandExecutionFailed(m))) if m == "Failed to install curl.")
    );

    let s = ToolSetup::start(vec![]).step(SetupEvent::Starts(false));
    assert_eq!(s.action(), SetupAction::Done);
    assert!(matches!(s.result("none"), Some(Err(_))));
}
