use openclaw_installer::detector::{
    blocking_set, catalog, check_all, check_dependencies, check_git, check_nodejs, check_npm,
    check_nvm, check_openclaw, check_xcode_tools, derive_status, get_git_install_command,
    names_of, probe, read_tools_label, DependencySpec, DependencyStatus, ProbeKind, ProbeReading,
    Query, QueryResult, NODE_MIN_MAJOR,
};
use openclaw_installer::executor::ProcessResult;
use openclaw_installer::platform::{Host, Platform};

fn printed(text: &str) -> QueryResult {
    QueryResult::Process(ProcessResult::Exited {
        success: true,
        stdout: text.to_string(),
        stderr: String::new(),
    })
}

fn exited_badly(text: &str) -> QueryResult {
    QueryResult::Process(ProcessResult::Exited {
        success: false,
        stdout: text.to_string(),
        stderr: "command not found".to_string(),
    })
}

fn unstarted() -> QueryResult {
    QueryResult::Process(ProcessResult::SpawnFailed { error: "No such file".to_string() })
}

fn host_on(platform: Platform) -> Host {
    Host { platform, home: Some("/home/u".to_string()), nvm_dir: None }
}

fn status(name: &str, required: bool, installed: bool, needs_update: bool) -> DependencyStatus {
    DependencyStatus {
        name: name.to_string(),
        display_name: name.to_uppercase(),
        required,
        required_version: "any".to_string(),
        current_version: if installed { Some("1".to_string()) } else { None },
        installed,
        needs_update,
        install_command: None,
    }
}

fn script_of(query: &Query) -> Vec<String> {
    match query {
        Query::Command(c) => {
            let mut all = vec![c.program.clone()];
            all.extend(c.args.iter().cloned());
            all
        }
        Query::PathExists(p) => vec!["exists".to_string(), p.clone()],
    }
}

#[test]
fn minimum_major_is_twenty_two() {
    assert_eq!(NODE_MIN_MAJOR, 22);
}

#[test]
fn catalog_order_on_linux() {
    let list = catalog(&host_on(Platform::Linux));
    let names: Vec<&str> = list.iter().map(|d| d.name.as_str()).collect();
    assert_eq!(names, vec!["openclaw", "nvm", "nodejs", "npm", "git"]);
}

#[test]
fn catalog_order_on_windows() {
    let list = catalog(&host_on(Platform::Windows));
    let names: Vec<&str> = list.iter().map(|d| d.name.as_str()).collect();
    assert_eq!(names, vec!["openclaw", "nvm", "nodejs", "npm", "git"]);
}

#[test]
fn catalog_lists_platform_tools_on_macos() {
    let list = catalog(&host_on(Platform::MacOs));
    let names: Vec<&str> = list.iter().map(|d| d.name.as_str()).collect();
    assert_eq!(names, vec!["openclaw", "nvm", "nodejs", "npm", "git", "xcode-tools"]);
}

#[test]
fn catalog_fixes_what_is_required() {
    let list = catalog(&host_on(Platform::MacOs));
    let required: Vec<bool> = list.iter().map(|d| d.required).collect();
    assert_eq!(required, vec![false, true, true, true, false, false]);
    let shown: Vec<&str> = list.iter().map(|d| d.display_name.as_str()).collect();
    assert_eq!(
        shown,
        vec![
            "OpenClaw",
            "nvm (Node Version Manager)",
            "Node.js",
            "npm",
            "Git",
            "Xcode Command Line Tools"
        ]
    );
    let versions: Vec<&str> = list.iter().map(|d| d.required_version.as_str()).collect();
    assert_eq!(versions, vec!["latest", "0.39+", "22+", "10+", "2.0+", "any"]);
    let minimum: Vec<Option<u32>> = list.iter().map(|d| d.min_major).collect();
    assert_eq!(minimum, vec![None, None, Some(22), None, None, None]);
    let activation: Vec<bool> = list.iter().map(|d| d.requires_shell_activation).collect();
    assert_eq!(activation, vec![true, false, true, true, false, false]);
}

#[test]
fn catalog_install_commands() {
    let list = catalog(&host_on(Platform::MacOs));
    let commands: Vec<Option<&str>> = list.iter().map(|d| d.install_command.as_deref()).collect();
    assert_eq!(
        commands,
        vec![
            None,
            Some("curl -o- https://raw.githubusercontent.com/nvm-sh/nvm/v0.39.7/install.sh | bash"),
            Some("nvm install 22 && nvm use 22 && nvm alias default 22"),
            None,
            Some("xcode-select --install"),
            Some("xcode-select --install"),
        ]
    );
}

#[test]
fn catalog_queries() {
    let list = catalog(&host_on(Platform::MacOs));
    let queries: Vec<Vec<Vec<String>>> =
        list.iter().map(|d| d.queries.iter().map(script_of).collect()).collect();
    let expected: Vec<Vec<Vec<&str>>> = vec![
        vec![vec![
            "bash",
            "-c",
            "source ~/.nvm/nvm.sh 2>/dev/null && openclaw --version 2>/dev/null || openclaw --version",
        ]],
        vec![vec!["exists", "/home/u/.nvm"]],
        vec![vec!["bash", "-c", "source ~/.nvm/nvm.sh 2>/dev/null && node --version"]],
        vec![vec!["bash", "-c", "source ~/.nvm/nvm.sh 2>/dev/null && npm --version"]],
        vec![vec!["git", "--version"]],
        vec![vec!["xcode-select", "-p"], vec!["xcode-select", "--version"]],
    ];
    assert_eq!(queries.len(), expected.len());
    for (got, want) in queries.iter().zip(expected.iter()) {
        assert_eq!(got.len(), want.len());
        for (g, w) in got.iter().zip(want.iter()) {
            assert_eq!(g, w);
        }
    }
}

#[test]
fn git_install_command_by_platform() {
    assert_eq!(get_git_install_command(Platform::MacOs), "xcode-select --install");
    assert_eq!(get_git_install_command(Platform::Windows), "winget install Git.Git");
    assert_eq!(get_git_install_command(Platform::Linux), "sudo apt-get install -y git");
    assert_eq!(
        DependencySpec::git(Platform::Linux).install_command,
        Some("sudo apt-get install -y git".to_string())
    );
}

#[test]
fn openclaw_found() {
    let s = check_openclaw(&vec![printed("🦞 OpenClaw 2026.2.14 (c1feda1) ready\n")]);
    assert_eq!(s.name, "openclaw");
    assert_eq!(s.display_name, "OpenClaw");
    assert!(!s.required);
    assert_eq!(s.required_version, "latest");
    assert_eq!(s.current_version, Some("2026.2.14".to_string()));
    assert!(s.installed);
    assert!(!s.needs_update);
    assert_eq!(s.install_command, None);
}

#[test]
fn openclaw_absent() {
    for r in [exited_badly("x y z"), unstarted()] {
        let s = check_openclaw(&vec![r]);
        assert!(!s.installed);
        assert_eq!(s.current_version, None);
        assert!(!s.needs_update);
    }
}

#[test]
fn nvm_is_found_by_its_directory() {
    let host = host_on(Platform::Linux);
    let there = check_nvm(&host, &vec![QueryResult::Path(true)]);
    assert!(there.installed);
    assert!(there.required);
    assert_eq!(there.current_version, Some("installed".to_string()));
    assert!(!there.needs_update);
    assert_eq!(there.required_version, "0.39+");
    let gone = check_nvm(&host, &vec![QueryResult::Path(false)]);
    assert!(!gone.installed);
    assert_eq!(gone.current_version, None);
}

#[test]
fn node_current() {
    let s = check_nodejs(&vec![printed("v22.3.0\n")]);
    assert!(s.installed);
    assert!(s.required);
    assert_eq!(s.current_version, Some("v22.3.0".to_string()));
    assert!(!s.needs_update);
    let newer = check_nodejs(&vec![printed("v23.0.0\n")]);
    assert!(!newer.needs_update);
}

#[test]
fn node_outdated() {
    let s = check_nodejs(&vec![printed("v21.9.9\n")]);
    assert!(s.installed);
    assert_eq!(s.current_version, Some("v21.9.9".to_string()));
    assert!(s.needs_update);
    let old = check_nodejs(&vec![printed("18.0.0")]);
    assert!(old.needs_update);
}

#[test]
fn node_with_unreadable_version_counts_as_outdated() {
    let s = check_nodejs(&vec![printed("vX.Y\n")]);
    assert!(s.installed);
    assert_eq!(s.current_version, Some("vX.Y".to_string()));
    assert!(s.needs_update);
    let empty = check_nodejs(&vec![printed("")]);
    assert!(empty.installed);
    assert!(empty.needs_update);
}

#[test]
fn node_absent_needs_no_update() {
    for r in [exited_badly("v22.3.0"), unstarted(), QueryResult::Path(false)] {
        let s = check_nodejs(&vec![r]);
        assert!(!s.installed);
        assert!(!s.needs_update);
        assert_eq!(s.current_version, None);
    }
    let nothing = check_nodejs(&vec![]);
    assert!(!nothing.installed);
    assert!(!nothing.needs_update);
}

#[test]
fn npm_version_is_the_trimmed_output() {
    let s = check_npm(&vec![printed(" 10.8.1 \n")]);
    assert!(s.installed);
    assert!(s.required);
    assert_eq!(s.current_version, Some("10.8.1".to_string()));
    assert!(!s.needs_update);
    let old = check_npm(&vec![printed("6.0.0\n")]);
    assert!(!old.needs_update);
}

#[test]
fn git_version_is_extracted() {
    let s = check_git(Platform::Linux, &vec![printed("git version 2.39.2\n")]);
    assert!(s.installed);
    assert!(!s.required);
    assert_eq!(s.current_version, Some("2.39.2".to_string()));
    assert_eq!(s.install_command, Some("sudo apt-get install -y git".to_string()));
    let odd = check_git(Platform::Windows, &vec![printed("something else")]);
    assert_eq!(odd.current_version, Some("Unknown".to_string()));
    assert_eq!(odd.install_command, Some("winget install Git.Git".to_string()));
}

#[test]
fn xcode_tools_label() {
    let s = check_xcode_tools(&vec![
        printed("/Library/Developer/CommandLineTools\n"),
        printed("xcode-select version 2384.\n"),
    ]);
    assert!(s.installed);
    assert_eq!(s.current_version, Some("installed (2384)".to_string()));
    assert_eq!(s.name, "xcode-tools");
}

#[test]
fn xcode_tools_without_version() {
    let path = "/Library/Developer/CommandLineTools\n";
    for second in [exited_badly("xcode-select version 1."), unstarted(), printed("two words")] {
        let s = check_xcode_tools(&vec![printed(path), second]);
        assert!(s.installed);
        assert_eq!(s.current_version, Some("installed".to_string()));
    }
    let alone = check_xcode_tools(&vec![printed(path)]);
    assert_eq!(alone.current_version, Some("installed".to_string()));
    let absent = check_xcode_tools(&vec![exited_badly(""), printed("xcode-select version 2384.")]);
    assert!(!absent.installed);
    assert_eq!(absent.current_version, None);
}

#[test]
fn tools_label_strips_all_final_dots() {
    assert_eq!(read_tools_label(&vec![printed("p"), printed("a b 12...")]), "installed (12)");
    assert_eq!(read_tools_label(&vec![printed("p"), printed("a b ...")]), "installed ()");
    assert_eq!(read_tools_label(&vec![printed("p")]), "installed");
}

#[test]
fn probe_reads_the_major_of_the_runtime_only() {
    let node = probe(ProbeKind::RuntimeVersion, &vec![printed("v20.1.0\n")]);
    assert!(node.installed);
    assert_eq!(node.raw_version, Some("v20.1.0".to_string()));
    assert_eq!(node.parsed_major, Some(20));
    let npm = probe(ProbeKind::PlainVersion, &vec![printed("10.1.0\n")]);
    assert_eq!(npm.parsed_major, None);
    let gone = probe(ProbeKind::RuntimeVersion, &vec![unstarted()]);
    assert!(!gone.installed);
    assert_eq!(gone.raw_version, None);
    assert_eq!(gone.parsed_major, None);
}

#[test]
fn derived_status_compares_with_the_entry_minimum() {
    let spec = DependencySpec::nodejs();
    let at = |major: Option<u32>| {
        derive_status(
            &spec,
            ProbeReading { installed: true, raw_version: Some("x".to_string()), parsed_major: major },
        )
        .needs_update
    };
    assert!(at(None));
    assert!(at(Some(0)));
    assert!(at(Some(21)));
    assert!(!at(Some(22)));
    assert!(!at(Some(4294967295)));
    let npm = DependencySpec::npm();
    let s = derive_status(
        &npm,
        ProbeReading { installed: true, raw_version: Some("1".to_string()), parsed_major: None },
    );
    assert!(!s.needs_update);
}

#[test]
fn every_status_keeps_the_invariant() {
    let answers = [
        printed("v22.1.0"),
        printed("v1.0.0"),
        printed("garbage"),
        printed(""),
        exited_badly("v22.1.0"),
        unstarted(),
        QueryResult::Path(true),
        QueryResult::Path(false),
    ];
    for platform in [Platform::MacOs, Platform::Windows, Platform::Linux] {
        let host = host_on(platform);
        let list = catalog(&host);
        for spec in list.iter() {
            for a in answers.iter() {
                for b in answers.iter() {
                    let results = vec![copy_answer(a), copy_answer(b)];
                    let s = spec.check(&results);
                    assert!(s.is_well_formed());
                    assert!(!s.needs_update || s.installed);
                    assert!(s.installed || s.current_version.is_none());
                }
            }
            let none = spec.check(&vec![]);
            assert!(none.is_well_formed());
            assert!(!none.installed);
        }
    }
}

fn copy_answer(a: &QueryResult) -> QueryResult {
    match a {
        QueryResult::Path(b) => QueryResult::Path(*b),
        QueryResult::Process(ProcessResult::SpawnFailed { error }) => {
            QueryResult::Process(ProcessResult::SpawnFailed { error: error.clone() })
        }
        QueryResult::Process(ProcessResult::Exited { success, stdout, stderr }) => {
            QueryResult::Process(ProcessResult::Exited {
                success: *success,
                stdout: stdout.clone(),
                stderr: stderr.clone(),
            })
        }
    }
}

#[test]
fn report_follows_the_catalog() {
    let host = host_on(Platform::MacOs);
    let outcomes = vec![
        vec![printed("🦞 OpenClaw 2026.2.14 (c1feda1)")],
        vec![QueryResult::Path(true)],
        vec![printed("v22.0.0\n")],
        vec![printed("10.0.0\n")],
        vec![printed("git version 2.40.0\n")],
        vec![printed("/x\n"), printed("xcode-select version 2400.\n")],
    ];
    let report = check_dependencies(&host, &outcomes);
    let names: Vec<&str> = report.iter().map(|d| d.name.as_str()).collect();
    assert_eq!(names, vec!["openclaw", "nvm", "nodejs", "npm", "git", "xcode-tools"]);
    let versions: Vec<Option<&str>> = report.iter().map(|d| d.current_version.as_deref()).collect();
    assert_eq!(
        versions,
        vec![
            Some("2026.2.14"),
            Some("installed"),
            Some("v22.0.0"),
            Some("10.0.0"),
            Some("2.40.0"),
            Some("installed (2400)")
        ]
    );
    assert!(report.iter().all(|d| d.installed && !d.needs_update));
    assert!(blocking_set(&report).is_empty());
}

#[test]
fn one_failed_probe_degrades_one_entry() {
    let host = host_on(Platform::Linux);
    let outcomes = vec![
        vec![unstarted()],
        vec![QueryResult::Path(true)],
        vec![unstarted()],
        vec![printed("10.0.0\n")],
        vec![exited_badly("")],
    ];
    let report = check_dependencies(&host, &outcomes);
    let installed: Vec<bool> = report.iter().map(|d| d.installed).collect();
    assert_eq!(installed, vec![false, true, false, true, false]);
}

#[test]
fn missing_answers_mean_not_installed() {
    let host = host_on(Platform::Linux);
    let short = vec![vec![printed("a b 1.0")], vec![QueryResult::Path(true)]];
    let report = check_dependencies(&host, &short);
    assert_eq!(report.len(), 5);
    let installed: Vec<bool> = report.iter().map(|d| d.installed).collect();
    assert_eq!(installed, vec![true, true, false, false, false]);
    let none = check_dependencies(&host, &vec![]);
    assert_eq!(none.len(), 5);
    assert!(none.iter().all(|d| !d.installed && d.current_version.is_none()));
}

#[test]
fn answers_beyond_the_catalog_are_ignored() {
    let list = vec![DependencySpec::npm()];
    let report = check_all(&list, &vec![vec![printed("1.0")], vec![printed("2.0")]]);
    assert_eq!(report.len(), 1);
    assert_eq!(report[0].current_version, Some("1.0".to_string()));
    assert!(check_all(&vec![], &vec![vec![printed("1.0")]]).is_empty());
}

#[test]
fn blocking_set_excludes_what_is_not_required() {
    let report = vec![
        status("a", false, false, false),
        status("b", false, true, true),
        status("c", false, true, false),
    ];
    assert!(blocking_set(&report).is_empty());
    assert!(report.iter().all(|d| !d.is_blocking()));
}

#[test]
fn blocking_set_includes_required_and_missing() {
    let report = vec![
        status("a", true, false, false),
        status("b", true, true, false),
        status("c", true, true, true),
        status("d", false, false, false),
        status("e", true, false, false),
    ];
    let blocking = blocking_set(&report);
    let names: Vec<&str> = blocking.iter().map(|d| d.name.as_str()).collect();
    assert_eq!(names, vec!["a", "c", "e"]);
    assert_eq!(names_of(&blocking), vec!["A", "C", "E"]);
}

#[test]
fn status_copy_is_equal() {
    let s = DependencyStatus {
        name: "n".to_string(),
        display_name: "N".to_string(),
        required: true,
        required_version: "1+".to_string(),
        current_version: Some("2".to_string()),
        installed: true,
        needs_update: false,
        install_command: Some("do".to_string()),
    };
    let d = s.duplicate();
    assert_eq!(d.name, "n");
    assert_eq!(d.display_name, "N");
    assert!(d.required);
    assert_eq!(d.required_version, "1+");
    assert_eq!(d.current_version, Some("2".to_string()));
    assert!(d.installed);
    assert!(!d.needs_update);
    assert_eq!(d.install_command, Some("do".to_string()));
}

#[test]
fn ill_formed_statuses_are_recognised() {
    let mut s = status("a", true, false, true);
    assert!(!s.is_well_formed());
    s.needs_update = false;
    assert!(s.is_well_formed());
    s.current_version = Some("1".to_string());
    assert!(!s.is_well_formed());
}
