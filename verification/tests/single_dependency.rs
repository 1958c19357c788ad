use openclaw_installer::dependency::{
    find_plan, install_git, install_single_dependency, DependencyInstall, DependencyStage,
};
use openclaw_installer::executor::ProcessResult;
use openclaw_installer::platform::Platform;
use openclaw_installer::progress::{ErrorKind, Event, ProgressStatus, Request};

fn done_well(stdout: &str) -> ProcessResult {
    ProcessResult::Exited { success: true, stdout: stdout.to_string(), stderr: String::new() }
}

fn done_badly(stderr: &str) -> ProcessResult {
    ProcessResult::Exited { success: false, stdout: String::new(), stderr: stderr.to_string() }
}

fn command_line(request: &Request) -> Vec<String> {
    match request {
        Request::Run(c) => {
            assert_eq!(c.working_dir, None);
            let mut all = vec![c.program.clone()];
            all.extend(c.args.iter().cloned());
            all
        }
        other => panic!("expected a command, got {:?}", other),
    }
}

#[test]
fn unknown_dependency_fails_before_anything_runs() {
    let step = install_single_dependency(DependencyInstall::new(Platform::Linux, "python"), Event::Start);
    assert!(step.events.is_empty());
    assert!(matches!(step.state.stage, DependencyStage::Failed { .. }));
    match &step.request {
        Request::Done(Err(e)) => {
            assert_eq!(e.kind, ErrorKind::UnknownDependencyName);
            assert_eq!(e.message, "未知依赖: python");
        }
        other => panic!("expected a failure, got {:?}", other),
    }
    let again = install_single_dependency(step.state, Event::Finished(done_well("")));
    assert!(again.events.is_empty());
    assert!(matches!(again.request, Request::Done(Err(_))));
}

#[test]
fn names_without_an_installer() {
    for name in ["openclaw", "npm", "", "NVM", "nvm ", "xcode"] {
        assert!(find_plan(Platform::MacOs, name).is_none(), "{}", name);
    }
    assert!(find_plan(Platform::Linux, "xcode-tools").is_none());
    assert!(find_plan(Platform::Windows, "xcode-tools").is_none());
    assert!(find_plan(Platform::MacOs, "xcode-tools").is_some());
}

#[test]
fn version_manager_is_installed_by_script() {
    let first = install_single_dependency(DependencyInstall::new(Platform::MacOs, "nvm"), Event::Start);
    assert_eq!(first.events.len(), 1);
    assert_eq!(first.events[0].step, "正在安装 nvm");
    assert_eq!(first.events[0].message, "正在安装 nvm");
    assert_eq!(first.events[0].status, ProgressStatus::Running);
    assert_eq!(first.events[0].progress, 0);
    assert_eq!(first.events[0].logs, vec!["安装 nvm (Node Version Manager)"]);
    assert_eq!(
        command_line(&first.request),
        vec![
            "bash",
            "-c",
            "curl -o- https://raw.githubusercontent.com/nvm-sh/nvm/v0.39.7/install.sh | bash"
        ]
    );
    let second = install_single_dependency(first.state, Event::Finished(done_well("ok")));
    assert_eq!(second.events.len(), 1);
    assert_eq!(second.events[0].step, "nvm 安装完成");
    assert_eq!(second.events[0].status, ProgressStatus::Success);
    assert_eq!(second.events[0].progress, 100);
    assert_eq!(
        second.events[0].logs,
        vec!["nvm 安装成功，请重启终端或运行 source ~/.nvm/nvm.sh"]
    );
    assert!(matches!(second.state.stage, DependencyStage::Done));
    match &second.request {
        Request::Done(Ok(text)) => assert_eq!(text, "nvm 安装完成"),
        other => panic!("expected success, got {:?}", other),
    }
}

#[test]
fn runtime_is_installed_through_the_version_manager() {
    let first = install_single_dependency(DependencyInstall::new(Platform::Linux, "nodejs"), Event::Start);
    assert_eq!(first.events[0].logs, vec!["通过 nvm 安装 Node.js 22"]);
    assert_eq!(
        command_line(&first.request),
        vec![
            "bash",
            "-c",
            "source ~/.nvm/nvm.sh && nvm install 22 && nvm use 22 && nvm alias default 22"
        ]
    );
    let second = install_single_dependency(first.state, Event::Finished(done_well("")));
    assert_eq!(second.events[0].step, "nodejs 安装完成");
    assert!(second.events[0].logs.is_empty());
}

#[test]
fn failed_install_reports_the_complaint() {
    for (result, complaint) in [
        (done_badly("curl: (6) Could not resolve host"), "curl: (6) Could not resolve host"),
        (ProcessResult::SpawnFailed { error: "No such file".to_string() }, "No such file"),
    ] {
        let first =
            install_single_dependency(DependencyInstall::new(Platform::Linux, "nvm"), Event::Start);
        let second = install_single_dependency(first.state, Event::Finished(result));
        assert_eq!(second.events.len(), 1);
        assert_eq!(second.events[0].status, ProgressStatus::Failed);
        assert_eq!(second.events[0].step, format!("安装失败: {}", complaint));
        assert_eq!(second.events[0].logs, vec![complaint]);
        assert_eq!(second.events[0].progress, 0);
        match &second.request {
            Request::Done(Err(e)) => {
                assert_eq!(e.kind, ErrorKind::InstallStepFailure);
                assert_eq!(e.message, format!("安装失败: {}", complaint));
            }
            other => panic!("expected a failure, got {:?}", other),
        }
        let third = install_single_dependency(second.state, Event::Finished(done_well("")));
        assert!(third.events.is_empty());
        assert!(matches!(third.request, Request::Done(Err(_))));
    }
}

#[test]
fn version_control_by_platform() {
    let mac = install_git(Platform::MacOs);
    assert_eq!(mac.command.program, "xcode-select");
    assert_eq!(mac.command.args, vec!["--install"]);
    assert_eq!(mac.notes, vec!["通过 Xcode Command Line Tools 安装 Git"]);
    assert_eq!(mac.done_notes, vec!["已触发 Xcode Command Line Tools 安装窗口，请按照提示操作"]);
    let win = install_git(Platform::Windows);
    assert_eq!(win.command.program, "winget");
    assert_eq!(win.command.args, vec!["install", "Git.Git"]);
    assert_eq!(win.notes, vec!["通过 winget 安装 Git"]);
    assert!(win.done_notes.is_empty());
    let linux = install_git(Platform::Linux);
    assert_eq!(linux.command.program, "sudo");
    assert_eq!(linux.command.args, vec!["apt-get", "install", "-y", "git"]);
    assert_eq!(linux.notes, vec!["通过 apt 安装 Git"]);
    let step = install_single_dependency(DependencyInstall::new(Platform::Windows, "git"), Event::Start);
    assert_eq!(command_line(&step.request), vec!["winget", "install", "Git.Git"]);
    assert_eq!(step.events[0].step, "正在安装 git");
}

#[test]
fn platform_tools_on_macos() {
    let first =
        install_single_dependency(DependencyInstall::new(Platform::MacOs, "xcode-tools"), Event::Start);
    assert_eq!(command_line(&first.request), vec!["xcode-select", "--install"]);
    assert_eq!(
        first.events[0].logs,
        vec!["正在触发 Xcode Command Line Tools 安装", "这将打开系统安装对话框..."]
    );
    let second = install_single_dependency(first.state, Event::Finished(done_well("")));
    assert_eq!(second.events[0].step, "xcode-tools 安装完成");
    assert_eq!(
        second.events[0].logs,
        vec![
            "安装窗口已打开",
            "✓ 已触发 Xcode Command Line Tools 安装对话框",
            "请在系统弹窗中点击【安装】按钮",
            "安装完成后可能需要几分钟"
        ]
    );
    let plan = find_plan(Platform::MacOs, "xcode-tools").unwrap().duplicate();
    assert_eq!(plan.command.program, "xcode-select");
    assert_eq!(plan.notes.len(), 2);
    assert_eq!(plan.done_notes.len(), 4);
}

#[test]
fn platform_tools_that_exit_with_an_error_fail() {
    let first =
        install_single_dependency(DependencyInstall::new(Platform::MacOs, "xcode-tools"), Event::Start);
    let second = install_single_dependency(
        first.state,
        Event::Finished(done_badly("already installed")),
    );
    assert_eq!(second.events[0].status, ProgressStatus::Failed);
    assert!(matches!(second.request, Request::Done(Err(_))));
}

#[test]
fn install_waits_for_the_right_event() {
    let idle = DependencyInstall::new(Platform::Linux, "git");
    let step = install_single_dependency(idle, Event::Finished(done_well("")));
    assert!(matches!(step.state.stage, DependencyStage::Idle));
    assert!(matches!(step.request, Request::Begin));
    assert!(step.events.is_empty());
    let started = install_single_dependency(step.state, Event::Start);
    let step = install_single_dependency(started.state, Event::Start);
    assert!(matches!(step.state.stage, DependencyStage::Installing { .. }));
    assert!(step.events.is_empty());
    assert_eq!(command_line(&step.request), vec!["sudo", "apt-get", "install", "-y", "git"]);
    let step = install_single_dependency(step.state, Event::Probed(vec![]));
    assert!(step.events.is_empty());
    let done = install_single_dependency(step.state, Event::Finished(done_well("")));
    let step = install_single_dependency(done.state, Event::Start);
    assert!(step.events.is_empty());
    match &step.request {
        Request::Done(Ok(text)) => assert_eq!(text, "git 安装完成"),
        other => panic!("expected success, got {:?}", other),
    }
}
