//! The installation of one dependency by its name.

use crate::detector::NVM_INSTALL;
use crate::executor::{CommandExecutor, CommandSpec, CommandView, ProcessView, copy_strings, direct_command, shell_command};
use crate::list::{empty, pair, quad, single};
use crate::platform::Platform;
use crate::progress::{ErrorKind, ErrorView, Event, EventView, InstallError, InstallProgress, ProgressStatus, ProgressView, Request, RequestView, failure, progress_event};
use crate::text::{cat2, same_text};
use vstd::prelude::*;
use vstd::string::*;

verus! {

pub const INSTALLING_PREFIX: &'static str = "正在安装 ";

pub const DONE_SUFFIX: &'static str = " 安装完成";

pub const UNKNOWN_PREFIX: &'static str = "未知依赖: ";

pub const INSTALL_FAILED: &'static str = "安装失败: ";

pub const NVM_RUNNING: &'static str = "安装 nvm (Node Version Manager)";

pub const NVM_DONE: &'static str = "nvm 安装成功，请重启终端或运行 source ~/.nvm/nvm.sh";

pub const NODE_RUNNING: &'static str = "通过 nvm 安装 Node.js 22";

/// The script that installs the runtime through the version manager.
pub const NODE_INSTALL_SCRIPT: &'static str =
    "source ~/.nvm/nvm.sh && nvm install 22 && nvm use 22 && nvm alias default 22";

pub const GIT_RUNNING_MACOS: &'static str = "通过 Xcode Command Line Tools 安装 Git";

pub const GIT_DONE_MACOS: &'static str = "已触发 Xcode Command Line Tools 安装窗口，请按照提示操作";

pub const GIT_RUNNING_WINDOWS: &'static str = "通过 winget 安装 Git";

pub const GIT_RUNNING_LINUX: &'static str = "通过 apt 安装 Git";

pub const XCODE_RUNNING: &'static str = "正在触发 Xcode Command Line Tools 安装";

pub const XCODE_RUNNING_NOTE: &'static str = "这将打开系统安装对话框...";

pub const XCODE_DONE: &'static str = "安装窗口已打开";

pub const XCODE_DONE_TRIGGERED: &'static str = "✓ 已触发 Xcode Command Line Tools 安装对话框";

pub const XCODE_DONE_CONFIRM: &'static str = "请在系统弹窗中点击【安装】按钮";

pub const XCODE_DONE_WAIT: &'static str = "安装完成后可能需要几分钟";

/// How one dependency is installed: the command, what the listener is told
/// while it runs, and what it is told when it has succeeded.
#[derive(Debug)]
pub struct InstallPlan {
    pub command: CommandSpec,
    pub notes: Vec<String>,
    pub done_notes: Vec<String>,
}

/// A plan as plain values.
pub ghost struct PlanView {
    pub command: CommandView,
    pub notes: Seq<Seq<char>>,
    pub done_notes: Seq<Seq<char>>,
}

impl View for InstallPlan {
    type V = PlanView;

    open spec fn view(&self) -> PlanView {
        PlanView {
            command: self.command@,
            notes: self.notes.deep_view(),
            done_notes: self.done_notes.deep_view(),
        }
    }
}

impl InstallPlan {
    /// A copy of the plan.
    pub fn duplicate(&self) -> (r: InstallPlan)
        ensures
            r@ == self@,
    {
        InstallPlan {
            command: self.command.duplicate(),
            notes: copy_strings(&self.notes),
            done_notes: copy_strings(&self.done_notes),
        }
    }
}

/// The command that opens the installer of the platform tools of macOS.
pub open spec fn xcode_install_command() -> CommandView {
    direct_command("xcode-select"@, seq!["--install"@])
}

/// How the version control tool is installed on `platform`.
pub open spec fn git_plan(platform: Platform) -> PlanView {
    match platform {
        Platform::MacOs => PlanView {
            command: xcode_install_command(),
            notes: seq![GIT_RUNNING_MACOS@],
            done_notes: seq![GIT_DONE_MACOS@],
        },
        Platform::Windows => PlanView {
            command: direct_command("winget"@, seq!["install"@, "Git.Git"@]),
            notes: seq![GIT_RUNNING_WINDOWS@],
            done_notes: Seq::empty(),
        },
        Platform::Linux => PlanView {
            command: direct_command("sudo"@, seq!["apt-get"@, "install"@, "-y"@, "git"@]),
            notes: seq![GIT_RUNNING_LINUX@],
            done_notes: Seq::empty(),
        },
    }
}

/// How the version manager is installed: by its own install script.
pub open spec fn nvm_plan() -> PlanView {
    PlanView {
        command: shell_command(NVM_INSTALL@),
        notes: seq![NVM_RUNNING@],
        done_notes: seq![NVM_DONE@],
    }
}

/// How the runtime is installed: through the version manager.
pub open spec fn nodejs_plan() -> PlanView {
    PlanView {
        command: shell_command(NODE_INSTALL_SCRIPT@),
        notes: seq![NODE_RUNNING@],
        done_notes: Seq::empty(),
    }
}

/// How the platform tools of macOS are installed: by their own installer,
/// which asks the user in a dialog.
pub open spec fn xcode_tools_plan() -> PlanView {
    PlanView {
        command: xcode_install_command(),
        notes: seq![XCODE_RUNNING@, XCODE_RUNNING_NOTE@],
        done_notes: seq![XCODE_DONE@, XCODE_DONE_TRIGGERED@, XCODE_DONE_CONFIRM@, XCODE_DONE_WAIT@],
    }
}

/// How the dependency called `name` is installed on `platform`; nothing
/// where no installer is known under that name there.
pub open spec fn install_plan(platform: Platform, name: Seq<char>) -> Option<PlanView> {
    if name == "nvm"@ {
        Some(nvm_plan())
    } else if name == "nodejs"@ {
        Some(nodejs_plan())
    } else if name == "git"@ {
        Some(git_plan(platform))
    } else if name == "xcode-tools"@ && platform == Platform::MacOs {
        Some(xcode_tools_plan())
    } else {
        None
    }
}

/// Builds the command that opens the installer of the platform tools.
pub fn xcode_install() -> (r: CommandSpec)
    ensures
        r@ == xcode_install_command(),
{
    CommandExecutor::direct("xcode-select", single(String::from_str("--install")))
}

/// Looks up how the version control tool is installed on `platform`.
pub fn install_git(platform: Platform) -> (r: InstallPlan)
    ensures
        r@ == git_plan(platform),
{
    match platform {
        Platform::MacOs => InstallPlan {
            command: xcode_install(),
            notes: single(String::from_str(GIT_RUNNING_MACOS)),
            done_notes: single(String::from_str(GIT_DONE_MACOS)),
        },
        Platform::Windows => InstallPlan {
            command: CommandExecutor::direct(
                "winget",
                pair(String::from_str("install"), String::from_str("Git.Git")),
            ),
            notes: single(String::from_str(GIT_RUNNING_WINDOWS)),
            done_notes: empty(),
        },
        Platform::Linux => InstallPlan {
            command: CommandExecutor::direct(
                "sudo",
                quad(
                    String::from_str("apt-get"),
                    String::from_str("install"),
                    String::from_str("-y"),
                    String::from_str("git"),
                ),
            ),
            notes: single(String::from_str(GIT_RUNNING_LINUX)),
            done_notes: empty(),
        },
    }
}

/// Looks up how the version manager is installed.
pub fn install_nvm() -> (r: InstallPlan)
    ensures
        r@ == nvm_plan(),
{
    InstallPlan {
        command: CommandExecutor::shell(NVM_INSTALL),
        notes: single(String::from_str(NVM_RUNNING)),
        done_notes: single(String::from_str(NVM_DONE)),
    }
}

/// Looks up how the runtime is installed.
pub fn install_nodejs() -> (r: InstallPlan)
    ensures
        r@ == nodejs_plan(),
{
    InstallPlan {
        command: CommandExecutor::shell(NODE_INSTALL_SCRIPT),
        notes: single(String::from_str(NODE_RUNNING)),
        done_notes: empty(),
    }
}

/// Looks up how the platform tools of macOS are installed.
pub fn install_xcode_tools() -> (r: InstallPlan)
    ensures
        r@ == xcode_tools_plan(),
{
    InstallPlan {
        command: xcode_install(),
        notes: pair(String::from_str(XCODE_RUNNING), String::from_str(XCODE_RUNNING_NOTE)),
        done_notes: quad(
            String::from_str(XCODE_DONE),
            String::from_str(XCODE_DONE_TRIGGERED),
            String::from_str(XCODE_DONE_CONFIRM),
            String::from_str(XCODE_DONE_WAIT),
        ),
    }
}

/// Looks up the installer of the dependency called `name`.
pub fn find_plan(platform: Platform, name: &str) -> (r: Option<InstallPlan>)
    ensures
        r is Some <==> install_plan(platform, name@) is Some,
        r matches Some(plan) ==> Some(plan@) == install_plan(platform, name@),
{
    if same_text(name, "nvm") {
        Some(install_nvm())
    } else if same_text(name, "nodejs") {
        Some(install_nodejs())
    } else if same_text(name, "git") {
        Some(install_git(platform))
    } else if same_text(name, "xcode-tools") && platform == Platform::MacOs {
        Some(install_xcode_tools())
    } else {
        None
    }
}

/// Where the installation of one dependency stands.
#[derive(Debug)]
pub enum DependencyStage {
    Idle,
    Installing { plan: InstallPlan },
    Done,
    Failed { reason: InstallError },
}

/// A stage as plain values.
pub ghost enum DependencyStageView {
    Idle,
    Installing { plan: PlanView },
    Done,
    Failed { reason: ErrorView },
}

impl View for DependencyStage {
    type V = DependencyStageView;

    open spec fn view(&self) -> DependencyStageView {
        match self {
            DependencyStage::Idle => DependencyStageView::Idle,
            DependencyStage::Installing { plan } => DependencyStageView::Installing { plan: plan@ },
            DependencyStage::Done => DependencyStageView::Done,
            DependencyStage::Failed { reason } => DependencyStageView::Failed { reason: reason@ },
        }
    }
}

/// The installation of one dependency.
#[derive(Debug)]
pub struct DependencyInstall {
    pub platform: Platform,
    pub name: String,
    pub stage: DependencyStage,
}

/// The installation of one dependency as plain values.
pub ghost struct DependencyInstallView {
    pub platform: Platform,
    pub name: Seq<char>,
    pub stage: DependencyStageView,
}

impl DependencyInstallView {
    /// The same installation, at another stage.
    pub open spec fn at(self, stage: DependencyStageView) -> DependencyInstallView {
        DependencyInstallView { platform: self.platform, name: self.name, stage }
    }
}

impl View for DependencyInstall {
    type V = DependencyInstallView;

    open spec fn view(&self) -> DependencyInstallView {
        DependencyInstallView { platform: self.platform, name: self.name@, stage: self.stage@ }
    }
}

/// What one step of the installation of a dependency yields.
#[derive(Debug)]
pub struct DependencyStep {
    pub state: DependencyInstall,
    pub events: Vec<InstallProgress>,
    pub request: Request,
}

/// A step as plain values.
pub ghost struct DependencyStepView {
    pub state: DependencyInstallView,
    pub events: Seq<ProgressView>,
    pub request: RequestView,
}

impl View for DependencyStep {
    type V = DependencyStepView;

    open spec fn view(&self) -> DependencyStepView {
        DependencyStepView {
            state: self.state@,
            events: self.events.deep_view(),
            request: self.request@,
        }
    }
}

/// The request that the installation is waiting for an answer to.
pub open spec fn pending_install(s: DependencyInstallView) -> RequestView {
    match s.stage {
        DependencyStageView::Idle => RequestView::Begin,
        DependencyStageView::Installing { plan } => RequestView::Run(plan.command),
        DependencyStageView::Done => RequestView::Done(Ok(s.name + DONE_SUFFIX@)),
        DependencyStageView::Failed { reason } => RequestView::Done(Err(reason)),
    }
}

/// The step that the installation of a dependency takes on an event.
///
/// On `Start` the installer is looked up by name. An unknown name fails at
/// once, before anything is emitted or run. A known one emits one running
/// event and asks for its command. When the command has ended, one final
/// event follows: success at full progress, or failure with the command's
/// complaint in the logs. Any other event changes nothing.
pub open spec fn next_install_step(s: DependencyInstallView, e: EventView) -> DependencyStepView {
    match (s.stage, e) {
        (DependencyStageView::Idle, EventView::Start) => match install_plan(s.platform, s.name) {
            Some(plan) => DependencyStepView {
                state: s.at(DependencyStageView::Installing { plan }),
                events: seq![
                    progress_event(
                        INSTALLING_PREFIX@ + s.name,
                        ProgressStatus::Running,
                        0,
                        plan.notes,
                    ),
                ],
                request: RequestView::Run(plan.command),
            },
            None => {
                let reason = failure(ErrorKind::UnknownDependencyName, UNKNOWN_PREFIX@, s.name);
                DependencyStepView {
                    state: s.at(DependencyStageView::Failed { reason }),
                    events: Seq::empty(),
                    request: RequestView::Done(Err(reason)),
                }
            },
        },
        (DependencyStageView::Installing { plan }, EventView::Finished(result)) => if result.succeeded() {
            DependencyStepView {
                state: s.at(DependencyStageView::Done),
                events: seq![
                    progress_event(
                        s.name + DONE_SUFFIX@,
                        ProgressStatus::Success,
                        100,
                        plan.done_notes,
                    ),
                ],
                request: RequestView::Done(Ok(s.name + DONE_SUFFIX@)),
            }
        } else {
            let reason = failure(
                ErrorKind::InstallStepFailure,
                INSTALL_FAILED@,
                result.complaint(),
            );
            DependencyStepView {
                state: s.at(DependencyStageView::Failed { reason }),
                events: seq![
                    progress_event(
                        reason.message,
                        ProgressStatus::Failed,
                        0,
                        seq![result.complaint()],
                    ),
                ],
                request: RequestView::Done(Err(reason)),
            }
        },
        _ => DependencyStepView { state: s, events: Seq::empty(), request: pending_install(s) },
    }
}

impl DependencyInstall {
    /// The installation of the dependency called `name`, not yet begun.
    pub fn new(platform: Platform, name: &str) -> (r: DependencyInstall)
        ensures
            r@ == (DependencyInstallView { platform, name: name@, stage: DependencyStageView::Idle }),
    {
        DependencyInstall { platform, name: String::from_str(name), stage: DependencyStage::Idle }
    }

    /// Changes nothing and repeats the pending request.
    pub fn wait(self) -> (r: DependencyStep)
        ensures
            r@ == (DependencyStepView {
                state: self@,
                events: Seq::empty(),
                request: pending_install(self@),
            }),
    {
        let request = match &self.stage {
            DependencyStage::Idle => Request::Begin,
            DependencyStage::Installing { plan } => Request::Run(plan.command.duplicate()),
            DependencyStage::Done => Request::Done(Ok(cat2(self.name.as_str(), DONE_SUFFIX))),
            DependencyStage::Failed { reason } => Request::Done(Err(reason.duplicate())),
        };
        DependencyStep { state: self, events: empty(), request }
    }

    /// Takes one step of the installation on `event`.
    pub fn advance(self, event: Event) -> (r: DependencyStep)
        ensures
            r@ == next_install_step(self@, event@),
    {
        let DependencyInstall { platform, name, stage } = self;
        match stage {
            DependencyStage::Idle => match event {
                Event::Start => match find_plan(platform, name.as_str()) {
                    Some(plan) => {
                        let running = InstallProgress::new(
                            cat2(INSTALLING_PREFIX, name.as_str()).as_str(),
                            ProgressStatus::Running,
                            0,
                            copy_strings(&plan.notes),
                        );
                        let request = Request::Run(plan.command.duplicate());
                        DependencyStep {
                            state: DependencyInstall {
                                platform,
                                name,
                                stage: DependencyStage::Installing { plan },
                            },
                            events: single(running),
                            request,
                        }
                    },
                    None => {
                        let reason = InstallError::new(
                            ErrorKind::UnknownDependencyName,
                            UNKNOWN_PREFIX,
                            name.as_str(),
                        );
                        let told = reason.duplicate();
                        DependencyStep {
                            state: DependencyInstall {
                                platform,
                                name,
                                stage: DependencyStage::Failed { reason },
                            },
                            events: empty(),
                            request: Request::Done(Err(told)),
                        }
                    },
                },
                _ => DependencyInstall { platform, name, stage: DependencyStage::Idle }.wait(),
            },
            DependencyStage::Installing { plan } => match event {
                Event::Finished(result) => {
                    if result.succeeded() {
                        let text = cat2(name.as_str(), DONE_SUFFIX);
                        let done = InstallProgress::new(
                            text.as_str(),
                            ProgressStatus::Success,
                            100,
                            plan.done_notes,
                        );
                        DependencyStep {
                            state: DependencyInstall { platform, name, stage: DependencyStage::Done },
                            events: single(done),
                            request: Request::Done(Ok(text)),
                        }
                    } else {
                        let complaint = result.complaint();
                        let reason = InstallError::new(
                            ErrorKind::InstallStepFailure,
                            INSTALL_FAILED,
                            complaint.as_str(),
                        );
                        let failed = InstallProgress::new(
                            reason.message.as_str(),
                            ProgressStatus::Failed,
                            0,
                            single(complaint),
                        );
                        let told = reason.duplicate();
                        DependencyStep {
                            state: DependencyInstall {
                                platform,
                                name,
                                stage: DependencyStage::Failed { reason },
                            },
                            events: single(failed),
                            request: Request::Done(Err(told)),
                        }
                    }
                },
                _ => DependencyInstall {
                    platform,
                    name,
                    stage: DependencyStage::Installing { plan },
                }.wait(),
            },
            other => DependencyInstall { platform, name, stage: other }.wait(),
        }
    }
}

/// Takes one step of the installation of one dependency: from the
/// installation as it stands and the host's report to the installation after
/// the step, the events to emit and the next request.
pub fn install_single_dependency(state: DependencyInstall, event: Event) -> (r: DependencyStep)
    ensures
        r@ == next_install_step(state@, event@),
{
    state.advance(event)
}

/// An installation under a known name emits exactly two events, whatever
/// the command does: one running event, then one final event, which reports
/// success where the command succeeded and failure where it did not; and
/// the call fails exactly where the command did.
pub proof fn lemma_known_dependency_events(
    platform: Platform,
    name: Seq<char>,
    result: ProcessView,
)
    requires
        install_plan(platform, name) is Some,
    ensures
        ({
            let idle = DependencyInstallView { platform, name, stage: DependencyStageView::Idle };
            let first = next_install_step(idle, EventView::Start);
            let second = next_install_step(first.state, EventView::Finished(result));
            let events = first.events + second.events;
            &&& first.request == RequestView::Run(install_plan(platform, name)->0.command)
            &&& events.len() == 2
            &&& events[0].status == ProgressStatus::Running
            &&& events[1].status == if result.succeeded() {
                ProgressStatus::Success
            } else {
                ProgressStatus::Failed
            }
            &&& events[0].progress <= events[1].progress
            &&& second.request is Done
            &&& second.request->Done_0 is Ok <==> result.succeeded()
            &&& !result.succeeded() ==> events[1].logs == seq![result.complaint()]
            &&& !result.succeeded() ==> second.request->Done_0->Err_0.kind
                == ErrorKind::InstallStepFailure
        }),
{
}

/// An unknown name fails at the lookup: nothing is emitted, nothing is run,
/// and the failure names the unknown dependency.
pub proof fn lemma_unknown_dependency_fails(platform: Platform, name: Seq<char>)
    requires
        install_plan(platform, name) is None,
    ensures
        ({
            let idle = DependencyInstallView { platform, name, stage: DependencyStageView::Idle };
            let first = next_install_step(idle, EventView::Start);
            &&& first.events.len() == 0
            &&& first.request == RequestView::Done(
                Err(failure(ErrorKind::UnknownDependencyName, UNKNOWN_PREFIX@, name)),
            )
            &&& first.state.stage is Failed
        }),
{
}

} // verus!
