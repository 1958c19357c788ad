//! The installation of the target application: a pipeline of four stages
//! that the host drives by running what it is asked to run and reporting
//! back how it ended.

use crate::detector::{DependencyStatus, StatusView, blockers, blocking_set, catalog_of, check_dependencies, display_names, names_of, report_of};
use crate::executor::{CommandExecutor, CommandSpec, CommandView, ProcessResult, ProcessView, direct_command};
use crate::list::{empty, pair, push_item, quad, single, triple};
use crate::platform::{Host, HostView, Platform};
use crate::progress::{ErrorKind, ErrorView, Event, EventView, InstallError, InstallProgress, ProgressStatus, ProgressView, Request, RequestView, failure, progress_event};
use crate::text::{cat2, join, joined, same_text};
use vstd::prelude::*;
use vstd::string::*;

verus! {

/// The progress reached when the dependencies are being checked.
pub const CHECK_LEVEL: u8 = 10;

/// The progress reached when the environment is being configured.
pub const CONFIGURE_LEVEL: u8 = 30;

/// The progress reached when the target application is being installed.
pub const INSTALL_LEVEL: u8 = 50;

/// The progress reached when the target application is being set up.
pub const SETUP_LEVEL: u8 = 80;

/// The progress of a finished installation.
pub const FINAL_LEVEL: u8 = 100;

pub const CHECK_STEP: &'static str = "检查系统依赖";

pub const MISSING_PREFIX: &'static str = "缺少依赖: ";

pub const NAME_SEPARATOR: &'static str = ", ";

pub const HOME_MISSING: &'static str = "无法获取 HOME 目录";

pub const PREFIX_STEP: &'static str = "配置 npm prefix";

pub const PREFIX_DONE: &'static str = "npm prefix 已配置";

pub const PREFIX_SET_NOTE: &'static str = "已设置: ";

pub const PREFIX_PATH_NOTE: &'static str = "请确保 ~/.npm-global/bin 在 PATH 中";

pub const PREFIX_FAILED: &'static str = "配置 npm prefix 失败";

/// Where global packages go, below the home directory.
pub const NPM_GLOBAL_SUBDIR: &'static str = "/.npm-global";

pub const INSTALL_STEP: &'static str = "安装 OpenClaw";

pub const NPM_STEP: &'static str = "npm install -g openclaw";

pub const NPM_NOTE: &'static str = "正在下载 OpenClaw...";

pub const NPM_DONE: &'static str = "OpenClaw 安装成功";

pub const NPM_FAILED: &'static str = "npm 安装失败: ";

pub const CLONE_STEP: &'static str = "克隆 OpenClaw 源码";

pub const CLONE_TARGET_NOTE: &'static str = "目标路径: ";

pub const CLONE_FAILED: &'static str = "git clone 失败: ";

/// The upstream repository of the target application.
pub const REPOSITORY: &'static str = "https://github.com/openclaw/openclaw.git";

/// Where the sources go by default, below the home directory.
pub const SOURCE_SUBDIR: &'static str = "/.openclaw-src";

pub const BUILD_STEP: &'static str = "安装依赖并构建";

pub const BUILD_FAILED: &'static str = "pnpm install 失败: ";

pub const SETUP_STAGE: &'static str = "初始化配置";

pub const SETUP_STEP: &'static str = "运行 openclaw setup";

pub const SETUP_DONE: &'static str = "setup 完成";

pub const SETUP_PARTIAL: &'static str = "setup 完成（部分步骤可能需要手动完成）";

pub const FINAL_STEP: &'static str = "安装完成";

pub const FINAL_NOTE_INSTALLED: &'static str = "✓ OpenClaw 已成功安装";

pub const FINAL_NOTE_CONFIGURED: &'static str = "✓ 配置已初始化";

pub const SUCCESS_TEXT: &'static str = "安装成功！";

/// How the target application is brought to the machine.
#[derive(Clone, Copy, PartialEq, Eq, Debug, Structural)]
pub enum InstallMethod {
    /// One global install through the package manager.
    Npm,
    /// A clone of the sources, then their own dependency install.
    Git,
}

pub const INVALID_METHOD: &'static str = "无效的安装方法";

/// The method that a name stands for.
pub open spec fn method_named(name: Seq<char>) -> Option<InstallMethod> {
    if name == "npm"@ {
        Some(InstallMethod::Npm)
    } else if name == "git"@ {
        Some(InstallMethod::Git)
    } else {
        None
    }
}

impl InstallMethod {
    /// The method called `name`; any other name is refused.
    pub fn from_name(name: &str) -> (r: Result<InstallMethod, InstallError>)
        ensures
            match method_named(name@) {
                Some(method) => r == Ok::<InstallMethod, InstallError>(method),
                None => r is Err && r->Err_0@ == failure(
                    ErrorKind::InvalidInstallMethod,
                    INVALID_METHOD@,
                    Seq::empty(),
                ),
            },
    {
        if same_text(name, "npm") {
            Ok(InstallMethod::Npm)
        } else if same_text(name, "git") {
            Ok(InstallMethod::Git)
        } else {
            Err(InstallError::of(ErrorKind::InvalidInstallMethod, INVALID_METHOD))
        }
    }
}

/// What the caller chose for one installation.
#[derive(Debug)]
pub struct InstallOptions {
    pub method: InstallMethod,
    /// Where the sources go; used by `InstallMethod::Git` only.
    pub custom_path: Option<String>,
}

/// Options as plain values.
pub ghost struct OptionsView {
    pub method: InstallMethod,
    pub custom_path: Option<Seq<char>>,
}

impl View for InstallOptions {
    type V = OptionsView;

    open spec fn view(&self) -> OptionsView {
        OptionsView { method: self.method, custom_path: self.custom_path.deep_view() }
    }
}

/// Where a run of the pipeline stands.
#[derive(Debug)]
pub enum Stage {
    Idle,
    /// Stage A: the dependencies are being probed.
    Checking,
    /// Stage B: the directory for global packages is being made.
    CreatingPrefixDir { dir: String },
    /// Stage B: the package manager is being pointed at that directory.
    SettingPrefix { dir: String },
    /// Stage C, by package: the global install is running.
    InstallingPackage,
    /// Stage C, from sources: the clone into `path` is running.
    Cloning { path: String },
    /// Stage C, from sources: the dependency install in `path` is running.
    InstallingSources { path: String },
    /// Stage D: the target application's own setup is running.
    Initializing,
    Done,
    Aborted { reason: InstallError },
}

/// A stage as plain values.
pub ghost enum StageView {
    Idle,
    Checking,
    CreatingPrefixDir { dir: Seq<char> },
    SettingPrefix { dir: Seq<char> },
    InstallingPackage,
    Cloning { path: Seq<char> },
    InstallingSources { path: Seq<char> },
    Initializing,
    Done,
    Aborted { reason: ErrorView },
}

/// The phases of a run, without the steps inside a stage.
#[derive(Clone, Copy, PartialEq, Eq, Debug, Structural)]
pub enum Phase {
    Idle,
    Checking,
    Configuring,
    Installing,
    Initializing,
    Done,
    Aborted,
}

impl StageView {
    /// The phase that the stage belongs to.
    pub open spec fn phase(self) -> Phase {
        match self {
            StageView::Idle => Phase::Idle,
            StageView::Checking => Phase::Checking,
            StageView::CreatingPrefixDir { .. } => Phase::Configuring,
            StageView::SettingPrefix { .. } => Phase::Configuring,
            StageView::InstallingPackage => Phase::Installing,
            StageView::Cloning { .. } => Phase::Installing,
            StageView::InstallingSources { .. } => Phase::Installing,
            StageView::Initializing => Phase::Initializing,
            StageView::Done => Phase::Done,
            StageView::Aborted { .. } => Phase::Aborted,
        }
    }

    /// The progress that a run has reached when it stands at the stage. No
    /// event of a later step reports less.
    pub open spec fn level(self) -> int {
        match self.phase() {
            Phase::Idle => 0,
            Phase::Checking => CHECK_LEVEL as int,
            Phase::Configuring => CONFIGURE_LEVEL as int,
            Phase::Installing => INSTALL_LEVEL as int,
            Phase::Initializing => SETUP_LEVEL as int,
            Phase::Done => FINAL_LEVEL as int,
            Phase::Aborted => FINAL_LEVEL as int,
        }
    }

    /// The run is over.
    pub open spec fn is_final(self) -> bool {
        self is Done || self is Aborted
    }
}

impl View for Stage {
    type V = StageView;

    open spec fn view(&self) -> StageView {
        match self {
            Stage::Idle => StageView::Idle,
            Stage::Checking => StageView::Checking,
            Stage::CreatingPrefixDir { dir } => StageView::CreatingPrefixDir { dir: dir@ },
            Stage::SettingPrefix { dir } => StageView::SettingPrefix { dir: dir@ },
            Stage::InstallingPackage => StageView::InstallingPackage,
            Stage::Cloning { path } => StageView::Cloning { path: path@ },
            Stage::InstallingSources { path } => StageView::InstallingSources { path: path@ },
            Stage::Initializing => StageView::Initializing,
            Stage::Done => StageView::Done,
            Stage::Aborted { reason } => StageView::Aborted { reason: reason@ },
        }
    }
}

impl Stage {
    /// The phase that the stage belongs to.
    pub fn phase(&self) -> (r: Phase)
        ensures
            r == self@.phase(),
    {
        match self {
            Stage::Idle => Phase::Idle,
            Stage::Checking => Phase::Checking,
            Stage::CreatingPrefixDir { .. } => Phase::Configuring,
            Stage::SettingPrefix { .. } => Phase::Configuring,
            Stage::InstallingPackage => Phase::Installing,
            Stage::Cloning { .. } => Phase::Installing,
            Stage::InstallingSources { .. } => Phase::Installing,
            Stage::Initializing => Phase::Initializing,
            Stage::Done => Phase::Done,
            Stage::Aborted { .. } => Phase::Aborted,
        }
    }
}

/// One run of the pipeline: the host, the caller's choice, and the stage.
#[derive(Debug)]
pub struct Installation {
    pub host: Host,
    pub options: InstallOptions,
    pub stage: Stage,
}

/// A run as plain values.
pub ghost struct InstallationView {
    pub host: HostView,
    pub options: OptionsView,
    pub stage: StageView,
}

impl InstallationView {
    /// The same run, at another stage.
    pub open spec fn at(self, stage: StageView) -> InstallationView {
        InstallationView { host: self.host, options: self.options, stage }
    }
}

impl View for Installation {
    type V = InstallationView;

    open spec fn view(&self) -> InstallationView {
        InstallationView { host: self.host@, options: self.options@, stage: self.stage@ }
    }
}

/// What one step of a run yields: the run after the step, the events for
/// the listener in the order in which they are emitted, and the next request.
#[derive(Debug)]
pub struct Step {
    pub state: Installation,
    pub events: Vec<InstallProgress>,
    pub request: Request,
}

/// A step as plain values.
pub ghost struct StepView {
    pub state: InstallationView,
    pub events: Seq<ProgressView>,
    pub request: RequestView,
}

impl View for Step {
    type V = StepView;

    open spec fn view(&self) -> StepView {
        StepView { state: self.state@, events: self.events.deep_view(), request: self.request@ }
    }
}

/// The global install of the target application.
pub open spec fn npm_install_command() -> CommandView {
    direct_command("npm"@, seq!["install"@, "-g"@, "openclaw"@])
}

/// The clone of the upstream repository into `path`.
pub open spec fn clone_command(path: Seq<char>) -> CommandView {
    direct_command("git"@, seq!["clone"@, REPOSITORY@, path])
}

/// The dependency install of the sources, run inside `path`.
pub open spec fn build_command(path: Seq<char>) -> CommandView {
    CommandView { program: "pnpm"@, args: seq!["install"@], working_dir: Some(path) }
}

/// The target application's own setup, without questions.
pub open spec fn setup_command() -> CommandView {
    direct_command("openclaw"@, seq!["setup"@, "--non-interactive"@])
}

/// The command that points the package manager's global prefix at `dir`.
pub open spec fn prefix_command(dir: Seq<char>) -> CommandView {
    direct_command("npm"@, seq!["config"@, "set"@, "prefix"@, dir])
}

/// Where the sources go: the caller's path, else the default below the home
/// directory; nowhere where neither is known.
pub open spec fn source_path(host: HostView, options: OptionsView) -> Option<Seq<char>> {
    match options.custom_path {
        Some(path) => Some(path),
        None => match host.home {
            Some(home) => Some(home + SOURCE_SUBDIR@),
            None => None,
        },
    }
}

/// The failure that names the blocking dependencies, all at once.
pub open spec fn missing_dependencies(blocking: Seq<StatusView>) -> ErrorView {
    failure(
        ErrorKind::MissingRequiredDependency,
        MISSING_PREFIX@,
        joined(display_names(blocking), NAME_SEPARATOR@),
    )
}

/// The failure of a run whose host knows no home directory.
pub open spec fn missing_home() -> ErrorView {
    failure(ErrorKind::MissingHome, HOME_MISSING@, Seq::empty())
}

/// The failure of an installation step, with what the command complained of.
pub open spec fn step_failure(prefix: Seq<char>, complaint: Seq<char>) -> ErrorView {
    failure(ErrorKind::InstallStepFailure, prefix, complaint)
}

/// The request that a run is waiting for an answer to.
pub open spec fn pending(s: InstallationView) -> RequestView {
    match s.stage {
        StageView::Idle => RequestView::Begin,
        StageView::Checking => RequestView::Probe,
        StageView::CreatingPrefixDir { dir } => RequestView::CreateDir(dir),
        StageView::SettingPrefix { dir } => RequestView::Run(prefix_command(dir)),
        StageView::InstallingPackage => RequestView::Run(npm_install_command()),
        StageView::Cloning { path } => RequestView::Run(clone_command(path)),
        StageView::InstallingSources { path } => RequestView::Run(build_command(path)),
        StageView::Initializing => RequestView::Run(setup_command()),
        StageView::Done => RequestView::Done(Ok(SUCCESS_TEXT@)),
        StageView::Aborted { reason } => RequestView::Done(Err(reason)),
    }
}

/// The step that changes nothing and repeats the pending request.
pub open spec fn waiting(s: InstallationView) -> StepView {
    StepView { state: s, events: Seq::empty(), request: pending(s) }
}

/// The step that ends the run in failure: after the events `before`, one
/// failed event at `level` that carries the reason as its message.
pub open spec fn aborted(
    s: InstallationView,
    before: Seq<ProgressView>,
    level: u8,
    reason: ErrorView,
    logs: Seq<Seq<char>>,
) -> StepView {
    StepView {
        state: s.at(StageView::Aborted { reason }),
        events: before.push(progress_event(reason.message, ProgressStatus::Failed, level, logs)),
        request: RequestView::Done(Err(reason)),
    }
}

/// The step that enters stage D after the events `before`.
pub open spec fn enter_setup(s: InstallationView, before: Seq<ProgressView>) -> StepView {
    StepView {
        state: s.at(StageView::Initializing),
        events: before.push(
            progress_event(SETUP_STAGE@, ProgressStatus::Running, SETUP_LEVEL, Seq::empty()),
        ).push(progress_event(SETUP_STEP@, ProgressStatus::Running, SETUP_LEVEL, Seq::empty())),
        request: RequestView::Run(setup_command()),
    }
}

/// Stage C by package: after the events `before`, one global install
/// through the package manager.
pub open spec fn install_by_package(s: InstallationView, before: Seq<ProgressView>) -> StepView {
    StepView {
        state: s.at(StageView::InstallingPackage),
        events: before.push(
            progress_event(NPM_STEP@, ProgressStatus::Running, INSTALL_LEVEL, seq![NPM_NOTE@]),
        ),
        request: RequestView::Run(npm_install_command()),
    }
}

/// Stage C from sources: after the events `before`, the clone of the
/// upstream repository; the run is aborted where no place for the sources
/// is known.
pub open spec fn install_from_sources(s: InstallationView, before: Seq<ProgressView>) -> StepView {
    match source_path(s.host, s.options) {
        Some(path) => StepView {
            state: s.at(StageView::Cloning { path }),
            events: before.push(
                progress_event(
                    CLONE_STEP@,
                    ProgressStatus::Running,
                    INSTALL_LEVEL,
                    seq![CLONE_TARGET_NOTE@ + path],
                ),
            ),
            request: RequestView::Run(clone_command(path)),
        },
        None => aborted(s, before, INSTALL_LEVEL, missing_home(), Seq::empty()),
    }
}

/// The step that enters stage C after the events `before`, by the method
/// that the caller chose.
pub open spec fn enter_install(s: InstallationView, before: Seq<ProgressView>) -> StepView {
    let head = before.push(
        progress_event(INSTALL_STEP@, ProgressStatus::Running, INSTALL_LEVEL, Seq::empty()),
    );
    match s.options.method {
        InstallMethod::Npm => install_by_package(s, head),
        InstallMethod::Git => install_from_sources(s, head),
    }
}

/// The step that follows a report without blocking dependencies: stage B on
/// Linux, where global packages need a directory that the user may write;
/// stage C at once elsewhere.
pub open spec fn enter_configure(s: InstallationView) -> StepView {
    if s.host.platform == Platform::Linux {
        let head = seq![
            progress_event(PREFIX_STEP@, ProgressStatus::Running, CONFIGURE_LEVEL, Seq::empty()),
        ];
        match s.host.home {
            Some(home) => StepView {
                state: s.at(StageView::CreatingPrefixDir { dir: home + NPM_GLOBAL_SUBDIR@ }),
                events: head,
                request: RequestView::CreateDir(home + NPM_GLOBAL_SUBDIR@),
            },
            None => aborted(s, head, CONFIGURE_LEVEL, missing_home(), Seq::empty()),
        }
    } else {
        enter_install(s, Seq::empty())
    }
}

/// The step that follows the report of stage A: the run is aborted where any
/// dependency blocks, and goes on where none does.
pub open spec fn after_check(s: InstallationView, report: Seq<StatusView>) -> StepView {
    let blocking = blockers(report);
    if blocking.len() > 0 {
        aborted(s, Seq::empty(), CHECK_LEVEL, missing_dependencies(blocking), Seq::empty())
    } else {
        enter_configure(s)
    }
}

/// The step that ends stage D and the run. Whatever became of the setup, the
/// run succeeds; a failed setup leaves its complaint in the logs.
pub open spec fn after_setup(s: InstallationView, result: ProcessView) -> StepView {
    let setup = if result.succeeded() {
        progress_event(SETUP_DONE@, ProgressStatus::Success, SETUP_LEVEL, Seq::empty())
    } else {
        progress_event(
            SETUP_PARTIAL@,
            ProgressStatus::Success,
            SETUP_LEVEL,
            seq![result.complaint()],
        )
    };
    StepView {
        state: s.at(StageView::Done),
        events: seq![
            setup,
            progress_event(
                FINAL_STEP@,
                ProgressStatus::Success,
                FINAL_LEVEL,
                seq![FINAL_NOTE_INSTALLED@, FINAL_NOTE_CONFIGURED@],
            ),
        ],
        request: RequestView::Done(Ok(SUCCESS_TEXT@)),
    }
}

/// The step that a run takes on an event. An event that does not answer the
/// pending request changes nothing.
pub open spec fn next_step(s: InstallationView, e: EventView) -> StepView {
    match (s.stage, e) {
        (StageView::Idle, EventView::Start) => StepView {
            state: s.at(StageView::Checking),
            events: seq![
                progress_event(CHECK_STEP@, ProgressStatus::Running, CHECK_LEVEL, Seq::empty()),
            ],
            request: RequestView::Probe,
        },
        (StageView::Checking, EventView::Probed(outcomes)) => after_check(
            s,
            report_of(catalog_of(s.host), outcomes),
        ),
        (StageView::CreatingPrefixDir { dir }, EventView::Finished(result)) => if result.succeeded() {
            StepView {
                state: s.at(StageView::SettingPrefix { dir }),
                events: Seq::empty(),
                request: RequestView::Run(prefix_command(dir)),
            }
        } else {
            aborted(
                s,
                Seq::empty(),
                CONFIGURE_LEVEL,
                step_failure(PREFIX_FAILED@, Seq::empty()),
                seq![result.complaint()],
            )
        },
        (StageView::SettingPrefix { dir }, EventView::Finished(result)) => if result.succeeded() {
            enter_install(
                s,
                seq![
                    progress_event(
                        PREFIX_DONE@,
                        ProgressStatus::Success,
                        CONFIGURE_LEVEL,
                        seq![PREFIX_SET_NOTE@ + dir, PREFIX_PATH_NOTE@],
                    ),
                ],
            )
        } else {
            aborted(
                s,
                Seq::empty(),
                CONFIGURE_LEVEL,
                step_failure(PREFIX_FAILED@, Seq::empty()),
                seq![result.complaint()],
            )
        },
        (StageView::InstallingPackage, EventView::Finished(result)) => if result.succeeded() {
            enter_setup(
                s,
                seq![
                    progress_event(
                        NPM_DONE@,
                        ProgressStatus::Success,
                        INSTALL_LEVEL,
                        seq![result.output()],
                    ),
                ],
            )
        } else {
            aborted(
                s,
                Seq::empty(),
                INSTALL_LEVEL,
                step_failure(NPM_FAILED@, result.complaint()),
                seq![result.complaint()],
            )
        },
        (StageView::Cloning { path }, EventView::Finished(result)) => if result.succeeded() {
            StepView {
                state: s.at(StageView::InstallingSources { path }),
                events: seq![
                    progress_event(BUILD_STEP@, ProgressStatus::Running, INSTALL_LEVEL, Seq::empty()),
                ],
                request: RequestView::Run(build_command(path)),
            }
        } else {
            aborted(
                s,
                Seq::empty(),
                INSTALL_LEVEL,
                step_failure(CLONE_FAILED@, result.complaint()),
                seq![result.complaint()],
            )
        },
        (StageView::InstallingSources { path }, EventView::Finished(result)) => if result.succeeded() {
            enter_setup(s, Seq::empty())
        } else {
            aborted(
                s,
                Seq::empty(),
                INSTALL_LEVEL,
                step_failure(BUILD_FAILED@, result.complaint()),
                seq![result.complaint()],
            )
        },
        (StageView::Initializing, EventView::Finished(result)) => after_setup(s, result),
        _ => waiting(s),
    }
}

/// Builds the global install of the target application.
pub fn npm_install() -> (r: CommandSpec)
    ensures
        r@ == npm_install_command(),
{
    CommandExecutor::direct(
        "npm",
        triple(String::from_str("install"), String::from_str("-g"), String::from_str("openclaw")),
    )
}

/// Builds the clone of the upstream repository into `path`.
pub fn clone_into(path: &str) -> (r: CommandSpec)
    ensures
        r@ == clone_command(path@),
{
    CommandExecutor::direct(
        "git",
        triple(String::from_str("clone"), String::from_str(REPOSITORY), String::from_str(path)),
    )
}

/// Builds the dependency install of the sources in `path`.
pub fn build_in(path: &str) -> (r: CommandSpec)
    ensures
        r@ == build_command(path@),
{
    CommandSpec {
        program: String::from_str("pnpm"),
        args: single(String::from_str("install")),
        working_dir: Some(String::from_str(path)),
    }
}

/// Builds the target application's own setup.
pub fn setup() -> (r: CommandSpec)
    ensures
        r@ == setup_command(),
{
    CommandExecutor::direct(
        "openclaw",
        pair(String::from_str("setup"), String::from_str("--non-interactive")),
    )
}

/// Builds the command that points the global prefix at `dir`.
pub fn set_prefix(dir: &str) -> (r: CommandSpec)
    ensures
        r@ == prefix_command(dir@),
{
    CommandExecutor::direct(
        "npm",
        quad(
            String::from_str("config"),
            String::from_str("set"),
            String::from_str("prefix"),
            String::from_str(dir),
        ),
    )
}

impl Installation {
    /// A run that has not begun.
    pub fn new(host: Host, options: InstallOptions) -> (r: Installation)
        ensures
            r@.host == host@,
            r@.options == options@,
            r@.stage == StageView::Idle,
    {
        Installation { host, options, stage: Stage::Idle }
    }

    /// The same run, at another stage.
    pub fn moved_to(self, stage: Stage) -> (r: Installation)
        ensures
            r@ == self@.at(stage@),
    {
        Installation { host: self.host, options: self.options, stage }
    }

    /// Where the sources go.
    pub fn source_path(&self) -> (r: Option<String>)
        ensures
            r.deep_view() == source_path(self@.host, self@.options),
    {
        match &self.options.custom_path {
            Some(path) => Some(path.clone()),
            None => match &self.host.home {
                Some(home) => Some(cat2(home.as_str(), SOURCE_SUBDIR)),
                None => None,
            },
        }
    }

    /// The request that the run is waiting for an answer to.
    pub fn pending_request(&self) -> (r: Request)
        ensures
            r@ == pending(self@),
    {
        match &self.stage {
            Stage::Idle => Request::Begin,
            Stage::Checking => Request::Probe,
            Stage::CreatingPrefixDir { dir } => Request::CreateDir(dir.clone()),
            Stage::SettingPrefix { dir } => Request::Run(set_prefix(dir.as_str())),
            Stage::InstallingPackage => Request::Run(npm_install()),
            Stage::Cloning { path } => Request::Run(clone_into(path.as_str())),
            Stage::InstallingSources { path } => Request::Run(build_in(path.as_str())),
            Stage::Initializing => Request::Run(setup()),
            Stage::Done => Request::Done(Ok(String::from_str(SUCCESS_TEXT))),
            Stage::Aborted { reason } => Request::Done(Err(reason.duplicate())),
        }
    }

    /// Changes nothing and repeats the pending request.
    pub fn wait(self) -> (r: Step)
        ensures
            r@ == waiting(self@),
    {
        let request = self.pending_request();
        Step { state: self, events: empty(), request }
    }

    /// Ends the run in failure.
    pub fn abort(
        self,
        before: Vec<InstallProgress>,
        level: u8,
        reason: InstallError,
        logs: Vec<String>,
    ) -> (r: Step)
        ensures
            r@ == aborted(self@, before.deep_view(), level, reason@, logs.deep_view()),
    {
        let mut events = before;
        push_item(
            &mut events,
            InstallProgress::new(reason.message.as_str(), ProgressStatus::Failed, level, logs),
        );
        let told = reason.duplicate();
        Step {
            state: self.moved_to(Stage::Aborted { reason }),
            events,
            request: Request::Done(Err(told)),
        }
    }

    /// Enters stage D after the events `before`.
    pub fn run_openclaw_setup(self, before: Vec<InstallProgress>) -> (r: Step)
        ensures
            r@ == enter_setup(self@, before.deep_view()),
    {
        let mut events = before;
        push_item(
            &mut events,
            InstallProgress::new(SETUP_STAGE, ProgressStatus::Running, SETUP_LEVEL, empty()),
        );
        push_item(
            &mut events,
            InstallProgress::new(SETUP_STEP, ProgressStatus::Running, SETUP_LEVEL, empty()),
        );
        Step { state: self.moved_to(Stage::Initializing), events, request: Request::Run(setup()) }
    }

    /// Stage C by package: asks for the global install.
    pub fn install_openclaw_npm(self, before: Vec<InstallProgress>) -> (r: Step)
        ensures
            r@ == install_by_package(self@, before.deep_view()),
    {
        let mut events = before;
        push_item(
            &mut events,
            InstallProgress::new(
                NPM_STEP,
                ProgressStatus::Running,
                INSTALL_LEVEL,
                single(String::from_str(NPM_NOTE)),
            ),
        );
        Step {
            state: self.moved_to(Stage::InstallingPackage),
            events,
            request: Request::Run(npm_install()),
        }
    }

    /// Stage C from sources: asks for the clone.
    pub fn install_openclaw_git(self, before: Vec<InstallProgress>) -> (r: Step)
        ensures
            r@ == install_from_sources(self@, before.deep_view()),
    {
        let mut events = before;
        match self.source_path() {
            Some(path) => {
                push_item(
                    &mut events,
                    InstallProgress::new(
                        CLONE_STEP,
                        ProgressStatus::Running,
                        INSTALL_LEVEL,
                        single(cat2(CLONE_TARGET_NOTE, path.as_str())),
                    ),
                );
                let request = Request::Run(clone_into(path.as_str()));
                Step { state: self.moved_to(Stage::Cloning { path }), events, request }
            },
            None => self.abort(
                events,
                INSTALL_LEVEL,
                InstallError::of(ErrorKind::MissingHome, HOME_MISSING),
                empty(),
            ),
        }
    }

    /// Enters stage C after the events `before`.
    pub fn begin_install(self, before: Vec<InstallProgress>) -> (r: Step)
        ensures
            r@ == enter_install(self@, before.deep_view()),
    {
        let mut events = before;
        push_item(
            &mut events,
            InstallProgress::new(INSTALL_STEP, ProgressStatus::Running, INSTALL_LEVEL, empty()),
        );
        match self.options.method {
            InstallMethod::Npm => self.install_openclaw_npm(events),
            InstallMethod::Git => self.install_openclaw_git(events),
        }
    }

    /// Enters stage B where the platform has one, stage C where it has none.
    pub fn configure_npm_prefix(self) -> (r: Step)
        ensures
            r@ == enter_configure(self@),
    {
        if self.host.platform == Platform::Linux {
            let events = single(
                InstallProgress::new(
                    PREFIX_STEP,
                    ProgressStatus::Running,
                    CONFIGURE_LEVEL,
                    empty(),
                ),
            );
            let dir = match &self.host.home {
                Some(home) => Some(cat2(home.as_str(), NPM_GLOBAL_SUBDIR)),
                None => None,
            };
            match dir {
                Some(dir) => {
                    let request = Request::CreateDir(dir.clone());
                    Step { state: self.moved_to(Stage::CreatingPrefixDir { dir }), events, request }
                },
                None => self.abort(
                    events,
                    CONFIGURE_LEVEL,
                    InstallError::of(ErrorKind::MissingHome, HOME_MISSING),
                    empty(),
                ),
            }
        } else {
            self.begin_install(empty())
        }
    }

    /// Decides what follows the report of stage A.
    pub fn resume_with_report(self, report: &Vec<DependencyStatus>) -> (r: Step)
        ensures
            r@ == after_check(self@, report.deep_view()),
    {
        let blocking = blocking_set(report);
        if blocking.len() > 0 {
            let names = names_of(&blocking);
            let listed = join(&names, NAME_SEPARATOR);
            self.abort(
                empty(),
                CHECK_LEVEL,
                InstallError::new(
                    ErrorKind::MissingRequiredDependency,
                    MISSING_PREFIX,
                    listed.as_str(),
                ),
                empty(),
            )
        } else {
            self.configure_npm_prefix()
        }
    }

    /// Ends stage D and the run.
    pub fn finish_setup(self, result: &ProcessResult) -> (r: Step)
        ensures
            r@ == after_setup(self@, result@),
    {
        let setup = if result.succeeded() {
            InstallProgress::new(SETUP_DONE, ProgressStatus::Success, SETUP_LEVEL, empty())
        } else {
            InstallProgress::new(
                SETUP_PARTIAL,
                ProgressStatus::Success,
                SETUP_LEVEL,
                single(result.complaint()),
            )
        };
        let done = InstallProgress::new(
            FINAL_STEP,
            ProgressStatus::Success,
            FINAL_LEVEL,
            pair(String::from_str(FINAL_NOTE_INSTALLED), String::from_str(FINAL_NOTE_CONFIGURED)),
        );
        Step {
            state: self.moved_to(Stage::Done),
            events: pair(setup, done),
            request: Request::Done(Ok(String::from_str(SUCCESS_TEXT))),
        }
    }

    /// Ends the run because a command of an installation step failed.
    pub fn fail_step(self, level: u8, prefix: &str, detail: &str, result: &ProcessResult) -> (r:
        Step)
        ensures
            r@ == aborted(
                self@,
                Seq::empty(),
                level,
                step_failure(prefix@, detail@),
                seq![result@.complaint()],
            ),
    {
        self.abort(
            empty(),
            level,
            InstallError::new(ErrorKind::InstallStepFailure, prefix, detail),
            single(result.complaint()),
        )
    }

    /// Takes one step of the run on `event`.
    pub fn advance(self, event: Event) -> (r: Step)
        ensures
            r@ == next_step(self@, event@),
    {
        match event {
            Event::Start => match &self.stage {
                Stage::Idle => Step {
                    state: self.moved_to(Stage::Checking),
                    events: single(
                        InstallProgress::new(
                            CHECK_STEP,
                            ProgressStatus::Running,
                            CHECK_LEVEL,
                            empty(),
                        ),
                    ),
                    request: Request::Probe,
                },
                _ => self.wait(),
            },
            Event::Probed(outcomes) => match &self.stage {
                Stage::Checking => {
                    let report = check_dependencies(&self.host, &outcomes);
                    self.resume_with_report(&report)
                },
                _ => self.wait(),
            },
            Event::Finished(result) => match &self.stage {
                Stage::CreatingPrefixDir { dir } => {
                    if result.succeeded() {
                        let dir = dir.clone();
                        let request = Request::Run(set_prefix(dir.as_str()));
                        Step {
                            state: self.moved_to(Stage::SettingPrefix { dir }),
                            events: empty(),
                            request,
                        }
                    } else {
                        self.abort(
                            empty(),
                            CONFIGURE_LEVEL,
                            InstallError::of(ErrorKind::InstallStepFailure, PREFIX_FAILED),
                            single(result.complaint()),
                        )
                    }
                },
                Stage::SettingPrefix { dir } => {
                    if result.succeeded() {
                        let done = InstallProgress::new(
                            PREFIX_DONE,
                            ProgressStatus::Success,
                            CONFIGURE_LEVEL,
                            pair(
                                cat2(PREFIX_SET_NOTE, dir.as_str()),
                                String::from_str(PREFIX_PATH_NOTE),
                            ),
                        );
                        self.begin_install(single(done))
                    } else {
                        self.abort(
                            empty(),
                            CONFIGURE_LEVEL,
                            InstallError::of(ErrorKind::InstallStepFailure, PREFIX_FAILED),
                            single(result.complaint()),
                        )
                    }
                },
                Stage::InstallingPackage => {
                    if result.succeeded() {
                        let done = InstallProgress::new(
                            NPM_DONE,
                            ProgressStatus::Success,
                            INSTALL_LEVEL,
                            single(result.output()),
                        );
                        self.run_openclaw_setup(single(done))
                    } else {
                        let complaint = result.complaint();
                        self.fail_step(INSTALL_LEVEL, NPM_FAILED, complaint.as_str(), &result)
                    }
                },
                Stage::Cloning { path } => {
                    if result.succeeded() {
                        let path = path.clone();
                        let request = Request::Run(build_in(path.as_str()));
                        Step {
                            state: self.moved_to(Stage::InstallingSources { path }),
                            events: single(
                                InstallProgress::new(
                                    BUILD_STEP,
                                    ProgressStatus::Running,
                                    INSTALL_LEVEL,
                                    empty(),
                                ),
                            ),
                            request,
                        }
                    } else {
                        let complaint = result.complaint();
                        self.fail_step(INSTALL_LEVEL, CLONE_FAILED, complaint.as_str(), &result)
                    }
                },
                Stage::InstallingSources { .. } => {
                    if result.succeeded() {
                        self.run_openclaw_setup(empty())
                    } else {
                        let complaint = result.complaint();
                        self.fail_step(INSTALL_LEVEL, BUILD_FAILED, complaint.as_str(), &result)
                    }
                },
                Stage::Initializing => self.finish_setup(&result),
                _ => self.wait(),
            },
        }
    }
}

/// Takes one step of the installation of the target application: from the
/// run as it stands and the host's report to the run after the step, the
/// events to emit and the next request.
pub fn install_openclaw(state: Installation, event: Event) -> (r: Step)
    ensures
        r@ == next_step(state@, event@),
{
    state.advance(event)
}

} // verus!
