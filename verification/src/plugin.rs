//! The installation of the Feishu plugin of the target application: check,
//! install where needed, store the credentials, restart the gateway.

use crate::executor::{CommandExecutor, CommandSpec, CommandView, ProcessResult, ProcessView, activated_command, copy_strings};
use crate::list::{empty, push_item};
use crate::progress::{ErrorKind, ErrorView, Event, EventView, InstallError, failure};
use crate::text::{cat2, cat3, contains, contains_text};
use vstd::prelude::*;
use vstd::string::*;

verus! {

pub const LIST_SCRIPT: &'static str = "openclaw plugins list --json";

pub const INSTALL_SCRIPT: &'static str = "openclaw plugins install @openclaw/feishu";

pub const RESTART_SCRIPT: &'static str = "openclaw gateway restart";

/// The script that stores the credentials, up to the application's id.
pub const CREDENTIALS_SCRIPT_HEAD: &'static str = "openclaw config set channels.feishu.appId '";

/// The script that stores the credentials, between the id and the secret.
pub const CREDENTIALS_SCRIPT_MIDDLE: &'static str =
    "' && openclaw config set channels.feishu.appSecret '";

/// The script that stores the credentials, after the secret.
pub const CREDENTIALS_SCRIPT_TAIL: &'static str = "'";

/// The name under which the plugin is published.
pub const PACKAGE_MARK: &'static str = "@openclaw/feishu";

/// The plugin's id as it stands in a listing.
pub const ID_MARK: &'static str = "\"feishu\"";

/// What the target application says of a plugin that is installed twice.
pub const DUPLICATE_MARK: &'static str = "duplicate plugin id";

pub const NOTE_CHECKING: &'static str = "🔍 检查飞书插件状态...";

pub const NOTE_PRESENT: &'static str = "✅ 飞书插件已安装，跳过安装步骤";

pub const NOTE_INSTALLING: &'static str = "📦 正在安装 @openclaw/feishu 插件...";

pub const NOTE_DUPLICATE: &'static str = "✅ 飞书插件已存在（检测到重复ID）";

pub const NOTE_INSTALL_FAILED: &'static str = "❌ 插件安装失败: ";

pub const NOTE_INSTALLED: &'static str = "✅ 插件安装成功";

pub const NOTE_CONFIGURING: &'static str = "🔧 正在配置飞书渠道...";

pub const NOTE_CONFIGURE_FAILED: &'static str = "❌ 配置失败: ";

pub const NOTE_SAVED: &'static str = "✅ 飞书凭证已保存";

pub const NOTE_RESTARTING: &'static str = "🔄 正在重启 OpenClaw 网关...";

pub const NOTE_RESTART_FAILED: &'static str = "⚠️ 网关重启失败: ";

pub const NOTE_RESTART_HINT: &'static str = "💡 请手动运行: openclaw gateway restart";

pub const NOTE_RESTARTED: &'static str = "✅ 网关已重启";

pub const NOTE_FINISHED: &'static str = "🎉 配置完成！下一步：";

pub const NOTE_NEXT_MESSAGE: &'static str = "1. 在飞书中搜索你的机器人并发送消息";

pub const NOTE_NEXT_PAIRING: &'static str =
    "2. 如果收到配对码，运行: openclaw pairing approve feishu <配对码>";

pub const NOTE_NEXT_LOGS: &'static str = "3. 查看日志: openclaw logs --follow";

pub const CHECK_SPAWN_FAILED: &'static str = "检查插件失败: ";

pub const INSTALL_SPAWN_FAILED: &'static str = "执行安装命令失败: ";

pub const CONFIGURE_SPAWN_FAILED: &'static str = "执行配置命令失败: ";

pub const RESTART_SPAWN_FAILED: &'static str = "执行重启命令失败: ";

/// What the installation of the plugin came to.
#[derive(Debug)]
pub struct PluginReport {
    pub success: bool,
    pub logs: Vec<String>,
    /// What the failing command complained of, where one failed.
    pub error: Option<String>,
}

/// A report as plain values.
pub ghost struct ReportView {
    pub success: bool,
    pub logs: Seq<Seq<char>>,
    pub error: Option<Seq<char>>,
}

impl View for PluginReport {
    type V = ReportView;

    open spec fn view(&self) -> ReportView {
        ReportView {
            success: self.success,
            logs: self.logs.deep_view(),
            error: self.error.deep_view(),
        }
    }
}

/// How a run ended: with a report, or with the failure to start a command.
pub ghost enum PluginResultView {
    Report(ReportView),
    Failure(ErrorView),
}

/// The view of a result.
pub open spec fn plugin_result_view(r: Result<PluginReport, InstallError>) -> PluginResultView {
    match r {
        Ok(report) => PluginResultView::Report(report@),
        Err(e) => PluginResultView::Failure(e@),
    }
}

/// What the host is asked to do next.
#[derive(Debug)]
pub enum PluginRequest {
    /// Nothing has begun: answer with `Event::Start`.
    Begin,
    /// Run the command: answer with `Event::Finished`.
    Run(CommandSpec),
    /// The run is over, with this result.
    Done(Result<PluginReport, InstallError>),
}

/// A request as plain values.
pub ghost enum PluginRequestView {
    Begin,
    Run(CommandView),
    Done(PluginResultView),
}

impl View for PluginRequest {
    type V = PluginRequestView;

    open spec fn view(&self) -> PluginRequestView {
        match self {
            PluginRequest::Begin => PluginRequestView::Begin,
            PluginRequest::Run(c) => PluginRequestView::Run(c@),
            PluginRequest::Done(r) => PluginRequestView::Done(plugin_result_view(*r)),
        }
    }
}

/// Where the installation of the plugin stands.
#[derive(Debug)]
pub enum PluginStage {
    Idle,
    Checking,
    Installing,
    Configuring,
    Restarting,
    Done { result: Result<PluginReport, InstallError> },
}

/// A stage as plain values.
pub ghost enum PluginStageView {
    Idle,
    Checking,
    Installing,
    Configuring,
    Restarting,
    Done { result: PluginResultView },
}

impl View for PluginStage {
    type V = PluginStageView;

    open spec fn view(&self) -> PluginStageView {
        match self {
            PluginStage::Idle => PluginStageView::Idle,
            PluginStage::Checking => PluginStageView::Checking,
            PluginStage::Installing => PluginStageView::Installing,
            PluginStage::Configuring => PluginStageView::Configuring,
            PluginStage::Restarting => PluginStageView::Restarting,
            PluginStage::Done { result } => PluginStageView::Done {
                result: plugin_result_view(*result),
            },
        }
    }
}

/// The installation of the plugin: the credentials, the stage, and the log
/// so far.
#[derive(Debug)]
pub struct PluginInstall {
    pub app_id: String,
    pub app_secret: String,
    pub stage: PluginStage,
    pub logs: Vec<String>,
}

/// The installation of the plugin as plain values.
pub ghost struct PluginInstallView {
    pub app_id: Seq<char>,
    pub app_secret: Seq<char>,
    pub stage: PluginStageView,
    pub logs: Seq<Seq<char>>,
}

impl View for PluginInstall {
    type V = PluginInstallView;

    open spec fn view(&self) -> PluginInstallView {
        PluginInstallView {
            app_id: self.app_id@,
            app_secret: self.app_secret@,
            stage: self.stage@,
            logs: self.logs.deep_view(),
        }
    }
}

/// What one step of the installation of the plugin yields.
#[derive(Debug)]
pub struct PluginStep {
    pub state: PluginInstall,
    pub request: PluginRequest,
}

/// A step as plain values.
pub ghost struct PluginStepView {
    pub state: PluginInstallView,
    pub request: PluginRequestView,
}

impl View for PluginStep {
    type V = PluginStepView;

    open spec fn view(&self) -> PluginStepView {
        PluginStepView { state: self.state@, request: self.request@ }
    }
}

/// The command that stores the credentials.
pub open spec fn credentials_command(app_id: Seq<char>, app_secret: Seq<char>) -> CommandView {
    activated_command(
        CREDENTIALS_SCRIPT_HEAD@ + app_id + CREDENTIALS_SCRIPT_MIDDLE@ + app_secret
            + CREDENTIALS_SCRIPT_TAIL@,
    )
}

/// Whether a listing of the plugins shows the plugin.
pub open spec fn lists_plugin(listing: Seq<char>) -> bool {
    contains_text(listing, PACKAGE_MARK@) || contains_text(listing, ID_MARK@)
}

impl PluginInstallView {
    /// The same installation with `notes` added to its log, at `stage`.
    pub open spec fn go(self, stage: PluginStageView, notes: Seq<Seq<char>>) -> PluginInstallView {
        PluginInstallView {
            app_id: self.app_id,
            app_secret: self.app_secret,
            stage,
            logs: self.logs + notes,
        }
    }

    /// The step that goes on to `stage` with `notes` and asks for `command`.
    pub open spec fn run(self, stage: PluginStageView, notes: Seq<Seq<char>>, command: CommandView) -> PluginStepView {
        PluginStepView { state: self.go(stage, notes), request: PluginRequestView::Run(command) }
    }

    /// The step that ends the run with a report, after adding `notes`.
    pub open spec fn report(self, success: bool, notes: Seq<Seq<char>>, error: Option<Seq<char>>) -> PluginStepView {
        let result = PluginResultView::Report(
            ReportView { success, logs: self.logs + notes, error },
        );
        PluginStepView {
            state: self.go(PluginStageView::Done { result }, notes),
            request: PluginRequestView::Done(result),
        }
    }

    /// The step that ends the run because a command could not be started.
    pub open spec fn fail(self, prefix: Seq<char>, error: Seq<char>) -> PluginStepView {
        let result = PluginResultView::Failure(
            failure(ErrorKind::ConfigCommandFailure, prefix, error),
        );
        PluginStepView {
            state: self.go(PluginStageView::Done { result }, Seq::empty()),
            request: PluginRequestView::Done(result),
        }
    }

    /// The step that goes on to store the credentials, after adding `notes`.
    pub open spec fn configure(self, notes: Seq<Seq<char>>) -> PluginStepView {
        self.run(
            PluginStageView::Configuring,
            notes.push(NOTE_CONFIGURING@),
            credentials_command(self.app_id, self.app_secret),
        )
    }
}

/// The request that the installation is waiting for an answer to.
pub open spec fn pending_plugin(s: PluginInstallView) -> PluginRequestView {
    match s.stage {
        PluginStageView::Idle => PluginRequestView::Begin,
        PluginStageView::Checking => PluginRequestView::Run(activated_command(LIST_SCRIPT@)),
        PluginStageView::Installing => PluginRequestView::Run(activated_command(INSTALL_SCRIPT@)),
        PluginStageView::Configuring => PluginRequestView::Run(
            credentials_command(s.app_id, s.app_secret),
        ),
        PluginStageView::Restarting => PluginRequestView::Run(activated_command(RESTART_SCRIPT@)),
        PluginStageView::Done { result } => PluginRequestView::Done(result),
    }
}

/// The notes that close a successful run.
pub open spec fn closing_notes() -> Seq<Seq<char>> {
    seq![Seq::empty(), NOTE_FINISHED@, NOTE_NEXT_MESSAGE@, NOTE_NEXT_PAIRING@, NOTE_NEXT_LOGS@]
}

/// The step that the installation of the plugin takes on an event.
///
/// The listing decides whether the plugin is installed at all; how the
/// listing command exited does not matter. A failed install is overlooked
/// where it only says that the plugin is there already. A failed restart is
/// overlooked too: the log then says how to restart by hand. A command that
/// cannot be started ends the run with a failure; a command that fails ends
/// it with a report that says so.
pub open spec fn next_plugin_step(s: PluginInstallView, e: EventView) -> PluginStepView {
    match (s.stage, e) {
        (PluginStageView::Idle, EventView::Start) => s.run(
            PluginStageView::Checking,
            seq![NOTE_CHECKING@],
            activated_command(LIST_SCRIPT@),
        ),
        (PluginStageView::Checking, EventView::Finished(result)) => match result {
            ProcessView::SpawnFailed { error } => s.fail(CHECK_SPAWN_FAILED@, error),
            ProcessView::Exited { stdout, .. } => if lists_plugin(stdout) {
                s.configure(seq![NOTE_PRESENT@])
            } else {
                s.run(
                    PluginStageView::Installing,
                    seq![NOTE_INSTALLING@],
                    activated_command(INSTALL_SCRIPT@),
                )
            },
        },
        (PluginStageView::Installing, EventView::Finished(result)) => match result {
            ProcessView::SpawnFailed { error } => s.fail(INSTALL_SPAWN_FAILED@, error),
            ProcessView::Exited { success, stderr, .. } => if success {
                s.configure(seq![NOTE_INSTALLED@])
            } else if contains_text(stderr, DUPLICATE_MARK@) {
                s.configure(seq![NOTE_DUPLICATE@])
            } else {
                s.report(false, seq![NOTE_INSTALL_FAILED@ + stderr], Some(stderr))
            },
        },
        (PluginStageView::Configuring, EventView::Finished(result)) => match result {
            ProcessView::SpawnFailed { error } => s.fail(CONFIGURE_SPAWN_FAILED@, error),
            ProcessView::Exited { success, stderr, .. } => if success {
                s.run(
                    PluginStageView::Restarting,
                    seq![NOTE_SAVED@, NOTE_RESTARTING@],
                    activated_command(RESTART_SCRIPT@),
                )
            } else {
                s.report(false, seq![NOTE_CONFIGURE_FAILED@ + stderr], Some(stderr))
            },
        },
        (PluginStageView::Restarting, EventView::Finished(result)) => match result {
            ProcessView::SpawnFailed { error } => s.fail(RESTART_SPAWN_FAILED@, error),
            ProcessView::Exited { success, stderr, .. } => if success {
                s.report(true, seq![NOTE_RESTARTED@] + closing_notes(), None)
            } else {
                s.report(
                    true,
                    seq![NOTE_RESTART_FAILED@ + stderr, NOTE_RESTART_HINT@] + closing_notes(),
                    None,
                )
            },
        },
        _ => PluginStepView { state: s, request: pending_plugin(s) },
    }
}

impl PluginReport {
    /// A copy of the report.
    pub fn duplicate(&self) -> (r: PluginReport)
        ensures
            r@ == self@,
    {
        PluginReport {
            success: self.success,
            logs: copy_strings(&self.logs),
            error: match &self.error {
                Some(e) => Some(e.clone()),
                None => None,
            },
        }
    }
}

/// A copy of a result.
pub fn copy_result(result: &Result<PluginReport, InstallError>) -> (r: Result<
    PluginReport,
    InstallError,
>)
    ensures
        plugin_result_view(r) == plugin_result_view(*result),
{
    match result {
        Ok(report) => Ok(report.duplicate()),
        Err(e) => Err(e.duplicate()),
    }
}

/// Adds `notes` to `logs`.
pub fn add_notes(logs: &mut Vec<String>, notes: Vec<String>)
    ensures
        final(logs).deep_view() == old(logs).deep_view() + notes.deep_view(),
{
    let mut i: usize = 0;
    while i < notes.len()
        invariant
            i <= notes.len(),
            logs.deep_view() == old(logs).deep_view() + notes.deep_view().take(i as int),
        decreases notes.len() - i,
    {
        push_item(logs, notes[i].clone());
        i += 1;
    }
}

/// The notes that close a successful run, behind `first`.
pub fn closing_after(first: Vec<String>) -> (r: Vec<String>)
    ensures
        r.deep_view() == first.deep_view() + closing_notes(),
{
    let mut notes = first;
    push_item(&mut notes, String::new());
    push_item(&mut notes, String::from_str(NOTE_FINISHED));
    push_item(&mut notes, String::from_str(NOTE_NEXT_MESSAGE));
    push_item(&mut notes, String::from_str(NOTE_NEXT_PAIRING));
    push_item(&mut notes, String::from_str(NOTE_NEXT_LOGS));
    notes
}

impl PluginInstall {
    /// The installation of the plugin with these credentials, not yet begun.
    pub fn new(app_id: String, app_secret: String) -> (r: PluginInstall)
        ensures
            r@ == (PluginInstallView {
                app_id: app_id@,
                app_secret: app_secret@,
                stage: PluginStageView::Idle,
                logs: Seq::empty(),
            }),
    {
        PluginInstall { app_id, app_secret, stage: PluginStage::Idle, logs: empty() }
    }

    /// The command that stores the credentials.
    pub fn credentials(&self) -> (r: CommandSpec)
        ensures
            r@ == credentials_command(self@.app_id, self@.app_secret),
    {
        let mut script = cat3(
            CREDENTIALS_SCRIPT_HEAD,
            self.app_id.as_str(),
            CREDENTIALS_SCRIPT_MIDDLE,
        );
        script.append(self.app_secret.as_str());
        script.append(CREDENTIALS_SCRIPT_TAIL);
        CommandExecutor::activated(script.as_str())
    }

    /// Goes on to `stage` with `notes` and asks for `command`.
    pub fn run(self, stage: PluginStage, notes: Vec<String>, command: CommandSpec) -> (r:
        PluginStep)
        ensures
            r@ == self@.run(stage@, notes.deep_view(), command@),
    {
        let mut logs = self.logs;
        add_notes(&mut logs, notes);
        PluginStep {
            state: PluginInstall { app_id: self.app_id, app_secret: self.app_secret, stage, logs },
            request: PluginRequest::Run(command),
        }
    }

    /// Ends the run with a report, after adding `notes`.
    pub fn report(self, success: bool, notes: Vec<String>, error: Option<String>) -> (r:
        PluginStep)
        ensures
            r@ == self@.report(success, notes.deep_view(), error.deep_view()),
    {
        let mut logs = self.logs;
        add_notes(&mut logs, notes);
        let result = PluginReport { success, logs: copy_strings(&logs), error };
        let told = result.duplicate();
        PluginStep {
            state: PluginInstall {
                app_id: self.app_id,
                app_secret: self.app_secret,
                stage: PluginStage::Done { result: Ok(result) },
                logs,
            },
            request: PluginRequest::Done(Ok(told)),
        }
    }

    /// Ends the run because a command could not be started.
    pub fn fail(self, prefix: &str, error: &str) -> (r: PluginStep)
        ensures
            r@ == self@.fail(prefix@, error@),
    {
        let reason = InstallError::new(ErrorKind::ConfigCommandFailure, prefix, error);
        let told = reason.duplicate();
        PluginStep {
            state: PluginInstall {
                app_id: self.app_id,
                app_secret: self.app_secret,
                stage: PluginStage::Done { result: Err(reason) },
                logs: self.logs,
            },
            request: PluginRequest::Done(Err(told)),
        }
    }

    /// Goes on to store the credentials, after adding `notes`.
    pub fn configure(self, notes: Vec<String>) -> (r: PluginStep)
        ensures
            r@ == self@.configure(notes.deep_view()),
    {
        let mut all = notes;
        push_item(&mut all, String::from_str(NOTE_CONFIGURING));
        let command = self.credentials();
        self.run(PluginStage::Configuring, all, command)
    }

    /// Changes nothing and repeats the pending request.
    pub fn wait(self) -> (r: PluginStep)
        ensures
            r@ == (PluginStepView { state: self@, request: pending_plugin(self@) }),
    {
        let request = match &self.stage {
            PluginStage::Idle => PluginRequest::Begin,
            PluginStage::Checking => PluginRequest::Run(CommandExecutor::activated(LIST_SCRIPT)),
            PluginStage::Installing => PluginRequest::Run(
                CommandExecutor::activated(INSTALL_SCRIPT),
            ),
            PluginStage::Configuring => PluginRequest::Run(self.credentials()),
            PluginStage::Restarting => PluginRequest::Run(
                CommandExecutor::activated(RESTART_SCRIPT),
            ),
            PluginStage::Done { result } => PluginRequest::Done(copy_result(result)),
        };
        PluginStep { state: self, request }
    }

    /// Takes one step of the installation on `event`.
    pub fn advance(self, event: Event) -> (r: PluginStep)
        ensures
            r@ == next_plugin_step(self@, event@),
    {
        match event {
            Event::Start => match &self.stage {
                PluginStage::Idle => self.run(
                    PluginStage::Checking,
                    crate::list::single(String::from_str(NOTE_CHECKING)),
                    CommandExecutor::activated(LIST_SCRIPT),
                ),
                _ => self.wait(),
            },
            Event::Probed(_) => self.wait(),
            Event::Finished(result) => match &self.stage {
                PluginStage::Checking => match &result {
                    ProcessResult::SpawnFailed { error } => self.fail(
                        CHECK_SPAWN_FAILED,
                        error.as_str(),
                    ),
                    ProcessResult::Exited { stdout, .. } => {
                        if contains(stdout.as_str(), PACKAGE_MARK) || contains(
                            stdout.as_str(),
                            ID_MARK,
                        ) {
                            self.configure(crate::list::single(String::from_str(NOTE_PRESENT)))
                        } else {
                            self.run(
                                PluginStage::Installing,
                                crate::list::single(String::from_str(NOTE_INSTALLING)),
                                CommandExecutor::activated(INSTALL_SCRIPT),
                            )
                        }
                    },
                },
                PluginStage::Installing => match &result {
                    ProcessResult::SpawnFailed { error } => self.fail(
                        INSTALL_SPAWN_FAILED,
                        error.as_str(),
                    ),
                    ProcessResult::Exited { success, stderr, .. } => {
                        if *success {
                            self.configure(crate::list::single(String::from_str(NOTE_INSTALLED)))
                        } else if contains(stderr.as_str(), DUPLICATE_MARK) {
                            self.configure(crate::list::single(String::from_str(NOTE_DUPLICATE)))
                        } else {
                            self.report(
                                false,
                                crate::list::single(cat2(NOTE_INSTALL_FAILED, stderr.as_str())),
                                Some(stderr.clone()),
                            )
                        }
                    },
                },
                PluginStage::Configuring => match &result {
                    ProcessResult::SpawnFailed { error } => self.fail(
                        CONFIGURE_SPAWN_FAILED,
                        error.as_str(),
                    ),
                    ProcessResult::Exited { success, stderr, .. } => {
                        if *success {
                            self.run(
                                PluginStage::Restarting,
                                crate::list::pair(
                                    String::from_str(NOTE_SAVED),
                                    String::from_str(NOTE_RESTARTING),
                                ),
                                CommandExecutor::activated(RESTART_SCRIPT),
                            )
                        } else {
                            self.report(
                                false,
                                crate::list::single(
                                    cat2(NOTE_CONFIGURE_FAILED, stderr.as_str()),
                                ),
                                Some(stderr.clone()),
                            )
                        }
                    },
                },
                PluginStage::Restarting => match &result {
                    ProcessResult::SpawnFailed { error } => self.fail(
                        RESTART_SPAWN_FAILED,
                        error.as_str(),
                    ),
                    ProcessResult::Exited { success, stderr, .. } => {
                        if *success {
                            self.report(
                                true,
                                closing_after(
                                    crate::list::single(String::from_str(NOTE_RESTARTED)),
                                ),
                                None,
                            )
                        } else {
                            self.report(
                                true,
                                closing_after(
                                    crate::list::pair(
                                        cat2(NOTE_RESTART_FAILED, stderr.as_str()),
                                        String::from_str(NOTE_RESTART_HINT),
                                    ),
                                ),
                                None,
                            )
                        }
                    },
                },
                _ => self.wait(),
            },
        }
    }
}

/// Takes one step of the installation of the Feishu plugin: from the
/// installation as it stands and the host's report to the installation after
/// the step and the next request.
pub fn install_feishu_plugin(state: PluginInstall, event: Event) -> (r: PluginStep)
    ensures
        r@ == next_plugin_step(state@, event@),
{
    state.advance(event)
}

/// Every step keeps the credentials and the log written so far: notes are
/// only ever added at the end. The report that ends a run holds the whole
/// log.
pub proof fn lemma_plugin_log_grows(s: PluginInstallView, e: EventView)
    ensures
        next_plugin_step(s, e).state.app_id == s.app_id,
        next_plugin_step(s, e).state.app_secret == s.app_secret,
        next_plugin_step(s, e).state.logs.len() >= s.logs.len(),
        next_plugin_step(s, e).state.logs.subrange(0, s.logs.len() as int) == s.logs,
        !(s.stage is Done) ==> (next_plugin_step(s, e).request matches PluginRequestView::Done(
            PluginResultView::Report(report),
        ) ==> report.logs == next_plugin_step(s, e).state.logs),
{
    let after = next_plugin_step(s, e).state.logs;
    assert(after.subrange(0, s.logs.len() as int) =~= s.logs);
}

/// The credentials are stored only after the plugin is known to be there,
/// and the gateway is restarted only after the credentials are stored: the
/// run asks for the next command only where the one before allows it.
pub proof fn lemma_plugin_order(s: PluginInstallView, result: ProcessView)
    ensures
        ({
            let next = next_plugin_step(s, EventView::Finished(result));
            &&& s.stage is Installing && next.state.stage is Configuring ==> result.succeeded()
                || contains_text(result.complaint(), DUPLICATE_MARK@)
            &&& s.stage is Checking && next.state.stage is Configuring ==> lists_plugin(
                result.output(),
            )
            &&& s.stage is Configuring && next.state.stage is Restarting ==> result.succeeded()
            &&& next.state.stage is Restarting ==> s.stage is Configuring || s.stage is Restarting
            &&& result is SpawnFailed && !(s.stage is Idle) && !(s.stage is Done) ==> (next.request
                matches PluginRequestView::Done(PluginResultView::Failure(_)))
        }),
{
}

} // verus!
