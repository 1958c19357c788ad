use openclaw_installer::executor::ProcessResult;
use openclaw_installer::plugin::{
    install_feishu_plugin, PluginInstall, PluginReport, PluginRequest, PluginStage, PluginStep,
};
use openclaw_installer::progress::{ErrorKind, Event};

fn ran(stdout: &str) -> ProcessResult {
    ProcessResult::Exited { success: true, stdout: stdout.to_string(), stderr: String::new() }
}

fn failed(stderr: &str) -> ProcessResult {
    ProcessResult::Exited { success: false, stdout: String::new(), stderr: stderr.to_string() }
}

fn never_ran(error: &str) -> ProcessResult {
    ProcessResult::SpawnFailed { error: error.to_string() }
}

fn fresh() -> PluginInstall {
    PluginInstall::new("cli_a1".to_string(), "s3cret".to_string())
}

fn feed(inputs: Vec<ProcessResult>) -> (PluginInstall, Vec<PluginRequest>) {
    let mut requests = Vec::new();
    let PluginStep { state, request } = install_feishu_plugin(fresh(), Event::Start);
    let mut state = state;
    requests.push(request);
    for input in inputs {
        let PluginStep { state: next, request } = install_feishu_plugin(state, Event::Finished(input));
        state = next;
        requests.push(request);
    }
    (state, requests)
}

fn script_asked(request: &PluginRequest) -> String {
    match request {
        PluginRequest::Run(c) => {
            assert_eq!(c.program, "bash");
            assert_eq!(c.args[0], "-c");
            assert_eq!(c.working_dir, None);
            c.args[1].clone()
        }
        other => panic!("expected a command, got {:?}", other),
    }
}

fn report_of(request: &PluginRequest) -> &PluginReport {
    match request {
        PluginRequest::Done(Ok(report)) => report,
        other => panic!("expected a report, got {:?}", other),
    }
}

const CLOSING: [&str; 5] = [
    "",
    "🎉 配置完成！下一步：",
    "1. 在飞书中搜索你的机器人并发送消息",
    "2. 如果收到配对码，运行: openclaw pairing approve feishu <配对码>",
    "3. 查看日志: openclaw logs --follow",
];

#[test]
fn plugin_install_begins_with_the_listing() {
    let idle = fresh();
    assert!(matches!(idle.stage, PluginStage::Idle));
    assert!(idle.logs.is_empty());
    let step = install_feishu_plugin(idle, Event::Start);
    assert!(matches!(step.state.stage, PluginStage::Checking));
    assert_eq!(step.state.logs, vec!["🔍 检查飞书插件状态..."]);
    assert_eq!(
        script_asked(&step.request),
        "source ~/.nvm/nvm.sh 2>/dev/null && openclaw plugins list --json"
    );
}

#[test]
fn plugin_is_installed_where_the_listing_lacks_it() {
    let (state, requests) = feed(vec![ran("[]"), ran("installed"), ran(""), ran("")]);
    assert_eq!(
        script_asked(&requests[1]),
        "source ~/.nvm/nvm.sh 2>/dev/null && openclaw plugins install @openclaw/feishu"
    );
    assert_eq!(
        script_asked(&requests[2]),
        "source ~/.nvm/nvm.sh 2>/dev/null && openclaw config set channels.feishu.appId 'cli_a1' && openclaw config set channels.feishu.appSecret 's3cret'"
    );
    assert_eq!(
        script_asked(&requests[3]),
        "source ~/.nvm/nvm.sh 2>/dev/null && openclaw gateway restart"
    );
    let report = report_of(&requests[4]);
    assert!(report.success);
    assert_eq!(report.error, None);
    let mut expected = vec![
        "🔍 检查飞书插件状态...",
        "📦 正在安装 @openclaw/feishu 插件...",
        "✅ 插件安装成功",
        "🔧 正在配置飞书渠道...",
        "✅ 飞书凭证已保存",
        "🔄 正在重启 OpenClaw 网关...",
        "✅ 网关已重启",
    ];
    expected.extend(CLOSING);
    assert_eq!(report.logs, expected);
    assert_eq!(state.logs, expected);
    assert!(matches!(state.stage, PluginStage::Done { .. }));
}

#[test]
fn plugin_that_is_listed_is_not_installed_again() {
    for listing in ["[{\"name\": \"@openclaw/feishu\"}]", "{\"id\": \"feishu\"}"] {
        let (state, requests) = feed(vec![ran(listing)]);
        assert!(matches!(state.stage, PluginStage::Configuring));
        assert!(script_asked(&requests[1]).contains("channels.feishu.appId"));
        assert_eq!(
            state.logs,
            vec![
                "🔍 检查飞书插件状态...",
                "✅ 飞书插件已安装，跳过安装步骤",
                "🔧 正在配置飞书渠道..."
            ]
        );
    }
    let (state, _) = feed(vec![ran("feishu")]);
    assert!(matches!(state.stage, PluginStage::Installing));
}

#[test]
fn listing_counts_however_the_command_exited() {
    let listed = ProcessResult::Exited {
        success: false,
        stdout: "@openclaw/feishu".to_string(),
        stderr: "warning".to_string(),
    };
    let (state, _) = feed(vec![listed]);
    assert!(matches!(state.stage, PluginStage::Configuring));
    let (state, _) = feed(vec![failed("@openclaw/feishu")]);
    assert!(matches!(state.stage, PluginStage::Installing));
}

#[test]
fn duplicate_plugin_counts_as_installed() {
    let (state, requests) = feed(vec![ran(""), failed("Error: duplicate plugin id: feishu")]);
    assert!(matches!(state.stage, PluginStage::Configuring));
    assert!(script_asked(&requests[2]).contains("appSecret 's3cret'"));
    assert_eq!(
        state.logs,
        vec![
            "🔍 检查飞书插件状态...",
            "📦 正在安装 @openclaw/feishu 插件...",
            "✅ 飞书插件已存在（检测到重复ID）",
            "🔧 正在配置飞书渠道..."
        ]
    );
}

#[test]
fn failed_plugin_install_is_reported() {
    let (state, requests) = feed(vec![ran(""), failed("network down")]);
    let report = report_of(&requests[2]);
    assert!(!report.success);
    assert_eq!(report.error, Some("network down".to_string()));
    assert_eq!(
        report.logs,
        vec![
            "🔍 检查飞书插件状态...",
            "📦 正在安装 @openclaw/feishu 插件...",
            "❌ 插件安装失败: network down"
        ]
    );
    let again = install_feishu_plugin(state, Event::Finished(ran("")));
    let repeated = report_of(&again.request);
    assert!(!repeated.success);
    assert_eq!(repeated.logs.len(), 3);
    assert_eq!(again.state.logs.len(), 3);
}

#[test]
fn failed_credentials_are_reported() {
    let (_, requests) = feed(vec![ran("@openclaw/feishu"), failed("invalid key")]);
    let report = report_of(&requests[2]);
    assert!(!report.success);
    assert_eq!(report.error, Some("invalid key".to_string()));
    assert_eq!(report.logs.last().unwrap(), "❌ 配置失败: invalid key");
    assert_eq!(report.logs.len(), 4);
}

#[test]
fn failed_restart_is_overlooked() {
    let (_, requests) = feed(vec![ran("@openclaw/feishu"), ran(""), failed("gateway not running")]);
    let report = report_of(&requests[3]);
    assert!(report.success);
    assert_eq!(report.error, None);
    let mut expected = vec![
        "🔍 检查飞书插件状态...",
        "✅ 飞书插件已安装，跳过安装步骤",
        "🔧 正在配置飞书渠道...",
        "✅ 飞书凭证已保存",
        "🔄 正在重启 OpenClaw 网关...",
        "⚠️ 网关重启失败: gateway not running",
        "💡 请手动运行: openclaw gateway restart",
    ];
    expected.extend(CLOSING);
    assert_eq!(report.logs, expected);
}

#[test]
fn commands_that_cannot_start_fail_the_call() {
    let cases: Vec<(Vec<ProcessResult>, &str)> = vec![
        (vec![never_ran("no bash")], "检查插件失败: no bash"),
        (vec![ran(""), never_ran("no bash")], "执行安装命令失败: no bash"),
        (vec![ran("\"feishu\""), never_ran("no bash")], "执行配置命令失败: no bash"),
        (vec![ran("\"feishu\""), ran(""), never_ran("no bash")], "执行重启命令失败: no bash"),
    ];
    for (inputs, message) in cases {
        let (state, requests) = feed(inputs);
        match requests.last().unwrap() {
            PluginRequest::Done(Err(e)) => {
                assert_eq!(e.kind, ErrorKind::ConfigCommandFailure);
                assert_eq!(e.message, message);
            }
            other => panic!("expected a failure, got {:?}", other),
        }
        assert!(matches!(state.stage, PluginStage::Done { result: Err(_) }));
    }
}

#[test]
fn plugin_install_waits_for_the_right_event() {
    let step = install_feishu_plugin(fresh(), Event::Finished(ran("")));
    assert!(matches!(step.state.stage, PluginStage::Idle));
    assert!(matches!(step.request, PluginRequest::Begin));
    let step = install_feishu_plugin(step.state, Event::Probed(vec![]));
    assert!(matches!(step.request, PluginRequest::Begin));
    let started = install_feishu_plugin(step.state, Event::Start);
    let step = install_feishu_plugin(started.state, Event::Start);
    assert!(matches!(step.state.stage, PluginStage::Checking));
    assert_eq!(step.state.logs.len(), 1);
    assert!(script_asked(&step.request).ends_with("openclaw plugins list --json"));
    let step = install_feishu_plugin(step.state, Event::Finished(ran("")));
    let step = install_feishu_plugin(step.state, Event::Probed(vec![]));
    assert!(script_asked(&step.request).ends_with("openclaw plugins install @openclaw/feishu"));
    let step = install_feishu_plugin(step.state, Event::Finished(ran("")));
    let step = install_feishu_plugin(step.state, Event::Start);
    assert!(script_asked(&step.request).contains("appId 'cli_a1'"));
    let step = install_feishu_plugin(step.state, Event::Finished(ran("")));
    let step = install_feishu_plugin(step.state, Event::Start);
    assert!(script_asked(&step.request).ends_with("openclaw gateway restart"));
}

#[test]
fn plugin_report_copy_is_equal() {
    let r = PluginReport { success: false, logs: vec!["a".to_string()], error: Some("e".to_string()) };
    let d = r.duplicate();
    assert!(!d.success);
    assert_eq!(d.logs, vec!["a"]);
    assert_eq!(d.error, Some("e".to_string()));
    assert_eq!(fresh().credentials().args[1], "source ~/.nvm/nvm.sh 2>/dev/null && openclaw config set channels.feishu.appId 'cli_a1' && openclaw config set channels.feishu.appSecret 's3cret'");
}
