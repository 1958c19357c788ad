//! What is installed: the catalog of dependencies, how each is probed, how
//! a probe's results are read, and which dependencies block an installation.

use crate::executor::{CommandExecutor, CommandSpec, CommandView, ProcessResult, ProcessView, activated_command, invocation};
use crate::list::{empty, push_item, single};
use crate::pattern::{first_capture, regex_capture};
use crate::platform::{Host, HostView, Platform};
use crate::text::{CharClass, chars_of, cat3, find_from, first_line, nth_token, parse_decimal, parse_number, scan, strip_trailing, take_first_line, token, trim, trim_trailing, trimmed};
use vstd::prelude::*;
use vstd::string::*;

verus! {

/// The lowest major version of the runtime that counts as current.
pub const NODE_MIN_MAJOR: u32 = 22;

/// The version shown for a tool that is present but tells no version.
pub const INSTALLED: &'static str = "installed";

/// The version shown where the target's banner is empty.
pub const UNKNOWN_BANNER: &'static str = "unknown";

/// The version shown where the version control tool's output has no version.
pub const UNKNOWN_VERSION: &'static str = "Unknown";

/// The regular expression that finds the version in `git --version`.
pub const GIT_PATTERN: &'static str = "git version ([\\d.]+)";

/// The script that asks the target application for its version.
pub const OPENCLAW_VERSION_SCRIPT: &'static str =
    "openclaw --version 2>/dev/null || openclaw --version";

/// The command line that installs the version manager.
pub const NVM_INSTALL: &'static str =
    "curl -o- https://raw.githubusercontent.com/nvm-sh/nvm/v0.39.7/install.sh | bash";

/// The command line that installs the runtime.
pub const NODE_INSTALL: &'static str = "nvm install 22 && nvm use 22 && nvm alias default 22";

/// The command line that installs the platform tools of macOS.
pub const XCODE_INSTALL: &'static str = "xcode-select --install";

/// The command line that installs the version control tool on Windows.
pub const GIT_INSTALL_WINDOWS: &'static str = "winget install Git.Git";

/// The command line that installs the version control tool on Linux.
pub const GIT_INSTALL_LINUX: &'static str = "sudo apt-get install -y git";

/// How the results of a dependency's queries are read.
#[derive(Clone, Copy, PartialEq, Eq, Debug, Structural)]
pub enum ProbeKind {
    /// The version is the third word of the first line of a banner.
    Banner,
    /// The dependency is a directory; it has no version of its own.
    Directory,
    /// The output is a version whose major number is compared.
    RuntimeVersion,
    /// The output is the version.
    PlainVersion,
    /// The version stands in a sentence of the version control tool.
    GitVersion,
    /// A second query tells the version of the platform tools.
    ToolsVersion,
}

/// One read-only question to the machine.
#[derive(Debug)]
pub enum Query {
    /// Run the command and look at how it ends.
    Command(CommandSpec),
    /// See whether the path exists.
    PathExists(String),
}

/// A query as plain values.
pub ghost enum QueryView {
    Command(CommandView),
    PathExists(Seq<char>),
}

impl View for Query {
    type V = QueryView;

    open spec fn view(&self) -> QueryView {
        match self {
            Query::Command(c) => QueryView::Command(c@),
            Query::PathExists(p) => QueryView::PathExists(p@),
        }
    }
}

impl DeepView for Query {
    type V = QueryView;

    open spec fn deep_view(&self) -> QueryView {
        self@
    }
}

/// The answer to one query.
#[derive(Debug)]
pub enum QueryResult {
    /// How the command of a `Query::Command` ended.
    Process(ProcessResult),
    /// Whether the path of a `Query::PathExists` exists.
    Path(bool),
}

/// An answer as plain values.
pub ghost enum AnswerView {
    Process(ProcessView),
    Path(bool),
}

impl AnswerView {
    /// The answer says that the thing asked for is there: the command ran
    /// and exited with status zero, or the path exists.
    pub open spec fn positive(self) -> bool {
        match self {
            AnswerView::Process(p) => p.succeeded(),
            AnswerView::Path(exists) => exists,
        }
    }

    /// The text of the answer; a path check has none.
    pub open spec fn output(self) -> Seq<char> {
        match self {
            AnswerView::Process(p) => p.output(),
            AnswerView::Path(_) => Seq::empty(),
        }
    }
}

impl View for QueryResult {
    type V = AnswerView;

    open spec fn view(&self) -> AnswerView {
        match self {
            QueryResult::Process(p) => AnswerView::Process(p@),
            QueryResult::Path(exists) => AnswerView::Path(*exists),
        }
    }
}

impl DeepView for QueryResult {
    type V = AnswerView;

    open spec fn deep_view(&self) -> AnswerView {
        self@
    }
}

impl QueryResult {
    /// Whether the answer says that the thing asked for is there.
    pub fn positive(&self) -> (r: bool)
        ensures
            r == self@.positive(),
    {
        match self {
            QueryResult::Process(p) => p.succeeded(),
            QueryResult::Path(exists) => *exists,
        }
    }

    /// The text of the answer.
    pub fn output(&self) -> (r: String)
        ensures
            r@ == self@.output(),
    {
        match self {
            QueryResult::Process(p) => p.output(),
            QueryResult::Path(_) => String::new(),
        }
    }
}

/// One dependency of the catalog.
#[derive(Debug)]
pub struct DependencySpec {
    pub name: String,
    pub display_name: String,
    pub required: bool,
    pub required_version: String,
    /// How the answers to `queries` are read.
    pub probe: ProbeKind,
    /// The lowest major version that is current, where one is demanded.
    pub min_major: Option<u32>,
    /// Whether the tool is found only in a shell with the version manager
    /// activated.
    pub requires_shell_activation: bool,
    /// The questions that detect the dependency; the first decides presence.
    pub queries: Vec<Query>,
    pub install_command: Option<String>,
}

/// A catalog entry as plain values.
pub ghost struct SpecView {
    pub name: Seq<char>,
    pub display_name: Seq<char>,
    pub required: bool,
    pub required_version: Seq<char>,
    pub probe: ProbeKind,
    pub min_major: Option<u32>,
    pub requires_shell_activation: bool,
    pub queries: Seq<QueryView>,
    pub install_command: Option<Seq<char>>,
}

impl View for DependencySpec {
    type V = SpecView;

    open spec fn view(&self) -> SpecView {
        SpecView {
            name: self.name@,
            display_name: self.display_name@,
            required: self.required,
            required_version: self.required_version@,
            probe: self.probe,
            min_major: self.min_major,
            requires_shell_activation: self.requires_shell_activation,
            queries: self.queries.deep_view(),
            install_command: self.install_command.deep_view(),
        }
    }
}

impl DeepView for DependencySpec {
    type V = SpecView;

    open spec fn deep_view(&self) -> SpecView {
        self@
    }
}

/// What one probe found.
#[derive(Debug)]
pub struct ProbeReading {
    pub installed: bool,
    pub raw_version: Option<String>,
    pub parsed_major: Option<u32>,
}

/// A reading as plain values.
pub ghost struct ReadingView {
    pub installed: bool,
    pub raw_version: Option<Seq<char>>,
    pub parsed_major: Option<u32>,
}

impl View for ProbeReading {
    type V = ReadingView;

    open spec fn view(&self) -> ReadingView {
        ReadingView {
            installed: self.installed,
            raw_version: self.raw_version.deep_view(),
            parsed_major: self.parsed_major,
        }
    }
}

/// The state of one dependency after a detection pass.
#[derive(Debug)]
pub struct DependencyStatus {
    pub name: String,
    pub display_name: String,
    pub required: bool,
    pub required_version: String,
    pub current_version: Option<String>,
    pub installed: bool,
    pub needs_update: bool,
    pub install_command: Option<String>,
}

/// A status as plain values.
pub ghost struct StatusView {
    pub name: Seq<char>,
    pub display_name: Seq<char>,
    pub required: bool,
    pub required_version: Seq<char>,
    pub current_version: Option<Seq<char>>,
    pub installed: bool,
    pub needs_update: bool,
    pub install_command: Option<Seq<char>>,
}

impl StatusView {
    /// Only what is installed can need an update, and only what is installed
    /// has a version.
    pub open spec fn wf(self) -> bool {
        &&& self.needs_update ==> self.installed
        &&& !self.installed ==> self.current_version is None
    }

    /// A required dependency that is absent or out of date.
    pub open spec fn is_blocking(self) -> bool {
        self.required && (!self.installed || self.needs_update)
    }
}

impl View for DependencyStatus {
    type V = StatusView;

    open spec fn view(&self) -> StatusView {
        StatusView {
            name: self.name@,
            display_name: self.display_name@,
            required: self.required,
            required_version: self.required_version@,
            current_version: self.current_version.deep_view(),
            installed: self.installed,
            needs_update: self.needs_update,
            install_command: self.install_command.deep_view(),
        }
    }
}

impl DeepView for DependencyStatus {
    type V = StatusView;

    open spec fn deep_view(&self) -> StatusView {
        self@
    }
}

/// A copy of an optional string.
pub fn copy_text(o: &Option<String>) -> (r: Option<String>)
    ensures
        r.deep_view() == o.deep_view(),
{
    match o {
        Some(s) => Some(s.clone()),
        None => None,
    }
}

impl DependencyStatus {
    /// Whether the status keeps the invariant of the type.
    pub fn is_well_formed(&self) -> (r: bool)
        ensures
            r == self@.wf(),
    {
        (!self.needs_update || self.installed) && (self.installed || self.current_version.is_none())
    }

    /// Whether this dependency blocks an installation.
    pub fn is_blocking(&self) -> (r: bool)
        ensures
            r == self@.is_blocking(),
    {
        self.required && (!self.installed || self.needs_update)
    }

    /// A copy of the status.
    pub fn duplicate(&self) -> (r: DependencyStatus)
        ensures
            r@ == self@,
    {
        DependencyStatus {
            name: self.name.clone(),
            display_name: self.display_name.clone(),
            required: self.required,
            required_version: self.required_version.clone(),
            current_version: copy_text(&self.current_version),
            installed: self.installed,
            needs_update: self.needs_update,
            install_command: copy_text(&self.install_command),
        }
    }
}

/// The major number of a runtime version: `s` without one leading `v`, up to
/// its first dot, read as a decimal number. There is none where `s` has no
/// dot or where what stands before the dot is no number of 32 bits.
pub open spec fn node_major(s: Seq<char>) -> Option<u32> {
    let start: int = if s.len() > 0 && s[0] == 'v' { 1 } else { 0 };
    let dot = find_from(s, CharClass::Exactly('.'), start);
    if dot < s.len() {
        parse_decimal(s.subrange(start, dot))
    } else {
        None
    }
}

/// Reads the major number of a runtime version such as `v22.3.0`.
pub fn parse_node_version(version_str: &str) -> (r: Option<u32>)
    ensures
        r == node_major(version_str@),
{
    let chars = chars_of(version_str);
    let start: usize = if chars.len() > 0 && chars[0] == 'v' { 1 } else { 0 };
    let dot = scan(&chars, CharClass::Exactly('.'), start);
    if dot < chars.len() {
        parse_number(&chars, start, dot)
    } else {
        None
    }
}

/// Whether a runtime with this major number is older than `min`; a version
/// that could not be read counts as old.
pub open spec fn outdated(major: Option<u32>, min: u32) -> bool {
    match major {
        Some(m) => m < min,
        None => true,
    }
}

/// The version that the target application's banner states: the third word
/// of its first line, else that whole line, else `unknown`.
pub open spec fn banner_version(stdout: Seq<char>) -> Seq<char> {
    match first_line(trimmed(stdout)) {
        Some(line) => match token(line, 2) {
            Some(word) => word,
            None => line,
        },
        None => UNKNOWN_BANNER@,
    }
}

/// Reads the version from the banner that the target application prints.
pub fn read_banner(stdout: &str) -> (r: String)
    ensures
        r@ == banner_version(stdout@),
{
    let text = trim(stdout);
    match take_first_line(text.as_str()) {
        Some(line) => match nth_token(line.as_str(), 2) {
            Some(word) => word,
            None => line,
        },
        None => String::from_str(UNKNOWN_BANNER),
    }
}

/// The version shown for the version control tool, given what the pattern
/// captured in its output.
pub open spec fn git_version(capture: Option<Seq<char>>) -> Seq<char> {
    match capture {
        Some(version) => version,
        None => UNKNOWN_VERSION@,
    }
}

/// Chooses the version to show from what the pattern captured.
pub fn git_version_from(capture: Option<String>) -> (r: String)
    ensures
        r@ == git_version(capture.deep_view()),
{
    match capture {
        Some(version) => version,
        None => String::from_str(UNKNOWN_VERSION),
    }
}

/// Finds the version in the output of `git --version`.
pub fn extract_git_version(version_str: &str) -> (r: String)
    ensures
        r@ == git_version(regex_capture(GIT_PATTERN@, version_str@)),
{
    git_version_from(first_capture(GIT_PATTERN, version_str))
}

/// The version shown for the platform tools: `installed`, and behind it in
/// brackets the third word of the second answer without its final dots,
/// where the second query succeeded and printed three words.
pub open spec fn tools_label(results: Seq<AnswerView>) -> Seq<char> {
    if results.len() > 1 && results[1].positive() {
        match token(results[1].output(), 2) {
            Some(word) => INSTALLED@ + " ("@ + strip_trailing(word, '.') + ")"@,
            None => INSTALLED@,
        }
    } else {
        INSTALLED@
    }
}

/// Builds the version shown for the platform tools.
pub fn read_tools_label(results: &Vec<QueryResult>) -> (r: String)
    ensures
        r@ == tools_label(results.deep_view()),
{
    if results.len() > 1 && results[1].positive() {
        let out = results[1].output();
        match nth_token(out.as_str(), 2) {
            Some(word) => {
                let number = trim_trailing(word.as_str(), '.');
                let mut label = cat3(INSTALLED, " (", number.as_str());
                label.append(")");
                label
            },
            None => String::from_str(INSTALLED),
        }
    } else {
        String::from_str(INSTALLED)
    }
}

/// Whether a probe with `queries` questions has another one to ask after
/// `answered`: a negative first answer ends the probe.
pub open spec fn asks_more(queries: nat, answered: Seq<AnswerView>) -> bool {
    answered.len() < queries && (answered.len() == 0 || answered[0].positive())
}

/// The version that the answers state, read as `kind` says.
pub open spec fn version_text(kind: ProbeKind, results: Seq<AnswerView>) -> Seq<char>
    recommends
        results.len() > 0,
{
    match kind {
        ProbeKind::Banner => banner_version(results[0].output()),
        ProbeKind::Directory => INSTALLED@,
        ProbeKind::RuntimeVersion => trimmed(results[0].output()),
        ProbeKind::PlainVersion => trimmed(results[0].output()),
        ProbeKind::GitVersion => git_version(regex_capture(GIT_PATTERN@, results[0].output())),
        ProbeKind::ToolsVersion => tools_label(results),
    }
}

/// What a probe of `kind` finds in `results`. The dependency is installed
/// where the first answer is positive. A query that failed to start, one
/// that exited with an error, and a missing answer all mean "not installed".
pub open spec fn reading(kind: ProbeKind, results: Seq<AnswerView>) -> ReadingView {
    if results.len() > 0 && results[0].positive() {
        let version = version_text(kind, results);
        ReadingView {
            installed: true,
            raw_version: Some(version),
            parsed_major: if kind == ProbeKind::RuntimeVersion {
                node_major(version)
            } else {
                None
            },
        }
    } else {
        ReadingView { installed: false, raw_version: None, parsed_major: None }
    }
}

/// Reads the answers to a dependency's queries.
pub fn probe(kind: ProbeKind, results: &Vec<QueryResult>) -> (r: ProbeReading)
    ensures
        r@ == reading(kind, results.deep_view()),
{
    if results.len() > 0 && results[0].positive() {
        let version = match kind {
            ProbeKind::Banner => read_banner(results[0].output().as_str()),
            ProbeKind::Directory => String::from_str(INSTALLED),
            ProbeKind::RuntimeVersion => trim(results[0].output().as_str()),
            ProbeKind::PlainVersion => trim(results[0].output().as_str()),
            ProbeKind::GitVersion => extract_git_version(results[0].output().as_str()),
            ProbeKind::ToolsVersion => read_tools_label(results),
        };
        let parsed_major = if kind == ProbeKind::RuntimeVersion {
            parse_node_version(version.as_str())
        } else {
            None
        };
        ProbeReading { installed: true, raw_version: Some(version), parsed_major }
    } else {
        ProbeReading { installed: false, raw_version: None, parsed_major: None }
    }
}

/// The status of a dependency, from its catalog entry and what its probe
/// found. It needs an update where it is installed, the entry demands a
/// major version, and the version found is older or could not be read.
pub open spec fn status_of(spec: SpecView, found: ReadingView) -> StatusView {
    StatusView {
        name: spec.name,
        display_name: spec.display_name,
        required: spec.required,
        required_version: spec.required_version,
        current_version: found.raw_version,
        installed: found.installed,
        needs_update: found.installed && (spec.min_major matches Some(min) && outdated(
            found.parsed_major,
            min,
        )),
        install_command: spec.install_command,
    }
}

/// Derives the status of a dependency from its entry and its probe's reading.
pub fn derive_status(spec: &DependencySpec, found: ProbeReading) -> (r: DependencyStatus)
    ensures
        r@ == status_of(spec@, found@),
{
    let old = match spec.min_major {
        Some(min) => match found.parsed_major {
            Some(m) => m < min,
            None => true,
        },
        None => false,
    };
    DependencyStatus {
        name: spec.name.clone(),
        display_name: spec.display_name.clone(),
        required: spec.required,
        required_version: spec.required_version.clone(),
        current_version: found.raw_version,
        installed: found.installed,
        needs_update: found.installed && old,
        install_command: copy_text(&spec.install_command),
    }
}

/// Every status that a probe yields keeps the invariant: what needs an
/// update is installed, and what is not installed has no version.
pub proof fn lemma_status_well_formed(spec: SpecView, results: Seq<AnswerView>)
    ensures
        status_of(spec, reading(spec.probe, results)).wf(),
{
}

/// The command line that installs the version control tool on `platform`.
pub open spec fn git_install_command(platform: Platform) -> Seq<char> {
    match platform {
        Platform::MacOs => XCODE_INSTALL@,
        Platform::Windows => GIT_INSTALL_WINDOWS@,
        Platform::Linux => GIT_INSTALL_LINUX@,
    }
}

/// The command line that installs the version control tool on `platform`.
pub fn get_git_install_command(platform: Platform) -> (r: String)
    ensures
        r@ == git_install_command(platform),
{
    match platform {
        Platform::MacOs => String::from_str(XCODE_INSTALL),
        Platform::Windows => String::from_str(GIT_INSTALL_WINDOWS),
        Platform::Linux => String::from_str(GIT_INSTALL_LINUX),
    }
}

/// The query that runs `program` with the one argument `arg`.
pub open spec fn tool_query(program: Seq<char>, arg: Seq<char>, activate: bool) -> QueryView {
    QueryView::Command(invocation(program, seq![arg], activate))
}

/// The entry of the target application. It is advisory: the installation
/// itself brings it.
pub open spec fn openclaw_entry() -> SpecView {
    SpecView {
        name: "openclaw"@,
        display_name: "OpenClaw"@,
        required: false,
        required_version: "latest"@,
        probe: ProbeKind::Banner,
        min_major: None,
        requires_shell_activation: true,
        queries: seq![QueryView::Command(activated_command(OPENCLAW_VERSION_SCRIPT@))],
        install_command: None,
    }
}

/// The entry of the version manager, found by its directory.
pub open spec fn nvm_entry(host: HostView) -> SpecView {
    SpecView {
        name: "nvm"@,
        display_name: "nvm (Node Version Manager)"@,
        required: true,
        required_version: "0.39+"@,
        probe: ProbeKind::Directory,
        min_major: None,
        requires_shell_activation: false,
        queries: seq![QueryView::PathExists(host.nvm_path())],
        install_command: Some(NVM_INSTALL@),
    }
}

/// The entry of the runtime, whose major version must reach `NODE_MIN_MAJOR`.
pub open spec fn nodejs_entry() -> SpecView {
    SpecView {
        name: "nodejs"@,
        display_name: "Node.js"@,
        required: true,
        required_version: "22+"@,
        probe: ProbeKind::RuntimeVersion,
        min_major: Some(NODE_MIN_MAJOR),
        requires_shell_activation: true,
        queries: seq![tool_query("node"@, "--version"@, true)],
        install_command: Some(NODE_INSTALL@),
    }
}

/// The entry of the package manager, which comes with the runtime.
pub open spec fn npm_entry() -> SpecView {
    SpecView {
        name: "npm"@,
        display_name: "npm"@,
        required: true,
        required_version: "10+"@,
        probe: ProbeKind::PlainVersion,
        min_major: None,
        requires_shell_activation: true,
        queries: seq![tool_query("npm"@, "--version"@, true)],
        install_command: None,
    }
}

/// The entry of the version control tool, which is advisory.
pub open spec fn git_entry(platform: Platform) -> SpecView {
    SpecView {
        name: "git"@,
        display_name: "Git"@,
        required: false,
        required_version: "2.0+"@,
        probe: ProbeKind::GitVersion,
        min_major: None,
        requires_shell_activation: false,
        queries: seq![tool_query("git"@, "--version"@, false)],
        install_command: Some(git_install_command(platform)),
    }
}

/// The entry of the platform tools of macOS, which is advisory.
pub open spec fn xcode_tools_entry() -> SpecView {
    SpecView {
        name: "xcode-tools"@,
        display_name: "Xcode Command Line Tools"@,
        required: false,
        required_version: "any"@,
        probe: ProbeKind::ToolsVersion,
        min_major: None,
        requires_shell_activation: false,
        queries: seq![
            tool_query("xcode-select"@, "-p"@, false),
            tool_query("xcode-select"@, "--version"@, false),
        ],
        install_command: Some(XCODE_INSTALL@),
    }
}

/// The dependencies of a host, in the order in which they are shown. The
/// platform tools are listed on macOS only.
pub open spec fn catalog_of(host: HostView) -> Seq<SpecView> {
    let common = seq![
        openclaw_entry(),
        nvm_entry(host),
        nodejs_entry(),
        npm_entry(),
        git_entry(host.platform),
    ];
    if host.platform == Platform::MacOs {
        common.push(xcode_tools_entry())
    } else {
        common
    }
}

/// Builds the query that runs `program` with the one argument `arg`.
pub fn make_tool_query(program: &str, arg: &str, activate: bool) -> (r: Query)
    ensures
        r@ == tool_query(program@, arg@, activate),
{
    Query::Command(CommandExecutor::invoke(program, single(String::from_str(arg)), activate))
}

impl DependencySpec {
    /// The entry of the target application.
    pub fn openclaw() -> (r: DependencySpec)
        ensures
            r@ == openclaw_entry(),
    {
        DependencySpec {
            name: String::from_str("openclaw"),
            display_name: String::from_str("OpenClaw"),
            required: false,
            required_version: String::from_str("latest"),
            probe: ProbeKind::Banner,
            min_major: None,
            requires_shell_activation: true,
            queries: single(Query::Command(CommandExecutor::activated(OPENCLAW_VERSION_SCRIPT))),
            install_command: None,
        }
    }

    /// The entry of the version manager on `host`.
    pub fn nvm(host: &Host) -> (r: DependencySpec)
        ensures
            r@ == nvm_entry(host@),
    {
        DependencySpec {
            name: String::from_str("nvm"),
            display_name: String::from_str("nvm (Node Version Manager)"),
            required: true,
            required_version: String::from_str("0.39+"),
            probe: ProbeKind::Directory,
            min_major: None,
            requires_shell_activation: false,
            queries: single(Query::PathExists(host.nvm_path())),
            install_command: Some(String::from_str(NVM_INSTALL)),
        }
    }

    /// The entry of the runtime.
    pub fn nodejs() -> (r: DependencySpec)
        ensures
            r@ == nodejs_entry(),
    {
        DependencySpec {
            name: String::from_str("nodejs"),
            display_name: String::from_str("Node.js"),
            required: true,
            required_version: String::from_str("22+"),
            probe: ProbeKind::RuntimeVersion,
            min_major: Some(NODE_MIN_MAJOR),
            requires_shell_activation: true,
            queries: single(make_tool_query("node", "--version", true)),
            install_command: Some(String::from_str(NODE_INSTALL)),
        }
    }

    /// The entry of the package manager.
    pub fn npm() -> (r: DependencySpec)
        ensures
            r@ == npm_entry(),
    {
        DependencySpec {
            name: String::from_str("npm"),
            display_name: String::from_str("npm"),
            required: true,
            required_version: String::from_str("10+"),
            probe: ProbeKind::PlainVersion,
            min_major: None,
            requires_shell_activation: true,
            queries: single(make_tool_query("npm", "--version", true)),
            install_command: None,
        }
    }

    /// The entry of the version control tool on `platform`.
    pub fn git(platform: Platform) -> (r: DependencySpec)
        ensures
            r@ == git_entry(platform),
    {
        DependencySpec {
            name: String::from_str("git"),
            display_name: String::from_str("Git"),
            required: false,
            required_version: String::from_str("2.0+"),
            probe: ProbeKind::GitVersion,
            min_major: None,
            requires_shell_activation: false,
            queries: single(make_tool_query("git", "--version", false)),
            install_command: Some(get_git_install_command(platform)),
        }
    }

    /// The entry of the platform tools of macOS.
    pub fn xcode_tools() -> (r: DependencySpec)
        ensures
            r@ == xcode_tools_entry(),
    {
        let mut queries = single(make_tool_query("xcode-select", "-p", false));
        push_item(&mut queries, make_tool_query("xcode-select", "--version", false));
        assert(queries.deep_view() =~= xcode_tools_entry().queries);
        DependencySpec {
            name: String::from_str("xcode-tools"),
            display_name: String::from_str("Xcode Command Line Tools"),
            required: false,
            required_version: String::from_str("any"),
            probe: ProbeKind::ToolsVersion,
            min_major: None,
            requires_shell_activation: false,
            queries,
            install_command: Some(String::from_str(XCODE_INSTALL)),
        }
    }

    /// The query to ask next, given the answers so far: the first query,
    /// then each further one while the first answer is positive; none once
    /// the dependency is known to be absent or every query is answered.
    pub fn next_query(&self, answered: &Vec<QueryResult>) -> (r: Option<&Query>)
        ensures
            r is Some <==> asks_more(self@.queries.len(), answered.deep_view()),
            r matches Some(query) ==> query@ == self@.queries[answered.len() as int],
    {
        let n = answered.len();
        if n < self.queries.len() && (n == 0 || answered[0].positive()) {
            Some(&self.queries[n])
        } else {
            None
        }
    }

    /// The status of this dependency, given the answers to its queries.
    pub fn check(&self, results: &Vec<QueryResult>) -> (r: DependencyStatus)
        ensures
            r@ == status_of(self@, reading(self.probe, results.deep_view())),
            r@.wf(),
    {
        derive_status(self, probe(self.probe, results))
    }
}

/// Lists the dependencies of `host`.
pub fn catalog(host: &Host) -> (r: Vec<DependencySpec>)
    ensures
        r.deep_view() == catalog_of(host@),
{
    let mut list = single(DependencySpec::openclaw());
    push_item(&mut list, DependencySpec::nvm(host));
    push_item(&mut list, DependencySpec::nodejs());
    push_item(&mut list, DependencySpec::npm());
    push_item(&mut list, DependencySpec::git(host.platform));
    if host.platform == Platform::MacOs {
        push_item(&mut list, DependencySpec::xcode_tools());
    }
    list
}

/// The status of the target application, given the answer to its query.
pub fn check_openclaw(results: &Vec<QueryResult>) -> (r: DependencyStatus)
    ensures
        r@ == status_of(openclaw_entry(), reading(ProbeKind::Banner, results.deep_view())),
{
    DependencySpec::openclaw().check(results)
}

/// The status of the version manager, given whether its directory exists.
pub fn check_nvm(host: &Host, results: &Vec<QueryResult>) -> (r: DependencyStatus)
    ensures
        r@ == status_of(nvm_entry(host@), reading(ProbeKind::Directory, results.deep_view())),
{
    DependencySpec::nvm(host).check(results)
}

/// The status of the runtime, given the answer to its query.
pub fn check_nodejs(results: &Vec<QueryResult>) -> (r: DependencyStatus)
    ensures
        r@ == status_of(nodejs_entry(), reading(ProbeKind::RuntimeVersion, results.deep_view())),
{
    DependencySpec::nodejs().check(results)
}

/// The status of the package manager, given the answer to its query.
pub fn check_npm(results: &Vec<QueryResult>) -> (r: DependencyStatus)
    ensures
        r@ == status_of(npm_entry(), reading(ProbeKind::PlainVersion, results.deep_view())),
{
    DependencySpec::npm().check(results)
}

/// The status of the version control tool, given the answer to its query.
pub fn check_git(platform: Platform, results: &Vec<QueryResult>) -> (r: DependencyStatus)
    ensures
        r@ == status_of(git_entry(platform), reading(ProbeKind::GitVersion, results.deep_view())),
{
    DependencySpec::git(platform).check(results)
}

/// The status of the platform tools, given the answers to its two queries.
pub fn check_xcode_tools(results: &Vec<QueryResult>) -> (r: DependencyStatus)
    ensures
        r@ == status_of(xcode_tools_entry(), reading(ProbeKind::ToolsVersion, results.deep_view())),
{
    DependencySpec::xcode_tools().check(results)
}

/// The answers collected for entry `i`; none where the list is too short.
pub open spec fn answers_for(outcomes: Seq<Seq<AnswerView>>, i: int) -> Seq<AnswerView> {
    if 0 <= i < outcomes.len() {
        outcomes[i]
    } else {
        Seq::empty()
    }
}

/// The report of a detection pass: one status for each entry of the catalog,
/// in the catalog's order, each read from the answers with its own number.
pub open spec fn report_of(catalog: Seq<SpecView>, outcomes: Seq<Seq<AnswerView>>) -> Seq<StatusView> {
    Seq::new(
        catalog.len(),
        |i: int| status_of(catalog[i], reading(catalog[i].probe, answers_for(outcomes, i))),
    )
}

/// Reads the answers of a detection pass against `catalog`. An entry whose
/// answers are missing is reported as not installed; answers beyond the
/// catalog are ignored.
pub fn check_all(catalog: &Vec<DependencySpec>, outcomes: &Vec<Vec<QueryResult>>) -> (r: Vec<
    DependencyStatus,
>)
    ensures
        r.deep_view() == report_of(catalog.deep_view(), outcomes.deep_view()),
        forall|i: int| 0 <= i < r.len() ==> (#[trigger] r[i])@.wf(),
{
    let none: Vec<QueryResult> = empty();
    let mut report: Vec<DependencyStatus> = empty();
    let mut i: usize = 0;
    while i < catalog.len()
        invariant
            i <= catalog.len(),
            none.deep_view() == Seq::<AnswerView>::empty(),
            report.len() == i,
            forall|j: int| 0 <= j < i ==> (#[trigger] report[j])@ == report_of(
                catalog.deep_view(),
                outcomes.deep_view(),
            )[j],
            forall|j: int| 0 <= j < i ==> (#[trigger] report[j])@.wf(),
        decreases catalog.len() - i,
    {
        let status = if i < outcomes.len() {
            catalog[i].check(&outcomes[i])
        } else {
            catalog[i].check(&none)
        };
        report.push(status);
        i += 1;
    }
    report
}

/// One detection pass on `host`: the status of every dependency of its
/// catalog, in catalog order, read from the answers to the catalog's queries.
pub fn check_dependencies(host: &Host, outcomes: &Vec<Vec<QueryResult>>) -> (r: Vec<DependencyStatus>)
    ensures
        r.deep_view() == report_of(catalog_of(host@), outcomes.deep_view()),
        forall|i: int| 0 <= i < r.len() ==> (#[trigger] r[i])@.wf(),
{
    let list = catalog(host);
    check_all(&list, outcomes)
}

/// The blocking dependencies of a report, in the report's order.
pub open spec fn blockers(report: Seq<StatusView>) -> Seq<StatusView>
    decreases report.len(),
{
    if report.len() == 0 {
        Seq::empty()
    } else if report.last().is_blocking() {
        blockers(report.drop_last()).push(report.last())
    } else {
        blockers(report.drop_last())
    }
}

/// The display names of `list`, in order.
pub open spec fn display_names(list: Seq<StatusView>) -> Seq<Seq<char>> {
    Seq::new(list.len(), |i: int| list[i].display_name)
}

/// Selects the dependencies that block an installation.
pub fn blocking_set(report: &Vec<DependencyStatus>) -> (r: Vec<DependencyStatus>)
    ensures
        r.deep_view() == blockers(report.deep_view()),
{
    let mut out: Vec<DependencyStatus> = empty();
    let mut i: usize = 0;
    while i < report.len()
        invariant
            i <= report.len(),
            out.deep_view() == blockers(report.deep_view().take(i as int)),
        decreases report.len() - i,
    {
        proof {
            let next = report.deep_view().take(i + 1);
            assert(next.drop_last() =~= report.deep_view().take(i as int));
        }
        if report[i].is_blocking() {
            push_item(&mut out, report[i].duplicate());
        }
        i += 1;
    }
    assert(report.deep_view().take(report.len() as int) =~= report.deep_view());
    out
}

/// Lists the display names of `list`.
pub fn names_of(list: &Vec<DependencyStatus>) -> (r: Vec<String>)
    ensures
        r.deep_view() == display_names(list.deep_view()),
{
    let mut out: Vec<String> = empty();
    let mut i: usize = 0;
    while i < list.len()
        invariant
            i <= list.len(),
            out.deep_view() == display_names(list.deep_view()).take(i as int),
        decreases list.len() - i,
    {
        push_item(&mut out, list[i].display_name.clone());
        i += 1;
    }
    out
}

/// The blocking set holds exactly the entries of the report that block.
pub proof fn lemma_blockers_exact(report: Seq<StatusView>, d: StatusView)
    ensures
        blockers(report).contains(d) <==> report.contains(d) && d.is_blocking(),
    decreases report.len(),
{
    if report.len() > 0 {
        let rest = report.drop_last();
        let last = report.last();
        lemma_blockers_exact(rest, d);
        if report.contains(d) {
            let k = choose|k: int| 0 <= k < report.len() && report[k] == d;
            if k < rest.len() {
                assert(rest[k] == d);
            }
        }
        if rest.contains(d) {
            let k = choose|k: int| 0 <= k < rest.len() && rest[k] == d;
            assert(report[k] == d);
        }
        assert(report[report.len() - 1] == last);
        if last.is_blocking() {
            let b = blockers(rest);
            let all = b.push(last);
            assert(all[all.len() - 1] == last);
            if b.contains(d) {
                let k = choose|k: int| 0 <= k < b.len() && b[k] == d;
                assert(all[k] == d);
            }
            if all.contains(d) {
                let k = choose|k: int| 0 <= k < all.len() && all[k] == d;
                if k < b.len() {
                    assert(b[k] == d);
                }
            }
        }
    }
}

/// A dependency that is not required never blocks, whatever else is known
/// of it; a required one that is not installed always does.
pub proof fn lemma_blocking_set(report: Seq<StatusView>, d: StatusView)
    ensures
        !d.required ==> !blockers(report).contains(d),
        report.contains(d) && d.required && !d.installed ==> blockers(report).contains(d),
{
    lemma_blockers_exact(report, d);
}

/// Every status of a report keeps the invariant of the type.
pub proof fn lemma_report_well_formed(catalog: Seq<SpecView>, outcomes: Seq<Seq<AnswerView>>, i: int)
    requires
        0 <= i < catalog.len(),
    ensures
        report_of(catalog, outcomes).len() == catalog.len(),
        report_of(catalog, outcomes)[i].wf(),
        report_of(catalog, outcomes)[i].name == catalog[i].name,
{
}

/// What is required is fixed, whatever the host: the version manager, the
/// runtime and its package manager always are; the target application and
/// the version control tool never are. The first five entries differ between
/// hosts in nothing but the query for the version manager and the command
/// that installs the version control tool, and only macOS has a sixth.
pub proof fn lemma_catalog_shape(a: HostView, b: HostView)
    ensures
        catalog_of(a).len() == if a.platform == Platform::MacOs { 6int } else { 5int },
        !catalog_of(a)[0].required && catalog_of(a)[0].name == "openclaw"@,
        catalog_of(a)[1].required && catalog_of(a)[1].name == "nvm"@,
        catalog_of(a)[2].required && catalog_of(a)[2].name == "nodejs"@,
        catalog_of(a)[3].required && catalog_of(a)[3].name == "npm"@,
        !catalog_of(a)[4].required && catalog_of(a)[4].name == "git"@,
        a.platform == Platform::MacOs ==> !catalog_of(a)[5].required,
        forall|i: int|
            0 <= i < 5 ==> {
                let x = #[trigger] catalog_of(a)[i];
                let y = catalog_of(b)[i];
                &&& x.name == y.name
                &&& x.display_name == y.display_name
                &&& x.required == y.required
                &&& x.required_version == y.required_version
                &&& x.probe == y.probe
                &&& x.min_major == y.min_major
                &&& x.requires_shell_activation == y.requires_shell_activation
                &&& i != 1 ==> x.queries == y.queries
                &&& i != 4 ==> x.install_command == y.install_command
            },
        forall|i: int|
            0 <= i < catalog_of(a).len() ==> ((#[trigger] catalog_of(a)[i]).min_major is Some
                <==> i == 2),
{
}

} // verus!
