//! Commands as data, and what a finished command means.

use crate::list::{empty, pair, push_item, single};
use crate::text::{cat2, join};
use vstd::prelude::*;
use vstd::string::*;

verus! {

/// The script that makes the tools of the version manager available.
pub const ACTIVATION_PREFIX: &'static str = "source ~/.nvm/nvm.sh 2>/dev/null && ";

/// The shell that runs scripts.
pub const SHELL: &'static str = "bash";

/// The flag that hands a script to the shell.
pub const SHELL_FLAG: &'static str = "-c";

/// One external command: a program, its arguments and where it runs.
#[derive(Debug)]
pub struct CommandSpec {
    pub program: String,
    pub args: Vec<String>,
    pub working_dir: Option<String>,
}

/// A command as plain sequences.
pub ghost struct CommandView {
    pub program: Seq<char>,
    pub args: Seq<Seq<char>>,
    pub working_dir: Option<Seq<char>>,
}

impl View for CommandSpec {
    type V = CommandView;

    open spec fn view(&self) -> CommandView {
        CommandView {
            program: self.program@,
            args: self.args.deep_view(),
            working_dir: self.working_dir.deep_view(),
        }
    }
}

impl DeepView for CommandSpec {
    type V = CommandView;

    open spec fn deep_view(&self) -> CommandView {
        self@
    }
}

/// A copy of a list of strings.
pub fn copy_strings(list: &Vec<String>) -> (r: Vec<String>)
    ensures
        r.deep_view() == list.deep_view(),
{
    let mut out: Vec<String> = empty();
    let mut i: usize = 0;
    while i < list.len()
        invariant
            i <= list.len(),
            out.deep_view() == list.deep_view().take(i as int),
        decreases list.len() - i,
    {
        push_item(&mut out, list[i].clone());
        i += 1;
    }
    out
}

impl CommandSpec {
    /// A copy of the command.
    pub fn duplicate(&self) -> (r: CommandSpec)
        ensures
            r@ == self@,
    {
        CommandSpec {
            program: self.program.clone(),
            args: copy_strings(&self.args),
            working_dir: match &self.working_dir {
                Some(dir) => Some(dir.clone()),
                None => None,
            },
        }
    }
}

/// How an external command ended.
#[derive(Debug)]
pub enum ProcessResult {
    /// The command could not be started; `error` says why.
    SpawnFailed { error: String },
    /// The command ran and exited.
    Exited { success: bool, stdout: String, stderr: String },
}

/// The end of a command as plain sequences.
pub ghost enum ProcessView {
    SpawnFailed { error: Seq<char> },
    Exited { success: bool, stdout: Seq<char>, stderr: Seq<char> },
}

impl ProcessView {
    /// The command ran and exited with status zero.
    pub open spec fn succeeded(self) -> bool {
        self matches ProcessView::Exited { success, .. } && success
    }

    /// What the command printed; nothing where it did not start.
    pub open spec fn output(self) -> Seq<char> {
        match self {
            ProcessView::Exited { stdout, .. } => stdout,
            ProcessView::SpawnFailed { .. } => Seq::empty(),
        }
    }

    /// What the command said of its failure: its error output, or the
    /// reason why it did not start.
    pub open spec fn complaint(self) -> Seq<char> {
        match self {
            ProcessView::Exited { stderr, .. } => stderr,
            ProcessView::SpawnFailed { error } => error,
        }
    }
}

impl View for ProcessResult {
    type V = ProcessView;

    open spec fn view(&self) -> ProcessView {
        match self {
            ProcessResult::SpawnFailed { error } => ProcessView::SpawnFailed { error: error@ },
            ProcessResult::Exited { success, stdout, stderr } => ProcessView::Exited {
                success: *success,
                stdout: stdout@,
                stderr: stderr@,
            },
        }
    }
}

impl DeepView for ProcessResult {
    type V = ProcessView;

    open spec fn deep_view(&self) -> ProcessView {
        self@
    }
}

impl ProcessResult {
    /// Whether the command ran and exited with status zero.
    pub fn succeeded(&self) -> (r: bool)
        ensures
            r == self@.succeeded(),
    {
        match self {
            ProcessResult::Exited { success, .. } => *success,
            ProcessResult::SpawnFailed { .. } => false,
        }
    }

    /// What the command printed.
    pub fn output(&self) -> (r: String)
        ensures
            r@ == self@.output(),
    {
        match self {
            ProcessResult::Exited { stdout, .. } => stdout.clone(),
            ProcessResult::SpawnFailed { .. } => String::new(),
        }
    }

    /// What the command said of its failure.
    pub fn complaint(&self) -> (r: String)
        ensures
            r@ == self@.complaint(),
    {
        match self {
            ProcessResult::Exited { stderr, .. } => stderr.clone(),
            ProcessResult::SpawnFailed { error } => error.clone(),
        }
    }
}

/// The command that runs `program` with `args` directly.
pub open spec fn direct_command(program: Seq<char>, args: Seq<Seq<char>>) -> CommandView {
    CommandView { program, args, working_dir: None }
}

/// The command that hands `script` to the shell.
pub open spec fn shell_command(script: Seq<char>) -> CommandView {
    direct_command(SHELL@, seq![SHELL_FLAG@, script])
}

/// The command that runs `script` in a shell in which the version manager
/// has been activated.
pub open spec fn activated_command(script: Seq<char>) -> CommandView {
    shell_command(ACTIVATION_PREFIX@ + script)
}

/// The one place that decides how a tool is invoked: through an activated
/// shell where the tool needs one, directly where it does not.
pub open spec fn invocation(program: Seq<char>, args: Seq<Seq<char>>, activate: bool) -> CommandView {
    if activate {
        activated_command(crate::text::joined(seq![program] + args, " "@))
    } else {
        direct_command(program, args)
    }
}

/// Builds commands and reads their results. It starts no process itself.
pub struct CommandExecutor;

impl CommandExecutor {
    /// The command that runs `program` with `args` directly.
    pub fn direct(program: &str, args: Vec<String>) -> (r: CommandSpec)
        ensures
            r@ == direct_command(program@, args.deep_view()),
    {
        CommandSpec { program: String::from_str(program), args, working_dir: None }
    }

    /// The command that hands `script` to the shell.
    pub fn shell(script: &str) -> (r: CommandSpec)
        ensures
            r@ == shell_command(script@),
    {
        CommandExecutor::direct(
            SHELL,
            pair(String::from_str(SHELL_FLAG), String::from_str(script)),
        )
    }

    /// The command that runs `script` after activating the version manager.
    pub fn activated(script: &str) -> (r: CommandSpec)
        ensures
            r@ == activated_command(script@),
    {
        let full = cat2(ACTIVATION_PREFIX, script);
        CommandExecutor::shell(full.as_str())
    }

    /// Chooses between the direct and the activated invocation of a tool.
    pub fn invoke(program: &str, args: Vec<String>, activate: bool) -> (r: CommandSpec)
        ensures
            r@ == invocation(program@, args.deep_view(), activate),
    {
        if activate {
            let mut all: Vec<String> = single(String::from_str(program));
            let mut i: usize = 0;
            while i < args.len()
                invariant
                    i <= args.len(),
                    all.deep_view() == seq![program@] + args.deep_view().take(i as int),
                decreases args.len() - i,
            {
                push_item(&mut all, args[i].clone());
                i += 1;
            }
            assert(args.deep_view().take(args.len() as int) =~= args.deep_view());
            let script = join(&all, " ");
            CommandExecutor::activated(script.as_str())
        } else {
            CommandExecutor::direct(program, args)
        }
    }

    /// What a finished command yields: its output where it succeeded, its
    /// complaint where it failed or did not start.
    pub fn execute(result: &ProcessResult) -> (r: Result<String, String>)
        ensures
            result@.succeeded() ==> r is Ok && r->Ok_0@ == result@.output(),
            !result@.succeeded() ==> r is Err && r->Err_0@ == result@.complaint(),
    {
        if result.succeeded() {
            Ok(result.output())
        } else {
            Err(result.complaint())
        }
    }
}

} // verus!
