//! The machine that the installer runs on, as a value handed in at start.

use crate::executor::{CommandExecutor, CommandSpec, CommandView, ProcessResult, ProcessView, direct_command};
use crate::list::single;
use crate::text::{cat2, same_text, trim, trimmed};
use vstd::prelude::*;
use vstd::string::*;

verus! {

/// The operating systems that the installer knows.
#[derive(Clone, Copy, PartialEq, Eq, Debug, Structural)]
pub enum Platform {
    MacOs,
    Windows,
    Linux,
}

/// The platform that the name of an operating system stands for.
pub open spec fn platform_named(os: Seq<char>) -> Option<Platform> {
    if os == "macos"@ {
        Some(Platform::MacOs)
    } else if os == "windows"@ {
        Some(Platform::Windows)
    } else if os == "linux"@ {
        Some(Platform::Linux)
    } else {
        None
    }
}

impl Platform {
    /// The platform called `os`, where the installer knows it.
    pub fn from_name(os: &str) -> (r: Option<Platform>)
        ensures
            r == platform_named(os@),
    {
        if same_text(os, "macos") {
            Some(Platform::MacOs)
        } else if same_text(os, "windows") {
            Some(Platform::Windows)
        } else if same_text(os, "linux") {
            Some(Platform::Linux)
        } else {
            None
        }
    }
}

/// The version reported where the operating system tells none.
pub const UNKNOWN_OS_VERSION: &'static str = "Unknown";

/// Where the version manager lives below the home directory.
pub const NVM_SUBDIR: &'static str = "/.nvm";

/// What the program learned of its host before it asked the library anything.
#[derive(Debug)]
pub struct Host {
    pub platform: Platform,
    /// The user's home directory, where the environment names one.
    pub home: Option<String>,
    /// The version manager's directory, where the environment names one.
    pub nvm_dir: Option<String>,
}

/// A host as plain values.
pub ghost struct HostView {
    pub platform: Platform,
    pub home: Option<Seq<char>>,
    pub nvm_dir: Option<Seq<char>>,
}

impl View for Host {
    type V = HostView;

    open spec fn view(&self) -> HostView {
        HostView {
            platform: self.platform,
            home: self.home.deep_view(),
            nvm_dir: self.nvm_dir.deep_view(),
        }
    }
}

impl HostView {
    /// The directory of the version manager: the one that the environment
    /// names, else `.nvm` below the home directory, taking an unknown home
    /// directory as the empty path.
    pub open spec fn nvm_path(self) -> Seq<char> {
        match self.nvm_dir {
            Some(dir) => dir,
            None => match self.home {
                Some(home) => home + NVM_SUBDIR@,
                None => NVM_SUBDIR@,
            },
        }
    }
}

impl Host {
    /// The directory in which the version manager is looked for.
    pub fn nvm_path(&self) -> (r: String)
        ensures
            r@ == self@.nvm_path(),
    {
        match &self.nvm_dir {
            Some(dir) => dir.clone(),
            None => match &self.home {
                Some(home) => cat2(home.as_str(), NVM_SUBDIR),
                None => String::from_str(NVM_SUBDIR),
            },
        }
    }
}

/// The command that asks macOS for its version.
pub open spec fn os_version_command() -> CommandView {
    direct_command("sw_vers"@, seq!["-productVersion"@])
}

/// The version of the operating system: on macOS what the version command
/// printed, without the white space around it, however the command exited;
/// `Unknown` where the command did not start, and on every other platform.
pub open spec fn os_version(platform: Platform, answer: Option<ProcessView>) -> Seq<char> {
    match answer {
        Some(ProcessView::Exited { stdout, .. }) => if platform == Platform::MacOs {
            trimmed(stdout)
        } else {
            UNKNOWN_OS_VERSION@
        },
        _ => UNKNOWN_OS_VERSION@,
    }
}

/// The command that asks the operating system for its version, on the
/// platforms that have one.
pub fn os_version_query(platform: Platform) -> (r: Option<CommandSpec>)
    ensures
        r is Some <==> platform == Platform::MacOs,
        r matches Some(command) ==> command@ == os_version_command(),
{
    match platform {
        Platform::MacOs => Some(
            CommandExecutor::direct("sw_vers", single(String::from_str("-productVersion"))),
        ),
        _ => None,
    }
}

/// Reads the version of the operating system from the answer to the
/// version command; `answer` is `None` where no command was run.
pub fn get_os_version(platform: Platform, answer: Option<&ProcessResult>) -> (r: String)
    ensures
        r@ == os_version(
            platform,
            match answer {
                Some(a) => Some(a@),
                None => None,
            },
        ),
{
    match answer {
        Some(ProcessResult::Exited { stdout, .. }) => {
            if platform == Platform::MacOs {
                trim(stdout.as_str())
            } else {
                String::from_str(UNKNOWN_OS_VERSION)
            }
        },
        _ => String::from_str(UNKNOWN_OS_VERSION),
    }
}

} // verus!
