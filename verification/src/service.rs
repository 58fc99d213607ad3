//! Launching the service: what is run, with which arguments, and where its
//! output goes.

use crate::config::{copy_texts, texts, Service};
use crate::raw::{Field, RawServiceView};
use crate::validate::checked_service;
use vstd::prelude::*;

verus! {

/// Where the streams of the service go.
#[derive(Clone, Copy, Debug, PartialEq, Eq, Structural)]
pub enum Stdio {
    /// Standard input, output and error are those of the launcher.
    Inherit,
    /// Standard output and error go to the log file, which is removed and
    /// created anew before the service starts.
    LogFile,
}

/// The name of the log file, in the working directory of the launcher.
pub fn log_file() -> (name: &'static str)
    ensures
        name@ == "service.log"@,
{
    "service.log"
}

/// What to start: the program is invoked directly, never through a shell, with
/// exactly these arguments.
#[derive(Debug, PartialEq, Eq)]
pub struct Launch {
    pub program: String,
    pub args: Vec<String>,
    pub stdio: Stdio,
}

/// The stream policy of a service: the terminal where `log` is `false`, the
/// log file in every other case.
pub open spec fn stdio_of(log: bool) -> Stdio {
    if log {
        Stdio::LogFile
    } else {
        Stdio::Inherit
    }
}

impl Service {
    /// What running this service means: its executable, its arguments as
    /// configured, and its stream policy.
    pub fn run(&self) -> (launch: Launch)
        ensures
            launch.program@ == self@.program,
            texts(launch.args@) == self@.args,
            launch.stdio == stdio_of(self@.log),
    {
        Launch {
            program: self.exec().clone(),
            args: copy_texts(self.args()),
            stdio: if self.log() {
                Stdio::LogFile
            } else {
                Stdio::Inherit
            },
        }
    }
}

/// The `log` key decides the streams: a service whose key is `false` has the
/// launcher's own, and one whose key is `true` or left out has the log file.
pub proof fn lemma_log_key_decides_streams(section: RawServiceView)
    requires
        checked_service(Field::Present(section), true) is Ok,
    ensures
        stdio_of(checked_service(Field::Present(section), true)->Ok_0.log) == if section.log
            == Field::Present(false) {
            Stdio::Inherit
        } else {
            Stdio::LogFile
        },
{
}

/// How the service ended.
#[derive(Clone, Copy, Debug, PartialEq, Eq, Structural)]
pub enum ExitStatus {
    /// The service exited with this code.
    Code(i32),
    /// The service ended without an exit code, as when a signal killed it.
    Abnormal,
}

impl ExitStatus {
    /// The status for what the operating system reports: an exit code, or none.
    pub fn from_code(code: Option<i32>) -> (status: ExitStatus)
        ensures
            status == match code {
                Some(code) => ExitStatus::Code(code),
                None => ExitStatus::Abnormal,
            },
    {
        match code {
            Some(code) => ExitStatus::Code(code),
            None => ExitStatus::Abnormal,
        }
    }

    /// Whether the service exited with code zero.
    pub open spec fn spec_success(self) -> bool {
        self == ExitStatus::Code(0)
    }

    /// Whether the service exited with code zero. An abnormal end is no success.
    #[verifier::when_used_as_spec(spec_success)]
    pub fn success(self) -> (ok: bool)
        ensures
            ok == self.spec_success(),
    {
        match self {
            ExitStatus::Code(code) => code == 0,
            ExitStatus::Abnormal => false,
        }
    }

    /// The exit code, where there is one.
    pub fn code(self) -> (code: Option<i32>)
        ensures
            code == match self {
                ExitStatus::Code(code) => Some(code),
                ExitStatus::Abnormal => None,
            },
    {
        match self {
            ExitStatus::Code(code) => Some(code),
            ExitStatus::Abnormal => None,
        }
    }
}

} // verus!
