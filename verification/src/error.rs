//! What can go wrong, and how it is reported.

use crate::dns::DnsError;
use crate::orchestrator::{Policy, Step};
use crate::sync::SyncError;
use vstd::prelude::*;

verus! {

/// A key of the configuration document, by its dotted path.
#[derive(Clone, Copy, Debug, PartialEq, Eq, Structural)]
pub enum Key {
    Service,
    ServiceExec,
    ServiceArgs,
    ServiceLog,
    Sync,
    SyncOrigin,
    SyncPath,
    SyncTargets,
    Dns,
    DnsCode,
}

/// The kind of value that a key must hold.
#[derive(Clone, Copy, Debug, PartialEq, Eq, Structural)]
pub enum Kind {
    Table,
    String,
    Boolean,
    StringArray,
}

impl Kind {
    /// The kind's name as it appears in messages.
    pub open spec fn spec_name(self) -> Seq<char> {
        match self {
            Kind::Table => "table"@,
            Kind::String => "string"@,
            Kind::Boolean => "boolean"@,
            Kind::StringArray => "array of strings"@,
        }
    }

    /// The kind's name as it appears in messages.
    pub fn name(self) -> (name: &'static str)
        ensures
            name@ == self.spec_name(),
    {
        match self {
            Kind::Table => "table",
            Kind::String => "string",
            Kind::Boolean => "boolean",
            Kind::StringArray => "array of strings",
        }
    }
}

impl Key {
    /// The key's dotted path.
    pub open spec fn spec_dotted(self) -> Seq<char> {
        match self {
            Key::Service => "service"@,
            Key::ServiceExec => "service.exec"@,
            Key::ServiceArgs => "service.args"@,
            Key::ServiceLog => "service.log"@,
            Key::Sync => "sync"@,
            Key::SyncOrigin => "sync.origin"@,
            Key::SyncPath => "sync.path"@,
            Key::SyncTargets => "sync.targets"@,
            Key::Dns => "dns"@,
            Key::DnsCode => "dns.code"@,
        }
    }

    /// The kind of value that the key must hold.
    pub open spec fn spec_expected(self) -> Kind {
        match self {
            Key::Service | Key::Sync | Key::Dns => Kind::Table,
            Key::ServiceExec | Key::SyncOrigin | Key::SyncPath | Key::DnsCode => Kind::String,
            Key::ServiceArgs | Key::SyncTargets => Kind::StringArray,
            Key::ServiceLog => Kind::Boolean,
        }
    }

    /// The key's dotted path.
    pub fn dotted(self) -> (path: &'static str)
        ensures
            path@ == self.spec_dotted(),
    {
        match self {
            Key::Service => "service",
            Key::ServiceExec => "service.exec",
            Key::ServiceArgs => "service.args",
            Key::ServiceLog => "service.log",
            Key::Sync => "sync",
            Key::SyncOrigin => "sync.origin",
            Key::SyncPath => "sync.path",
            Key::SyncTargets => "sync.targets",
            Key::Dns => "dns",
            Key::DnsCode => "dns.code",
        }
    }

    /// The kind of value that the key must hold.
    pub fn expected(self) -> (kind: Kind)
        ensures
            kind == self.spec_expected(),
    {
        match self {
            Key::Service | Key::Sync | Key::Dns => Kind::Table,
            Key::ServiceExec | Key::SyncOrigin | Key::SyncPath | Key::DnsCode => Kind::String,
            Key::ServiceArgs | Key::SyncTargets => Kind::StringArray,
            Key::ServiceLog => Kind::Boolean,
        }
    }
}

/// Why a configuration was rejected. Every such error is fatal: nothing is
/// started from a configuration that did not validate.
#[derive(Debug, PartialEq, Eq)]
pub enum ConfigError {
    /// The text is not a TOML document; the payload is the parser's message.
    Syntax(String),
    /// A required section is absent.
    MissingSection(Key),
    /// A required key is absent from a section that is present.
    MissingKey(Key),
    /// A key holds a value of another kind than [`Key::expected`].
    WrongType(Key),
    /// `service.exec` names a file that does not exist; the payload is the path.
    NotFound(String),
    /// A key holds an empty array where at least one item is required.
    Empty(Key),
}

/// The mathematical content of a [`ConfigError`].
pub enum ConfigErrorView {
    Syntax(Seq<char>),
    MissingSection(Key),
    MissingKey(Key),
    WrongType(Key),
    NotFound(Seq<char>),
    Empty(Key),
}

impl View for ConfigError {
    type V = ConfigErrorView;

    open spec fn view(&self) -> ConfigErrorView {
        match self {
            ConfigError::Syntax(message) => ConfigErrorView::Syntax(message@),
            ConfigError::MissingSection(key) => ConfigErrorView::MissingSection(*key),
            ConfigError::MissingKey(key) => ConfigErrorView::MissingKey(*key),
            ConfigError::WrongType(key) => ConfigErrorView::WrongType(*key),
            ConfigError::NotFound(path) => ConfigErrorView::NotFound(path@),
            ConfigError::Empty(key) => ConfigErrorView::Empty(*key),
        }
    }
}

impl ConfigErrorView {
    /// The diagnostic for this error. It names the offending key by its dotted
    /// path, or quotes the parser or the missing file.
    pub open spec fn message(self) -> Seq<char> {
        match self {
            ConfigErrorView::Syntax(message) => "Encountered error while trying to parse config: "@
                + message,
            ConfigErrorView::MissingSection(key) => "missing required section '"@
                + key.spec_dotted() + "'"@,
            ConfigErrorView::MissingKey(key) => "no value was provided for '"@ + key.spec_dotted()
                + "'"@,
            ConfigErrorView::WrongType(key) => "value for '"@ + key.spec_dotted() + "' must be '"@
                + key.spec_expected().spec_name() + "'"@,
            ConfigErrorView::NotFound(path) => "service file '"@ + path + "' does not exist"@,
            ConfigErrorView::Empty(key) => "value for '"@ + key.spec_dotted()
                + "' must not be empty"@,
        }
    }
}

impl ConfigError {
    /// The diagnostic for this error.
    pub fn message(&self) -> (text: String)
        ensures
            text@ == self@.message(),
    {
        match self {
            ConfigError::Syntax(message) => {
                let mut text = "Encountered error while trying to parse config: ".to_owned();
                text.append(message.as_str());
                text
            },
            ConfigError::MissingSection(key) => {
                let mut text = "missing required section '".to_owned();
                text.append(key.dotted());
                text.append("'");
                text
            },
            ConfigError::MissingKey(key) => {
                let mut text = "no value was provided for '".to_owned();
                text.append(key.dotted());
                text.append("'");
                text
            },
            ConfigError::WrongType(key) => {
                let mut text = "value for '".to_owned();
                text.append(key.dotted());
                text.append("' must be '");
                text.append(key.expected().name());
                text.append("'");
                text
            },
            ConfigError::NotFound(path) => {
                let mut text = "service file '".to_owned();
                text.append(path.as_str());
                text.append("' does not exist");
                text
            },
            ConfigError::Empty(key) => {
                let mut text = "value for '".to_owned();
                text.append(key.dotted());
                text.append("' must not be empty");
                text
            },
        }
    }
}

/// Anything that can go wrong in a run, with the operation that it belongs to.
#[derive(Debug, PartialEq, Eq)]
pub enum Failure {
    /// The configuration was refused.
    InvalidConfig(ConfigError),
    /// The configuration file could not be read; the payload says why.
    IoError(String),
    /// The DNS record was not refreshed.
    DnsError(DnsError),
    /// A synchronisation step failed.
    SyncError(SyncError),
    /// The service could not be started; the payload says why.
    SpawnError(String),
    /// The service could not be waited for; the payload says why.
    WaitError(String),
}

impl Failure {
    /// Whether the error ends the run. Only a failed DNS refresh does not: it
    /// is reported as a warning.
    pub open spec fn spec_fatal(&self) -> bool {
        !(self is DnsError)
    }

    /// Whether the error ends the run.
    #[verifier::when_used_as_spec(spec_fatal)]
    pub fn fatal(&self) -> (fatal: bool)
        ensures
            fatal == self.spec_fatal(),
    {
        match self {
            Failure::DnsError(_) => false,
            _ => true,
        }
    }

    /// The diagnostic for this error: the cause, under the operation that failed.
    pub open spec fn spec_message(self) -> Seq<char> {
        match self {
            Failure::InvalidConfig(error) => error@.message(),
            Failure::IoError(cause) => "Encountered an IO error: "@ + cause@,
            Failure::DnsError(error) => error.spec_message(),
            Failure::SyncError(error) => error.spec_message(),
            Failure::SpawnError(cause) => "while starting the service: "@ + cause@,
            Failure::WaitError(cause) => "while waiting for the service: "@ + cause@,
        }
    }

    /// The diagnostic for this error.
    pub fn message(&self) -> (text: String)
        ensures
            text@ == self.spec_message(),
    {
        match self {
            Failure::InvalidConfig(error) => error.message(),
            Failure::IoError(cause) => {
                let mut text = "Encountered an IO error: ".to_owned();
                text.append(cause.as_str());
                text
            },
            Failure::DnsError(error) => error.message(),
            Failure::SyncError(error) => error.message(),
            Failure::SpawnError(cause) => {
                let mut text = "while starting the service: ".to_owned();
                text.append(cause.as_str());
                text
            },
            Failure::WaitError(cause) => {
                let mut text = "while waiting for the service: ".to_owned();
                text.append(cause.as_str());
                text
            },
        }
    }
}

/// The error of a step ends the run exactly where the step's policy is to
/// abort: the table of policies and the errors' own judgement agree.
pub proof fn lemma_fatal_errors_abort(step: Step, error: Failure)
    requires
        match step {
            Step::UpdateDns => error is DnsError,
            Step::Pull | Step::Commit | Step::Push => error is SyncError,
            Step::Spawn => error is SpawnError,
            Step::Wait => error is WaitError,
        },
    ensures
        error.spec_fatal() <==> step.spec_policy() == Policy::Abort,
{
}

} // verus!
