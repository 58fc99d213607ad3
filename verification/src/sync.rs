//! Keeping the repository in step with its remote: a pull before the service
//! starts, then staging, a commit and a push once it runs. Each is one call of
//! `git` in the repository's directory. The commit is made only after a
//! staging that succeeded, under a message that carries the time; the caller
//! reads the clock.

use crate::config::{copy_texts, texts, Sync};
use std::fmt::Write;
use vstd::prelude::*;

verus! {

/// One call of `git`.
#[derive(Clone, Copy, Debug, PartialEq, Eq, Structural)]
pub enum GitStep {
    Pull,
    Stage,
    Commit,
    Push,
}

impl GitStep {
    /// What the step is doing, as the diagnostics put it.
    pub open spec fn spec_activity(self) -> Seq<char> {
        match self {
            GitStep::Pull => "pulling"@,
            GitStep::Stage => "staging"@,
            GitStep::Commit => "committing"@,
            GitStep::Push => "pushing"@,
        }
    }

    /// What the step is doing, as the diagnostics put it.
    pub fn activity(self) -> (word: &'static str)
        ensures
            word@ == self.spec_activity(),
    {
        match self {
            GitStep::Pull => "pulling",
            GitStep::Stage => "staging",
            GitStep::Commit => "committing",
            GitStep::Push => "pushing",
        }
    }
}

/// A call of `git`: the directory to run it in and the arguments that follow
/// the program's name. The directory is the one configured; whoever runs the
/// command resolves it to an absolute path first, and fails where that path
/// does not exist.
#[derive(Debug, PartialEq, Eq)]
pub struct GitCommand {
    pub dir: String,
    pub args: Vec<String>,
}

/// Why a synchronisation step failed. Every such error is fatal.
#[derive(Debug, PartialEq, Eq)]
pub enum SyncError {
    /// The repository's path could not be resolved; the payload is the path.
    NoRepository(String),
    /// `git` could not be started; the payload says why.
    NotStarted(GitStep, String),
    /// `git` exited with a status other than zero; the payload is what it
    /// wrote to its standard output and standard error.
    Failed { step: GitStep, stdout: String, stderr: String },
}

/// The mathematical content of a [`SyncError`].
pub enum SyncErrorView {
    NoRepository(Seq<char>),
    NotStarted(GitStep, Seq<char>),
    Failed { step: GitStep, stdout: Seq<char>, stderr: Seq<char> },
}

impl View for SyncError {
    type V = SyncErrorView;

    open spec fn view(&self) -> SyncErrorView {
        match self {
            SyncError::NoRepository(path) => SyncErrorView::NoRepository(path@),
            SyncError::NotStarted(step, cause) => SyncErrorView::NotStarted(*step, cause@),
            SyncError::Failed { step, stdout, stderr } => SyncErrorView::Failed {
                step: *step,
                stdout: stdout@,
                stderr: stderr@,
            },
        }
    }
}

impl SyncError {
    /// The diagnostic for this error.
    pub open spec fn spec_message(self) -> Seq<char> {
        match self {
            SyncError::NoRepository(path) => "couldn't canonicalize sync repository path '"@
                + path@ + "'"@,
            SyncError::NotStarted(step, cause) => "while "@ + step.spec_activity()
                + " changes: "@ + cause@,
            SyncError::Failed { step, stdout, stderr } => "while "@ + step.spec_activity()
                + " changes:\nstdout: "@ + stdout@ + "\nstderr: "@ + stderr@,
        }
    }

    /// The diagnostic for this error.
    pub fn message(&self) -> (text: String)
        ensures
            text@ == self.spec_message(),
    {
        match self {
            SyncError::NoRepository(path) => {
                let mut text = "couldn't canonicalize sync repository path '".to_owned();
                text.append(path.as_str());
                text.append("'");
                text
            },
            SyncError::NotStarted(step, cause) => {
                let mut text = "while ".to_owned();
                text.append(step.activity());
                text.append(" changes: ");
                text.append(cause.as_str());
                text
            },
            SyncError::Failed { step, stdout, stderr } => {
                let mut text = "while ".to_owned();
                text.append(step.activity());
                text.append(" changes:\nstdout: ");
                text.append(stdout.as_str());
                text.append("\nstderr: ");
                text.append(stderr.as_str());
                text
            },
        }
    }
}

/// The arguments of the pull.
pub open spec fn pull_args() -> Seq<Seq<char>> {
    seq!["pull"@]
}

/// The arguments that stage exactly the given targets.
pub open spec fn add_args(targets: Seq<Seq<char>>) -> Seq<Seq<char>> {
    seq!["add"@] + targets
}

/// The arguments of a commit with the given message; the commit may be empty.
pub open spec fn commit_args(message: Seq<char>) -> Seq<Seq<char>> {
    seq!["commit"@, "--allow-empty"@, "-m"@, message]
}

/// The arguments of the push of the current branch to its upstream.
pub open spec fn push_args() -> Seq<Seq<char>> {
    seq!["push"@]
}

/// The call that fetches and merges the remote's changes.
pub fn git_pull(path: &str) -> (command: GitCommand)
    ensures
        command.dir@ == path@,
        texts(command.args@) == pull_args(),
{
    let mut args: Vec<String> = Vec::new();
    args.push("pull".to_owned());
    assert(texts(args@) =~= pull_args());
    GitCommand { dir: path.to_owned(), args }
}

/// The call that stages the given targets, and nothing else.
pub fn git_add(targets: &Vec<String>, path: &str) -> (command: GitCommand)
    ensures
        command.dir@ == path@,
        texts(command.args@) == add_args(texts(targets@)),
{
    let mut args: Vec<String> = Vec::new();
    args.push("add".to_owned());
    let mut staged = copy_texts(targets);
    args.append(&mut staged);
    assert(texts(args@) =~= add_args(texts(targets@)));
    GitCommand { dir: path.to_owned(), args }
}

/// The call that commits what is staged under the given message.
pub fn git_commit(path: &str, message: &str) -> (command: GitCommand)
    ensures
        command.dir@ == path@,
        texts(command.args@) == commit_args(message@),
{
    let mut args: Vec<String> = Vec::new();
    args.push("commit".to_owned());
    args.push("--allow-empty".to_owned());
    args.push("-m".to_owned());
    args.push(message.to_owned());
    assert(texts(args@) =~= commit_args(message@));
    GitCommand { dir: path.to_owned(), args }
}

/// The call that pushes the current branch to its upstream.
pub fn git_push(path: &str) -> (command: GitCommand)
    ensures
        command.dir@ == path@,
        texts(command.args@) == push_args(),
{
    let mut args: Vec<String> = Vec::new();
    args.push("push".to_owned());
    assert(texts(args@) =~= push_args());
    GitCommand { dir: path.to_owned(), args }
}

impl Sync {
    /// The pull for this repository.
    pub fn pull_changes(&self) -> (command: GitCommand)
        ensures
            command.dir@ == self@.path,
            texts(command.args@) == pull_args(),
    {
        git_pull(self.path().as_str())
    }

    /// The staging of this repository's targets.
    pub fn add_changes(&self) -> (command: GitCommand)
        ensures
            command.dir@ == self@.path,
            texts(command.args@) == add_args(self@.targets),
    {
        git_add(self.targets(), self.path().as_str())
    }

    /// The commit in this repository under the given message.
    pub fn commit_changes(&self, message: &str) -> (command: GitCommand)
        ensures
            command.dir@ == self@.path,
            texts(command.args@) == commit_args(message@),
    {
        git_commit(self.path().as_str(), message)
    }

    /// The push from this repository.
    pub fn push_changes(&self) -> (command: GitCommand)
        ensures
            command.dir@ == self@.path,
            texts(command.args@) == push_args(),
    {
        git_push(self.path().as_str())
    }
}

/// The text that `String::from_utf8_lossy` makes of bytes.
pub uninterp spec fn utf8_lossy(bytes: Seq<u8>) -> Seq<char>;

/// `String::from_utf8_lossy`: the bytes as text, with the replacement
/// character in place of what is not UTF-8. The result is a function of the
/// bytes alone.
#[verifier::external_body]
fn lossy_text(bytes: &[u8]) -> (text: String)
    ensures
        text@ == utf8_lossy(bytes@),
{
    String::from_utf8_lossy(bytes).into_owned()
}

/// Judges a finished call of `git` by its exit status: any status but zero is
/// an error that carries the step and the text of both captured streams.
pub fn check_streams(step: GitStep, success: bool, stdout: String, stderr: String) -> (outcome:
    Result<(), SyncError>)
    ensures
        match outcome {
            Ok(_) => success,
            Err(error) => !success && error == (SyncError::Failed { step, stdout, stderr }),
        },
{
    if success {
        Ok(())
    } else {
        Err(SyncError::Failed { step, stdout, stderr })
    }
}

/// Judges a finished call of `git` by its exit status and its captured output.
pub fn check_output(step: GitStep, success: bool, stdout: &[u8], stderr: &[u8]) -> (outcome:
    Result<(), SyncError>)
    ensures
        match outcome {
            Ok(_) => success,
            Err(error) => !success && (error matches SyncError::Failed {
                step: failed,
                stdout: out,
                stderr: err,
            } && failed == step && out@ == utf8_lossy(stdout@) && err@ == utf8_lossy(stderr@)),
        },
{
    if success {
        Ok(())
    } else {
        check_streams(step, success, lossy_text(stdout), lossy_text(stderr))
    }
}

/// The text that `chrono` makes of a moment in UTC, given as seconds and
/// nanoseconds since the Unix epoch, under a `strftime` layout; `None` where
/// the moment is out of `chrono`'s range or the layout is not one.
pub uninterp spec fn utc_text(secs: i64, nsecs: u32, layout: Seq<char>) -> Option<Seq<char>>;

/// `chrono::DateTime::from_timestamp` and `DateTime::format`: the moment as
/// text under the layout. The result is a function of the arguments alone.
#[verifier::external_body]
fn format_utc(secs: i64, nsecs: u32, layout: &str) -> (text: Option<String>)
    ensures
        match text {
            Some(text) => utc_text(secs, nsecs, layout@) == Some(text@),
            None => utc_text(secs, nsecs, layout@) is None,
        },
{
    let moment = chrono::DateTime::from_timestamp(secs, nsecs)?;
    let mut text = String::new();
    write!(text, "{}", moment.format(layout)).ok()?;
    Some(text)
}

/// The layout of the time in a commit message: `HH:MM:SS UTC | YYYY-MM-DD`.
pub open spec fn stamp_layout() -> Seq<char> {
    "%H:%M:%S UTC | %Y-%m-%d"@
}

/// The commit message for a time that is already text.
pub open spec fn commit_text(stamp: Seq<char>) -> Seq<char> {
    "droplet: "@ + stamp
}

/// The commit message for a time that is already text.
pub fn commit_message(stamp: &str) -> (message: String)
    ensures
        message@ == commit_text(stamp@),
{
    let mut message = "droplet: ".to_owned();
    message.append(stamp);
    message
}

/// The commit message for a moment in UTC, or `None` where `chrono` has no
/// text for it.
pub fn commit_message_at(secs: i64, nsecs: u32) -> (message: Option<String>)
    ensures
        match utc_text(secs, nsecs, stamp_layout()) {
            Some(stamp) => message matches Some(text) && text@ == commit_text(stamp),
            None => message is None,
        },
{
    match format_utc(secs, nsecs, "%H:%M:%S UTC | %Y-%m-%d") {
        Some(stamp) => Some(commit_message(stamp.as_str())),
        None => None,
    }
}

/// The mathematical content of a [`GitCommand`].
pub struct GitCommandView {
    pub dir: Seq<char>,
    pub args: Seq<Seq<char>>,
}

impl View for GitCommand {
    type V = GitCommandView;

    open spec fn view(&self) -> GitCommandView {
        GitCommandView { dir: self.dir@, args: texts(self.args@) }
    }
}

/// The view of an optional message.
pub open spec fn message_view(message: Option<String>) -> Option<Seq<char>> {
    match message {
        Some(text) => Some(text@),
        None => None,
    }
}

/// The view of a command or of the error in its place.
pub open spec fn command_outcome(outcome: Result<GitCommand, SyncError>) -> Result<
    GitCommandView,
    SyncErrorView,
> {
    match outcome {
        Ok(command) => Ok(command@),
        Err(error) => Err(error@),
    }
}

/// What follows the staging. Where the staging failed, no commit is made and
/// the error is the staging's own. Where it succeeded but there is no message,
/// no commit is made either, and the error says so. Else the commit is made
/// in the repository at `path` under the message.
pub open spec fn then_commit(
    staged: Result<(), SyncError>,
    message: Option<Seq<char>>,
    path: Seq<char>,
) -> Result<GitCommandView, SyncErrorView> {
    match (staged, message) {
        (Err(error), _) => Err(error@),
        (Ok(_), None) => Err(
            SyncErrorView::NotStarted(GitStep::Commit, "the time of the commit cannot be written"@),
        ),
        (Ok(_), Some(text)) => Ok(GitCommandView { dir: path, args: commit_args(text) }),
    }
}

/// Decides what follows the staging, from how the staging went and from the
/// commit message: the commit in the repository, or the error that ends the
/// step without a commit.
pub fn after_stage(staged: Result<(), SyncError>, message: Option<String>, repo: &Sync) -> (next:
    Result<GitCommand, SyncError>)
    ensures
        command_outcome(next) == then_commit(staged, message_view(message), repo@.path),
{
    match staged {
        Err(error) => Err(error),
        Ok(_) => match message {
            None => Err(
                SyncError::NotStarted(
                    GitStep::Commit,
                    "the time of the commit cannot be written".to_owned(),
                ),
            ),
            Some(text) => Ok(repo.commit_changes(text.as_str())),
        },
    }
}

/// The commit is made only after a staging that succeeded, and a staging that
/// failed is what the step reports: its error is handed on unchanged.
pub proof fn lemma_commit_only_after_staging(
    staged: Result<(), SyncError>,
    message: Option<Seq<char>>,
    path: Seq<char>,
)
    ensures
        then_commit(staged, message, path) is Ok <==> staged is Ok && message is Some,
        staged matches Err(error) ==> then_commit(staged, message, path) == Err::<
            GitCommandView,
            SyncErrorView,
        >(error@),
{
}

} // verus!
