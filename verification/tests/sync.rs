use droplet::config::Sync;
use droplet::sync::{
    after_stage, check_output, check_streams, commit_message, commit_message_at, GitCommand,
    GitStep, SyncError,
};

fn strings(items: &[&str]) -> Vec<String> {
    items.iter().map(|item| item.to_string()).collect()
}

fn sync() -> Sync {
    Sync::new(
        String::from("https://example.org/repo.git"),
        String::from("../repo"),
        strings(&["update/", "notes.txt"]),
    )
    .unwrap()
}

#[test]
fn pull_command() {
    assert_eq!(
        sync().pull_changes(),
        GitCommand { dir: String::from("../repo"), args: strings(&["pull"]) }
    );
}

#[test]
fn add_command_stages_exactly_the_targets() {
    assert_eq!(
        sync().add_changes(),
        GitCommand { dir: String::from("../repo"), args: strings(&["add", "update/", "notes.txt"]) }
    );
    let one = Sync::new(String::from("o"), String::from("."), strings(&["a.txt"])).unwrap();
    assert_eq!(
        one.add_changes(),
        GitCommand { dir: String::from("."), args: strings(&["add", "a.txt"]) }
    );
}

#[test]
fn commit_command_allows_an_empty_commit() {
    assert_eq!(
        sync().commit_changes("droplet: 00:00:00 UTC | 2015-05-15"),
        GitCommand {
            dir: String::from("../repo"),
            args: strings(&["commit", "--allow-empty", "-m", "droplet: 00:00:00 UTC | 2015-05-15"]),
        }
    );
}

#[test]
fn push_command() {
    assert_eq!(
        sync().push_changes(),
        GitCommand { dir: String::from("../repo"), args: strings(&["push"]) }
    );
}

#[test]
fn commit_message_prefixes_the_time() {
    assert_eq!(commit_message("12:34:56 UTC | 2024-01-02"), "droplet: 12:34:56 UTC | 2024-01-02");
    assert_eq!(commit_message(""), "droplet: ");
}

#[test]
fn commit_message_at_a_known_moment() {
    assert_eq!(
        commit_message_at(1431648000, 0),
        Some(String::from("droplet: 00:00:00 UTC | 2015-05-15"))
    );
    assert_eq!(
        commit_message_at(0, 0),
        Some(String::from("droplet: 00:00:00 UTC | 1970-01-01"))
    );
    assert_eq!(
        commit_message_at(1704198896, 999_999_999),
        Some(String::from("droplet: 12:34:56 UTC | 2024-01-02"))
    );
    assert_eq!(
        commit_message_at(-1, 0),
        Some(String::from("droplet: 23:59:59 UTC | 1969-12-31"))
    );
}

#[test]
fn commit_message_outside_the_calendar() {
    assert_eq!(commit_message_at(i64::MAX, 0), None);
    assert_eq!(commit_message_at(i64::MIN, 0), None);
    assert_eq!(commit_message_at(0, 2_000_000_000), None);
}

#[test]
fn commit_follows_a_staging_that_succeeded() {
    let message = commit_message_at(1431648000, 0);
    assert_eq!(
        after_stage(Ok(()), message, &sync()),
        Ok(GitCommand {
            dir: String::from("../repo"),
            args: strings(&["commit", "--allow-empty", "-m", "droplet: 00:00:00 UTC | 2015-05-15"]),
        })
    );
}

#[test]
fn no_commit_after_a_staging_that_failed() {
    let failed = || SyncError::Failed {
        step: GitStep::Stage,
        stdout: String::new(),
        stderr: String::from("fatal: pathspec 'notes.txt' did not match any files\n"),
    };
    let message = Some(String::from("droplet: 00:00:00 UTC | 2015-05-15"));
    assert_eq!(after_stage(Err(failed()), message, &sync()), Err(failed()));
    assert_eq!(after_stage(Err(failed()), None, &sync()), Err(failed()));
    let gone = SyncError::NoRepository(String::from("../repo"));
    assert_eq!(
        after_stage(Err(gone), Some(String::from("m")), &sync()),
        Err(SyncError::NoRepository(String::from("../repo")))
    );
}

#[test]
fn no_commit_without_a_message() {
    let error = after_stage(Ok(()), commit_message_at(i64::MAX, 0), &sync()).unwrap_err();
    assert_eq!(
        error,
        SyncError::NotStarted(
            GitStep::Commit,
            String::from("the time of the commit cannot be written")
        )
    );
    assert_eq!(
        error.message(),
        "while committing changes: the time of the commit cannot be written"
    );
}

#[test]
fn staging_and_commit_report_the_first_failure() {
    let statuses = [(true, true), (true, false), (false, true), (false, false)];
    for (staging, committing) in statuses {
        let staged = check_output(GitStep::Stage, staging, b"", b"stage failed");
        let step = match after_stage(staged, Some(String::from("droplet: now")), &sync()) {
            Ok(command) => {
                assert!(staging);
                assert_eq!(command.args[0], "commit");
                check_output(GitStep::Commit, committing, b"", b"commit failed")
            }
            Err(error) => {
                assert!(!staging);
                Err(error)
            }
        };
        let failed = |step, stderr: &str| SyncError::Failed {
            step,
            stdout: String::new(),
            stderr: stderr.to_string(),
        };
        let expected = match (staging, committing) {
            (true, true) => Ok(()),
            (true, false) => Err(failed(GitStep::Commit, "commit failed")),
            (false, _) => Err(failed(GitStep::Stage, "stage failed")),
        };
        assert_eq!(step, expected);
    }
}

#[test]
fn zero_status_is_no_error() {
    for step in [GitStep::Pull, GitStep::Stage, GitStep::Commit, GitStep::Push] {
        assert_eq!(check_output(step, true, b"Already up to date.\n", b""), Ok(()));
        assert_eq!(check_streams(step, true, String::from("x"), String::from("y")), Ok(()));
    }
}

#[test]
fn other_status_carries_both_streams() {
    assert_eq!(
        check_output(GitStep::Pull, false, b"out\n", b"fatal: not a git repository\n"),
        Err(SyncError::Failed {
            step: GitStep::Pull,
            stdout: String::from("out\n"),
            stderr: String::from("fatal: not a git repository\n"),
        })
    );
    assert_eq!(
        check_streams(GitStep::Push, false, String::new(), String::from("rejected")),
        Err(SyncError::Failed {
            step: GitStep::Push,
            stdout: String::new(),
            stderr: String::from("rejected"),
        })
    );
}

#[test]
fn output_that_is_not_utf8_is_replaced() {
    assert_eq!(
        check_output(GitStep::Stage, false, &[0x66, 0x6f, 0xff, 0x6f], &[0xc3, 0xa9, 0x80]),
        Err(SyncError::Failed {
            step: GitStep::Stage,
            stdout: String::from("fo\u{fffd}o"),
            stderr: String::from("\u{e9}\u{fffd}"),
        })
    );
}

#[test]
fn failure_messages_name_the_step() {
    let failed = |step| SyncError::Failed {
        step,
        stdout: String::from("a"),
        stderr: String::from("b"),
    };
    assert_eq!(failed(GitStep::Pull).message(), "while pulling changes:\nstdout: a\nstderr: b");
    assert_eq!(failed(GitStep::Stage).message(), "while staging changes:\nstdout: a\nstderr: b");
    assert_eq!(
        failed(GitStep::Commit).message(),
        "while committing changes:\nstdout: a\nstderr: b"
    );
    assert_eq!(failed(GitStep::Push).message(), "while pushing changes:\nstdout: a\nstderr: b");
}

#[test]
fn other_sync_error_messages() {
    assert_eq!(
        SyncError::NoRepository(String::from("../gone")).message(),
        "couldn't canonicalize sync repository path '../gone'"
    );
    assert_eq!(
        SyncError::NotStarted(GitStep::Push, String::from("No such file or directory")).message(),
        "while pushing changes: No such file or directory"
    );
}

#[test]
fn step_activities() {
    assert_eq!(GitStep::Pull.activity(), "pulling");
    assert_eq!(GitStep::Stage.activity(), "staging");
    assert_eq!(GitStep::Commit.activity(), "committing");
    assert_eq!(GitStep::Push.activity(), "pushing");
}
