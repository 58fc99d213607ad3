use droplet::dns::DnsError;
use droplet::error::{ConfigError, Failure, Key};
use droplet::sync::{GitStep, SyncError};

#[test]
fn only_a_dns_failure_is_survived() {
    assert!(!Failure::DnsError(DnsError::NotConfigured).fatal());
    assert!(!Failure::DnsError(DnsError::Transport(String::from("timeout"))).fatal());
    assert!(Failure::InvalidConfig(ConfigError::MissingSection(Key::Service)).fatal());
    assert!(Failure::IoError(String::from("denied")).fatal());
    assert!(Failure::SyncError(SyncError::NoRepository(String::from("."))).fatal());
    assert!(Failure::SpawnError(String::from("denied")).fatal());
    assert!(Failure::WaitError(String::from("gone")).fatal());
}

#[test]
fn failure_messages_carry_their_context() {
    assert_eq!(
        Failure::InvalidConfig(ConfigError::MissingKey(Key::SyncOrigin)).message(),
        "no value was provided for 'sync.origin'"
    );
    assert_eq!(
        Failure::IoError(String::from("No such file or directory (os error 2)")).message(),
        "Encountered an IO error: No such file or directory (os error 2)"
    );
    assert_eq!(
        Failure::DnsError(DnsError::Transport(String::from("timeout"))).message(),
        "while updating DNS: timeout"
    );
    assert_eq!(
        Failure::SyncError(SyncError::Failed {
            step: GitStep::Commit,
            stdout: String::new(),
            stderr: String::from("nothing"),
        })
        .message(),
        "while committing changes:\nstdout: \nstderr: nothing"
    );
    assert_eq!(
        Failure::SpawnError(String::from("Permission denied")).message(),
        "while starting the service: Permission denied"
    );
    assert_eq!(
        Failure::WaitError(String::from("interrupted")).message(),
        "while waiting for the service: interrupted"
    );
}

#[test]
fn config_error_messages_name_the_key() {
    assert_eq!(
        ConfigError::MissingSection(Key::Service).message(),
        "missing required section 'service'"
    );
    assert_eq!(
        ConfigError::MissingKey(Key::DnsCode).message(),
        "no value was provided for 'dns.code'"
    );
    assert_eq!(
        ConfigError::WrongType(Key::SyncTargets).message(),
        "value for 'sync.targets' must be 'array of strings'"
    );
    assert_eq!(
        ConfigError::WrongType(Key::SyncPath).message(),
        "value for 'sync.path' must be 'string'"
    );
    assert_eq!(
        ConfigError::NotFound(String::from("./run.sh")).message(),
        "service file './run.sh' does not exist"
    );
    assert_eq!(
        ConfigError::Empty(Key::SyncTargets).message(),
        "value for 'sync.targets' must not be empty"
    );
}
