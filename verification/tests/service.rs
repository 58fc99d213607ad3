use droplet::config::{copy_texts, Config, Service};
use droplet::service::{log_file, ExitStatus, Launch, Stdio};

#[test]
fn service_that_logs_writes_to_the_log_file() {
    let service = Service::new(
        String::from("/bin/sh"),
        vec![String::from("-c"), String::from("echo test")],
        true,
    );
    assert_eq!(
        service.run(),
        Launch {
            program: String::from("/bin/sh"),
            args: vec![String::from("-c"), String::from("echo test")],
            stdio: Stdio::LogFile,
        }
    );
}

#[test]
fn service_that_does_not_log_inherits_the_terminal() {
    let service = Service::new(String::from("/bin/true"), vec![], false);
    let launch = service.run();
    assert_eq!(launch.program, "/bin/true");
    assert!(launch.args.is_empty());
    assert_eq!(launch.stdio, Stdio::Inherit);
}

#[test]
fn log_key_decides_the_streams() {
    let head = "[service]\nexec = \"/bin/sh\"\n";
    let absent = Config::from_str(head).unwrap();
    assert_eq!(absent.service().run().stdio, Stdio::LogFile);
    let on = Config::from_str(&format!("{}log = true\n", head)).unwrap();
    assert_eq!(on.service().run().stdio, Stdio::LogFile);
    let off = Config::from_str(&format!("{}log = false\n", head)).unwrap();
    assert_eq!(off.service().run().stdio, Stdio::Inherit);
}

#[test]
fn arguments_are_handed_on_verbatim() {
    let args = vec![String::from("a b"), String::from("$HOME"), String::from(""), String::from("*")];
    let service = Service::new(String::from("/bin/echo"), args.clone(), true);
    assert_eq!(service.run().args, args);
    assert_eq!(copy_texts(&args), args);
    assert_eq!(copy_texts(&vec![]), Vec::<String>::new());
}

#[test]
fn log_file_has_a_fixed_name() {
    assert_eq!(log_file(), "service.log");
}

#[test]
fn exit_status_keeps_the_code() {
    assert_eq!(ExitStatus::from_code(Some(0)), ExitStatus::Code(0));
    assert_eq!(ExitStatus::from_code(Some(3)), ExitStatus::Code(3));
    assert_eq!(ExitStatus::from_code(Some(-1)), ExitStatus::Code(-1));
    assert_eq!(ExitStatus::Code(7).code(), Some(7));
}

#[test]
fn abnormal_end_is_neither_a_code_nor_a_success() {
    let status = ExitStatus::from_code(None);
    assert_eq!(status, ExitStatus::Abnormal);
    assert_eq!(status.code(), None);
    assert!(!status.success());
    assert_ne!(status, ExitStatus::Code(0));
}

#[test]
fn only_code_zero_is_a_success() {
    assert!(ExitStatus::Code(0).success());
    assert!(!ExitStatus::Code(1).success());
    assert!(!ExitStatus::Code(-1).success());
    assert!(!ExitStatus::Code(255).success());
}
