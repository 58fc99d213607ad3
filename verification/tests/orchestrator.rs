use droplet::config::{Config, Dns, Service, Sync};
use droplet::error::ConfigError;
use droplet::orchestrator::{
    advance, begin, rehearse, Action, Event, Outcome, Plan, Policy, Script, Step,
};
use droplet::service::ExitStatus;
use droplet::settings::{Args, Settings};

const ALL: [Step; 6] =
    [Step::UpdateDns, Step::Pull, Step::Spawn, Step::Commit, Step::Push, Step::Wait];

fn full() -> Plan {
    Plan { update_dns: true, pull: true, commit: true, push: true }
}

fn bare() -> Plan {
    Plan { update_dns: false, pull: false, commit: false, push: false }
}

fn calm(status: ExitStatus) -> Script {
    Script {
        update_dns: Event::Succeeded,
        pull: Event::Succeeded,
        spawn: Event::Succeeded,
        commit: Event::Succeeded,
        push: Event::Succeeded,
        wait: Event::Exited(status),
    }
}

fn settings(no_dns: bool, no_pull: bool, no_push: bool, no_sync: bool) -> Settings {
    Settings::get(Args { config: String::from("./droplet.toml"), no_dns, no_pull, no_push, no_sync })
}

fn config(dns: bool, sync: bool) -> Config {
    Config::new(
        Service::new(String::from("/bin/true"), vec![], true),
        if dns { Some(Dns::new(String::from("code"))) } else { None },
        if sync {
            Sync::new(String::from("o"), String::from("."), vec![String::from("a.txt")])
        } else {
            None
        },
    )
}

fn plans() -> Vec<Plan> {
    let mut plans = Vec::new();
    for bits in 0..16 {
        plans.push(Plan {
            update_dns: bits & 1 != 0,
            pull: bits & 2 != 0,
            commit: bits & 4 != 0,
            push: bits & 8 != 0,
        });
    }
    plans
}

fn scripts() -> Vec<Script> {
    let events = [Event::Succeeded, Event::Failed];
    let waits = [
        Event::Exited(ExitStatus::Code(0)),
        Event::Exited(ExitStatus::Code(3)),
        Event::Exited(ExitStatus::Abnormal),
        Event::Failed,
    ];
    let mut scripts = Vec::new();
    for update_dns in events {
        for pull in events {
            for spawn in events {
                for commit in events {
                    for push in events {
                        for wait in waits {
                            scripts.push(Script { update_dns, pull, spawn, commit, push, wait });
                        }
                    }
                }
            }
        }
    }
    scripts
}

#[test]
fn only_the_dns_refresh_may_fail() {
    assert_eq!(Step::UpdateDns.policy(), Policy::WarnAndContinue);
    for step in [Step::Pull, Step::Spawn, Step::Commit, Step::Push, Step::Wait] {
        assert_eq!(step.policy(), Policy::Abort);
    }
}

#[test]
fn plan_follows_settings_and_sections() {
    assert_eq!(Plan::new(&settings(false, false, false, false), &config(true, true)), full());
    assert_eq!(Plan::new(&settings(false, false, false, false), &config(false, false)), bare());
    assert_eq!(
        Plan::new(&settings(true, false, false, false), &config(true, true)),
        Plan { update_dns: false, pull: true, commit: true, push: true }
    );
    assert_eq!(
        Plan::new(&settings(false, true, false, false), &config(true, true)),
        Plan { update_dns: true, pull: false, commit: true, push: true }
    );
    assert_eq!(
        Plan::new(&settings(false, false, true, false), &config(true, true)),
        Plan { update_dns: true, pull: true, commit: true, push: false }
    );
    assert_eq!(
        Plan::new(&settings(false, false, false, false), &config(true, false)),
        Plan { update_dns: true, pull: false, commit: false, push: false }
    );
}

#[test]
fn commit_is_planned_whatever_the_flags_say() {
    let plan = Plan::new(&settings(true, true, true, true), &config(false, true));
    assert_eq!(plan, Plan { update_dns: false, pull: false, commit: true, push: false });
    assert_eq!(
        rehearse(&plan, &calm(ExitStatus::Code(0))).0,
        vec![Step::Spawn, Step::Commit, Step::Wait]
    );
}

#[test]
fn plan_includes_spawn_and_wait_always() {
    for plan in plans() {
        assert!(plan.includes(Step::Spawn));
        assert!(plan.includes(Step::Wait));
        assert_eq!(plan.includes(Step::UpdateDns), plan.update_dns);
        assert_eq!(plan.includes(Step::Pull), plan.pull);
        assert_eq!(plan.includes(Step::Commit), plan.commit);
        assert_eq!(plan.includes(Step::Push), plan.push);
    }
}

#[test]
fn full_run_takes_every_step_in_order() {
    let (steps, outcome) = rehearse(&full(), &calm(ExitStatus::Code(0)));
    assert_eq!(steps, ALL.to_vec());
    assert_eq!(outcome, Outcome::Exited(ExitStatus::Code(0)));
}

#[test]
fn bare_run_spawns_and_waits() {
    let (steps, outcome) = rehearse(&bare(), &calm(ExitStatus::Code(4)));
    assert_eq!(steps, vec![Step::Spawn, Step::Wait]);
    assert_eq!(outcome, Outcome::Exited(ExitStatus::Code(4)));
    assert_eq!(outcome.exit_code(), 4);
}

#[test]
fn refused_configuration_starts_nothing() {
    let loaded: Result<Config, ConfigError> =
        Err(ConfigError::NotFound(String::from("/nonexistent/service")));
    let action = begin(&settings(false, false, false, false), &loaded);
    assert_eq!(action, Action::Finish(Outcome::Rejected));
    assert_eq!(Outcome::Rejected.exit_code(), 1);
}

#[test]
fn accepted_configuration_starts_with_its_first_step() {
    let all = settings(false, false, false, false);
    assert_eq!(begin(&all, &Ok(config(true, true))), Action::Perform(Step::UpdateDns));
    assert_eq!(begin(&all, &Ok(config(false, true))), Action::Perform(Step::Pull));
    assert_eq!(begin(&all, &Ok(config(false, false))), Action::Perform(Step::Spawn));
    let quiet = settings(true, false, false, true);
    assert_eq!(begin(&quiet, &Ok(config(true, true))), Action::Perform(Step::Spawn));
}

#[test]
fn failed_pull_prevents_the_spawn() {
    let script = Script { pull: Event::Failed, ..calm(ExitStatus::Code(0)) };
    let (steps, outcome) = rehearse(&full(), &script);
    assert_eq!(steps, vec![Step::UpdateDns, Step::Pull]);
    assert_eq!(outcome, Outcome::Aborted(Step::Pull));
    assert_eq!(outcome.exit_code(), 1);
    for plan in plans() {
        for script in scripts() {
            if plan.pull && script.pull == Event::Failed {
                let (steps, outcome) = rehearse(&plan, &script);
                assert!(!steps.contains(&Step::Spawn));
                assert_eq!(outcome, Outcome::Aborted(Step::Pull));
            }
        }
    }
}

#[test]
fn failed_pull_that_is_not_planned_changes_nothing() {
    let plan = Plan { pull: false, ..full() };
    let script = Script { pull: Event::Failed, ..calm(ExitStatus::Code(0)) };
    let (steps, outcome) = rehearse(&plan, &script);
    assert_eq!(steps, vec![Step::UpdateDns, Step::Spawn, Step::Commit, Step::Push, Step::Wait]);
    assert_eq!(outcome, Outcome::Exited(ExitStatus::Code(0)));
}

#[test]
fn commit_is_taken_once_after_the_spawn_however_the_service_ends() {
    for plan in plans() {
        for script in scripts() {
            let (steps, _) = rehearse(&plan, &script);
            if plan.commit && steps.contains(&Step::Spawn) && script.spawn != Event::Failed {
                let spawn = steps.iter().position(|step| *step == Step::Spawn).unwrap();
                let commit = steps.iter().position(|step| *step == Step::Commit).unwrap();
                assert!(spawn < commit);
                assert_eq!(steps.iter().filter(|step| **step == Step::Commit).count(), 1);
            }
        }
    }
}

#[test]
fn failed_dns_refresh_is_survived() {
    let script = Script { update_dns: Event::Failed, ..calm(ExitStatus::Code(7)) };
    let (steps, outcome) = rehearse(&full(), &script);
    assert_eq!(steps, ALL.to_vec());
    assert_eq!(outcome, Outcome::Exited(ExitStatus::Code(7)));
    assert_eq!(outcome.exit_code(), 7);
    for plan in plans() {
        for script in scripts() {
            let failed = Script { update_dns: Event::Failed, ..script };
            let fine = Script { update_dns: Event::Succeeded, ..script };
            assert_eq!(rehearse(&plan, &failed), rehearse(&plan, &fine));
        }
    }
}

#[test]
fn failed_spawn_ends_the_run_before_any_commit() {
    let script = Script { spawn: Event::Failed, ..calm(ExitStatus::Code(0)) };
    let (steps, outcome) = rehearse(&full(), &script);
    assert_eq!(steps, vec![Step::UpdateDns, Step::Pull, Step::Spawn]);
    assert_eq!(outcome, Outcome::Aborted(Step::Spawn));
}

#[test]
fn failed_commit_overrides_the_service_status() {
    let script = Script { commit: Event::Failed, ..calm(ExitStatus::Code(0)) };
    let (steps, outcome) = rehearse(&full(), &script);
    assert_eq!(steps, vec![Step::UpdateDns, Step::Pull, Step::Spawn, Step::Commit]);
    assert_eq!(outcome, Outcome::Aborted(Step::Commit));
    assert_eq!(outcome.exit_code(), 1);
}

#[test]
fn failed_push_ends_the_run() {
    let script = Script { push: Event::Failed, ..calm(ExitStatus::Code(0)) };
    let (steps, outcome) = rehearse(&full(), &script);
    assert_eq!(steps, vec![Step::UpdateDns, Step::Pull, Step::Spawn, Step::Commit, Step::Push]);
    assert_eq!(outcome, Outcome::Aborted(Step::Push));
}

#[test]
fn failed_wait_ends_the_run() {
    let script = Script { wait: Event::Failed, ..calm(ExitStatus::Code(0)) };
    assert_eq!(rehearse(&bare(), &script).1, Outcome::Aborted(Step::Wait));
    let script = Script { wait: Event::Succeeded, ..calm(ExitStatus::Code(0)) };
    assert_eq!(rehearse(&bare(), &script).1, Outcome::Aborted(Step::Wait));
}

#[test]
fn steps_of_every_run_are_in_order() {
    for plan in plans() {
        for script in scripts() {
            let (steps, _) = rehearse(&plan, &script);
            let places: Vec<usize> = steps
                .iter()
                .map(|step| ALL.iter().position(|other| other == step).unwrap())
                .collect();
            assert!(places.windows(2).all(|pair| pair[0] < pair[1]));
            assert!(steps.iter().all(|step| plan.includes(*step)));
        }
    }
}

#[test]
fn advance_answers_each_report() {
    let plan = full();
    assert_eq!(advance(&plan, Step::UpdateDns, Event::Failed), Action::Perform(Step::Pull));
    assert_eq!(advance(&plan, Step::UpdateDns, Event::Succeeded), Action::Perform(Step::Pull));
    assert_eq!(advance(&plan, Step::Pull, Event::Succeeded), Action::Perform(Step::Spawn));
    assert_eq!(
        advance(&plan, Step::Pull, Event::Failed),
        Action::Finish(Outcome::Aborted(Step::Pull))
    );
    assert_eq!(advance(&plan, Step::Spawn, Event::Succeeded), Action::Perform(Step::Commit));
    assert_eq!(advance(&plan, Step::Commit, Event::Succeeded), Action::Perform(Step::Push));
    assert_eq!(advance(&plan, Step::Push, Event::Succeeded), Action::Perform(Step::Wait));
    assert_eq!(
        advance(&plan, Step::Wait, Event::Exited(ExitStatus::Abnormal)),
        Action::Finish(Outcome::Exited(ExitStatus::Abnormal))
    );
    let plan = bare();
    assert_eq!(advance(&plan, Step::Spawn, Event::Succeeded), Action::Perform(Step::Wait));
    assert_eq!(
        advance(&plan, Step::Spawn, Event::Exited(ExitStatus::Code(0))),
        Action::Perform(Step::Wait)
    );
    let plan = Plan { push: true, ..bare() };
    assert_eq!(advance(&plan, Step::Spawn, Event::Succeeded), Action::Perform(Step::Push));
}

#[test]
fn first_and_following_steps() {
    assert_eq!(full().first(), Step::UpdateDns);
    assert_eq!(Plan { update_dns: false, ..full() }.first(), Step::Pull);
    assert_eq!(bare().first(), Step::Spawn);
    assert_eq!(bare().following(Step::UpdateDns), Step::Spawn);
    assert_eq!(bare().following(Step::Spawn), Step::Wait);
    assert_eq!(full().following(Step::Spawn), Step::Commit);
    assert_eq!(full().following(Step::Commit), Step::Push);
    assert_eq!(full().following(Step::Push), Step::Wait);
    assert_eq!(full().following(Step::Wait), Step::Wait);
}

#[test]
fn script_reports_by_step() {
    let script = Script {
        update_dns: Event::Failed,
        pull: Event::Succeeded,
        spawn: Event::Exited(ExitStatus::Code(1)),
        commit: Event::Failed,
        push: Event::Succeeded,
        wait: Event::Exited(ExitStatus::Abnormal),
    };
    assert_eq!(script.event(Step::UpdateDns), Event::Failed);
    assert_eq!(script.event(Step::Pull), Event::Succeeded);
    assert_eq!(script.event(Step::Spawn), Event::Exited(ExitStatus::Code(1)));
    assert_eq!(script.event(Step::Commit), Event::Failed);
    assert_eq!(script.event(Step::Push), Event::Succeeded);
    assert_eq!(script.event(Step::Wait), Event::Exited(ExitStatus::Abnormal));
}

#[test]
fn exit_code_is_zero_only_for_a_service_that_exited_with_zero() {
    assert_eq!(Outcome::Exited(ExitStatus::Code(0)).exit_code(), 0);
    assert_eq!(Outcome::Exited(ExitStatus::Code(42)).exit_code(), 42);
    assert_eq!(Outcome::Exited(ExitStatus::Code(-2)).exit_code(), -2);
    assert_eq!(Outcome::Exited(ExitStatus::Abnormal).exit_code(), 1);
    assert_eq!(Outcome::Rejected.exit_code(), 1);
    for step in ALL {
        assert_eq!(Outcome::Aborted(step).exit_code(), 1);
    }
}

#[test]
fn scenario_only_a_service() {
    let loaded = Config::from_str("[service]\nexec = \"/bin/true\"\n");
    let all = settings(false, false, false, false);
    assert_eq!(begin(&all, &loaded), Action::Perform(Step::Spawn));
    let config = loaded.unwrap();
    assert!(config.dns().is_none());
    assert!(config.sync().is_none());
    let launch = config.service().run();
    assert_eq!(launch.program, "/bin/true");
    assert!(launch.args.is_empty());
    assert_eq!(launch.stdio, droplet::service::Stdio::LogFile);
    let plan = Plan::new(&all, &config);
    let (steps, outcome) = rehearse(&plan, &calm(ExitStatus::from_code(Some(0))));
    assert_eq!(steps, vec![Step::Spawn, Step::Wait]);
    assert_eq!(outcome.exit_code(), 0);
}

#[test]
fn scenario_sync_without_origin() {
    let text = "[service]\nexec = \"/bin/true\"\n\n[sync]\ntargets = [\"a.txt\"]\n";
    let loaded = Config::from_str(text);
    assert_eq!(loaded, Err(ConfigError::MissingKey(droplet::error::Key::SyncOrigin)));
    assert!(loaded.as_ref().unwrap_err().message().contains("sync.origin"));
    assert_eq!(
        begin(&settings(false, false, false, false), &loaded),
        Action::Finish(Outcome::Rejected)
    );
}

#[test]
fn scenario_service_that_does_not_exist() {
    let text = "[service]\nexec = \"/nonexistent/droplet/service\"\n\n[dns]\ncode = \"k\"\n\n\
                [sync]\norigin = \"o\"\ntargets = [\"a.txt\"]\n";
    let loaded = Config::from_str(text);
    assert_eq!(loaded, Err(ConfigError::NotFound(String::from("/nonexistent/droplet/service"))));
    assert_eq!(
        begin(&settings(false, false, false, false), &loaded),
        Action::Finish(Outcome::Rejected)
    );
}
