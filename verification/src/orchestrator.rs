//! The order of a run and what a failure does to it.
//!
//! A run takes its steps in one fixed order: refresh the DNS record, pull,
//! spawn the service, stage and commit, push, wait for the service. The
//! settings and the configuration decide which of the optional steps belong
//! to the run. The caller performs a step and reports how it went; this
//! module answers with the next step or with the outcome of the run.

use crate::config::{Config, ConfigView};
use crate::document::Node;
use crate::error::{ConfigError, ConfigErrorView, Key};
use crate::raw::{service_at, Field};
use crate::service::ExitStatus;
use crate::settings::{Settings, SettingsView};
use crate::validate::{config_outcome, loaded};
use vstd::prelude::*;

verus! {

/// A step of a run.
#[derive(Clone, Copy, Debug, PartialEq, Eq, Structural)]
pub enum Step {
    /// Refresh the dynamic-DNS record.
    UpdateDns,
    /// Pull the remote's changes into the repository.
    Pull,
    /// Start the service.
    Spawn,
    /// Stage the configured targets and commit them.
    Commit,
    /// Push the commits to the remote.
    Push,
    /// Wait for the service to end.
    Wait,
}

/// What the failure of a step does to the run.
#[derive(Clone, Copy, Debug, PartialEq, Eq, Structural)]
pub enum Policy {
    /// The failure ends the run; no later step is taken.
    Abort,
    /// The failure is reported as a warning and the run goes on.
    WarnAndContinue,
}

impl Step {
    /// What the failure of this step does: only a failed DNS refresh is
    /// survived.
    pub open spec fn spec_policy(self) -> Policy {
        match self {
            Step::UpdateDns => Policy::WarnAndContinue,
            _ => Policy::Abort,
        }
    }

    /// What the failure of this step does to the run.
    #[verifier::when_used_as_spec(spec_policy)]
    pub fn policy(self) -> (policy: Policy)
        ensures
            policy == self.spec_policy(),
    {
        match self {
            Step::UpdateDns => Policy::WarnAndContinue,
            _ => Policy::Abort,
        }
    }

    /// The place of this step in the order of a run.
    pub open spec fn position(self) -> int {
        match self {
            Step::UpdateDns => 0,
            Step::Pull => 1,
            Step::Spawn => 2,
            Step::Commit => 3,
            Step::Push => 4,
            Step::Wait => 5,
        }
    }
}

/// Which of the optional steps belong to a run. Spawning the service and
/// waiting for it always do.
#[derive(Clone, Copy, Debug, PartialEq, Eq, Structural)]
pub struct Plan {
    /// The DNS record is refreshed.
    pub update_dns: bool,
    /// The repository is pulled before the service starts.
    pub pull: bool,
    /// The targets are staged and committed once the service runs.
    pub commit: bool,
    /// The commits are pushed.
    pub push: bool,
}

/// The plan for given settings and a given configuration. A step that the
/// settings allow is taken only where the configuration has its section; the
/// commit needs the `sync` section alone, whatever the settings say.
pub open spec fn plan_of(settings: SettingsView, config: ConfigView) -> Plan {
    Plan {
        update_dns: settings.update_dns && config.dns is Some,
        pull: settings.sync_pull && config.sync is Some,
        commit: config.sync is Some,
        push: settings.sync_push && config.sync is Some,
    }
}

impl Plan {
    /// The plan for given settings and a given configuration.
    pub fn new(settings: &Settings, config: &Config) -> (plan: Plan)
        ensures
            plan == plan_of(settings@, config@),
    {
        let has_dns = config.dns().is_some();
        let has_sync = config.sync().is_some();
        Plan {
            update_dns: settings.update_dns() && has_dns,
            pull: settings.sync_pull() && has_sync,
            commit: has_sync,
            push: settings.sync_push() && has_sync,
        }
    }

    /// Whether a step belongs to the run.
    pub open spec fn spec_includes(self, step: Step) -> bool {
        match step {
            Step::UpdateDns => self.update_dns,
            Step::Pull => self.pull,
            Step::Spawn => true,
            Step::Commit => self.commit,
            Step::Push => self.push,
            Step::Wait => true,
        }
    }

    /// Whether a step belongs to the run.
    #[verifier::when_used_as_spec(spec_includes)]
    pub fn includes(self, step: Step) -> (included: bool)
        ensures
            included == self.spec_includes(step),
    {
        match step {
            Step::UpdateDns => self.update_dns,
            Step::Pull => self.pull,
            Step::Spawn => true,
            Step::Commit => self.commit,
            Step::Push => self.push,
            Step::Wait => true,
        }
    }

    /// The first step of the run.
    pub open spec fn spec_first(self) -> Step {
        if self.update_dns {
            Step::UpdateDns
        } else if self.pull {
            Step::Pull
        } else {
            Step::Spawn
        }
    }

    /// The step that the run takes after `step`, where `step` did not end it:
    /// the next one in order that belongs to the run. Waiting is the last.
    pub open spec fn spec_following(self, step: Step) -> Step {
        match step {
            Step::UpdateDns => if self.pull {
                Step::Pull
            } else {
                Step::Spawn
            },
            Step::Pull => Step::Spawn,
            Step::Spawn => if self.commit {
                Step::Commit
            } else if self.push {
                Step::Push
            } else {
                Step::Wait
            },
            Step::Commit => if self.push {
                Step::Push
            } else {
                Step::Wait
            },
            Step::Push => Step::Wait,
            Step::Wait => Step::Wait,
        }
    }

    /// The first step of the run.
    #[verifier::when_used_as_spec(spec_first)]
    pub fn first(self) -> (step: Step)
        ensures
            step == self.spec_first(),
    {
        if self.update_dns {
            Step::UpdateDns
        } else if self.pull {
            Step::Pull
        } else {
            Step::Spawn
        }
    }

    /// The step that the run takes after `step`, where `step` did not end it.
    #[verifier::when_used_as_spec(spec_following)]
    pub fn following(self, step: Step) -> (next: Step)
        ensures
            next == self.spec_following(step),
    {
        match step {
            Step::UpdateDns => if self.pull {
                Step::Pull
            } else {
                Step::Spawn
            },
            Step::Pull => Step::Spawn,
            Step::Spawn => if self.commit {
                Step::Commit
            } else if self.push {
                Step::Push
            } else {
                Step::Wait
            },
            Step::Commit => if self.push {
                Step::Push
            } else {
                Step::Wait
            },
            Step::Push => Step::Wait,
            Step::Wait => Step::Wait,
        }
    }
}

/// How a step went, as the caller reports it.
#[derive(Clone, Copy, Debug, PartialEq, Eq, Structural)]
pub enum Event {
    /// The step was carried out.
    Succeeded,
    /// The step failed.
    Failed,
    /// The service ended with this status: the report of a wait that was
    /// carried out. For any other step it counts as [`Event::Succeeded`].
    Exited(ExitStatus),
}

/// How a run ended.
#[derive(Clone, Copy, Debug, PartialEq, Eq, Structural)]
pub enum Outcome {
    /// The configuration was refused; no step was taken.
    Rejected,
    /// This step failed and ended the run.
    Aborted(Step),
    /// Every step that could end the run was carried out, and the service
    /// ended with this status.
    Exited(ExitStatus),
}

/// What the caller does next.
#[derive(Clone, Copy, Debug, PartialEq, Eq, Structural)]
pub enum Action {
    /// Perform this step and report how it went.
    Perform(Step),
    /// The run is over.
    Finish(Outcome),
}

/// The answer to the report of a step. The wait ends the run, with the
/// service's status; a wait that reports no status has failed. Before it, a
/// failure ends the run where the step's policy says so, and every other
/// report leads to the next step.
pub open spec fn advanced(plan: Plan, step: Step, event: Event) -> Action {
    if step == Step::Wait {
        match event {
            Event::Exited(status) => Action::Finish(Outcome::Exited(status)),
            _ => Action::Finish(Outcome::Aborted(Step::Wait)),
        }
    } else if event is Failed && step.spec_policy() is Abort {
        Action::Finish(Outcome::Aborted(step))
    } else {
        Action::Perform(plan.spec_following(step))
    }
}

/// The answer to a loaded configuration: nothing is done for one that was
/// refused, else the run starts with its first step.
pub open spec fn begun(settings: SettingsView, loaded: Result<ConfigView, ConfigErrorView>)
    -> Action {
    match loaded {
        Err(_) => Action::Finish(Outcome::Rejected),
        Ok(config) => Action::Perform(plan_of(settings, config).spec_first()),
    }
}

/// Opens a run: the first action for the outcome of loading the configuration.
pub fn begin(settings: &Settings, loaded: &Result<Config, ConfigError>) -> (action: Action)
    ensures
        action == begun(settings@, config_outcome(*loaded)),
{
    match loaded {
        Err(_) => Action::Finish(Outcome::Rejected),
        Ok(config) => Action::Perform(Plan::new(settings, config).first()),
    }
}

/// Answers the report of a step with the next action.
pub fn advance(plan: &Plan, step: Step, event: Event) -> (action: Action)
    ensures
        action == advanced(*plan, step, event),
{
    match step {
        Step::Wait => match event {
            Event::Exited(status) => Action::Finish(Outcome::Exited(status)),
            _ => Action::Finish(Outcome::Aborted(Step::Wait)),
        },
        _ => match (event, step.policy()) {
            (Event::Failed, Policy::Abort) => Action::Finish(Outcome::Aborted(step)),
            _ => Action::Perform(plan.following(step)),
        },
    }
}

/// The report of every step, should it be taken.
#[derive(Clone, Copy, Debug, PartialEq, Eq, Structural)]
pub struct Script {
    pub update_dns: Event,
    pub pull: Event,
    pub spawn: Event,
    pub commit: Event,
    pub push: Event,
    pub wait: Event,
}

impl Script {
    /// The report of a step.
    pub open spec fn spec_event(self, step: Step) -> Event {
        match step {
            Step::UpdateDns => self.update_dns,
            Step::Pull => self.pull,
            Step::Spawn => self.spawn,
            Step::Commit => self.commit,
            Step::Push => self.push,
            Step::Wait => self.wait,
        }
    }

    /// The report of a step.
    #[verifier::when_used_as_spec(spec_event)]
    pub fn event(self, step: Step) -> (event: Event)
        ensures
            event == self.spec_event(step),
    {
        match step {
            Step::UpdateDns => self.update_dns,
            Step::Pull => self.pull,
            Step::Spawn => self.spawn,
            Step::Commit => self.commit,
            Step::Push => self.push,
            Step::Wait => self.wait,
        }
    }
}

/// A run: the steps that were taken, in order, and how it ended.
pub struct Run {
    pub steps: Seq<Step>,
    pub outcome: Outcome,
}

/// The rest of a run that is about to take `step`, under the given reports.
pub open spec fn run_from(plan: Plan, script: Script, step: Step) -> Run
    decreases 6 - step.position(),
{
    match advanced(plan, step, script.spec_event(step)) {
        Action::Finish(outcome) => Run { steps: seq![step], outcome },
        Action::Perform(next) => {
            let rest = run_from(plan, script, next);
            Run { steps: seq![step] + rest.steps, outcome: rest.outcome }
        },
    }
}

/// The whole run of a plan under the given reports.
pub open spec fn run_of(plan: Plan, script: Script) -> Run {
    run_from(plan, script, plan.spec_first())
}

/// The whole run that follows the loading of a configuration.
pub open spec fn run_after(
    settings: SettingsView,
    loaded: Result<ConfigView, ConfigErrorView>,
    script: Script,
) -> Run {
    match loaded {
        Err(_) => Run { steps: Seq::empty(), outcome: Outcome::Rejected },
        Ok(config) => run_of(plan_of(settings, config), script),
    }
}

/// Plays a plan through under scripted reports, without doing anything: the
/// steps that a run would take, and its outcome.
pub fn rehearse(plan: &Plan, script: &Script) -> (played: (Vec<Step>, Outcome))
    ensures
        played.0@ == run_of(*plan, *script).steps,
        played.1 == run_of(*plan, *script).outcome,
{
    let mut steps: Vec<Step> = Vec::new();
    let mut step = plan.first();
    loop
        invariant
            run_of(*plan, *script).steps == steps@ + run_from(*plan, *script, step).steps,
            run_of(*plan, *script).outcome == run_from(*plan, *script, step).outcome,
        decreases 6 - step.position(),
    {
        steps.push(step);
        match advance(plan, step, script.event(step)) {
            Action::Finish(outcome) => {
                return (steps, outcome);
            },
            Action::Perform(next) => {
                assert(run_from(*plan, *script, step).steps == seq![step] + run_from(
                    *plan,
                    *script,
                    next,
                ).steps);
                step = next;
            },
        }
    }
}

/// Whether `step` belongs to the run and its failure, as reported, ends the run.
pub open spec fn stops(plan: Plan, script: Script, step: Step) -> bool {
    plan.spec_includes(step) && script.spec_event(step) is Failed && step.spec_policy() is Abort
}

/// Whether a run takes `step`: the step belongs to the run, and no step
/// before it ends the run.
pub open spec fn taken(plan: Plan, script: Script, step: Step) -> bool {
    plan.spec_includes(step) && match step {
        Step::UpdateDns | Step::Pull => true,
        Step::Spawn => !stops(plan, script, Step::Pull),
        Step::Commit => !stops(plan, script, Step::Pull) && !stops(plan, script, Step::Spawn),
        Step::Push => !stops(plan, script, Step::Pull) && !stops(plan, script, Step::Spawn)
            && !stops(plan, script, Step::Commit),
        Step::Wait => !stops(plan, script, Step::Pull) && !stops(plan, script, Step::Spawn)
            && !stops(plan, script, Step::Commit) && !stops(plan, script, Step::Push),
    }
}

/// How a run ends: at the first step whose failure ends it, else with what
/// the wait reports.
pub open spec fn outcome_of(plan: Plan, script: Script) -> Outcome {
    if stops(plan, script, Step::Pull) {
        Outcome::Aborted(Step::Pull)
    } else if stops(plan, script, Step::Spawn) {
        Outcome::Aborted(Step::Spawn)
    } else if stops(plan, script, Step::Commit) {
        Outcome::Aborted(Step::Commit)
    } else if stops(plan, script, Step::Push) {
        Outcome::Aborted(Step::Push)
    } else {
        match script.wait {
            Event::Exited(status) => Outcome::Exited(status),
            _ => Outcome::Aborted(Step::Wait),
        }
    }
}

/// Whether a run that is about to take `from` takes `step`, now or later.
spec fn reached(plan: Plan, script: Script, from: Step, step: Step) -> bool
    decreases 6 - from.position(),
{
    step == from || match advanced(plan, from, script.spec_event(from)) {
        Action::Finish(_) => false,
        Action::Perform(next) => reached(plan, script, next, step),
    }
}

/// The rest of a run starts with the step it is about to take, goes on in
/// order, and holds exactly the steps that are reached from there.
proof fn lemma_rest_of_run(plan: Plan, script: Script, from: Step)
    ensures
        run_from(plan, script, from).steps.len() >= 1,
        run_from(plan, script, from).steps[0] == from,
        forall|i: int, j: int|
            #![trigger run_from(plan, script, from).steps[i], run_from(plan, script, from).steps[j]]
            0 <= i < j < run_from(plan, script, from).steps.len() ==> run_from(
                plan,
                script,
                from,
            ).steps[i].position() < run_from(plan, script, from).steps[j].position(),
        forall|step: Step| #[trigger]
            run_from(plan, script, from).steps.contains(step) <==> reached(plan, script, from, step),
    decreases 6 - from.position(),
{
    let run = run_from(plan, script, from);
    match advanced(plan, from, script.spec_event(from)) {
        Action::Finish(outcome) => {
            assert(run.steps =~= seq![from]);
            assert forall|step: Step| #[trigger]
                run.steps.contains(step) <==> reached(plan, script, from, step) by {
                if step == from {
                    assert(run.steps[0] == step);
                }
            }
        },
        Action::Perform(next) => {
            lemma_rest_of_run(plan, script, next);
            let rest = run_from(plan, script, next);
            assert(run.steps =~= seq![from] + rest.steps);
            assert forall|i: int, j: int| 0 <= i < j < run.steps.len() implies run.steps[i].position()
                < run.steps[j].position() by {
                assert(run.steps[j] == rest.steps[j - 1]);
                if i == 0 {
                    if j > 1 {
                        assert(rest.steps[0].position() < rest.steps[j - 1].position());
                    }
                } else {
                    assert(run.steps[i] == rest.steps[i - 1]);
                }
            }
            assert forall|step: Step| #[trigger]
                run.steps.contains(step) <==> reached(plan, script, from, step) by {
                if run.steps.contains(step) {
                    let i = choose|i: int| 0 <= i < run.steps.len() && run.steps[i] == step;
                    if i > 0 {
                        assert(rest.steps[i - 1] == step);
                        assert(rest.steps.contains(step));
                    }
                }
                if reached(plan, script, from, step) {
                    if step == from {
                        assert(run.steps[0] == step);
                    } else {
                        assert(rest.steps.contains(step));
                        let i = choose|i: int| 0 <= i < rest.steps.len() && rest.steps[i] == step;
                        assert(run.steps[i + 1] == step);
                    }
                }
            }
        },
    }
}

/// The steps of a run stand in the one order of all runs, none of them twice:
/// a pull comes before the spawn, and the commit and the push come after it.
pub proof fn lemma_run_is_ordered(plan: Plan, script: Script)
    ensures
        forall|i: int, j: int|
            #![trigger run_of(plan, script).steps[i], run_of(plan, script).steps[j]]
            0 <= i < j < run_of(plan, script).steps.len() ==> run_of(plan, script).steps[i].position()
                < run_of(plan, script).steps[j].position(),
{
    lemma_rest_of_run(plan, script, plan.spec_first());
}

/// A run takes exactly the steps that belong to it and that no failure before
/// them has cut off.
pub proof fn lemma_run_takes(plan: Plan, script: Script, step: Step)
    ensures
        run_of(plan, script).steps.contains(step) <==> taken(plan, script, step),
{
    lemma_rest_of_run(plan, script, plan.spec_first());
    reveal_with_fuel(reached, 7);
}

/// A step is taken exactly where it belongs to the run and no step that
/// comes before it in the order of a run ends the run.
pub proof fn lemma_taken_unless_stopped_before(plan: Plan, script: Script, step: Step)
    ensures
        taken(plan, script, step) <==> plan.spec_includes(step) && forall|earlier: Step|
            earlier.position() < step.position() ==> !#[trigger] stops(plan, script, earlier),
{
    if taken(plan, script, step) {
        assert forall|earlier: Step| earlier.position() < step.position() implies !#[trigger] stops(
            plan,
            script,
            earlier,
        ) by {}
    }
    if plan.spec_includes(step) && forall|earlier: Step|
        earlier.position() < step.position() ==> !#[trigger] stops(plan, script, earlier) {
        assert(Step::Pull.position() < step.position() ==> !stops(plan, script, Step::Pull));
        assert(Step::Spawn.position() < step.position() ==> !stops(plan, script, Step::Spawn));
        assert(Step::Commit.position() < step.position() ==> !stops(plan, script, Step::Commit));
        assert(Step::Push.position() < step.position() ==> !stops(plan, script, Step::Push));
    }
}

/// A run ends at the first step whose failure ends it, else with the status
/// that the wait reports.
pub proof fn lemma_run_ends(plan: Plan, script: Script)
    ensures
        run_of(plan, script).outcome == outcome_of(plan, script),
{
    reveal_with_fuel(run_from, 7);
}

/// A configuration that was refused starts nothing: no step is taken, and the
/// run is over before any DNS, git or service operation.
pub proof fn lemma_refused_configuration_runs_nothing(
    settings: SettingsView,
    loaded: Result<ConfigView, ConfigErrorView>,
    script: Script,
)
    requires
        loaded is Err,
    ensures
        run_after(settings, loaded, script).steps.len() == 0,
        run_after(settings, loaded, script).outcome == Outcome::Rejected,
        begun(settings, loaded) == Action::Finish(Outcome::Rejected),
{
}

/// A document without a `service` section is refused for that reason, and
/// the run that follows spawns no process and takes no other step.
pub proof fn lemma_missing_service_starts_nothing(
    settings: SettingsView,
    doc: Map<Seq<char>, Node>,
    exec_exists: bool,
    script: Script,
)
    requires
        !doc.contains_key("service"@),
    ensures
        loaded(doc, exec_exists) == Err::<ConfigView, ConfigErrorView>(
            ConfigErrorView::MissingSection(Key::Service),
        ),
        !run_after(settings, loaded(doc, exec_exists), script).steps.contains(Step::Spawn),
        run_after(settings, loaded(doc, exec_exists), script).steps.len() == 0,
{
}

/// A document whose `service.exec` names a file that does not exist is
/// refused for that reason, and the run is over before any DNS, git or
/// service operation: it takes no step at all.
pub proof fn lemma_missing_executable_starts_nothing(
    settings: SettingsView,
    doc: Map<Seq<char>, Node>,
    path: Seq<char>,
    script: Script,
)
    requires
        service_at(doc) matches Field::Present(section) && section.program == Field::Present(path),
    ensures
        loaded(doc, false) == Err::<ConfigView, ConfigErrorView>(ConfigErrorView::NotFound(path)),
        run_after(settings, loaded(doc, false), script).steps.len() == 0,
        run_after(settings, loaded(doc, false), script).outcome == Outcome::Rejected,
{
}

/// Where the pull belongs to the run and fails, the service is never spawned.
pub proof fn lemma_failed_pull_prevents_spawn(plan: Plan, script: Script)
    requires
        plan.pull,
        script.pull is Failed,
    ensures
        !run_of(plan, script).steps.contains(Step::Spawn),
        run_of(plan, script).outcome == Outcome::Aborted(Step::Pull),
{
    lemma_run_takes(plan, script, Step::Spawn);
    lemma_run_ends(plan, script);
}

/// Where the configuration has a `sync` section and the service was spawned,
/// the commit is taken exactly once, after the spawn, whatever the flags say
/// and however the service ends.
pub proof fn lemma_commit_follows_spawn(plan: Plan, script: Script)
    requires
        plan.commit,
        run_of(plan, script).steps.contains(Step::Spawn),
        !(script.spawn is Failed),
    ensures
        exists|i: int, j: int|
            #![trigger run_of(plan, script).steps[i], run_of(plan, script).steps[j]]
            0 <= i < j < run_of(plan, script).steps.len() && run_of(plan, script).steps[i]
                == Step::Spawn && run_of(plan, script).steps[j] == Step::Commit,
        forall|j: int, k: int|
            #![trigger run_of(plan, script).steps[j], run_of(plan, script).steps[k]]
            0 <= j < run_of(plan, script).steps.len() && 0 <= k < run_of(plan, script).steps.len()
                && run_of(plan, script).steps[j] == Step::Commit && run_of(plan, script).steps[k]
                == Step::Commit ==> j == k,
{
    let steps = run_of(plan, script).steps;
    lemma_run_takes(plan, script, Step::Spawn);
    lemma_run_takes(plan, script, Step::Commit);
    lemma_run_is_ordered(plan, script);
    assert(steps.contains(Step::Commit));
    let i = choose|i: int| 0 <= i < steps.len() && steps[i] == Step::Spawn;
    let j = choose|j: int| 0 <= j < steps.len() && steps[j] == Step::Commit;
    if j < i {
        assert(steps[j].position() < steps[i].position());
    }
    assert(0 <= i < j < steps.len() && steps[i] == Step::Spawn && steps[j] == Step::Commit);
    assert forall|j: int, k: int|
        0 <= j < steps.len() && 0 <= k < steps.len() && steps[j] == Step::Commit && steps[k]
            == Step::Commit implies j == k by {
        if j < k {
            assert(steps[j].position() < steps[k].position());
        }
        if k < j {
            assert(steps[k].position() < steps[j].position());
        }
    }
}

/// A failed DNS refresh changes nothing in what follows: the run takes the
/// same later steps and ends the same way as if the refresh had succeeded. In
/// particular, where nothing else fails, the service is spawned and the
/// outcome is the service's own status.
pub proof fn lemma_failed_dns_refresh_is_survived(plan: Plan, script: Script, status: ExitStatus)
    requires
        script.update_dns is Failed,
    ensures
        run_of(plan, script).outcome == run_of(
            plan,
            Script { update_dns: Event::Succeeded, ..script },
        ).outcome,
        run_of(plan, script).steps == run_of(
            plan,
            Script { update_dns: Event::Succeeded, ..script },
        ).steps,
        !stops(plan, script, Step::Pull) ==> run_of(plan, script).steps.contains(Step::Spawn),
        !stops(plan, script, Step::Pull) && !stops(plan, script, Step::Spawn) && !stops(
            plan,
            script,
            Step::Commit,
        ) && !stops(plan, script, Step::Push) && script.wait == Event::Exited(status) ==> run_of(
            plan,
            script,
        ).outcome == Outcome::Exited(status),
{
    let calm = Script { update_dns: Event::Succeeded, ..script };
    lemma_run_ends(plan, script);
    lemma_run_ends(plan, calm);
    lemma_run_takes(plan, script, Step::Spawn);
    lemma_same_steps(plan, script, calm, plan.spec_first());
}

/// The report of the DNS refresh has no part in which steps are taken.
proof fn lemma_same_steps(plan: Plan, script: Script, calm: Script, from: Step)
    requires
        calm == (Script { update_dns: Event::Succeeded, ..script }),
    ensures
        run_from(plan, script, from).steps == run_from(plan, calm, from).steps,
    decreases 6 - from.position(),
{
    match advanced(plan, from, script.spec_event(from)) {
        Action::Finish(_) => {},
        Action::Perform(next) => {
            lemma_same_steps(plan, script, calm, next);
        },
    }
}

impl Outcome {
    /// The exit code of the launcher for this outcome.
    pub open spec fn spec_exit_code(self) -> i32 {
        match self {
            Outcome::Exited(ExitStatus::Code(code)) => code,
            _ => 1,
        }
    }

    /// The exit code of the launcher: the service's own code where the run
    /// got as far as the service's end and the service has one, and 1 for a
    /// run that was refused or aborted and for a service that ended without a
    /// code.
    #[verifier::when_used_as_spec(spec_exit_code)]
    pub fn exit_code(self) -> (code: i32)
        ensures
            code == self.spec_exit_code(),
            code == 0 <==> self == Outcome::Exited(ExitStatus::Code(0)),
    {
        match self {
            Outcome::Exited(ExitStatus::Code(code)) => code,
            _ => 1,
        }
    }
}

} // verus!
