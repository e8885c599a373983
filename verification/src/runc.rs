//! The workload driver: brings the configured bundles up through the
//! container runtime, one after the other, in the order of the
//! configuration.

use crate::effect::{
    invocation, Action, ActionModel, Invocation, InvocationModel, Outcome, OutcomeModel, WAIT_SECS,
};
use crate::text::{decimal_i32, parse_i32};
use crate::uconfig::{AppConfig, AppModel, Config};
use vstd::prelude::*;

verus! {

/// A workload that can be started: an application with the directory of
/// its bundle.
#[derive(Debug, Clone, PartialEq, Eq)]
pub struct Bundle {
    pub name: String,
    pub path: String,
}

/// The mathematical value of a [`Bundle`].
pub struct BundleModel {
    pub name: Seq<char>,
    pub path: Seq<char>,
}

impl DeepView for Bundle {
    type V = BundleModel;

    open spec fn deep_view(&self) -> BundleModel {
        BundleModel { name: self.name@, path: self.path@ }
    }
}

/// The bundle of an application, if the configuration gives it a path.
pub open spec fn bundle_of(app: AppModel) -> Option<BundleModel> {
    match app.path {
        Some(path) => Some(BundleModel { name: app.name, path }),
        None => None,
    }
}

/// The bundles to start: those applications of `apps` that have a path, in
/// the order of `apps`.
pub open spec fn launch_plan(apps: Seq<AppModel>) -> Seq<BundleModel> {
    apps.filter_map(|app: AppModel| bundle_of(app))
}

/// The bundles to start among `apps`, in order. An application without a
/// path is passed over.
pub fn bundles_with_path(apps: &Vec<AppConfig>) -> (plan: Vec<Bundle>)
    ensures
        plan.deep_view() == launch_plan(apps.deep_view()),
{
    let mut plan: Vec<Bundle> = Vec::new();
    let ghost all = apps.deep_view();
    let ghost pick = |app: AppModel| bundle_of(app);
    let mut i: usize = 0;
    assert(plan.deep_view() =~= Seq::<BundleModel>::empty());
    assert(all.take(0) =~= Seq::<AppModel>::empty());
    while i < apps.len()
        invariant
            i <= apps.len(),
            all == apps.deep_view(),
            all.len() == apps.len(),
            pick == |app: AppModel| bundle_of(app),
            plan.deep_view() == all.take(i as int).filter_map(pick),
        decreases apps.len() - i,
    {
        proof {
            assert(all.take(i + 1).drop_last() =~= all.take(i as int));
            assert(all.take(i + 1).last() == apps[i as int].deep_view());
        }
        let ghost before = plan.deep_view();
        match &apps[i].path {
            Some(path) => {
                let bundle = Bundle { name: apps[i].name.clone(), path: path.clone() };
                plan.push(bundle);
                assert(plan.deep_view() =~= before + seq![bundle.deep_view()]);
            },
            None => {},
        }
        i += 1;
    }
    assert(all.take(apps.len() as int) =~= all);
    plan
}

/// The directory of the pid files of the bundles.
pub open spec fn pid_dir() -> Seq<char> {
    "/run/log/onboot"@
}

/// The directory of the logs of the bundles.
pub open spec fn log_dir() -> Seq<char> {
    "/var/log/onboot"@
}

/// The pid file of the bundle `name`.
pub open spec fn pid_file(name: Seq<char>) -> Seq<char> {
    pid_dir() + "/"@ + name
}

/// `runtime create --bundle <path> --pid-file <pid file> <name>`.
pub open spec fn create_command(runtime: Seq<char>, bundle: BundleModel) -> InvocationModel {
    invocation(
        runtime,
        seq![
            "create"@,
            "--bundle"@,
            bundle.path,
            "--pid-file"@,
            pid_file(bundle.name),
            bundle.name,
        ],
    )
}

/// `runtime start <name>`.
pub open spec fn start_command(runtime: Seq<char>, name: Seq<char>) -> InvocationModel {
    invocation(runtime, seq!["start"@, name])
}

/// Where the driver stands.
#[derive(Debug, Clone, Copy, PartialEq, Eq, Structural)]
pub enum Stage {
    /// About to become the subreaper.
    Subreaper,
    /// About to create the directory of the pid files.
    PidDir,
    /// About to create the directory of the logs.
    LogDir,
    /// About to look for the current bundle's directory.
    Probe,
    /// About to have the runtime create the current bundle's container.
    Create,
    /// About to read the current bundle's pid file.
    ReadPid,
    /// About to have the runtime start the current bundle's container.
    Start,
    /// About to remove the current bundle's pid file.
    RemovePid,
    /// Every bundle has had its turn.
    Done,
    /// A directory could not be created, or the subreaper not set.
    Aborted,
}

impl Stage {
    /// Whether the stage works on the current bundle.
    pub open spec fn on_bundle(self) -> bool {
        self is Probe || self is Create || self is ReadPid || self is Start || self is RemovePid
    }

    /// Whether the driver has come to rest.
    pub open spec fn at_rest(self) -> bool {
        self is Done || self is Aborted
    }
}

/// The mathematical value of a [`WorkloadDriver`].
pub struct DriverModel {
    pub runtime: Seq<char>,
    pub plan: Seq<BundleModel>,
    pub index: int,
    pub stage: Stage,
    pub status: int,
}

impl DriverModel {
    /// Whether the state makes sense: a stage that works on a bundle has
    /// one.
    pub open spec fn wf(self) -> bool {
        &&& 0 <= self.index <= self.plan.len()
        &&& self.stage.on_bundle() ==> self.index < self.plan.len()
        &&& self.status == 0 || self.status == 1
    }

    /// The state in which bundle `index` has its turn, or the end if there
    /// is no such bundle.
    pub open spec fn turn(self, index: int) -> DriverModel {
        DriverModel {
            index,
            stage: if index < self.plan.len() {
                Stage::Probe
            } else {
                Stage::Done
            },
            ..self
        }
    }

    /// The state at the same bundle, in another stage.
    pub open spec fn at(self, stage: Stage) -> DriverModel {
        DriverModel { stage, ..self }
    }

    /// The state after the current bundle was given up: the failure is
    /// recorded, and the next bundle has its turn.
    pub open spec fn failed(self) -> DriverModel {
        DriverModel { status: 1, ..self }.turn(self.index + 1)
    }

    /// What the driver asks for in this state.
    pub open spec fn action(self) -> ActionModel {
        match self.stage {
            Stage::Subreaper => ActionModel::SetSubreaper,
            Stage::PidDir => ActionModel::CreateDirAll(pid_dir()),
            Stage::LogDir => ActionModel::CreateDirAll(log_dir()),
            Stage::Probe => ActionModel::ProbeDir(self.plan[self.index].path),
            Stage::Create => ActionModel::Run(
                create_command(self.runtime, self.plan[self.index]),
                WAIT_SECS,
            ),
            Stage::ReadPid => ActionModel::ReadFile(pid_file(self.plan[self.index].name)),
            Stage::Start => ActionModel::Run(
                start_command(self.runtime, self.plan[self.index].name),
                WAIT_SECS,
            ),
            Stage::RemovePid => ActionModel::RemoveFile(pid_file(self.plan[self.index].name)),
            Stage::Done => ActionModel::Finish(self.status as i32),
            Stage::Aborted => ActionModel::Abort,
        }
    }

    /// The state after the action of this state had the given outcome.
    ///
    /// - The subreaper and the two directories must succeed, or the driver
    ///   aborts.
    /// - A bundle whose directory is missing is passed over, and is no
    ///   failure.
    /// - A command that could not be started, or that was killed when its
    ///   time was up, is a failure; one that ended by itself is not,
    ///   whatever its exit code.
    /// - A pid file that cannot be read, or that does not hold a decimal
    ///   `i32`, is a failure.
    /// - The pid file is removed only after a start that ended by itself;
    ///   whether the removal works does not matter.
    pub open spec fn advance(self, outcome: OutcomeModel) -> DriverModel {
        match self.stage {
            Stage::Subreaper => if outcome is Done {
                self.at(Stage::PidDir)
            } else {
                self.at(Stage::Aborted)
            },
            Stage::PidDir => if outcome is Done {
                self.at(Stage::LogDir)
            } else {
                self.at(Stage::Aborted)
            },
            Stage::LogDir => if outcome is Done {
                self.turn(0)
            } else {
                self.at(Stage::Aborted)
            },
            Stage::Probe => if outcome is Done {
                self.at(Stage::Create)
            } else {
                self.turn(self.index + 1)
            },
            Stage::Create => if outcome is Exited {
                self.at(Stage::ReadPid)
            } else {
                self.failed()
            },
            Stage::ReadPid => match outcome {
                OutcomeModel::Text(text) if decimal_i32(text) is Some => self.at(Stage::Start),
                _ => self.failed(),
            },
            Stage::Start => if outcome is Exited {
                self.at(Stage::RemovePid)
            } else {
                self.failed()
            },
            Stage::RemovePid => self.turn(self.index + 1),
            Stage::Done => self,
            Stage::Aborted => self,
        }
    }

    /// The state after a run of actions with the given outcomes, one after
    /// the other.
    pub open spec fn run(self, outcomes: Seq<OutcomeModel>) -> DriverModel
        decreases outcomes.len(),
    {
        if outcomes.len() == 0 {
            self
        } else {
            self.run(outcomes.drop_last()).advance(outcomes.last())
        }
    }

    /// How far the driver has come: a number that grows with every step
    /// until the driver is at rest.
    pub open spec fn progress(self) -> int {
        match self.stage {
            Stage::Subreaper => -3,
            Stage::PidDir => -2,
            Stage::LogDir => -1,
            Stage::Probe => 5 * self.index,
            Stage::Create => 5 * self.index + 1,
            Stage::ReadPid => 5 * self.index + 2,
            Stage::Start => 5 * self.index + 3,
            Stage::RemovePid => 5 * self.index + 4,
            Stage::Done => 5 * (self.plan.len() as int),
            Stage::Aborted => 5 * (self.plan.len() as int),
        }
    }
}

/// The state in which the driver starts.
pub open spec fn initial(runtime: Seq<char>, apps: Seq<AppModel>) -> DriverModel {
    DriverModel {
        runtime,
        plan: launch_plan(apps),
        index: 0,
        stage: Stage::Subreaper,
        status: 0,
    }
}

/// The driver of the bundles' boot sequence.
pub struct WorkloadDriver {
    runtime: String,
    plan: Vec<Bundle>,
    index: usize,
    stage: Stage,
    status: i32,
}

impl DeepView for WorkloadDriver {
    type V = DriverModel;

    closed spec fn deep_view(&self) -> DriverModel {
        DriverModel {
            runtime: self.runtime@,
            plan: self.plan.deep_view(),
            index: self.index as int,
            stage: self.stage,
            status: self.status as int,
        }
    }
}

/// The path of the pid file of the bundle `name`.
pub fn pid_file_path(name: &str) -> (path: String)
    ensures
        path@ == pid_file(name@),
{
    let mut path = String::from_str("/run/log/onboot");
    path.append("/");
    path.append(name);
    path
}

/// The command that has `runtime` create the container of `bundle`.
pub fn create_invocation(runtime: &str, bundle: &Bundle) -> (command: Invocation)
    ensures
        command.deep_view() == create_command(runtime@, bundle.deep_view()),
{
    let pid = pid_file_path(bundle.name.as_str());
    let command = Invocation::new(runtime).arg("create").arg("--bundle").arg(
        bundle.path.as_str(),
    ).arg("--pid-file").arg(pid.as_str()).arg(bundle.name.as_str());
    assert(command.deep_view().args =~= create_command(runtime@, bundle.deep_view()).args);
    command
}

/// The command that has `runtime` start the container `name`.
pub fn start_invocation(runtime: &str, name: &str) -> (command: Invocation)
    ensures
        command.deep_view() == start_command(runtime@, name@),
{
    let command = Invocation::new(runtime).arg("start").arg(name);
    assert(command.deep_view().args =~= start_command(runtime@, name@).args);
    command
}

impl WorkloadDriver {
    #[verifier::type_invariant]
    spec fn inv(&self) -> bool {
        self.deep_view().wf()
    }

    /// What to do next.
    pub fn action(&self) -> (action: Action)
        ensures
            self.deep_view().wf(),
            action.deep_view() == self.deep_view().action(),
    {
        proof {
            use_type_invariant(self);
        }
        match self.stage {
            Stage::Subreaper => Action::SetSubreaper,
            Stage::PidDir => Action::CreateDirAll(String::from_str("/run/log/onboot")),
            Stage::LogDir => Action::CreateDirAll(String::from_str("/var/log/onboot")),
            Stage::Probe => Action::ProbeDir(self.plan[self.index].path.clone()),
            Stage::Create => Action::Run(
                create_invocation(self.runtime.as_str(), &self.plan[self.index]),
                WAIT_SECS,
            ),
            Stage::ReadPid => Action::ReadFile(pid_file_path(self.plan[self.index].name.as_str())),
            Stage::Start => Action::Run(
                start_invocation(self.runtime.as_str(), self.plan[self.index].name.as_str()),
                WAIT_SECS,
            ),
            Stage::RemovePid => Action::RemoveFile(
                pid_file_path(self.plan[self.index].name.as_str()),
            ),
            Stage::Done => Action::Finish(self.status),
            Stage::Aborted => Action::Abort,
        }
    }

    /// Whether nothing is left to do.
    pub fn is_finished(&self) -> (yes: bool)
        ensures
            yes == self.deep_view().stage.at_rest(),
    {
        match self.stage {
            Stage::Done => true,
            Stage::Aborted => true,
            _ => false,
        }
    }

    /// The aggregate status so far: 1 once a bundle has failed, else 0.
    pub fn status(&self) -> (status: i32)
        ensures
            status == self.deep_view().status,
    {
        self.status
    }

    /// The driver after its action had the given outcome.
    pub fn advance(self, outcome: &Outcome) -> (next: WorkloadDriver)
        ensures
            next.deep_view().wf(),
            next.deep_view() == self.deep_view().advance(outcome.deep_view()),
    {
        proof {
            use_type_invariant(&self);
        }
        let is_done = match outcome {
            Outcome::Done => true,
            _ => false,
        };
        let has_exited = match outcome {
            Outcome::Exited(_) => true,
            _ => false,
        };
        let has_pid = match outcome {
            Outcome::Text(text) => parse_i32(text.as_str()).is_some(),
            _ => false,
        };
        let count: usize = self.plan.len();
        let mut index: usize = self.index;
        let mut status: i32 = self.status;
        let mut stage: Stage = self.stage;
        let mut leave: bool = false;
        match self.stage {
            Stage::Subreaper => {
                stage = if is_done {
                    Stage::PidDir
                } else {
                    Stage::Aborted
                };
            },
            Stage::PidDir => {
                stage = if is_done {
                    Stage::LogDir
                } else {
                    Stage::Aborted
                };
            },
            Stage::LogDir => {
                if is_done {
                    index = 0;
                    stage = if count > 0 {
                        Stage::Probe
                    } else {
                        Stage::Done
                    };
                } else {
                    stage = Stage::Aborted;
                }
            },
            Stage::Probe => {
                if is_done {
                    stage = Stage::Create;
                } else {
                    leave = true;
                }
            },
            Stage::Create => {
                if has_exited {
                    stage = Stage::ReadPid;
                } else {
                    status = 1;
                    leave = true;
                }
            },
            Stage::ReadPid => {
                if has_pid {
                    stage = Stage::Start;
                } else {
                    status = 1;
                    leave = true;
                }
            },
            Stage::Start => {
                if has_exited {
                    stage = Stage::RemovePid;
                } else {
                    status = 1;
                    leave = true;
                }
            },
            Stage::RemovePid => {
                leave = true;
            },
            Stage::Done => {},
            Stage::Aborted => {},
        }
        if leave {
            index = index + 1;
            stage = if index < count {
                Stage::Probe
            } else {
                Stage::Done
            };
        }
        WorkloadDriver { runtime: self.runtime, plan: self.plan, index, stage, status }
    }
}

/// The driver that brings up the bundles of `onboot` with the runtime
/// binary `runtime`.
pub fn runc_init(runtime: &str, onboot: &Vec<AppConfig>) -> (driver: WorkloadDriver)
    ensures
        driver.deep_view() == initial(runtime@, onboot.deep_view()),
{
    WorkloadDriver {
        runtime: String::from_str(runtime),
        plan: bundles_with_path(onboot),
        index: 0,
        stage: Stage::Subreaper,
        status: 0,
    }
}

/// The driver that brings up the boot bundles of `config` with the runtime
/// that `config` names.
pub fn onboot(config: &Config) -> (driver: WorkloadDriver)
    ensures
        driver.deep_view() == initial(
            config.deep_view().runtime_path(),
            config.deep_view().init_bundle,
        ),
{
    let runtime = config.runtime_path();
    runc_init(runtime.as_str(), config.get_init_bundle_config())
}

/// The exit status of the shutdown hook of the workloads: it stops
/// nothing by itself and always succeeds.
pub fn onshutdown(config: &Config) -> (status: i32)
    ensures
        status == 0,
{
    0
}

/// The plan of a list is the plan of its first part followed by the plan
/// of the rest: the bundles keep the order of the configuration.
pub proof fn lemma_launch_plan_concat(first: Seq<AppModel>, rest: Seq<AppModel>)
    ensures
        launch_plan(first + rest) == launch_plan(first) + launch_plan(rest),
    decreases rest.len(),
{
    let pick = |app: AppModel| bundle_of(app);
    if rest.len() == 0 {
        assert(first + rest =~= first);
        assert(launch_plan(first) + launch_plan(rest) =~= launch_plan(first));
    } else {
        assert((first + rest).drop_last() =~= first + rest.drop_last());
        assert((first + rest).last() == rest.last());
        lemma_launch_plan_concat(first, rest.drop_last());
        let head = launch_plan(first + rest.drop_last());
        match bundle_of(rest.last()) {
            Some(bundle) => {
                assert(launch_plan(first + rest) == head + seq![bundle]);
                assert(launch_plan(rest) == launch_plan(rest.drop_last()) + seq![bundle]);
                assert(launch_plan(first) + (launch_plan(rest.drop_last()) + seq![bundle])
                    =~= launch_plan(first) + launch_plan(rest.drop_last()) + seq![bundle]);
            },
            None => {},
        }
    }
}

/// An application without a path is passed over, and the bundles before
/// and after it keep their places: the plan is that of the list without
/// it.
pub proof fn lemma_launch_plan_skips(before: Seq<AppModel>, app: AppModel, after: Seq<AppModel>)
    requires
        app.path is None,
    ensures
        launch_plan(before + seq![app] + after) == launch_plan(before + after),
{
    let pick = |app: AppModel| bundle_of(app);
    lemma_launch_plan_concat(before + seq![app], after);
    lemma_launch_plan_concat(before, seq![app]);
    lemma_launch_plan_concat(before, after);
    assert(seq![app].drop_last() =~= Seq::<AppModel>::empty());
    assert(seq![app].last() == app);
    assert(Seq::<AppModel>::empty().filter_map(pick) =~= Seq::<BundleModel>::empty());
    assert(seq![app].filter_map(pick) == seq![app].drop_last().filter_map(pick));
    assert(launch_plan(seq![app]) =~= Seq::<BundleModel>::empty());
    assert(launch_plan(before) + Seq::<BundleModel>::empty() =~= launch_plan(before));
}

/// Every step takes the driver forward, until it is at rest; and it leaves
/// the runtime, the plan and a recorded failure as they are.
pub proof fn lemma_advance_progress(state: DriverModel, outcome: OutcomeModel)
    requires
        state.wf(),
    ensures
        ({
            let next = state.advance(outcome);
            &&& next.wf()
            &&& next.plan == state.plan
            &&& next.runtime == state.runtime
            &&& next.status >= state.status
            &&& state.stage.at_rest() ==> next == state
            &&& !state.stage.at_rest() ==> next.progress() > state.progress()
        }),
{
}

/// A run never takes the driver back: its progress grows by at least one
/// for each step, unless it has come to rest.
pub proof fn lemma_run_progress(state: DriverModel, outcomes: Seq<OutcomeModel>)
    requires
        state.wf(),
    ensures
        ({
            let end = state.run(outcomes);
            &&& end.wf()
            &&& end.plan == state.plan
            &&& end.progress() >= state.progress()
            &&& end.stage.at_rest() || end.progress() >= state.progress() + outcomes.len()
        }),
    decreases outcomes.len(),
{
    if outcomes.len() > 0 {
        lemma_run_progress(state, outcomes.drop_last());
        lemma_advance_progress(state.run(outcomes.drop_last()), outcomes.last());
    }
}

/// Creates and starts are attempted in the order of the plan, each bundle
/// at most once: when the driver is about to create (or to start) a
/// bundle, and after one or more steps is again about to create (or to
/// start) one, that one stands later in the plan.
pub proof fn lemma_attempts_in_order(state: DriverModel, outcomes: Seq<OutcomeModel>)
    requires
        state.wf(),
        outcomes.len() > 0,
        state.stage is Create || state.stage is Start,
        state.run(outcomes).stage == state.stage,
    ensures
        state.run(outcomes).index > state.index,
{
    lemma_run_progress(state, outcomes);
}

} // verus!
