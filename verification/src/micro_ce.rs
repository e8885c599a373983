//! The container engine: one long-running daemon, started once and then
//! left to the supervisor.

use crate::effect::{invocation, Action, ActionModel, Invocation, InvocationModel, Outcome, OutcomeModel};
use crate::text::{decimal_i32, parse_i32};
use crate::uconfig::{find_app, first_named, path_or, path_or_default, AppConfig, AppModel, Config};
use vstd::prelude::*;

verus! {

/// The name under which the engine is configured.
pub open spec fn engine_name() -> Seq<char> {
    "microCE"@
}

/// The engine binary to use where the configuration names none.
pub open spec fn default_engine() -> Seq<char> {
    "/usr/bin/microCE.d"@
}

/// The file in which the engine leaves its process id.
pub open spec fn engine_pid_file() -> Seq<char> {
    "/var/log/microCE.pid"@
}

/// How many times the pid file is looked at.
pub const POLL_WINDOWS: u8 = 2;

/// How long to wait before each look, in seconds.
pub const POLL_SECS: u64 = 5;

/// The first role named `microCE`, if the configuration has one.
pub fn read_micro_ce_config(config: &Config) -> (found: Option<&AppConfig>)
    ensures
        found.deep_view() == first_named(config.deep_view().init, engine_name()),
{
    find_app(config.get_init_config(), "microCE")
}

/// The process id that a pid file holds: its whole text read as a decimal
/// `i32`.
pub fn read_pid(contents: &str) -> (pid: Option<i32>)
    ensures
        pid == decimal_i32(contents@),
{
    parse_i32(contents)
}

/// `<engine> --pid-file /var/log/microCE.pid`.
pub open spec fn engine_command(app: AppModel) -> InvocationModel {
    invocation(path_or(Some(app), default_engine()), seq!["--pid-file"@, engine_pid_file()])
}

/// Where the engine's start-up stands.
#[derive(Debug, Clone, Copy, PartialEq, Eq, Structural)]
pub enum EngineStage {
    /// About to start the engine.
    Spawn,
    /// About to wait before a look at the pid file.
    Sleep,
    /// About to read the pid file.
    ReadPid,
    /// About to see whether the engine's process is alive.
    Probe,
    /// Nothing is left to do.
    Done,
}

/// The mathematical value of an [`EngineDriver`].
pub struct EngineModel {
    pub command: InvocationModel,
    pub stage: EngineStage,
    pub window: int,
    pub pid: i32,
}

/// The process id that the outcome of reading the pid file shows: the
/// file's number, if the file could be read and holds a positive number.
pub open spec fn found_pid(outcome: OutcomeModel) -> Option<i32> {
    match outcome {
        OutcomeModel::Text(text) => match decimal_i32(text) {
            Some(pid) if pid > 0 => Some(pid),
            _ => None,
        },
        _ => None,
    }
}

impl EngineModel {
    /// What the driver asks for in this state.
    pub open spec fn action(self) -> ActionModel {
        match self.stage {
            EngineStage::Spawn => ActionModel::Spawn(self.command),
            EngineStage::Sleep => ActionModel::Sleep(POLL_SECS),
            EngineStage::ReadPid => ActionModel::ReadFile(engine_pid_file()),
            EngineStage::Probe => ActionModel::ProbeProcess(self.pid),
            EngineStage::Done => ActionModel::Finish(0),
        }
    }

    /// The state after the action of this state had the given outcome.
    ///
    /// - An engine that could not be started ends the start-up.
    /// - The pid file is looked at after each of up to [`POLL_WINDOWS`]
    ///   waits; the first look that shows a process id ends the waiting.
    /// - The process is probed once; the engine is not waited for.
    pub open spec fn advance(self, outcome: OutcomeModel) -> EngineModel {
        match self.stage {
            EngineStage::Spawn => if outcome is Done {
                EngineModel { stage: EngineStage::Sleep, window: 1, ..self }
            } else {
                EngineModel { stage: EngineStage::Done, ..self }
            },
            EngineStage::Sleep => EngineModel { stage: EngineStage::ReadPid, ..self },
            EngineStage::ReadPid => match found_pid(outcome) {
                Some(pid) => EngineModel { stage: EngineStage::Probe, pid, ..self },
                None => if self.window < POLL_WINDOWS {
                    EngineModel { stage: EngineStage::Sleep, window: self.window + 1, ..self }
                } else {
                    EngineModel { stage: EngineStage::Done, ..self }
                },
            },
            EngineStage::Probe => EngineModel { stage: EngineStage::Done, ..self },
            EngineStage::Done => self,
        }
    }
}

/// The state in which the start-up of the engine `app` begins.
pub open spec fn engine_initial(app: AppModel) -> EngineModel {
    EngineModel { command: engine_command(app), stage: EngineStage::Spawn, window: 0, pid: 0 }
}

/// The driver of the engine's start-up.
pub struct EngineDriver {
    command: Invocation,
    stage: EngineStage,
    window: u8,
    pid: i32,
}

impl DeepView for EngineDriver {
    type V = EngineModel;

    closed spec fn deep_view(&self) -> EngineModel {
        EngineModel {
            command: self.command.deep_view(),
            stage: self.stage,
            window: self.window as int,
            pid: self.pid,
        }
    }
}

/// A copy of a list of strings.
fn copy_strings(list: &Vec<String>) -> (copy: Vec<String>)
    ensures
        copy.deep_view() == list.deep_view(),
{
    let mut copy: Vec<String> = Vec::new();
    let mut i: usize = 0;
    while i < list.len()
        invariant
            i <= list.len(),
            copy.len() == i,
            forall|k: int| 0 <= k < i ==> copy[k]@ == list[k]@,
        decreases list.len() - i,
    {
        copy.push(list[i].clone());
        i += 1;
    }
    assert(copy.deep_view() =~= list.deep_view());
    copy
}

impl EngineDriver {
    /// What to do next.
    pub fn action(&self) -> (action: Action)
        ensures
            action.deep_view() == self.deep_view().action(),
    {
        match self.stage {
            EngineStage::Spawn => Action::Spawn(
                Invocation {
                    program: self.command.program.clone(),
                    args: copy_strings(&self.command.args),
                },
            ),
            EngineStage::Sleep => Action::Sleep(POLL_SECS),
            EngineStage::ReadPid => Action::ReadFile(String::from_str("/var/log/microCE.pid")),
            EngineStage::Probe => Action::ProbeProcess(self.pid),
            EngineStage::Done => Action::Finish(0),
        }
    }

    /// Whether nothing is left to do.
    pub fn is_finished(&self) -> (yes: bool)
        ensures
            yes == (self.deep_view().stage is Done),
    {
        match self.stage {
            EngineStage::Done => true,
            _ => false,
        }
    }

    /// The driver after its action had the given outcome.
    pub fn advance(self, outcome: &Outcome) -> (next: EngineDriver)
        ensures
            next.deep_view() == self.deep_view().advance(outcome.deep_view()),
    {
        let mut stage: EngineStage = self.stage;
        let mut window: u8 = self.window;
        let mut pid: i32 = self.pid;
        match self.stage {
            EngineStage::Spawn => {
                match outcome {
                    Outcome::Done => {
                        stage = EngineStage::Sleep;
                        window = 1;
                    },
                    _ => {
                        stage = EngineStage::Done;
                    },
                }
            },
            EngineStage::Sleep => {
                stage = EngineStage::ReadPid;
            },
            EngineStage::ReadPid => {
                let found: Option<i32> = match outcome {
                    Outcome::Text(text) => match read_pid(text.as_str()) {
                        Some(p) => if p > 0 {
                            Some(p)
                        } else {
                            None
                        },
                        None => None,
                    },
                    _ => None,
                };
                match found {
                    Some(p) => {
                        stage = EngineStage::Probe;
                        pid = p;
                    },
                    None => {
                        if window < POLL_WINDOWS {
                            stage = EngineStage::Sleep;
                            window = window + 1;
                        } else {
                            stage = EngineStage::Done;
                        }
                    },
                }
            },
            EngineStage::Probe => {
                stage = EngineStage::Done;
            },
            EngineStage::Done => {},
        }
        EngineDriver { command: self.command, stage, window, pid }
    }
}

/// The driver that starts the engine which `config` names under
/// `microCE`, or `None` if it names none.
pub fn init(config: &Config) -> (driver: Option<EngineDriver>)
    ensures
        driver.deep_view() == (match first_named(config.deep_view().init, engine_name()) {
            Some(app) => Some(engine_initial(app)),
            None => None,
        }),
{
    match read_micro_ce_config(config) {
        Some(app) => {
            let program = path_or_default(Some(app), "/usr/bin/microCE.d");
            let command = Invocation::new(program.as_str()).arg("--pid-file").arg(
                "/var/log/microCE.pid",
            );
            assert(command.deep_view().args =~= engine_command(app.deep_view()).args);
            Some(EngineDriver { command, stage: EngineStage::Spawn, window: 0, pid: 0 })
        },
        None => None,
    }
}

/// The start-up ends: six steps after its beginning the driver is done,
/// whatever the outcomes were.
pub proof fn lemma_engine_ends(state: EngineModel, outcomes: Seq<OutcomeModel>)
    requires
        state.stage is Spawn,
        outcomes.len() == 6,
    ensures
        state.advance(outcomes[0]).advance(outcomes[1]).advance(outcomes[2]).advance(
            outcomes[3],
        ).advance(outcomes[4]).advance(outcomes[5]).stage is Done,
{
}

} // verus!
