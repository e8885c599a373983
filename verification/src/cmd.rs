//! The service commands, and the cleanup of the runtime's containers.

use crate::effect::{invocation, Action, ActionModel, Invocation, InvocationModel, Outcome, OutcomeModel};
use crate::text::{pieces, split_char, split_whitespace, str_eq, words};
use crate::uconfig::Config;
use vstd::prelude::*;

verus! {

/// The state of a container, as the runtime's list names it.
#[derive(Debug, Clone, Copy, PartialEq, Eq, Structural)]
pub enum ContainerState {
    Created,
    Running,
    Stopped,
    Paused,
    Unknown,
}

/// One container of the runtime's list.
#[derive(Debug, Clone, PartialEq, Eq)]
pub struct ContainerRecord {
    pub id: String,
    pub state: ContainerState,
}

/// The mathematical value of a [`ContainerRecord`].
pub struct ContainerModel {
    pub id: Seq<char>,
    pub state: ContainerState,
}

impl DeepView for ContainerRecord {
    type V = ContainerModel;

    open spec fn deep_view(&self) -> ContainerModel {
        ContainerModel { id: self.id@, state: self.state }
    }
}

/// The state that a word of the list's state column names.
pub open spec fn state_of(word: Seq<char>) -> ContainerState {
    if word == "created"@ {
        ContainerState::Created
    } else if word == "running"@ {
        ContainerState::Running
    } else if word == "stopped"@ {
        ContainerState::Stopped
    } else if word == "paused"@ {
        ContainerState::Paused
    } else {
        ContainerState::Unknown
    }
}

/// The container that a line of the list describes: its first column is
/// the id, its third the state. A line with fewer than three columns, a
/// blank one too, describes none.
pub open spec fn record_of(line: Seq<char>) -> Option<ContainerModel> {
    let columns = words(line);
    if columns.len() >= 3 {
        Some(ContainerModel { id: columns[0], state: state_of(columns[2]) })
    } else {
        None
    }
}

/// The containers that the runtime's list describes, in the order of its
/// lines.
pub open spec fn container_records(listing: Seq<char>) -> Seq<ContainerModel> {
    pieces(listing, '\n').filter_map(|line: Seq<char>| record_of(line))
}

/// The state that `word` names.
pub fn parse_state(word: &str) -> (state: ContainerState)
    ensures
        state == state_of(word@),
{
    if str_eq(word, "created") {
        ContainerState::Created
    } else if str_eq(word, "running") {
        ContainerState::Running
    } else if str_eq(word, "stopped") {
        ContainerState::Stopped
    } else if str_eq(word, "paused") {
        ContainerState::Paused
    } else {
        ContainerState::Unknown
    }
}

/// The container that `line` describes, if it describes one.
pub fn parse_record(line: &str) -> (record: Option<ContainerRecord>)
    ensures
        record.deep_view() == record_of(line@),
{
    let columns = split_whitespace(line);
    if columns.len() >= 3 {
        assert(columns.deep_view()[0] == columns[0]@);
        assert(columns.deep_view()[2] == columns[2]@);
        Some(ContainerRecord { id: columns[0].clone(), state: parse_state(columns[2].as_str()) })
    } else {
        None
    }
}

/// The containers that the runtime's list describes, in order.
pub fn parse_list(listing: &str) -> (records: Vec<ContainerRecord>)
    ensures
        records.deep_view() == container_records(listing@),
{
    let lines = split_char(listing, '\n');
    let ghost all = lines.deep_view();
    let ghost pick = |line: Seq<char>| record_of(line);
    let mut records: Vec<ContainerRecord> = Vec::new();
    let mut i: usize = 0;
    assert(records.deep_view() =~= Seq::<ContainerModel>::empty());
    assert(all.take(0) =~= Seq::<Seq<char>>::empty());
    while i < lines.len()
        invariant
            i <= lines.len(),
            all == lines.deep_view(),
            all.len() == lines.len(),
            pick == |line: Seq<char>| record_of(line),
            records.deep_view() == all.take(i as int).filter_map(pick),
        decreases lines.len() - i,
    {
        proof {
            assert(all.take(i + 1).drop_last() =~= all.take(i as int));
            assert(all.take(i + 1).last() == lines[i as int]@);
        }
        let ghost before = records.deep_view();
        match parse_record(lines[i].as_str()) {
            Some(record) => {
                records.push(record);
                assert(records.deep_view() =~= before + seq![record.deep_view()]);
            },
            None => {},
        }
        i += 1;
    }
    assert(all.take(lines.len() as int) =~= all);
    records
}

/// What the cleanup does to a container.
#[derive(Debug, Clone, Copy, PartialEq, Eq, Structural)]
pub enum Cleanup {
    /// Delete it.
    Delete,
    /// Kill it, and delete it if the kill could be carried out.
    KillThenDelete,
}

/// What the cleanup does to a container in `state`: a stopped one is
/// deleted, a running one killed and then deleted, any other left alone.
pub open spec fn cleanup_of(state: ContainerState) -> Option<Cleanup> {
    match state {
        ContainerState::Stopped => Some(Cleanup::Delete),
        ContainerState::Running => Some(Cleanup::KillThenDelete),
        _ => None,
    }
}

/// What the cleanup does to a container in `state`, if anything.
pub fn cleanup_for(state: ContainerState) -> (cleanup: Option<Cleanup>)
    ensures
        cleanup == cleanup_of(state),
{
    match state {
        ContainerState::Stopped => Some(Cleanup::Delete),
        ContainerState::Running => Some(Cleanup::KillThenDelete),
        _ => None,
    }
}

/// A container that the cleanup works on.
#[derive(Debug, Clone, PartialEq, Eq)]
pub struct Target {
    pub id: String,
    pub cleanup: Cleanup,
}

/// The mathematical value of a [`Target`].
pub struct TargetModel {
    pub id: Seq<char>,
    pub cleanup: Cleanup,
}

impl DeepView for Target {
    type V = TargetModel;

    open spec fn deep_view(&self) -> TargetModel {
        TargetModel { id: self.id@, cleanup: self.cleanup }
    }
}

/// The target that a container makes, if the cleanup works on it.
pub open spec fn target_of(record: ContainerModel) -> Option<TargetModel> {
    match cleanup_of(record.state) {
        Some(cleanup) => Some(TargetModel { id: record.id, cleanup }),
        None => None,
    }
}

/// The containers to clean up among `records`, in order.
pub open spec fn targets_of(records: Seq<ContainerModel>) -> Seq<TargetModel> {
    records.filter_map(|record: ContainerModel| target_of(record))
}

/// The containers to clean up among `records`, in order.
pub fn cleanup_targets(records: &Vec<ContainerRecord>) -> (targets: Vec<Target>)
    ensures
        targets.deep_view() == targets_of(records.deep_view()),
{
    let ghost all = records.deep_view();
    let ghost pick = |record: ContainerModel| target_of(record);
    let mut targets: Vec<Target> = Vec::new();
    let mut i: usize = 0;
    assert(targets.deep_view() =~= Seq::<TargetModel>::empty());
    assert(all.take(0) =~= Seq::<ContainerModel>::empty());
    while i < records.len()
        invariant
            i <= records.len(),
            all == records.deep_view(),
            all.len() == records.len(),
            pick == |record: ContainerModel| target_of(record),
            targets.deep_view() == all.take(i as int).filter_map(pick),
        decreases records.len() - i,
    {
        proof {
            assert(all.take(i + 1).drop_last() =~= all.take(i as int));
            assert(all.take(i + 1).last() == records[i as int].deep_view());
        }
        let ghost before = targets.deep_view();
        match cleanup_for(records[i].state) {
            Some(cleanup) => {
                let target = Target { id: records[i].id.clone(), cleanup };
                targets.push(target);
                assert(targets.deep_view() =~= before + seq![target.deep_view()]);
            },
            None => {},
        }
        i += 1;
    }
    assert(all.take(records.len() as int) =~= all);
    targets
}

/// `runtime <cmd> <id>`.
pub open spec fn ctr_command(runtime: Seq<char>, id: Seq<char>, cmd: Seq<char>) -> InvocationModel {
    invocation(runtime, seq![cmd, id])
}

/// `runtime list`.
pub open spec fn list_command(runtime: Seq<char>) -> InvocationModel {
    invocation(runtime, seq!["list"@])
}

/// The command that has `runtime` do `cmd` to the container `id`.
pub fn ctr_cmd(runtime: &str, id: &str, cmd: &str) -> (command: Invocation)
    ensures
        command.deep_view() == ctr_command(runtime@, id@, cmd@),
{
    let command = Invocation::new(runtime).arg(cmd).arg(id);
    assert(command.deep_view().args =~= ctr_command(runtime@, id@, cmd@).args);
    command
}

/// Where the cleanup stands.
#[derive(Debug, Clone, Copy, PartialEq, Eq, Structural)]
pub enum CleanStage {
    /// About to ask the runtime for its list.
    List,
    /// About to kill the current container.
    Kill,
    /// About to delete the current container.
    Delete,
    /// Nothing is left to do.
    Done,
    /// The runtime could not be run at all.
    Aborted,
}

/// The mathematical value of a [`CleanDriver`].
pub struct CleanModel {
    pub runtime: Seq<char>,
    pub targets: Seq<TargetModel>,
    pub index: int,
    pub stage: CleanStage,
    pub status: int,
}

/// The targets that the outcome of the list command gives: those of the
/// text it printed, if it reported success and printed text.
pub open spec fn listed_targets(outcome: OutcomeModel) -> Option<Seq<TargetModel>> {
    match outcome {
        OutcomeModel::Printed { success: true, text: Some(text) } => Some(
            targets_of(container_records(text)),
        ),
        _ => None,
    }
}

impl CleanModel {
    /// Whether the state makes sense: a stage that works on a container
    /// has one.
    pub open spec fn wf(self) -> bool {
        &&& 0 <= self.index <= self.targets.len()
        &&& (self.stage is Kill || self.stage is Delete) ==> self.index < self.targets.len()
        &&& self.status == 0 || self.status == -1
    }

    /// The state in which container `index` has its turn, or the end if
    /// there is no such container.
    pub open spec fn turn(self, index: int) -> CleanModel {
        CleanModel {
            index,
            stage: if index >= self.targets.len() {
                CleanStage::Done
            } else if self.targets[index].cleanup is KillThenDelete {
                CleanStage::Kill
            } else {
                CleanStage::Delete
            },
            ..self
        }
    }

    /// What the driver asks for in this state.
    pub open spec fn action(self) -> ActionModel {
        match self.stage {
            CleanStage::List => ActionModel::Complete(list_command(self.runtime)),
            CleanStage::Kill => ActionModel::Complete(
                ctr_command(self.runtime, self.targets[self.index].id, "kill"@),
            ),
            CleanStage::Delete => ActionModel::Complete(
                ctr_command(self.runtime, self.targets[self.index].id, "delete"@),
            ),
            CleanStage::Done => ActionModel::Finish(self.status as i32),
            CleanStage::Aborted => ActionModel::Abort,
        }
    }

    /// The state after the action of this state had the given outcome.
    ///
    /// - A runtime that could not be run for its list ends the cleanup as
    ///   aborted; a list that reported failure, or printed no text, ends
    ///   it with status -1.
    /// - A kill that ran to its end is followed by the delete of the same
    ///   container; one that could not be run is not.
    /// - Whatever comes of a kill or a delete, the next container has its
    ///   turn.
    pub open spec fn advance(self, outcome: OutcomeModel) -> CleanModel {
        match self.stage {
            CleanStage::List => match listed_targets(outcome) {
                Some(targets) => CleanModel { targets, status: 0, ..self }.turn(0),
                None => if outcome is Printed {
                    CleanModel { stage: CleanStage::Done, status: -1, ..self }
                } else {
                    CleanModel { stage: CleanStage::Aborted, ..self }
                },
            },
            CleanStage::Kill => if outcome is Printed {
                CleanModel { stage: CleanStage::Delete, ..self }
            } else {
                self.turn(self.index + 1)
            },
            CleanStage::Delete => self.turn(self.index + 1),
            CleanStage::Done => self,
            CleanStage::Aborted => self,
        }
    }
}

/// The state in which the cleanup with `runtime` begins.
pub open spec fn clean_initial(runtime: Seq<char>) -> CleanModel {
    CleanModel { runtime, targets: Seq::empty(), index: 0, stage: CleanStage::List, status: 0 }
}

/// The driver of the cleanup.
pub struct CleanDriver {
    runtime: String,
    targets: Vec<Target>,
    index: usize,
    stage: CleanStage,
    status: i32,
}

impl DeepView for CleanDriver {
    type V = CleanModel;

    closed spec fn deep_view(&self) -> CleanModel {
        CleanModel {
            runtime: self.runtime@,
            targets: self.targets.deep_view(),
            index: self.index as int,
            stage: self.stage,
            status: self.status as int,
        }
    }
}

/// The stage in which container `index` of `targets` has its turn.
fn stage_at(targets: &Vec<Target>, index: usize) -> (stage: CleanStage)
    ensures
        stage == (if index >= targets.len() {
            CleanStage::Done
        } else if targets.deep_view()[index as int].cleanup is KillThenDelete {
            CleanStage::Kill
        } else {
            CleanStage::Delete
        }),
{
    if index >= targets.len() {
        CleanStage::Done
    } else {
        match targets[index].cleanup {
            Cleanup::KillThenDelete => CleanStage::Kill,
            Cleanup::Delete => CleanStage::Delete,
        }
    }
}

impl CleanDriver {
    #[verifier::type_invariant]
    spec fn inv(&self) -> bool {
        self.deep_view().wf()
    }

    /// What to do next.
    pub fn action(&self) -> (action: Action)
        ensures
            self.deep_view().wf(),
            action.deep_view() == self.deep_view().action(),
    {
        proof {
            use_type_invariant(self);
        }
        match self.stage {
            CleanStage::List => {
                let command = Invocation::new(self.runtime.as_str()).arg("list");
                assert(command.deep_view().args =~= list_command(self.runtime@).args);
                Action::Complete(command)
            },
            CleanStage::Kill => Action::Complete(
                ctr_cmd(self.runtime.as_str(), self.targets[self.index].id.as_str(), "kill"),
            ),
            CleanStage::Delete => Action::Complete(
                ctr_cmd(self.runtime.as_str(), self.targets[self.index].id.as_str(), "delete"),
            ),
            CleanStage::Done => Action::Finish(self.status),
            CleanStage::Aborted => Action::Abort,
        }
    }

    /// Whether nothing is left to do.
    pub fn is_finished(&self) -> (yes: bool)
        ensures
            yes == (self.deep_view().stage is Done || self.deep_view().stage is Aborted),
    {
        match self.stage {
            CleanStage::Done => true,
            CleanStage::Aborted => true,
            _ => false,
        }
    }

    /// The driver after its action had the given outcome.
    pub fn advance(self, outcome: &Outcome) -> (next: CleanDriver)
        ensures
            next.deep_view().wf(),
            next.deep_view() == self.deep_view().advance(outcome.deep_view()),
    {
        proof {
            use_type_invariant(&self);
            assert(self.targets.deep_view().len() == self.targets.len());
        }
        let ran = match outcome {
            Outcome::Printed { .. } => true,
            _ => false,
        };
        match self.stage {
            CleanStage::List => {
                let listed: Option<Vec<Target>> = match outcome {
                    Outcome::Printed { success, text } => match text {
                        Some(text) => if *success {
                            let records = parse_list(text.as_str());
                            Some(cleanup_targets(&records))
                        } else {
                            None
                        },
                        None => None,
                    },
                    _ => None,
                };
                assert(listed.deep_view() == listed_targets(outcome.deep_view()));
                match listed {
                    Some(targets) => {
                        let stage = stage_at(&targets, 0);
                        CleanDriver { runtime: self.runtime, targets, index: 0, stage, status: 0 }
                    },
                    None => if ran {
                        CleanDriver {
                            runtime: self.runtime,
                            targets: self.targets,
                            index: self.index,
                            stage: CleanStage::Done,
                            status: -1,
                        }
                    } else {
                        CleanDriver {
                            runtime: self.runtime,
                            targets: self.targets,
                            index: self.index,
                            stage: CleanStage::Aborted,
                            status: self.status,
                        }
                    },
                }
            },
            CleanStage::Kill => {
                if ran {
                    CleanDriver {
                        runtime: self.runtime,
                        targets: self.targets,
                        index: self.index,
                        stage: CleanStage::Delete,
                        status: self.status,
                    }
                } else {
                    let stage = stage_at(&self.targets, self.index + 1);
                    CleanDriver {
                        runtime: self.runtime,
                        targets: self.targets,
                        index: self.index + 1,
                        stage,
                        status: self.status,
                    }
                }
            },
            CleanStage::Delete => {
                let stage = stage_at(&self.targets, self.index + 1);
                CleanDriver {
                    runtime: self.runtime,
                    targets: self.targets,
                    index: self.index + 1,
                    stage,
                    status: self.status,
                }
            },
            CleanStage::Done => self,
            CleanStage::Aborted => self,
        }
    }
}

/// The driver that cleans up the containers of `runtime`.
pub fn ctr_clean(runtime: &str) -> (driver: CleanDriver)
    ensures
        driver.deep_view() == clean_initial(runtime@),
{
    let targets: Vec<Target> = Vec::new();
    assert(targets.deep_view() =~= Seq::<TargetModel>::empty());
    CleanDriver {
        runtime: String::from_str(runtime),
        targets,
        index: 0,
        stage: CleanStage::List,
        status: 0,
    }
}

/// The driver that cleans up the containers of the runtime that `config`
/// names.
pub fn clean_cmd(config: &Config) -> (driver: CleanDriver)
    ensures
        driver.deep_view() == clean_initial(config.deep_view().runtime_path()),
{
    let runtime = config.runtime_path();
    ctr_clean(runtime.as_str())
}

/// Starting a single service asks nothing of the runtime.
pub fn start_cmd(ctrname: &str) -> (action: Action)
    ensures
        action.deep_view() == ActionModel::Finish(0),
{
    Action::Finish(0)
}

/// Stopping a single service asks nothing of the runtime.
pub fn stop_cmd(ctrname: &str) -> (action: Action)
    ensures
        action.deep_view() == ActionModel::Finish(0),
{
    Action::Finish(0)
}

/// Restarting a single service asks nothing of the runtime.
pub fn restart_cmd(ctrname: &str) -> (action: Action)
    ensures
        action.deep_view() == ActionModel::Finish(0),
{
    Action::Finish(0)
}

/// Restarting the engine asks nothing of the runtime.
pub fn restart_u_ce() -> (action: Action)
    ensures
        action.deep_view() == ActionModel::Finish(0),
{
    Action::Finish(0)
}

} // verus!
