//! The supervisor: reaping, the runner of hook directories, and the
//! shutdown.

use crate::effect::{invocation, Action, ActionModel, Invocation, Outcome};
use crate::table::{csv_rows, read_rows, Row};
use crate::text::{
    lemma_lex_antisymmetric, lemma_lex_total, lemma_lex_transitive, lex_le, str_eq, str_le,
};
use vstd::prelude::*;
use vstd::seq_lib::{
    to_multiset_build, to_multiset_contains, to_multiset_insert, to_multiset_len, to_multiset_remove,
};

verus! {

/// Whether the reaping goes on after a non-blocking wait for any child
/// returned `pid`: it does while the wait reaps a child. It ends when the
/// wait reports that no child is to be reaped (0), or an error (a
/// negative number).
pub fn do_reap(pid: i32) -> (again: bool)
    ensures
        again == (pid > 0),
{
    pid > 0
}

/// How a mounted filesystem is taken down.
#[derive(Debug, Clone, Copy, PartialEq, Eq, Structural)]
pub enum Strategy {
    /// An ordinary unmount: no flag.
    Plain,
    /// A lazy unmount: `MNT_DETACH`.
    Detach,
}

/// Whether `fstype` keeps its data on a local disk.
pub open spec fn is_local_fs(fstype: Seq<char>) -> bool {
    ||| fstype == "ext2"@
    ||| fstype == "ext3"@
    ||| fstype == "ext4"@
    ||| fstype == "btrfs"@
    ||| fstype == "xfs"@
    ||| fstype == "vfat"@
    ||| fstype == "msdos"@
    ||| fstype == "overlay"@
}

/// Whether `fstype` keeps its data on another machine.
pub open spec fn is_network_fs(fstype: Seq<char>) -> bool {
    ||| fstype == "nfs"@
    ||| fstype == "nfs4"@
    ||| fstype == "cifs"@
}

/// How a filesystem of type `fstype` is taken down: a local one with an
/// ordinary unmount, a networked one with a lazy unmount, any other not at
/// all.
pub open spec fn strategy_of(fstype: Seq<char>) -> Option<Strategy> {
    if is_local_fs(fstype) {
        Some(Strategy::Plain)
    } else if is_network_fs(fstype) {
        Some(Strategy::Detach)
    } else {
        None
    }
}

/// How a filesystem of type `fstype` is taken down, if at all.
pub fn unmount_strategy(fstype: &str) -> (strategy: Option<Strategy>)
    ensures
        strategy == strategy_of(fstype@),
{
    if str_eq(fstype, "ext2") || str_eq(fstype, "ext3") || str_eq(fstype, "ext4") || str_eq(
        fstype,
        "btrfs",
    ) || str_eq(fstype, "xfs") || str_eq(fstype, "vfat") || str_eq(fstype, "msdos") || str_eq(
        fstype,
        "overlay",
    ) {
        Some(Strategy::Plain)
    } else if str_eq(fstype, "nfs") || str_eq(fstype, "nfs4") || str_eq(fstype, "cifs") {
        Some(Strategy::Detach)
    } else {
        None
    }
}

/// One line of `/proc/mounts`.
#[derive(Debug, Clone, PartialEq, Eq)]
pub struct MountedFs {
    pub device: String,
    pub mount_point: String,
    pub fstype: String,
    pub flags: String,
}

/// The mathematical value of a [`MountedFs`].
pub struct MountedModel {
    pub device: Seq<char>,
    pub mount_point: Seq<char>,
    pub fstype: Seq<char>,
    pub flags: Seq<char>,
}

impl DeepView for MountedFs {
    type V = MountedModel;

    open spec fn deep_view(&self) -> MountedModel {
        MountedModel {
            device: self.device@,
            mount_point: self.mount_point@,
            fstype: self.fstype@,
            flags: self.flags@,
        }
    }
}

/// The field delimiter of `/proc/mounts`: a space.
pub const MOUNTS_DELIMITER: u8 = 32;

/// The mount that a row stands for: its first four fields, by position. A
/// line of `/proc/mounts` has six fields; a row that the reader rejected,
/// or one with fewer than six, is no mount.
pub open spec fn mounted_fs(row: Option<Seq<Seq<char>>>) -> Option<MountedModel> {
    match row {
        Some(fields) if fields.len() >= 6 => Some(
            MountedModel {
                device: fields[0],
                mount_point: fields[1],
                fstype: fields[2],
                flags: fields[3],
            },
        ),
        _ => None,
    }
}

impl MountedFs {
    /// The mount that `row` stands for, if it is one.
    pub fn from_row(row: &Row) -> (mount: Option<MountedFs>)
        ensures
            mount.deep_view() == mounted_fs(row.deep_view()),
    {
        match row {
            Some(fields) => {
                if fields.len() >= 6 {
                    assert(row.deep_view() == Some(fields.deep_view()));
                    Some(
                        MountedFs {
                            device: fields[0].clone(),
                            mount_point: fields[1].clone(),
                            fstype: fields[2].clone(),
                            flags: fields[3].clone(),
                        },
                    )
                } else {
                    None
                }
            },
            None => None,
        }
    }
}

/// One unmount: the mount point, and whether to detach lazily.
#[derive(Debug, Clone, PartialEq, Eq)]
pub struct Unmount {
    pub target: String,
    pub strategy: Strategy,
}

/// The mathematical value of an [`Unmount`].
pub struct UnmountModel {
    pub target: Seq<char>,
    pub strategy: Strategy,
}

impl DeepView for Unmount {
    type V = UnmountModel;

    open spec fn deep_view(&self) -> UnmountModel {
        UnmountModel { target: self.target@, strategy: self.strategy }
    }
}

/// The unmount that a row of `/proc/mounts` asks for, if any.
pub open spec fn unmount_of(row: Option<Seq<Seq<char>>>) -> Option<UnmountModel> {
    match mounted_fs(row) {
        Some(mount) => match strategy_of(mount.fstype) {
            Some(strategy) => Some(UnmountModel { target: mount.mount_point, strategy }),
            None => None,
        },
        None => None,
    }
}

/// The unmounts that the rows of `/proc/mounts` ask for, in the order of
/// the rows. A row that is no mount is passed over.
pub open spec fn unmounts_of(rows: Seq<Option<Seq<Seq<char>>>>) -> Seq<UnmountModel> {
    rows.filter_map(|row: Option<Seq<Seq<char>>>| unmount_of(row))
}

/// The unmounts that `rows` ask for, in order.
pub fn unmount_plan(rows: &Vec<Row>) -> (plan: Vec<Unmount>)
    ensures
        plan.deep_view() == unmounts_of(rows.deep_view()),
{
    let ghost all = rows.deep_view();
    let ghost pick = |row: Option<Seq<Seq<char>>>| unmount_of(row);
    let mut plan: Vec<Unmount> = Vec::new();
    let mut i: usize = 0;
    assert(plan.deep_view() =~= Seq::<UnmountModel>::empty());
    assert(all.take(0) =~= Seq::empty());
    while i < rows.len()
        invariant
            i <= rows.len(),
            all == rows.deep_view(),
            all.len() == rows.len(),
            pick == |row: Option<Seq<Seq<char>>>| unmount_of(row),
            plan.deep_view() == all.take(i as int).filter_map(pick),
        decreases rows.len() - i,
    {
        proof {
            assert(all.take(i + 1).drop_last() =~= all.take(i as int));
            assert(all.take(i + 1).last() == rows[i as int].deep_view());
        }
        let ghost before = plan.deep_view();
        match MountedFs::from_row(&rows[i]) {
            Some(mount) => {
                match unmount_strategy(mount.fstype.as_str()) {
                    Some(strategy) => {
                        let step = Unmount { target: mount.mount_point, strategy };
                        plan.push(step);
                        assert(plan.deep_view() =~= before + seq![step.deep_view()]);
                    },
                    None => {},
                }
            },
            None => {},
        }
        i += 1;
    }
    assert(all.take(rows.len() as int) =~= all);
    plan
}

/// The unmounts that the text of `/proc/mounts` asks for, in the order of
/// its lines.
pub fn parse_mounts(proc_mounts: &[u8]) -> (plan: Vec<Unmount>)
    ensures
        plan.deep_view() == unmounts_of(csv_rows(proc_mounts@, MOUNTS_DELIMITER)),
{
    let rows = read_rows(proc_mounts, MOUNTS_DELIMITER);
    unmount_plan(&rows)
}

/// The unmount decisions are exactly these: a mount of a local filesystem
/// is unmounted without a flag, one of a networked filesystem is detached
/// lazily, and any other mount is left alone.
pub proof fn lemma_unmount_decisions(row: Option<Seq<Seq<char>>>)
    requires
        mounted_fs(row) is Some,
    ensures
        ({
            let mount = mounted_fs(row)->0;
            let plain = UnmountModel { target: mount.mount_point, strategy: Strategy::Plain };
            let lazy = UnmountModel { target: mount.mount_point, strategy: Strategy::Detach };
            &&& is_local_fs(mount.fstype) ==> unmount_of(row) == Some(plain)
            &&& is_network_fs(mount.fstype) ==> unmount_of(row) == Some(lazy)
            &&& !is_local_fs(mount.fstype) && !is_network_fs(mount.fstype) ==> unmount_of(row)
                is None
        }),
{
    let mount = mounted_fs(row)->0;
    if is_network_fs(mount.fstype) {
        reveal_strlit("nfs");
        reveal_strlit("nfs4");
        reveal_strlit("cifs");
        reveal_strlit("ext2");
        reveal_strlit("ext3");
        reveal_strlit("ext4");
        reveal_strlit("btrfs");
        reveal_strlit("xfs");
        reveal_strlit("vfat");
        reveal_strlit("msdos");
        reveal_strlit("overlay");
        assert(mount.fstype.len() == 3 ==> mount.fstype[0] == 'n');
        assert(mount.fstype.len() == 4 ==> mount.fstype[0] == 'n' || mount.fstype[0] == 'c');
        assert(!is_local_fs(mount.fstype));
    }
}

/// The kind of an entry of a hook directory.
#[derive(Debug, Clone, Copy, PartialEq, Eq, Structural)]
pub enum EntryKind {
    /// A regular file.
    Regular,
    /// Anything else that could be examined.
    Other,
    /// An entry that could not be examined.
    Unreadable,
}

/// An entry of a hook directory: its full path and its kind.
#[derive(Debug, Clone, PartialEq, Eq)]
pub struct HookEntry {
    pub path: String,
    pub kind: EntryKind,
}

/// The mathematical value of a [`HookEntry`].
pub struct HookModel {
    pub path: Seq<char>,
    pub kind: EntryKind,
}

impl DeepView for HookEntry {
    type V = HookModel;

    open spec fn deep_view(&self) -> HookModel {
        HookModel { path: self.path@, kind: self.kind }
    }
}

/// The path of an entry that is run: that of a regular file.
pub open spec fn runnable(entry: HookModel) -> Option<Seq<char>> {
    if entry.kind is Regular {
        Some(entry.path)
    } else {
        None
    }
}

/// The paths of the regular files among `entries`, in the order of
/// `entries`.
pub open spec fn runnable_paths(entries: Seq<HookModel>) -> Seq<Seq<char>> {
    entries.filter_map(|entry: HookModel| runnable(entry))
}

/// Whether `paths` ascends in lexicographic order.
pub open spec fn ascending(paths: Seq<Seq<char>>) -> bool {
    forall|i: int, j: int| 0 <= i < j < paths.len() ==> lex_le(paths[i], paths[j])
}

/// Whether `out` holds the paths of `paths`, each as often, in ascending
/// order.
pub open spec fn sorted_from(out: Seq<Seq<char>>, paths: Seq<Seq<char>>) -> bool {
    ascending(out) && out.to_multiset() == paths.to_multiset()
}

/// The order leaves no choice: two ascending lists that hold the same
/// paths, each as often, are the same list.
pub proof fn lemma_sorted_unique(a: Seq<Seq<char>>, b: Seq<Seq<char>>)
    requires
        ascending(a),
        ascending(b),
        a.to_multiset() == b.to_multiset(),
    ensures
        a == b,
    decreases a.len(),
{
    to_multiset_len(a);
    to_multiset_len(b);
    if a.len() == 0 {
        assert(a =~= b);
    } else {
        to_multiset_contains(a, a[0]);
        to_multiset_contains(b, a[0]);
        to_multiset_contains(a, b[0]);
        to_multiset_contains(b, b[0]);
        assert(a.contains(a[0]));
        assert(b.contains(b[0]));
        let j = choose|j: int| 0 <= j < b.len() && b[j] == a[0];
        let k = choose|k: int| 0 <= k < a.len() && a[k] == b[0];
        if j > 0 && k > 0 {
            lemma_lex_antisymmetric(a[0], b[0]);
        }
        assert(a[0] == b[0]);
        to_multiset_remove(a, 0);
        to_multiset_remove(b, 0);
        assert(a.remove(0) =~= a.drop_first());
        assert(b.remove(0) =~= b.drop_first());
        assert forall|i: int, j: int| 0 <= i < j < a.drop_first().len() implies lex_le(
            a.drop_first()[i],
            a.drop_first()[j],
        ) by {
            assert(lex_le(a[i + 1], a[j + 1]));
        }
        assert forall|i: int, j: int| 0 <= i < j < b.drop_first().len() implies lex_le(
            b.drop_first()[i],
            b.drop_first()[j],
        ) by {
            assert(lex_le(b[i + 1], b[j + 1]));
        }
        lemma_sorted_unique(a.drop_first(), b.drop_first());
        assert(a =~= seq![a[0]] + a.drop_first());
        assert(b =~= seq![b[0]] + b.drop_first());
    }
}

/// The paths of the regular files among `entries`.
pub fn regular_files(entries: &Vec<HookEntry>) -> (paths: Vec<String>)
    ensures
        paths.deep_view() == runnable_paths(entries.deep_view()),
{
    let ghost all = entries.deep_view();
    let ghost pick = |entry: HookModel| runnable(entry);
    let mut paths: Vec<String> = Vec::new();
    let mut i: usize = 0;
    assert(paths.deep_view() =~= Seq::<Seq<char>>::empty());
    assert(all.take(0) =~= Seq::<HookModel>::empty());
    while i < entries.len()
        invariant
            i <= entries.len(),
            all == entries.deep_view(),
            all.len() == entries.len(),
            pick == |entry: HookModel| runnable(entry),
            paths.deep_view() == all.take(i as int).filter_map(pick),
        decreases entries.len() - i,
    {
        proof {
            assert(all.take(i + 1).drop_last() =~= all.take(i as int));
            assert(all.take(i + 1).last() == entries[i as int].deep_view());
        }
        let ghost before = paths.deep_view();
        match entries[i].kind {
            EntryKind::Regular => {
                let path = entries[i].path.clone();
                paths.push(path);
                assert(paths.deep_view() =~= before + seq![path@]);
            },
            _ => {},
        }
        i += 1;
    }
    assert(all.take(entries.len() as int) =~= all);
    paths
}

/// The paths of `paths` in ascending lexicographic order.
pub fn sort_paths(paths: &Vec<String>) -> (out: Vec<String>)
    ensures
        sorted_from(out.deep_view(), paths.deep_view()),
{
    let ghost all = paths.deep_view();
    let mut out: Vec<String> = Vec::new();
    let mut i: usize = 0;
    assert(out.deep_view() =~= Seq::<Seq<char>>::empty());
    assert(all.take(0) =~= Seq::<Seq<char>>::empty());
    while i < paths.len()
        invariant
            i <= paths.len(),
            all == paths.deep_view(),
            all.len() == paths.len(),
            out.len() == i,
            ascending(out.deep_view()),
            out.deep_view().to_multiset() == all.take(i as int).to_multiset(),
        decreases paths.len() - i,
    {
        let item = paths[i].clone();
        let mut at: usize = 0;
        while at < out.len() && str_le(out[at].as_str(), item.as_str())
            invariant
                at <= out.len(),
                forall|k: int| 0 <= k < at ==> lex_le(out.deep_view()[k], item@),
            decreases out.len() - at,
        {
            at += 1;
        }
        let ghost before = out.deep_view();
        out.insert(at, item);
        proof {
            let after = out.deep_view();
            assert(after =~= before.insert(at as int, item@));
            assert forall|a: int, b: int| 0 <= a < b < after.len() implies lex_le(
                after[a],
                after[b],
            ) by {
                if b == at {
                } else if a == at {
                    lemma_lex_total(before[at as int], item@);
                    if b - 1 > at {
                        lemma_lex_transitive(item@, before[at as int], before[b - 1]);
                    }
                } else if a < at && b < at {
                } else if a < at {
                    assert(lex_le(before[a], before[b - 1]));
                } else {
                    assert(lex_le(before[a - 1], before[b - 1]));
                }
            }
            to_multiset_insert(before, at as int, item@);
            assert(all.take(i + 1) =~= all.take(i as int).push(item@));
            to_multiset_build(all.take(i as int), item@);
        }
        i += 1;
    }
    assert(all.take(paths.len() as int) =~= all);
    out
}

/// The start of the executable at `path`, without arguments, that is not
/// waited for.
pub open spec fn spawn_of(path: Seq<char>) -> ActionModel {
    ActionModel::Spawn(invocation(path, Seq::empty()))
}

/// The program that an action starts.
pub open spec fn program_of(action: ActionModel) -> Seq<char> {
    match action {
        ActionModel::Spawn(command) => command.program,
        _ => Seq::empty(),
    }
}

/// The executables of a hook directory to start, in the order in which to
/// start them: the regular files among `entries`, in ascending
/// lexicographic order of their paths. Each is started without arguments,
/// and none is waited for.
pub fn run_init(entries: &Vec<HookEntry>) -> (hooks: Vec<Action>)
    ensures
        forall|i: int|
            0 <= i < hooks.len() ==> (#[trigger] hooks.deep_view()[i]) == spawn_of(
                program_of(hooks.deep_view()[i]),
            ),
        sorted_from(
            hooks.deep_view().map_values(|action: ActionModel| program_of(action)),
            runnable_paths(entries.deep_view()),
        ),
{
    let files = regular_files(entries);
    let paths = sort_paths(&files);
    let mut hooks: Vec<Action> = Vec::new();
    let mut i: usize = 0;
    while i < paths.len()
        invariant
            i <= paths.len(),
            hooks.len() == i,
            forall|k: int|
                0 <= k < i ==> (#[trigger] hooks.deep_view()[k]) == spawn_of(paths.deep_view()[k]),
        decreases paths.len() - i,
    {
        let ghost before = hooks.deep_view();
        let action = Action::Spawn(Invocation::new(paths[i].as_str()));
        hooks.push(action);
        assert forall|k: int| 0 <= k < i + 1 implies (#[trigger] hooks.deep_view()[k]) == spawn_of(
            paths.deep_view()[k],
        ) by {
            if k < i {
                assert(hooks.deep_view()[k] == before[k]);
            } else {
                assert(action.deep_view() == spawn_of(paths[i as int]@));
            }
        }
        i += 1;
    }
    assert(hooks.deep_view().map_values(|action: ActionModel| program_of(action))
        =~= paths.deep_view());
    hooks
}

/// What ends a shutdown.
#[derive(Debug, Clone, Copy, PartialEq, Eq, Structural)]
pub enum ShutdownAction {
    Poweroff,
    Reboot,
}

/// What ends a shutdown that was asked for with the word `action`:
/// `poweroff` powers the machine off, any other word reboots it.
pub open spec fn final_action(action: Seq<char>) -> ShutdownAction {
    if action == "poweroff"@ {
        ShutdownAction::Poweroff
    } else {
        ShutdownAction::Reboot
    }
}

/// What ends a shutdown that was asked for with the word `action`.
pub fn do_shutdown(action: &str) -> (last: ShutdownAction)
    ensures
        last == final_action(action@),
{
    if str_eq(action, "poweroff") {
        ShutdownAction::Poweroff
    } else {
        ShutdownAction::Reboot
    }
}

/// Where a shutdown stands.
#[derive(Debug, Clone, Copy, PartialEq, Eq, Structural)]
pub enum ShutdownState {
    /// The system runs.
    Running,
    /// The executables of the shutdown hook directory are started.
    Draining,
    /// The filesystems are synced and `/proc/mounts` is read.
    Syncing,
    /// The filesystems are unmounted.
    Unmounting,
    /// The kernel is asked to power off or to reboot.
    Finalize,
}

impl ShutdownState {
    /// The state that follows this one. A shutdown cannot be called off,
    /// and nothing that fails on the way holds it up.
    pub open spec fn successor(self) -> ShutdownState {
        match self {
            ShutdownState::Running => ShutdownState::Draining,
            ShutdownState::Draining => ShutdownState::Syncing,
            ShutdownState::Syncing => ShutdownState::Unmounting,
            ShutdownState::Unmounting => ShutdownState::Finalize,
            ShutdownState::Finalize => ShutdownState::Finalize,
        }
    }

    /// The state after the work of this state had the given outcome: its
    /// successor, whatever the outcome.
    pub fn next(self, outcome: &Outcome) -> (next: ShutdownState)
        ensures
            next == self.successor(),
    {
        match self {
            ShutdownState::Running => ShutdownState::Draining,
            ShutdownState::Draining => ShutdownState::Syncing,
            ShutdownState::Syncing => ShutdownState::Unmounting,
            ShutdownState::Unmounting => ShutdownState::Finalize,
            ShutdownState::Finalize => ShutdownState::Finalize,
        }
    }
}

/// A shutdown always comes to its end: four steps after it began, in
/// whatever state, the kernel is asked to power off or to reboot.
pub proof fn lemma_shutdown_finalizes(state: ShutdownState)
    ensures
        state.successor().successor().successor().successor() is Finalize,
{
}

} // verus!
