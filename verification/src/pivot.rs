//! The pivot: from the RAM-backed root that the boot loader left to a
//! fresh tmpfs root.
//!
//! Two variants exist. Both copy the old root into a tmpfs on `/mnt` and
//! change into it. The chroot variant then changes the root and leaves the
//! old image resident. The move-root variant first removes the old root's
//! entries and moves the tmpfs over `/`, which frees the image's memory.

use crate::effect::{invocation, Invocation, InvocationModel};
use crate::mounts::{mount_row, mount_step, MountFlag, MountFlags, Severity, Step, StepModel};
use crate::text::{join2, str_eq};
use vstd::prelude::*;

verus! {

/// The filesystem magic of ramfs.
pub const RAMFS_MAGIC: i64 = 0x858458f6;

/// The filesystem magic of tmpfs.
pub const TMPFS_MAGIC: i64 = 0x01021994;

/// What the root is on at entry.
#[derive(Debug, Clone, Copy, PartialEq, Eq, Structural)]
pub enum RootFs {
    Ramfs,
    Tmpfs,
    Other,
}

/// The kind of root that the filesystem magic `magic` stands for.
pub open spec fn root_of(magic: i64) -> RootFs {
    if magic == RAMFS_MAGIC {
        RootFs::Ramfs
    } else if magic == TMPFS_MAGIC {
        RootFs::Tmpfs
    } else {
        RootFs::Other
    }
}

/// The kind of root that `magic`, the `f_type` of `statfs("/")`, stands
/// for.
pub fn root_fs(magic: i64) -> (root: RootFs)
    ensures
        root == root_of(magic),
{
    if magic == RAMFS_MAGIC {
        RootFs::Ramfs
    } else if magic == TMPFS_MAGIC {
        RootFs::Tmpfs
    } else {
        RootFs::Other
    }
}

/// Whether the root has to be pivoted: it has where it is RAM-backed. Any
/// other root was pivoted by the boot loader.
pub fn needs_pivot(root: RootFs) -> (yes: bool)
    ensures
        yes == (root is Ramfs || root is Tmpfs),
{
    match root {
        RootFs::Ramfs => true,
        RootFs::Tmpfs => true,
        RootFs::Other => false,
    }
}

/// How the pivot ends.
#[derive(Debug, Clone, Copy, PartialEq, Eq, Structural)]
pub enum PivotVariant {
    /// Change the root; the old image stays resident.
    Chroot,
    /// Remove the old entries, move the new root over `/`, change the
    /// root.
    MoveRoot,
}

/// The kind of a top-level entry of the old root.
#[derive(Debug, Clone, Copy, PartialEq, Eq, Structural)]
pub enum EntryType {
    Dir,
    File,
    Other,
}

/// A top-level entry of the old root: its path, its kind, and the id of
/// the device it is on.
#[derive(Debug, Clone, PartialEq, Eq)]
pub struct RootEntry {
    pub path: String,
    pub kind: EntryType,
    pub dev: u64,
}

/// The mathematical value of a [`RootEntry`].
pub struct RootEntryModel {
    pub path: Seq<char>,
    pub kind: EntryType,
    pub dev: u64,
}

impl DeepView for RootEntry {
    type V = RootEntryModel;

    open spec fn deep_view(&self) -> RootEntryModel {
        RootEntryModel { path: self.path@, kind: self.kind, dev: self.dev }
    }
}

/// `cp -rp <path> <newroot><path>`: copy the entry with all below it,
/// keeping modes, owners, times and links.
pub open spec fn copy_command(path: Seq<char>, newroot: Seq<char>) -> InvocationModel {
    invocation("cp"@, seq!["-rp"@, path, newroot + path])
}

/// The copy of one entry. The new root itself, an entry of the old root,
/// is not copied into itself.
pub open spec fn copy_of(entry: RootEntryModel, newroot: Seq<char>) -> Option<InvocationModel> {
    if entry.path == newroot {
        None
    } else {
        Some(copy_command(entry.path, newroot))
    }
}

/// The copies that fill the new root, in the order of `entries`.
pub open spec fn copies_of(entries: Seq<RootEntryModel>, newroot: Seq<char>) -> Seq<
    InvocationModel,
> {
    entries.filter_map(|entry: RootEntryModel| copy_of(entry, newroot))
}

/// The commands that copy the top-level entries of the old root into the
/// new root `newroot`, in the order of `entries`.
pub fn copyfs(entries: &Vec<RootEntry>, newroot: &str) -> (commands: Vec<Invocation>)
    ensures
        commands.deep_view() == copies_of(entries.deep_view(), newroot@),
{
    let ghost all = entries.deep_view();
    let ghost pick = |entry: RootEntryModel| copy_of(entry, newroot@);
    let mut commands: Vec<Invocation> = Vec::new();
    let mut i: usize = 0;
    assert(commands.deep_view() =~= Seq::<InvocationModel>::empty());
    assert(all.take(0) =~= Seq::<RootEntryModel>::empty());
    while i < entries.len()
        invariant
            i <= entries.len(),
            all == entries.deep_view(),
            all.len() == entries.len(),
            pick == |entry: RootEntryModel| copy_of(entry, newroot@),
            commands.deep_view() == all.take(i as int).filter_map(pick),
        decreases entries.len() - i,
    {
        proof {
            assert(all.take(i + 1).drop_last() =~= all.take(i as int));
            assert(all.take(i + 1).last() == entries[i as int].deep_view());
        }
        let ghost before = commands.deep_view();
        let entry = &entries[i];
        if !str_eq(entry.path.as_str(), newroot) {
            let dest = join2(newroot, entry.path.as_str());
            let command = Invocation::new("cp").arg("-rp").arg(entry.path.as_str()).arg(
                dest.as_str(),
            );
            assert(command.deep_view().args =~= copy_command(entry.path@, newroot@).args);
            commands.push(command);
            assert(commands.deep_view() =~= before + seq![copy_command(entry.path@, newroot@)]);
        }
        i += 1;
    }
    assert(all.take(entries.len() as int) =~= all);
    commands
}

/// The removal of one entry of the old root.
#[derive(Debug, Clone, PartialEq, Eq)]
pub enum Removal {
    /// Remove the directory and all below it.
    Tree(String),
    /// Remove the file, link or other entry.
    File(String),
}

/// The mathematical value of a [`Removal`].
pub enum RemovalModel {
    Tree(Seq<char>),
    File(Seq<char>),
}

impl DeepView for Removal {
    type V = RemovalModel;

    open spec fn deep_view(&self) -> RemovalModel {
        match self {
            Removal::Tree(path) => RemovalModel::Tree(path@),
            Removal::File(path) => RemovalModel::File(path@),
        }
    }
}

/// The removal of one entry: every entry on another device than the new
/// root goes, a directory with all below it.
pub open spec fn removal_of(entry: RootEntryModel, newroot_dev: u64) -> Option<RemovalModel> {
    if entry.dev == newroot_dev {
        None
    } else if entry.kind is Dir {
        Some(RemovalModel::Tree(entry.path))
    } else {
        Some(RemovalModel::File(entry.path))
    }
}

/// The removals that clear the old root, in the order of `entries`.
pub open spec fn removals_of(entries: Seq<RootEntryModel>, newroot_dev: u64) -> Seq<RemovalModel> {
    entries.filter_map(|entry: RootEntryModel| removal_of(entry, newroot_dev))
}

/// The removals that clear the old root of its top-level entries, given
/// the device id of the new root, in the order of `entries`.
pub fn cleanfs(entries: &Vec<RootEntry>, newroot_dev: u64) -> (removals: Vec<Removal>)
    ensures
        removals.deep_view() == removals_of(entries.deep_view(), newroot_dev),
{
    let ghost all = entries.deep_view();
    let ghost pick = |entry: RootEntryModel| removal_of(entry, newroot_dev);
    let mut removals: Vec<Removal> = Vec::new();
    let mut i: usize = 0;
    assert(removals.deep_view() =~= Seq::<RemovalModel>::empty());
    assert(all.take(0) =~= Seq::<RootEntryModel>::empty());
    while i < entries.len()
        invariant
            i <= entries.len(),
            all == entries.deep_view(),
            all.len() == entries.len(),
            pick == |entry: RootEntryModel| removal_of(entry, newroot_dev),
            removals.deep_view() == all.take(i as int).filter_map(pick),
        decreases entries.len() - i,
    {
        proof {
            assert(all.take(i + 1).drop_last() =~= all.take(i as int));
            assert(all.take(i + 1).last() == entries[i as int].deep_view());
        }
        let ghost before = removals.deep_view();
        let entry = &entries[i];
        if entry.dev != newroot_dev {
            let removal = match entry.kind {
                EntryType::Dir => Removal::Tree(entry.path.clone()),
                _ => Removal::File(entry.path.clone()),
            };
            removals.push(removal);
            assert(removals.deep_view() =~= before + seq![removal.deep_view()]);
        }
        i += 1;
    }
    assert(all.take(entries.len() as int) =~= all);
    removals
}

/// Where the pivot stands.
#[derive(Debug, Clone, Copy, PartialEq, Eq, Structural)]
pub enum PivotStage {
    /// About to mount the tmpfs on `/mnt`.
    MountNewRoot,
    /// About to copy the old root into it.
    Copy,
    /// About to sync.
    Sync,
    /// About to change into `/mnt`.
    Chdir,
    /// About to remove the entries of the old root.
    Clean,
    /// About to move `/mnt` over `/`.
    MoveRoot,
    /// About to change the root.
    Chroot,
    /// The root is pivoted, or needed no pivot.
    Done,
    /// A step that must not fail has failed: the process gives up.
    Fatal,
}

/// What a stage of the pivot asks for.
#[derive(Debug, Clone, PartialEq, Eq)]
pub enum PivotStep {
    /// Mount a filesystem.
    Mount(Step),
    /// List the top level of `/` and run the commands of [`copyfs`] for
    /// the new root at this path.
    CopyTree(String),
    /// Flush the filesystems.
    Sync,
    /// Change the working directory.
    Chdir(String),
    /// List the top level of `/` and carry out the removals of
    /// [`cleanfs`] for the new root at this path.
    CleanTree(String),
    /// Change the root to this directory.
    Chroot(String),
}

/// The mathematical value of a [`PivotStep`].
pub enum PivotStepModel {
    Mount(StepModel),
    CopyTree(Seq<char>),
    Sync,
    Chdir(Seq<char>),
    CleanTree(Seq<char>),
    Chroot(Seq<char>),
}

impl DeepView for PivotStep {
    type V = PivotStepModel;

    open spec fn deep_view(&self) -> PivotStepModel {
        match self {
            PivotStep::Mount(step) => PivotStepModel::Mount(step.deep_view()),
            PivotStep::CopyTree(path) => PivotStepModel::CopyTree(path@),
            PivotStep::Sync => PivotStepModel::Sync,
            PivotStep::Chdir(path) => PivotStepModel::Chdir(path@),
            PivotStep::CleanTree(path) => PivotStepModel::CleanTree(path@),
            PivotStep::Chroot(path) => PivotStepModel::Chroot(path@),
        }
    }
}

/// Where the new root is mounted.
pub open spec fn new_root() -> Seq<char> {
    "/mnt"@
}

impl PivotStage {
    /// What the stage asks for; nothing once the pivot is at rest.
    pub open spec fn step_of(self) -> Option<PivotStepModel> {
        match self {
            PivotStage::MountNewRoot => Some(
                PivotStepModel::Mount(
                    mount_row(
                        "rootfs"@,
                        new_root(),
                        "tmpfs"@,
                        MountFlags::none(),
                        ""@,
                        Severity::Required,
                    ),
                ),
            ),
            PivotStage::Copy => Some(PivotStepModel::CopyTree(new_root())),
            PivotStage::Sync => Some(PivotStepModel::Sync),
            PivotStage::Chdir => Some(PivotStepModel::Chdir(new_root())),
            PivotStage::Clean => Some(PivotStepModel::CleanTree(new_root())),
            PivotStage::MoveRoot => Some(
                PivotStepModel::Mount(
                    mount_row(
                        new_root(),
                        "/"@,
                        ""@,
                        MountFlags::none().plus(MountFlag::Move),
                        ""@,
                        Severity::Required,
                    ),
                ),
            ),
            PivotStage::Chroot => Some(PivotStepModel::Chroot("."@)),
            PivotStage::Done => None,
            PivotStage::Fatal => None,
        }
    }

    /// The stage after the step of this stage succeeded (`ok`) or failed.
    ///
    /// - A failed mount, change of directory or change of root is fatal.
    /// - A failed copy or removal is not: the pivot goes on.
    /// - After the change of directory the variants part: the chroot
    ///   variant changes the root at once, the move-root variant first
    ///   clears the old root and moves the new one over it.
    pub open spec fn after(self, ok: bool, variant: PivotVariant) -> PivotStage {
        match self {
            PivotStage::MountNewRoot => if ok {
                PivotStage::Copy
            } else {
                PivotStage::Fatal
            },
            PivotStage::Copy => PivotStage::Sync,
            PivotStage::Sync => PivotStage::Chdir,
            PivotStage::Chdir => if !ok {
                PivotStage::Fatal
            } else if variant is MoveRoot {
                PivotStage::Clean
            } else {
                PivotStage::Chroot
            },
            PivotStage::Clean => PivotStage::MoveRoot,
            PivotStage::MoveRoot => if ok {
                PivotStage::Chroot
            } else {
                PivotStage::Fatal
            },
            PivotStage::Chroot => if ok {
                PivotStage::Done
            } else {
                PivotStage::Fatal
            },
            PivotStage::Done => PivotStage::Done,
            PivotStage::Fatal => PivotStage::Fatal,
        }
    }

    /// What to do in this stage, or `None` once the pivot is at rest.
    pub fn step(self) -> (step: Option<PivotStep>)
        ensures
            step.deep_view() == self.step_of(),
    {
        match self {
            PivotStage::MountNewRoot => Some(
                PivotStep::Mount(
                    mount_step(
                        "rootfs",
                        "/mnt",
                        "tmpfs",
                        MountFlags::empty(),
                        "",
                        Severity::Required,
                    ),
                ),
            ),
            PivotStage::Copy => Some(PivotStep::CopyTree(String::from_str("/mnt"))),
            PivotStage::Sync => Some(PivotStep::Sync),
            PivotStage::Chdir => Some(PivotStep::Chdir(String::from_str("/mnt"))),
            PivotStage::Clean => Some(PivotStep::CleanTree(String::from_str("/mnt"))),
            PivotStage::MoveRoot => Some(
                PivotStep::Mount(
                    mount_step(
                        "/mnt",
                        "/",
                        "",
                        MountFlags::empty().with(MountFlag::Move),
                        "",
                        Severity::Required,
                    ),
                ),
            ),
            PivotStage::Chroot => Some(PivotStep::Chroot(String::from_str("."))),
            PivotStage::Done => None,
            PivotStage::Fatal => None,
        }
    }

    /// The stage after the step of this stage succeeded or failed.
    pub fn next(self, ok: bool, variant: PivotVariant) -> (next: PivotStage)
        ensures
            next == self.after(ok, variant),
    {
        match self {
            PivotStage::MountNewRoot => if ok {
                PivotStage::Copy
            } else {
                PivotStage::Fatal
            },
            PivotStage::Copy => PivotStage::Sync,
            PivotStage::Sync => PivotStage::Chdir,
            PivotStage::Chdir => if !ok {
                PivotStage::Fatal
            } else {
                match variant {
                    PivotVariant::MoveRoot => PivotStage::Clean,
                    PivotVariant::Chroot => PivotStage::Chroot,
                }
            },
            PivotStage::Clean => PivotStage::MoveRoot,
            PivotStage::MoveRoot => if ok {
                PivotStage::Chroot
            } else {
                PivotStage::Fatal
            },
            PivotStage::Chroot => if ok {
                PivotStage::Done
            } else {
                PivotStage::Fatal
            },
            PivotStage::Done => PivotStage::Done,
            PivotStage::Fatal => PivotStage::Fatal,
        }
    }
}

/// The stage in which the pivot of a root of kind `root` begins: the
/// mount of the new root where the root is RAM-backed; else the pivot is
/// done before it began.
pub fn preparefs(root: RootFs) -> (stage: PivotStage)
    ensures
        stage == (if root is Ramfs || root is Tmpfs {
            PivotStage::MountNewRoot
        } else {
            PivotStage::Done
        }),
{
    if needs_pivot(root) {
        PivotStage::MountNewRoot
    } else {
        PivotStage::Done
    }
}

/// The stage after a run of steps with the given results, one after the
/// other.
pub open spec fn pivot_run(stage: PivotStage, results: Seq<bool>, variant: PivotVariant) -> PivotStage
    decreases results.len(),
{
    if results.len() == 0 {
        stage
    } else {
        pivot_run(stage, results.drop_last(), variant).after(results.last(), variant)
    }
}

/// A pivot that has failed fatally stays failed, and a failed mount,
/// change of directory or change of root fails it fatally: no run leads
/// from such a failure to a pivoted root.
pub proof fn lemma_pivot_failure_is_final(
    stage: PivotStage,
    variant: PivotVariant,
    results: Seq<bool>,
)
    requires
        stage is MountNewRoot || stage is Chdir || stage is MoveRoot || stage is Chroot,
    ensures
        pivot_run(stage.after(false, variant), results, variant) is Fatal,
    decreases results.len(),
{
    if results.len() > 0 {
        lemma_pivot_failure_is_final(stage, variant, results.drop_last());
    }
}

/// A pivot whose steps all succeed ends with the root pivoted: after seven
/// steps at most, in either variant.
pub proof fn lemma_pivot_completes(variant: PivotVariant)
    ensures
        PivotStage::MountNewRoot.after(true, variant).after(true, variant).after(
            true,
            variant,
        ).after(true, variant).after(true, variant).after(true, variant).after(true, variant)
            is Done,
{
}

} // verus!
