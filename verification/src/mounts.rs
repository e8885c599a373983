//! The mount topology: what is mounted where, with which flags, and in
//! which order.

use crate::cgroups::{cgroup_parse, enabled_cgroups, enabled_name, CGROUP_DELIMITER};
use crate::seqs::{extend, lemma_concat_contains};
use crate::table::csv_rows;
use crate::text::join2;
use vstd::prelude::*;

verus! {

/// One flag of `mount(2)`.
#[derive(Debug, Clone, Copy, PartialEq, Eq, Structural)]
pub enum MountFlag {
    Rdonly,
    Nosuid,
    Nodev,
    Noexec,
    Remount,
    Move,
    Rec,
    Shared,
    Relatime,
}

/// A set of mount flags: one membership bit for each [`MountFlag`].
#[derive(Debug, Clone, Copy, PartialEq, Eq, Structural)]
pub struct MountFlags {
    pub rdonly: bool,
    pub nosuid: bool,
    pub nodev: bool,
    pub noexec: bool,
    pub remount: bool,
    pub move_mount: bool,
    pub rec: bool,
    pub shared: bool,
    pub relatime: bool,
}

/// The bit that the kernel assigns to `flag` in the flags word of
/// `mount(2)`.
pub open spec fn flag_bit(flag: MountFlag) -> int {
    match flag {
        MountFlag::Rdonly => 1,
        MountFlag::Nosuid => 2,
        MountFlag::Nodev => 4,
        MountFlag::Noexec => 8,
        MountFlag::Remount => 32,
        MountFlag::Move => 8192,
        MountFlag::Rec => 16384,
        MountFlag::Shared => 1048576,
        MountFlag::Relatime => 2097152,
    }
}

impl MountFlags {
    /// Whether `flag` is in the set.
    pub open spec fn has(self, flag: MountFlag) -> bool {
        match flag {
            MountFlag::Rdonly => self.rdonly,
            MountFlag::Nosuid => self.nosuid,
            MountFlag::Nodev => self.nodev,
            MountFlag::Noexec => self.noexec,
            MountFlag::Remount => self.remount,
            MountFlag::Move => self.move_mount,
            MountFlag::Rec => self.rec,
            MountFlag::Shared => self.shared,
            MountFlag::Relatime => self.relatime,
        }
    }

    /// What `flag` adds to the flags word: its bit if it is in the set.
    pub open spec fn part(self, flag: MountFlag) -> int {
        if self.has(flag) {
            flag_bit(flag)
        } else {
            0
        }
    }

    /// The flags word: the bits of the members, each counted once. The bits
    /// are distinct powers of two, so the sum is also their bitwise or.
    pub open spec fn word(self) -> int {
        self.part(MountFlag::Rdonly) + self.part(MountFlag::Nosuid) + self.part(MountFlag::Nodev)
            + self.part(MountFlag::Noexec) + self.part(MountFlag::Remount) + self.part(
            MountFlag::Move,
        ) + self.part(MountFlag::Rec) + self.part(MountFlag::Shared) + self.part(
            MountFlag::Relatime,
        )
    }

    /// The empty set.
    pub open spec fn none() -> MountFlags {
        MountFlags {
            rdonly: false,
            nosuid: false,
            nodev: false,
            noexec: false,
            remount: false,
            move_mount: false,
            rec: false,
            shared: false,
            relatime: false,
        }
    }

    /// The set with `flag` added.
    pub open spec fn plus(self, flag: MountFlag) -> MountFlags {
        match flag {
            MountFlag::Rdonly => MountFlags { rdonly: true, ..self },
            MountFlag::Nosuid => MountFlags { nosuid: true, ..self },
            MountFlag::Nodev => MountFlags { nodev: true, ..self },
            MountFlag::Noexec => MountFlags { noexec: true, ..self },
            MountFlag::Remount => MountFlags { remount: true, ..self },
            MountFlag::Move => MountFlags { move_mount: true, ..self },
            MountFlag::Rec => MountFlags { rec: true, ..self },
            MountFlag::Shared => MountFlags { shared: true, ..self },
            MountFlag::Relatime => MountFlags { relatime: true, ..self },
        }
    }

    /// The empty set.
    pub fn empty() -> (flags: MountFlags)
        ensures
            flags == MountFlags::none(),
    {
        MountFlags {
            rdonly: false,
            nosuid: false,
            nodev: false,
            noexec: false,
            remount: false,
            move_mount: false,
            rec: false,
            shared: false,
            relatime: false,
        }
    }

    /// The set with `flag` added.
    pub fn with(self, flag: MountFlag) -> (flags: MountFlags)
        ensures
            flags == self.plus(flag),
    {
        let mut flags = self;
        match flag {
            MountFlag::Rdonly => flags.rdonly = true,
            MountFlag::Nosuid => flags.nosuid = true,
            MountFlag::Nodev => flags.nodev = true,
            MountFlag::Noexec => flags.noexec = true,
            MountFlag::Remount => flags.remount = true,
            MountFlag::Move => flags.move_mount = true,
            MountFlag::Rec => flags.rec = true,
            MountFlag::Shared => flags.shared = true,
            MountFlag::Relatime => flags.relatime = true,
        }
        flags
    }

    /// Whether `flag` is in the set.
    pub fn contains(&self, flag: MountFlag) -> (yes: bool)
        ensures
            yes == self.has(flag),
    {
        match flag {
            MountFlag::Rdonly => self.rdonly,
            MountFlag::Nosuid => self.nosuid,
            MountFlag::Nodev => self.nodev,
            MountFlag::Noexec => self.noexec,
            MountFlag::Remount => self.remount,
            MountFlag::Move => self.move_mount,
            MountFlag::Rec => self.rec,
            MountFlag::Shared => self.shared,
            MountFlag::Relatime => self.relatime,
        }
    }

    /// The flags word to hand to `mount(2)`.
    pub fn bits(&self) -> (word: u64)
        ensures
            word == self.word(),
    {
        let low: u64 = pick(self.rdonly, 1) + pick(self.nosuid, 2) + pick(self.nodev, 4) + pick(
            self.noexec,
            8,
        ) + pick(self.remount, 32);
        let high: u64 = pick(self.move_mount, 8192) + pick(self.rec, 16384) + pick(
            self.shared,
            1048576,
        ) + pick(self.relatime, 2097152);
        low + high
    }
}

/// `bit` if `on`, else nothing.
fn pick(on: bool, bit: u64) -> (part: u64)
    ensures
        part == (if on {
            bit
        } else {
            0
        }),
{
    if on {
        bit
    } else {
        0
    }
}


/// How much a failed mount matters.
#[derive(Debug, Clone, Copy, PartialEq, Eq, Structural)]
pub enum Severity {
    /// A failure is reported; bring-up goes on.
    Required,
    /// A failure is passed over.
    BestEffort,
}

/// One call of `mount(2)`.
#[derive(Debug, Clone, PartialEq, Eq)]
pub struct MountSpec {
    pub source: String,
    pub target: String,
    pub fstype: String,
    pub flags: MountFlags,
    pub data: String,
    pub severity: Severity,
}

/// The mathematical value of a [`MountSpec`].
pub struct MountModel {
    pub source: Seq<char>,
    pub target: Seq<char>,
    pub fstype: Seq<char>,
    pub flags: MountFlags,
    pub data: Seq<char>,
    pub severity: Severity,
}

impl DeepView for MountSpec {
    type V = MountModel;

    open spec fn deep_view(&self) -> MountModel {
        MountModel {
            source: self.source@,
            target: self.target@,
            fstype: self.fstype@,
            flags: self.flags,
            data: self.data@,
            severity: self.severity,
        }
    }
}

/// The kind of a device node.
#[derive(Debug, Clone, Copy, PartialEq, Eq, Structural)]
pub enum DeviceKind {
    Char,
}

/// A device node to create under `/dev`.
#[derive(Debug, Clone, PartialEq, Eq)]
pub struct DeviceNode {
    pub path: String,
    pub kind: DeviceKind,
    pub mode: u32,
    pub major: u64,
    pub minor: u64,
}

/// The mathematical value of a [`DeviceNode`].
pub struct DeviceModel {
    pub path: Seq<char>,
    pub kind: DeviceKind,
    pub mode: u32,
    pub major: u64,
    pub minor: u64,
}

/// The number that names the device `major:minor` to the kernel: the two
/// numbers interleaved, the low twelve bits of the major above the low
/// eight of the minor, the rest of each above those.
pub open spec fn device_number(major: u64, minor: u64) -> u64 {
    ((major & 0xffff_f000) << 32) | ((major & 0x0000_0fff) << 8) | ((minor & 0xffff_ff00) << 12)
        | (minor & 0x0000_00ff)
}

/// Calls `nix::sys::stat::makedev`. Not proved: that it returns
/// [`device_number`], which is the expression that the function's body
/// computes.
#[verifier::external_body]
fn make_device(major: u64, minor: u64) -> (dev: u64)
    ensures
        dev == device_number(major, minor),
{
    nix::sys::stat::makedev(major, minor)
}

impl DeviceNode {
    /// The device number to create the node with.
    pub fn device_id(&self) -> (dev: u64)
        ensures
            dev == device_number(self.major, self.minor),
    {
        make_device(self.major, self.minor)
    }
}

impl DeepView for DeviceNode {
    type V = DeviceModel;

    open spec fn deep_view(&self) -> DeviceModel {
        DeviceModel {
            path: self.path@,
            kind: self.kind,
            mode: self.mode,
            major: self.major,
            minor: self.minor,
        }
    }
}

/// One step of building the topology.
#[derive(Debug, Clone, PartialEq, Eq)]
pub enum Step {
    /// Mount a filesystem.
    Mount(MountSpec),
    /// Create a directory with the given permission bits.
    Mkdir { path: String, mode: u32 },
    /// Create a device node.
    Mkchar(DeviceNode),
    /// Create the symbolic link `link`, which points to `target`.
    Symlink { target: String, link: String },
    /// Write `data` to the file at `path`; a failure is passed over.
    Write { path: String, data: String },
}

/// The mathematical value of a [`Step`].
pub enum StepModel {
    Mount(MountModel),
    Mkdir { path: Seq<char>, mode: u32 },
    Mkchar(DeviceModel),
    Symlink { target: Seq<char>, link: Seq<char> },
    Write { path: Seq<char>, data: Seq<char> },
}

impl DeepView for Step {
    type V = StepModel;

    open spec fn deep_view(&self) -> StepModel {
        match self {
            Step::Mount(m) => StepModel::Mount(m.deep_view()),
            Step::Mkdir { path, mode } => StepModel::Mkdir { path: path@, mode: *mode },
            Step::Mkchar(d) => StepModel::Mkchar(d.deep_view()),
            Step::Symlink { target, link } => StepModel::Symlink { target: target@, link: link@ },
            Step::Write { path, data } => StepModel::Write { path: path@, data: data@ },
        }
    }
}

/// The step that mounts `fstype` from `source` on `target`.
pub open spec fn mount_row(
    source: Seq<char>,
    target: Seq<char>,
    fstype: Seq<char>,
    flags: MountFlags,
    data: Seq<char>,
    severity: Severity,
) -> StepModel {
    StepModel::Mount(MountModel { source, target, fstype, flags, data, severity })
}

/// The step that creates the character device `major:minor` at `path`.
pub open spec fn char_row(path: Seq<char>, mode: u32, major: u64, minor: u64) -> StepModel {
    StepModel::Mkchar(DeviceModel { path, kind: DeviceKind::Char, mode, major, minor })
}

/// The step that mounts `fstype` from `source` on `target`.
pub fn mount_step(
    source: &str,
    target: &str,
    fstype: &str,
    flags: MountFlags,
    data: &str,
    severity: Severity,
) -> (step: Step)
    ensures
        step.deep_view() == mount_row(source@, target@, fstype@, flags, data@, severity),
{
    Step::Mount(
        MountSpec {
            source: String::from_str(source),
            target: String::from_str(target),
            fstype: String::from_str(fstype),
            flags,
            data: String::from_str(data),
            severity,
        },
    )
}

/// The step that creates the directory `path` with the permission bits `mode`.
pub fn mkdir_step(path: &str, mode: u32) -> (step: Step)
    ensures
        step.deep_view() == (StepModel::Mkdir { path: path@, mode }),
{
    Step::Mkdir { path: String::from_str(path), mode }
}

/// The step that creates the character device `major:minor` at `path`.
pub fn mkchar_step(path: &str, mode: u32, major: u64, minor: u64) -> (step: Step)
    ensures
        step.deep_view() == char_row(path@, mode, major, minor),
{
    Step::Mkchar(
        DeviceNode { path: String::from_str(path), kind: DeviceKind::Char, mode, major, minor },
    )
}

/// The step that creates the link `link`, which points to `target`.
pub fn symlink_step(target: &str, link: &str) -> (step: Step)
    ensures
        step.deep_view() == (StepModel::Symlink { target: target@, link: link@ }),
{
    Step::Symlink { target: String::from_str(target), link: String::from_str(link) }
}

/// The step that writes `data` to the file at `path`.
pub fn write_step(path: &str, data: &str) -> (step: Step)
    ensures
        step.deep_view() == (StepModel::Write { path: path@, data: data@ }),
{
    Step::Write { path: String::from_str(path), data: String::from_str(data) }
}

/// NOSUID, NODEV and NOEXEC: the flags of most virtual filesystems.
pub open spec fn locked() -> MountFlags {
    MountFlags::none().plus(MountFlag::Nosuid).plus(MountFlag::Nodev).plus(MountFlag::Noexec)
}

/// The flags of [`locked`].
fn locked_flags() -> (flags: MountFlags)
    ensures
        flags == locked(),
{
    MountFlags::empty().with(MountFlag::Nosuid).with(MountFlag::Nodev).with(MountFlag::Noexec)
}

/// `/proc`, the remount of `/`, and the tmpfs working areas.
pub open spec fn early_mounts() -> Seq<StepModel> {
    let flags = locked().plus(MountFlag::Relatime);
    seq![
        mount_row("proc"@, "/proc"@, "proc"@, flags, ""@, Severity::Required),
        mount_row(
            ""@,
            "/"@,
            ""@,
            MountFlags::none().plus(MountFlag::Remount),
            ""@,
            Severity::BestEffort,
        ),
        mount_row("tmpfs"@, "/run"@, "tmpfs"@, flags, "size=10%,mode=755"@, Severity::Required),
        mount_row("tmpfs"@, "/tmp"@, "tmpfs"@, flags, "size=10%,mode=1777"@, Severity::Required),
        mount_row("tmpfs"@, "/var"@, "tmpfs"@, flags, "size=50%,mode=755"@, Severity::Required),
    ]
}

/// Adds `step` to the end of `plan`.
pub fn push_step(plan: &mut Vec<Step>, step: Step)
    ensures
        final(plan).deep_view() == old(plan).deep_view().push(step.deep_view()),
{
    plan.push(step);
    assert(plan.deep_view() =~= old(plan).deep_view().push(step.deep_view()));
}

/// The steps of [`early_mounts`].
fn build_early_mounts() -> (plan: Vec<Step>)
    ensures
        plan.deep_view() == early_mounts(),
{
    let flags = locked_flags().with(MountFlag::Relatime);
    let mut plan: Vec<Step> = Vec::new();
    assert(plan.deep_view() =~= Seq::<StepModel>::empty());
    push_step(&mut plan, mount_step("proc", "/proc", "proc", flags, "", Severity::Required));
    push_step(
        &mut plan,
        mount_step(
            "",
            "/",
            "",
            MountFlags::empty().with(MountFlag::Remount),
            "",
            Severity::BestEffort,
        ),
    );
    push_step(
        &mut plan,
        mount_step("tmpfs", "/run", "tmpfs", flags, "size=10%,mode=755", Severity::Required),
    );
    push_step(
        &mut plan,
        mount_step("tmpfs", "/tmp", "tmpfs", flags, "size=10%,mode=1777", Severity::Required),
    );
    push_step(
        &mut plan,
        mount_step("tmpfs", "/var", "tmpfs", flags, "size=50%,mode=755", Severity::Required),
    );
    assert(plan.deep_view() =~= early_mounts());
    plan
}

/// The directories under `/var`.
pub open spec fn var_skeleton() -> Seq<StepModel> {
    seq![
        StepModel::Mkdir { path: "/var/cache"@, mode: 0o755 },
        StepModel::Mkdir { path: "/var/empty"@, mode: 0o555 },
        StepModel::Mkdir { path: "/var/lib"@, mode: 0o755 },
        StepModel::Mkdir { path: "/var/local"@, mode: 0o755 },
        StepModel::Mkdir { path: "/var/lock"@, mode: 0o755 },
        StepModel::Mkdir { path: "/var/log"@, mode: 0o755 },
        StepModel::Mkdir { path: "/var/opt"@, mode: 0o755 },
        StepModel::Mkdir { path: "/var/spool"@, mode: 0o755 },
        StepModel::Mkdir { path: "/var/tmp"@, mode: 0o1777 },
    ]
}

/// The steps of [`var_skeleton`].
fn build_var_skeleton() -> (plan: Vec<Step>)
    ensures
        plan.deep_view() == var_skeleton(),
{
    let mut plan: Vec<Step> = Vec::new();
    assert(plan.deep_view() =~= Seq::<StepModel>::empty());
    push_step(&mut plan, mkdir_step("/var/cache", 0o755));
    push_step(&mut plan, mkdir_step("/var/empty", 0o555));
    push_step(&mut plan, mkdir_step("/var/lib", 0o755));
    push_step(&mut plan, mkdir_step("/var/local", 0o755));
    push_step(&mut plan, mkdir_step("/var/lock", 0o755));
    push_step(&mut plan, mkdir_step("/var/log", 0o755));
    push_step(&mut plan, mkdir_step("/var/opt", 0o755));
    push_step(&mut plan, mkdir_step("/var/spool", 0o755));
    push_step(&mut plan, mkdir_step("/var/tmp", 0o1777));
    assert(plan.deep_view() =~= var_skeleton());
    plan
}

/// `/dev`, its character devices and its standard links.
pub open spec fn dev_nodes() -> Seq<StepModel> {
    let flags = MountFlags::none().plus(MountFlag::Nosuid).plus(MountFlag::Noexec).plus(MountFlag::Relatime);
    seq![
        mount_row("dev"@, "/dev"@, "devtmpfs"@, flags, "size=10m,nr_inodes=248418,mode=755"@, Severity::Required),
        char_row("/dev/console"@, 0o600, 5, 1),
        char_row("/dev/tty1"@, 0o620, 4, 1),
        char_row("/dev/tty"@, 0o666, 5, 0),
        char_row("/dev/null"@, 0o666, 1, 3),
        char_row("/dev/kmsg"@, 0o660, 1, 11),
        StepModel::Symlink { target: "/proc/self/fd"@, link: "/dev/fd"@ },
        StepModel::Symlink { target: "/proc/self/fd/0"@, link: "/dev/stdin"@ },
        StepModel::Symlink { target: "/proc/self/fd/1"@, link: "/dev/stdout"@ },
        StepModel::Symlink { target: "/proc/self/fd/2"@, link: "/dev/stderr"@ },
        StepModel::Symlink { target: "/proc/kcore"@, link: "/dev/kcore"@ },
    ]
}

/// The steps of [`dev_nodes`].
fn build_dev_nodes() -> (plan: Vec<Step>)
    ensures
        plan.deep_view() == dev_nodes(),
{
    let flags = MountFlags::empty().with(MountFlag::Nosuid).with(MountFlag::Noexec).with(MountFlag::Relatime);
    let mut plan: Vec<Step> = Vec::new();
    assert(plan.deep_view() =~= Seq::<StepModel>::empty());
    push_step(&mut plan, mount_step("dev", "/dev", "devtmpfs", flags, "size=10m,nr_inodes=248418,mode=755", Severity::Required));
    push_step(&mut plan, mkchar_step("/dev/console", 0o600, 5, 1));
    push_step(&mut plan, mkchar_step("/dev/tty1", 0o620, 4, 1));
    push_step(&mut plan, mkchar_step("/dev/tty", 0o666, 5, 0));
    push_step(&mut plan, mkchar_step("/dev/null", 0o666, 1, 3));
    push_step(&mut plan, mkchar_step("/dev/kmsg", 0o660, 1, 11));
    push_step(&mut plan, symlink_step("/proc/self/fd", "/dev/fd"));
    push_step(&mut plan, symlink_step("/proc/self/fd/0", "/dev/stdin"));
    push_step(&mut plan, symlink_step("/proc/self/fd/1", "/dev/stdout"));
    push_step(&mut plan, symlink_step("/proc/self/fd/2", "/dev/stderr"));
    push_step(&mut plan, symlink_step("/proc/kcore", "/dev/kcore"));
    assert(plan.deep_view() =~= dev_nodes());
    plan
}

/// The mount points under `/dev`, and `/sys`.
pub open spec fn dev_mounts() -> Seq<StepModel> {
    let flags = locked();
    let pts = MountFlags::none().plus(MountFlag::Nosuid).plus(MountFlag::Nodev);
    seq![
        StepModel::Mkdir { path: "/dev/mqueue"@, mode: 0o1777 },
        StepModel::Mkdir { path: "/dev/shm"@, mode: 0o1777 },
        StepModel::Mkdir { path: "/dev/pts"@, mode: 0o755 },
        mount_row("mqueue"@, "/dev/mqueue"@, "mqueue"@, flags, ""@, Severity::Required),
        mount_row("shm"@, "/dev/shm"@, "tmpfs"@, flags, "mode=1777"@, Severity::Required),
        mount_row("devpts"@, "/dev/pts"@, "devpts"@, pts, "gid=5,mode=0620"@, Severity::Required),
        mount_row("sysfs"@, "/sys"@, "sysfs"@, flags, ""@, Severity::Required),
    ]
}

/// The steps of [`dev_mounts`].
fn build_dev_mounts() -> (plan: Vec<Step>)
    ensures
        plan.deep_view() == dev_mounts(),
{
    let flags = locked_flags();
    let pts = MountFlags::empty().with(MountFlag::Nosuid).with(MountFlag::Nodev);
    let mut plan: Vec<Step> = Vec::new();
    assert(plan.deep_view() =~= Seq::<StepModel>::empty());
    push_step(&mut plan, mkdir_step("/dev/mqueue", 0o1777));
    push_step(&mut plan, mkdir_step("/dev/shm", 0o1777));
    push_step(&mut plan, mkdir_step("/dev/pts", 0o755));
    push_step(&mut plan, mount_step("mqueue", "/dev/mqueue", "mqueue", flags, "", Severity::Required));
    push_step(&mut plan, mount_step("shm", "/dev/shm", "tmpfs", flags, "mode=1777", Severity::Required));
    push_step(&mut plan, mount_step("devpts", "/dev/pts", "devpts", pts, "gid=5,mode=0620", Severity::Required));
    push_step(&mut plan, mount_step("sysfs", "/sys", "sysfs", flags, "", Severity::Required));
    assert(plan.deep_view() =~= dev_mounts());
    plan
}

/// Filesystems that a kernel may lack: each is tried, and a failure passed over.
pub open spec fn optional_mounts() -> Seq<StepModel> {
    let flags = locked();
    let bpf = MountFlags::none().plus(MountFlag::Nosuid);
    seq![
        mount_row("securityfs"@, "/sys/kernel/security"@, "securityfs"@, flags, ""@, Severity::BestEffort),
        mount_row("debugfs"@, "/sys/kernel/debug"@, "debugfs"@, flags, ""@, Severity::BestEffort),
        mount_row("configfs"@, "/sys/kernel/config"@, "configfs"@, flags, ""@, Severity::BestEffort),
        mount_row("fusectl"@, "/sys/fs/fuse/connections"@, "fusectl"@, flags, ""@, Severity::BestEffort),
        mount_row("selinuxfs"@, "/sys/fs/selinux"@, "selinuxfs"@, flags, ""@, Severity::BestEffort),
        mount_row("pstore"@, "/sys/fs/pstore"@, "pstore"@, flags, ""@, Severity::BestEffort),
        mount_row("bpffs"@, "/sys/fs/bpf"@, "bpf"@, bpf, ""@, Severity::BestEffort),
        mount_row("efivarfs"@, "/sys/firmware/efi/efivars"@, "efivarfs"@, flags, ""@, Severity::BestEffort),
        mount_row("binfmt_misc"@, "/proc/sys/fs/binfmt_misc"@, "binfmt_misc"@, flags, ""@, Severity::BestEffort),
    ]
}

/// The steps of [`optional_mounts`].
fn build_optional_mounts() -> (plan: Vec<Step>)
    ensures
        plan.deep_view() == optional_mounts(),
{
    let flags = locked_flags();
    let bpf = MountFlags::empty().with(MountFlag::Nosuid);
    let mut plan: Vec<Step> = Vec::new();
    assert(plan.deep_view() =~= Seq::<StepModel>::empty());
    push_step(&mut plan, mount_step("securityfs", "/sys/kernel/security", "securityfs", flags, "", Severity::BestEffort));
    push_step(&mut plan, mount_step("debugfs", "/sys/kernel/debug", "debugfs", flags, "", Severity::BestEffort));
    push_step(&mut plan, mount_step("configfs", "/sys/kernel/config", "configfs", flags, "", Severity::BestEffort));
    push_step(&mut plan, mount_step("fusectl", "/sys/fs/fuse/connections", "fusectl", flags, "", Severity::BestEffort));
    push_step(&mut plan, mount_step("selinuxfs", "/sys/fs/selinux", "selinuxfs", flags, "", Severity::BestEffort));
    push_step(&mut plan, mount_step("pstore", "/sys/fs/pstore", "pstore", flags, "", Severity::BestEffort));
    push_step(&mut plan, mount_step("bpffs", "/sys/fs/bpf", "bpf", bpf, "", Severity::BestEffort));
    push_step(&mut plan, mount_step("efivarfs", "/sys/firmware/efi/efivars", "efivarfs", flags, "", Severity::BestEffort));
    push_step(&mut plan, mount_step("binfmt_misc", "/proc/sys/fs/binfmt_misc", "binfmt_misc", flags, "", Severity::BestEffort));
    assert(plan.deep_view() =~= optional_mounts());
    plan
}

/// The tmpfs that holds the cgroup hierarchies.
pub open spec fn cgroup_root() -> Seq<StepModel> {
    let flags = locked();
    seq![
        mount_row("cgroup_root"@, "/sys/fs/cgroup"@, "tmpfs"@, flags, "mode=755,size=10m"@, Severity::Required),
    ]
}

/// The steps of [`cgroup_root`].
fn build_cgroup_root() -> (plan: Vec<Step>)
    ensures
        plan.deep_view() == cgroup_root(),
{
    let flags = locked_flags();
    let mut plan: Vec<Step> = Vec::new();
    assert(plan.deep_view() =~= Seq::<StepModel>::empty());
    push_step(&mut plan, mount_step("cgroup_root", "/sys/fs/cgroup", "tmpfs", flags, "mode=755,size=10m", Severity::Required));
    assert(plan.deep_view() =~= cgroup_root());
    plan
}

/// The memory hierarchy switch, the named `systemd` hierarchy, and the
/// propagation of `/`.
pub open spec fn closing_steps() -> Seq<StepModel> {
    seq![
        StepModel::Write { path: "/sys/fs/cgroup/memory/memory.use_hierarchy"@, data: "1"@ },
        StepModel::Mkdir { path: "/sys/fs/cgroup/systemd"@, mode: 0o666 },
        mount_row("cgroup"@, "/sys/fs/cgroup/systemd"@, "cgroup"@, MountFlags::none(), "none,name=systemd"@, Severity::Required),
        mount_row(""@, "/"@, ""@, MountFlags::none().plus(MountFlag::Rec).plus(MountFlag::Shared), ""@, Severity::Required),
    ]
}

/// The steps of [`closing_steps`].
fn build_closing_steps() -> (plan: Vec<Step>)
    ensures
        plan.deep_view() == closing_steps(),
{
    let mut plan: Vec<Step> = Vec::new();
    assert(plan.deep_view() =~= Seq::<StepModel>::empty());
    push_step(&mut plan, write_step("/sys/fs/cgroup/memory/memory.use_hierarchy", "1"));
    push_step(&mut plan, mkdir_step("/sys/fs/cgroup/systemd", 0o666));
    push_step(&mut plan, mount_step("cgroup", "/sys/fs/cgroup/systemd", "cgroup", MountFlags::empty(), "none,name=systemd", Severity::Required));
    push_step(&mut plan, mount_step("", "/", "", MountFlags::empty().with(MountFlag::Rec).with(MountFlag::Shared), "", Severity::Required));
    assert(plan.deep_view() =~= closing_steps());
    plan
}

/// The directory of the hierarchy of the controller `name`.
pub open spec fn cgroup_dir(name: Seq<char>) -> Seq<char> {
    "/sys/fs/cgroup/"@ + name
}

/// The mount of the hierarchy of the controller `name`.
pub open spec fn cgroup_mount(name: Seq<char>) -> StepModel {
    mount_row(name, cgroup_dir(name), "cgroup"@, locked(), name, Severity::Required)
}

/// The directory and the mount of the hierarchy of one controller.
pub open spec fn cgroup_steps(name: Seq<char>) -> Seq<StepModel> {
    seq![StepModel::Mkdir { path: cgroup_dir(name), mode: 0o666 }, cgroup_mount(name)]
}

/// The steps of [`cgroup_steps`] for each controller of `names`, in order.
pub open spec fn cgroup_mounts(names: Seq<Seq<char>>) -> Seq<StepModel>
    decreases names.len(),
{
    if names.len() == 0 {
        Seq::empty()
    } else {
        cgroup_mounts(names.drop_last()) + cgroup_steps(names.last())
    }
}

/// The steps that do not depend on the kernel's list of controllers.
pub open spec fn before_cgroups() -> Seq<StepModel> {
    early_mounts() + var_skeleton() + dev_nodes() + dev_mounts() + optional_mounts()
        + cgroup_root()
}

/// The steps that follow once the enabled controllers are known.
pub open spec fn after_cgroups(names: Seq<Seq<char>>) -> Seq<StepModel> {
    cgroup_mounts(names) + closing_steps()
}

/// The whole topology, in the order in which it is built, for a kernel
/// whose enabled controllers are `names`.
pub open spec fn topology(names: Seq<Seq<char>>) -> Seq<StepModel> {
    before_cgroups() + after_cgroups(names)
}

/// The first part of the topology: everything up to the tmpfs on
/// `/sys/fs/cgroup`. `/proc/cgroups` can be read once these steps are done.
pub fn mounts_before_cgroups() -> (plan: Vec<Step>)
    ensures
        plan.deep_view() == before_cgroups(),
{
    let mut plan = build_early_mounts();
    extend(&mut plan, build_var_skeleton());
    extend(&mut plan, build_dev_nodes());
    extend(&mut plan, build_dev_mounts());
    extend(&mut plan, build_optional_mounts());
    extend(&mut plan, build_cgroup_root());
    plan
}

/// The second part of the topology: one hierarchy for each controller of
/// `names`, then the closing steps.
pub fn mounts_after_cgroups(names: &Vec<String>) -> (plan: Vec<Step>)
    ensures
        plan.deep_view() == after_cgroups(names.deep_view()),
{
    let mut plan: Vec<Step> = Vec::new();
    let ghost all = names.deep_view();
    let mut i: usize = 0;
    assert(plan.deep_view() =~= Seq::<StepModel>::empty());
    assert(all.take(0) =~= Seq::<Seq<char>>::empty());
    while i < names.len()
        invariant
            i <= names.len(),
            all == names.deep_view(),
            all.len() == names.len(),
            plan.deep_view() == cgroup_mounts(all.take(i as int)),
        decreases names.len() - i,
    {
        proof {
            assert(all.take(i + 1).drop_last() =~= all.take(i as int));
            assert(all.take(i + 1).last() == names[i as int]@);
        }
        let name = names[i].as_str();
        let dir = join2("/sys/fs/cgroup/", name);
        let ghost before = plan.deep_view();
        push_step(&mut plan, mkdir_step(dir.as_str(), 0o666));
        push_step(
            &mut plan,
            mount_step(name, dir.as_str(), "cgroup", locked_flags(), name, Severity::Required),
        );
        assert(plan.deep_view() =~= before + cgroup_steps(name@));
        i += 1;
    }
    assert(all.take(names.len() as int) =~= all);
    extend(&mut plan, build_closing_steps());
    plan
}

/// The whole topology for a kernel whose enabled controllers are `names`.
pub fn topology_plan(names: &Vec<String>) -> (plan: Vec<Step>)
    ensures
        plan.deep_view() == topology(names.deep_view()),
{
    let mut plan = mounts_before_cgroups();
    extend(&mut plan, mounts_after_cgroups(names));
    plan
}

/// The whole topology for a kernel whose `/proc/cgroups` reads
/// `proc_cgroups`: the fixed mounts, one hierarchy for each enabled
/// controller in the order of the file, and the closing steps.
pub fn do_mounts(proc_cgroups: &[u8]) -> (plan: Vec<Step>)
    ensures
        plan.deep_view() == topology(enabled_cgroups(csv_rows(proc_cgroups@, CGROUP_DELIMITER))),
{
    let names = cgroup_parse(proc_cgroups);
    topology_plan(&names)
}

/// The mounts that must be there after bring-up, whatever the kernel
/// lists: the required rows of the mount table.
pub open spec fn required_mounts() -> Seq<StepModel> {
    let relatime = locked().plus(MountFlag::Relatime);
    seq![
        mount_row("proc"@, "/proc"@, "proc"@, relatime, ""@, Severity::Required),
        mount_row("tmpfs"@, "/run"@, "tmpfs"@, relatime, "size=10%,mode=755"@, Severity::Required),
        mount_row("tmpfs"@, "/tmp"@, "tmpfs"@, relatime, "size=10%,mode=1777"@, Severity::Required),
        mount_row("tmpfs"@, "/var"@, "tmpfs"@, relatime, "size=50%,mode=755"@, Severity::Required),
        mount_row(
            "dev"@,
            "/dev"@,
            "devtmpfs"@,
            MountFlags::none().plus(MountFlag::Nosuid).plus(MountFlag::Noexec).plus(
                MountFlag::Relatime,
            ),
            "size=10m,nr_inodes=248418,mode=755"@,
            Severity::Required,
        ),
        mount_row("mqueue"@, "/dev/mqueue"@, "mqueue"@, locked(), ""@, Severity::Required),
        mount_row("shm"@, "/dev/shm"@, "tmpfs"@, locked(), "mode=1777"@, Severity::Required),
        mount_row(
            "devpts"@,
            "/dev/pts"@,
            "devpts"@,
            MountFlags::none().plus(MountFlag::Nosuid).plus(MountFlag::Nodev),
            "gid=5,mode=0620"@,
            Severity::Required,
        ),
        mount_row("sysfs"@, "/sys"@, "sysfs"@, locked(), ""@, Severity::Required),
        mount_row(
            "cgroup_root"@,
            "/sys/fs/cgroup"@,
            "tmpfs"@,
            locked(),
            "mode=755,size=10m"@,
            Severity::Required,
        ),
        mount_row(
            "cgroup"@,
            "/sys/fs/cgroup/systemd"@,
            "cgroup"@,
            MountFlags::none(),
            "none,name=systemd"@,
            Severity::Required,
        ),
        mount_row(
            ""@,
            "/"@,
            ""@,
            MountFlags::none().plus(MountFlag::Rec).plus(MountFlag::Shared),
            ""@,
            Severity::Required,
        ),
    ]
}

/// The character devices that must exist under `/dev`.
pub open spec fn required_devices() -> Seq<StepModel> {
    seq![
        char_row("/dev/console"@, 0o600, 5, 1),
        char_row("/dev/tty1"@, 0o620, 4, 1),
        char_row("/dev/tty"@, 0o666, 5, 0),
        char_row("/dev/null"@, 0o666, 1, 3),
        char_row("/dev/kmsg"@, 0o660, 1, 11),
    ]
}

/// The links that must exist under `/dev`, each into `/proc`.
pub open spec fn required_links() -> Seq<StepModel> {
    seq![
        StepModel::Symlink { target: "/proc/self/fd"@, link: "/dev/fd"@ },
        StepModel::Symlink { target: "/proc/self/fd/0"@, link: "/dev/stdin"@ },
        StepModel::Symlink { target: "/proc/self/fd/1"@, link: "/dev/stdout"@ },
        StepModel::Symlink { target: "/proc/self/fd/2"@, link: "/dev/stderr"@ },
        StepModel::Symlink { target: "/proc/kcore"@, link: "/dev/kcore"@ },
    ]
}

/// A step of the topology is a step of one of its parts.
proof fn lemma_topology_parts(names: Seq<Seq<char>>, step: StepModel)
    ensures
        topology(names).contains(step) <==> early_mounts().contains(step)
            || var_skeleton().contains(step) || dev_nodes().contains(step)
            || dev_mounts().contains(step) || optional_mounts().contains(step)
            || cgroup_root().contains(step) || cgroup_mounts(names).contains(step)
            || closing_steps().contains(step),
{
    let a = early_mounts();
    let b = var_skeleton();
    let c = dev_nodes();
    let d = dev_mounts();
    let e = optional_mounts();
    let f = cgroup_root();
    lemma_concat_contains(a, b, step);
    lemma_concat_contains(a + b, c, step);
    lemma_concat_contains(a + b + c, d, step);
    lemma_concat_contains(a + b + c + d, e, step);
    lemma_concat_contains(a + b + c + d + e, f, step);
    lemma_concat_contains(cgroup_mounts(names), closing_steps(), step);
    lemma_concat_contains(before_cgroups(), after_cgroups(names), step);
}

/// Every required row of the mount table is a step of the topology,
/// whatever controllers the kernel lists.
pub proof fn lemma_required_mounts_present(names: Seq<Seq<char>>, i: int)
    requires
        0 <= i < required_mounts().len(),
    ensures
        topology(names).contains(required_mounts()[i]),
{
    let row = required_mounts()[i];
    lemma_topology_parts(names, row);
    if i == 0 {
        assert(early_mounts()[0] == row);
    } else if i == 1 {
        assert(early_mounts()[2] == row);
    } else if i == 2 {
        assert(early_mounts()[3] == row);
    } else if i == 3 {
        assert(early_mounts()[4] == row);
    } else if i == 4 {
        assert(dev_nodes()[0] == row);
    } else if i == 5 {
        assert(dev_mounts()[3] == row);
    } else if i == 6 {
        assert(dev_mounts()[4] == row);
    } else if i == 7 {
        assert(dev_mounts()[5] == row);
    } else if i == 8 {
        assert(dev_mounts()[6] == row);
    } else if i == 9 {
        assert(cgroup_root()[0] == row);
    } else if i == 10 {
        assert(closing_steps()[2] == row);
    } else {
        assert(closing_steps()[3] == row);
    }
}

/// Every step among the controllers' steps is the directory or the mount
/// of one of the controllers.
proof fn lemma_cgroup_mounts_shape(names: Seq<Seq<char>>, step: StepModel)
    requires
        cgroup_mounts(names).contains(step),
    ensures
        exists|k: int|
            0 <= k < names.len() && (step == cgroup_mount(#[trigger] names[k]) || step
                == (StepModel::Mkdir { path: cgroup_dir(names[k]), mode: 0o666 })),
    decreases names.len(),
{
    if names.len() > 0 {
        let head = names.drop_last();
        lemma_concat_contains(cgroup_mounts(head), cgroup_steps(names.last()), step);
        if cgroup_mounts(head).contains(step) {
            lemma_cgroup_mounts_shape(head, step);
            let k = choose|k: int|
                0 <= k < head.len() && (step == cgroup_mount(#[trigger] head[k]) || step
                    == (StepModel::Mkdir { path: cgroup_dir(head[k]), mode: 0o666 }));
            assert(names[k] == head[k]);
        } else {
            let k = names.len() - 1;
            assert(names[k] == names.last());
        }
    }
}

/// Every required device node is created by the topology, and the topology
/// creates no other device node: each has exactly its mode, major and
/// minor number.
pub proof fn lemma_device_nodes_exact(names: Seq<Seq<char>>, step: StepModel)
    ensures
        step is Mkchar ==> (topology(names).contains(step) <==> required_devices().contains(step)),
{
    if step is Mkchar {
        lemma_topology_parts(names, step);
        if cgroup_mounts(names).contains(step) {
            lemma_cgroup_mounts_shape(names, step);
        }
        if required_devices().contains(step) {
            let i = choose|i: int| 0 <= i < required_devices().len() && required_devices()[i] == step;
            assert(dev_nodes()[i + 1] == step);
        }
        if dev_nodes().contains(step) {
            let i = choose|i: int| 0 <= i < dev_nodes().len() && dev_nodes()[i] == step;
            assert(1 <= i <= 5);
            assert(required_devices()[i - 1] == step);
        }
        if early_mounts().contains(step) {
            let i = choose|i: int| 0 <= i < early_mounts().len() && early_mounts()[i] == step;
        }
        if var_skeleton().contains(step) {
            let i = choose|i: int| 0 <= i < var_skeleton().len() && var_skeleton()[i] == step;
        }
        if dev_mounts().contains(step) {
            let i = choose|i: int| 0 <= i < dev_mounts().len() && dev_mounts()[i] == step;
        }
        if optional_mounts().contains(step) {
            let i = choose|i: int| 0 <= i < optional_mounts().len() && optional_mounts()[i] == step;
        }
        if cgroup_root().contains(step) {
            let i = choose|i: int| 0 <= i < cgroup_root().len() && cgroup_root()[i] == step;
        }
        if closing_steps().contains(step) {
            let i = choose|i: int| 0 <= i < closing_steps().len() && closing_steps()[i] == step;
        }
    }
}

/// The directory and the mount of each controller are among the
/// controllers' steps.
proof fn lemma_cgroup_mounts_hold(names: Seq<Seq<char>>, k: int)
    requires
        0 <= k < names.len(),
    ensures
        cgroup_mounts(names).contains(cgroup_mount(names[k])),
        cgroup_mounts(names).contains(StepModel::Mkdir { path: cgroup_dir(names[k]), mode: 0o666 }),
    decreases names.len(),
{
    let head = names.drop_last();
    let tail = cgroup_steps(names.last());
    lemma_concat_contains(cgroup_mounts(head), tail, cgroup_mount(names[k]));
    lemma_concat_contains(
        cgroup_mounts(head),
        tail,
        StepModel::Mkdir { path: cgroup_dir(names[k]), mode: 0o666 },
    );
    if k == names.len() - 1 {
        assert(tail[1] == cgroup_mount(names[k]));
        assert(tail[0] == (StepModel::Mkdir { path: cgroup_dir(names[k]), mode: 0o666 }));
    } else {
        assert(head[k] == names[k]);
        lemma_cgroup_mounts_hold(head, k);
    }
}

/// Every required link is created by the topology, and the topology
/// creates no other link.
pub proof fn lemma_links_exact(names: Seq<Seq<char>>, step: StepModel)
    ensures
        step is Symlink ==> (topology(names).contains(step) <==> required_links().contains(step)),
{
    if step is Symlink {
        lemma_topology_parts(names, step);
        if cgroup_mounts(names).contains(step) {
            lemma_cgroup_mounts_shape(names, step);
        }
        if required_links().contains(step) {
            let i = choose|i: int| 0 <= i < required_links().len() && required_links()[i] == step;
            assert(dev_nodes()[i + 6] == step);
        }
        if dev_nodes().contains(step) {
            let i = choose|i: int| 0 <= i < dev_nodes().len() && dev_nodes()[i] == step;
            assert(6 <= i <= 10);
            assert(required_links()[i - 6] == step);
        }
        if early_mounts().contains(step) {
            let i = choose|i: int| 0 <= i < early_mounts().len() && early_mounts()[i] == step;
        }
        if var_skeleton().contains(step) {
            let i = choose|i: int| 0 <= i < var_skeleton().len() && var_skeleton()[i] == step;
        }
        if dev_mounts().contains(step) {
            let i = choose|i: int| 0 <= i < dev_mounts().len() && dev_mounts()[i] == step;
        }
        if optional_mounts().contains(step) {
            let i = choose|i: int| 0 <= i < optional_mounts().len() && optional_mounts()[i] == step;
        }
        if cgroup_root().contains(step) {
            let i = choose|i: int| 0 <= i < cgroup_root().len() && cgroup_root()[i] == step;
        }
        if closing_steps().contains(step) {
            let i = choose|i: int| 0 <= i < closing_steps().len() && closing_steps()[i] == step;
        }
    }
}

/// The topology remounts `/` once, as its second step, and nothing else:
/// no other step carries the remount flag.
pub proof fn lemma_root_remounted_once(names: Seq<Seq<char>>, i: int)
    requires
        0 <= i < topology(names).len(),
    ensures
        topology(names)[1] == mount_row(
            ""@,
            "/"@,
            ""@,
            MountFlags::none().plus(MountFlag::Remount),
            ""@,
            Severity::BestEffort,
        ),
        (topology(names)[i] is Mount && topology(names)[i]->Mount_0.flags.remount) ==> i == 1,
{
    let plan = topology(names);
    assert(plan[1] == early_mounts()[1]);
    if i < early_mounts().len() {
        assert(plan[i] == early_mounts()[i]);
    } else {
        lemma_tail_has_no_remount(names, i);
    }
}

/// No step after the early mounts carries the remount flag.
proof fn lemma_tail_has_no_remount(names: Seq<Seq<char>>, i: int)
    requires
        early_mounts().len() <= i < topology(names).len(),
    ensures
        !(topology(names)[i] is Mount && topology(names)[i]->Mount_0.flags.remount),
{
    let plan = topology(names);
    let step = plan[i];
    let rest = var_skeleton() + dev_nodes() + dev_mounts() + optional_mounts() + cgroup_root()
        + after_cgroups(names);
    assert(plan =~= early_mounts() + rest);
    assert(step == rest[i - early_mounts().len()]);
    assert(rest.contains(step));
    lemma_concat_contains(var_skeleton(), dev_nodes(), step);
    lemma_concat_contains(var_skeleton() + dev_nodes(), dev_mounts(), step);
    lemma_concat_contains(var_skeleton() + dev_nodes() + dev_mounts(), optional_mounts(), step);
    lemma_concat_contains(
        var_skeleton() + dev_nodes() + dev_mounts() + optional_mounts(),
        cgroup_root(),
        step,
    );
    lemma_concat_contains(
        var_skeleton() + dev_nodes() + dev_mounts() + optional_mounts() + cgroup_root(),
        after_cgroups(names),
        step,
    );
    lemma_concat_contains(cgroup_mounts(names), closing_steps(), step);
    if cgroup_mounts(names).contains(step) {
        lemma_cgroup_mounts_shape(names, step);
    }
    if var_skeleton().contains(step) {
        let k = choose|k: int| 0 <= k < var_skeleton().len() && var_skeleton()[k] == step;
    }
    if dev_nodes().contains(step) {
        let k = choose|k: int| 0 <= k < dev_nodes().len() && dev_nodes()[k] == step;
    }
    if dev_mounts().contains(step) {
        let k = choose|k: int| 0 <= k < dev_mounts().len() && dev_mounts()[k] == step;
    }
    if optional_mounts().contains(step) {
        let k = choose|k: int| 0 <= k < optional_mounts().len() && optional_mounts()[k] == step;
    }
    if cgroup_root().contains(step) {
        let k = choose|k: int| 0 <= k < cgroup_root().len() && cgroup_root()[k] == step;
    }
    if closing_steps().contains(step) {
        let k = choose|k: int| 0 <= k < closing_steps().len() && closing_steps()[k] == step;
    }
}

/// The name of every enabled row is among the enabled controllers.
pub proof fn lemma_enabled_row_listed(rows: Seq<Option<Seq<Seq<char>>>>, i: int)
    requires
        0 <= i < rows.len(),
        enabled_name(rows[i]) is Some,
    ensures
        enabled_cgroups(rows).contains(enabled_name(rows[i])->0),
    decreases rows.len(),
{
    let pick = |row: Option<Seq<Seq<char>>>| enabled_name(row);
    let head = rows.drop_last();
    if i == rows.len() - 1 {
        let out = rows.filter_map(pick);
        assert(out == head.filter_map(pick) + seq![enabled_name(rows[i])->0]);
        assert(out[out.len() - 1] == enabled_name(rows[i])->0);
    } else {
        assert(head[i] == rows[i]);
        lemma_enabled_row_listed(head, i);
        let name = enabled_name(rows[i])->0;
        let k = choose|k: int| 0 <= k < head.filter_map(pick).len() && head.filter_map(pick)[k] == name;
        assert(rows.filter_map(pick)[k] == name);
    }
}

/// For every row of `/proc/cgroups` that names an enabled controller, the
/// topology creates `/sys/fs/cgroup/<name>` and mounts the controller's
/// hierarchy there.
pub proof fn lemma_enabled_cgroups_mounted(rows: Seq<Option<Seq<Seq<char>>>>, i: int)
    requires
        0 <= i < rows.len(),
        enabled_name(rows[i]) is Some,
    ensures
        ({
            let name = enabled_name(rows[i])->0;
            let plan = topology(enabled_cgroups(rows));
            &&& plan.contains(cgroup_mount(name))
            &&& plan.contains(StepModel::Mkdir { path: cgroup_dir(name), mode: 0o666 })
        }),
{
    let name = enabled_name(rows[i])->0;
    let names = enabled_cgroups(rows);
    lemma_enabled_row_listed(rows, i);
    let k = choose|k: int| 0 <= k < names.len() && names[k] == name;
    lemma_cgroup_mounts_hold(names, k);
    lemma_topology_parts(names, cgroup_mount(name));
    lemma_topology_parts(names, StepModel::Mkdir { path: cgroup_dir(name), mode: 0o666 });
}

/// The mount points that a run of `plan` establishes.
pub open spec fn mount_points(plan: Seq<StepModel>) -> Set<Seq<char>> {
    Set::new(
        |target: Seq<char>|
            exists|i: int|
                0 <= i < plan.len() && (#[trigger] plan[i]) is Mount && plan[i]->Mount_0.target
                    == target,
    )
}

/// Running the topology twice in succession establishes the mount points
/// of one run, and no others.
pub proof fn lemma_topology_idempotent(names: Seq<Seq<char>>)
    ensures
        mount_points(topology(names) + topology(names)) == mount_points(topology(names)),
{
    let once = topology(names);
    let twice = once + once;
    assert forall|target: Seq<char>| mount_points(twice).contains(target) implies mount_points(
        once,
    ).contains(target) by {
        let i = choose|i: int|
            0 <= i < twice.len() && (#[trigger] twice[i]) is Mount && twice[i]->Mount_0.target
                == target;
        if i < once.len() {
            assert(once[i] == twice[i]);
        } else {
            assert(once[i - once.len()] == twice[i]);
        }
    }
    assert forall|target: Seq<char>| mount_points(once).contains(target) implies mount_points(
        twice,
    ).contains(target) by {
        let i = choose|i: int|
            0 <= i < once.len() && (#[trigger] once[i]) is Mount && once[i]->Mount_0.target
                == target;
        assert(twice[i] == once[i]);
    }
    assert(mount_points(twice) =~= mount_points(once));
}

} // verus!
