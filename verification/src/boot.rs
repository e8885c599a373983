//! The entry: what the process is, from the name it was called by and the
//! state it finds, and which phases it runs.

use crate::effect::{invocation, Invocation, InvocationModel};
use crate::pivot::{root_fs, root_of, RootFs};
use crate::supervisor::ShutdownAction;
use crate::text::{chars_of, contains, has_substring, str_eq};
use vstd::prelude::*;

verus! {

/// What the process was called to do.
#[derive(Debug, Clone, Copy, PartialEq, Eq, Structural)]
pub enum Role {
    Init,
    Shutdown,
}

/// What the process found at its start. Determined once.
#[derive(Debug, Clone, Copy, PartialEq, Eq)]
pub struct BootEnvironment {
    pub root_fs: RootFs,
    pub in_userspace: bool,
    pub role: Role,
    pub shutdown_action: Option<ShutdownAction>,
}

/// The part of `path` after its last `/`; all of it where it has none.
pub open spec fn base_name(path: Seq<char>) -> Seq<char>
    decreases path.len(),
{
    if path.len() == 0 || path.last() == '/' {
        Seq::empty()
    } else {
        base_name(path.drop_last()).push(path.last())
    }
}

/// The part of `path` after its last `/`.
pub fn basename(path: &str) -> (name: String)
    ensures
        name@ == base_name(path@),
{
    let pc = chars_of(path);
    let n: usize = pc.len();
    let mut i: usize = n;
    assert(path@.take(n as int) =~= path@);
    assert(path@.subrange(n as int, n as int) =~= Seq::<char>::empty());
    assert(base_name(path@) + Seq::<char>::empty() =~= base_name(path@));
    while i > 0 && pc[i - 1] != '/'
        invariant
            i <= n,
            n == pc.len(),
            pc@ == path@,
            base_name(path@) == base_name(path@.take(i as int)) + path@.subrange(
                i as int,
                n as int,
            ),
        decreases i,
    {
        proof {
            let head = path@.take(i as int);
            assert(head.drop_last() =~= path@.take(i - 1));
            assert(head.last() == path@[i - 1]);
            assert(base_name(head) == base_name(path@.take(i - 1)).push(path@[i - 1]));
            assert(base_name(path@.take(i - 1)).push(path@[i - 1]) + path@.subrange(
                i as int,
                n as int,
            ) =~= base_name(path@.take(i - 1)) + path@.subrange(i - 1, n as int));
        }
        i -= 1;
    }
    proof {
        let head = path@.take(i as int);
        if i > 0 {
            assert(head.last() == path@[i - 1]);
        }
        assert(base_name(head) =~= Seq::<char>::empty());
        assert(Seq::<char>::empty() + path@.subrange(i as int, n as int) =~= path@.subrange(
            i as int,
            n as int,
        ));
    }
    String::from_str(path.substring_char(i, n))
}

/// Which of the two programs the process is.
#[derive(Debug, Clone, Copy, PartialEq, Eq, Structural)]
pub enum Entry {
    /// The init: it brings the system up, or shuts it down.
    BringUp,
    /// The service binary: it works on the workloads.
    Service,
}

/// The program that goes by the name `argv0`: the init under the names
/// `init`, `preInit`, `rc.init` and `rc.shutdown`, the service binary under
/// any other. Only the part after the last `/` counts.
pub open spec fn entry_of(argv0: Seq<char>) -> Entry {
    let name = base_name(argv0);
    if name == "init"@ || name == "preInit"@ || name == "rc.init"@ || name == shutdown_name() {
        Entry::BringUp
    } else {
        Entry::Service
    }
}

/// The program that goes by the name `argv0`: see [`entry_of`].
pub fn entry_point(argv0: &str) -> (entry: Entry)
    ensures
        entry == entry_of(argv0@),
{
    let name = basename(argv0);
    let name = name.as_str();
    if str_eq(name, "init") || str_eq(name, "preInit") || str_eq(name, "rc.init") || str_eq(
        name,
        "rc.shutdown",
    ) {
        Entry::BringUp
    } else {
        Entry::Service
    }
}

/// The name under which the process shuts the system down.
pub open spec fn shutdown_name() -> Seq<char> {
    "rc.shutdown"@
}

/// What a process finds that was called as `argv0`, on a root whose
/// filesystem magic is `magic`, with `/proc/self` readable or not: it
/// shuts the system down, by powering it off, if the last part of its name
/// is `rc.shutdown`; under any other name it brings the system up.
pub open spec fn environment_of(argv0: Seq<char>, magic: i64, in_userspace: bool) -> BootEnvironment {
    let shutdown = base_name(argv0) == shutdown_name();
    BootEnvironment {
        root_fs: root_of(magic),
        in_userspace,
        role: if shutdown {
            Role::Shutdown
        } else {
            Role::Init
        },
        shutdown_action: if shutdown {
            Some(ShutdownAction::Poweroff)
        } else {
            None
        },
    }
}

/// What the process finds at its start: see [`environment_of`].
pub fn boot_environment(argv0: &str, magic: i64, in_userspace: bool) -> (env: BootEnvironment)
    ensures
        env == environment_of(argv0@, magic, in_userspace),
{
    let name = basename(argv0);
    if str_eq(name.as_str(), "rc.shutdown") {
        BootEnvironment {
            root_fs: root_fs(magic),
            in_userspace,
            role: Role::Shutdown,
            shutdown_action: Some(ShutdownAction::Poweroff),
        }
    } else {
        BootEnvironment {
            root_fs: root_fs(magic),
            in_userspace,
            role: Role::Init,
            shutdown_action: None,
        }
    }
}

/// One phase of the process's work.
#[derive(Debug, Clone, Copy, PartialEq, Eq, Structural)]
pub enum Phase {
    /// Pivot the root.
    Pivot,
    /// Build the mount topology, with the device nodes and links.
    Mounts,
    /// Become the subreaper.
    Subreaper,
    /// Cold plug the devices.
    Hotplug,
    /// Set the clock.
    Clock,
    /// Bring the loopback interface up.
    Loopback,
    /// Set the resource limits.
    Limits,
    /// Set the hostname.
    Hostname,
    /// Scaffold the resolver file.
    Resolvconf,
    /// Start the executables of `/etc/init.d`.
    RunInit,
    /// Reap children.
    Reap,
    /// Replace this process with `/sbin/init`.
    Handover,
    /// Run the shutdown.
    Shutdown,
}

/// The phases of a bring-up from nothing: the topology, the devices, the
/// system, the workloads.
pub open spec fn bring_up() -> Seq<Phase> {
    seq![
        Phase::Mounts,
        Phase::Subreaper,
        Phase::Hotplug,
        Phase::Clock,
        Phase::Loopback,
        Phase::Limits,
        Phase::Hostname,
        Phase::Resolvconf,
        Phase::RunInit,
    ]
}

/// The phases that the process runs, in order.
///
/// - Called to shut down, it runs the shutdown.
/// - Inside a live userspace it skips the bring-up: it becomes the
///   subreaper, starts the executables of `/etc/init.d`, and reaps.
/// - On a root that the boot loader pivoted it brings the system up and
///   stays as its supervisor.
/// - On a RAM-backed root it pivots, brings the system up, and hands over
///   to `/sbin/init`.
pub open spec fn phases_of(env: BootEnvironment) -> Seq<Phase> {
    if env.role is Shutdown {
        seq![Phase::Shutdown]
    } else if env.in_userspace {
        seq![Phase::Subreaper, Phase::RunInit, Phase::Reap]
    } else if env.root_fs is Other {
        bring_up() + seq![Phase::Reap]
    } else {
        seq![Phase::Pivot] + bring_up() + seq![Phase::Handover]
    }
}

/// The phases that the process runs, in order: see [`phases_of`].
pub fn phases(env: &BootEnvironment) -> (plan: Vec<Phase>)
    ensures
        plan@ == phases_of(*env),
{
    let mut plan: Vec<Phase> = Vec::new();
    match env.role {
        Role::Shutdown => {
            plan.push(Phase::Shutdown);
            assert(plan@ =~= phases_of(*env));
            return plan;
        },
        Role::Init => {},
    }
    if env.in_userspace {
        plan.push(Phase::Subreaper);
        plan.push(Phase::RunInit);
        plan.push(Phase::Reap);
        assert(plan@ =~= phases_of(*env));
        return plan;
    }
    let pivoted = match env.root_fs {
        RootFs::Other => false,
        _ => true,
    };
    if pivoted {
        plan.push(Phase::Pivot);
    }
    plan.push(Phase::Mounts);
    plan.push(Phase::Subreaper);
    plan.push(Phase::Hotplug);
    plan.push(Phase::Clock);
    plan.push(Phase::Loopback);
    plan.push(Phase::Limits);
    plan.push(Phase::Hostname);
    plan.push(Phase::Resolvconf);
    plan.push(Phase::RunInit);
    if pivoted {
        plan.push(Phase::Handover);
    } else {
        plan.push(Phase::Reap);
    }
    assert(plan@ =~= phases_of(*env));
    plan
}

/// `/sbin/init`: the program that takes over at the handover.
pub open spec fn init_command() -> InvocationModel {
    invocation("/sbin/init"@, Seq::empty())
}

/// The program to replace this process with at the handover.
pub fn init_program() -> (command: Invocation)
    ensures
        command.deep_view() == init_command(),
{
    Invocation::new("/sbin/init")
}

/// What the service binary was called to do.
#[derive(Debug, Clone, PartialEq, Eq)]
pub enum SysCommand {
    /// Start the boot bundles.
    Onboot,
    /// Run the shutdown hook of the workloads.
    Onshutdown,
    /// Start the container engine.
    MicroCe,
    /// Stop the named service.
    Stop(String),
    /// Start the named service.
    Start(String),
    /// Restart the named service.
    Restart(String),
    /// Restart the container engine.
    UInit,
    /// Clean up the runtime's containers.
    Clean,
    /// Nothing that is known: print the usage and exit with 1.
    Usage,
}

/// The mathematical value of a [`SysCommand`].
pub enum SysCommandModel {
    Onboot,
    Onshutdown,
    MicroCe,
    Stop(Seq<char>),
    Start(Seq<char>),
    Restart(Seq<char>),
    UInit,
    Clean,
    Usage,
}

impl DeepView for SysCommand {
    type V = SysCommandModel;

    open spec fn deep_view(&self) -> SysCommandModel {
        match self {
            SysCommand::Onboot => SysCommandModel::Onboot,
            SysCommand::Onshutdown => SysCommandModel::Onshutdown,
            SysCommand::MicroCe => SysCommandModel::MicroCe,
            SysCommand::Stop(name) => SysCommandModel::Stop(name@),
            SysCommand::Start(name) => SysCommandModel::Start(name@),
            SysCommand::Restart(name) => SysCommandModel::Restart(name@),
            SysCommand::UInit => SysCommandModel::UInit,
            SysCommand::Clean => SysCommandModel::Clean,
            SysCommand::Usage => SysCommandModel::Usage,
        }
    }
}

/// What a call without arguments asks for, by the name of the binary.
pub open spec fn command_by_name(argv0: Seq<char>) -> SysCommandModel {
    if has_substring(argv0, "onboot"@) {
        SysCommandModel::Onboot
    } else if has_substring(argv0, "onshutdown"@) {
        SysCommandModel::Onshutdown
    } else if has_substring(argv0, "microCE"@) {
        SysCommandModel::MicroCe
    } else {
        SysCommandModel::Usage
    }
}

/// What a call with arguments asks for, by its first argument; a command
/// on a service needs the service's name as the second.
pub open spec fn command_by_word(args: Seq<Seq<char>>) -> SysCommandModel {
    let word = args[1];
    if word == "uInit"@ {
        SysCommandModel::UInit
    } else if word == "clean"@ {
        SysCommandModel::Clean
    } else if args.len() < 3 {
        SysCommandModel::Usage
    } else if word == "stop"@ {
        SysCommandModel::Stop(args[2])
    } else if word == "start"@ {
        SysCommandModel::Start(args[2])
    } else if word == "restart"@ {
        SysCommandModel::Restart(args[2])
    } else {
        SysCommandModel::Usage
    }
}

/// What the service binary was called to do, from all its arguments, the
/// name it was called by first.
pub open spec fn command_of(args: Seq<Seq<char>>) -> SysCommandModel {
    if args.len() == 0 {
        SysCommandModel::Usage
    } else if args.len() == 1 {
        command_by_name(args[0])
    } else {
        command_by_word(args)
    }
}

/// What the service binary was called to do: see [`command_of`].
pub fn sys_command(args: &Vec<String>) -> (command: SysCommand)
    ensures
        command.deep_view() == command_of(args.deep_view()),
{
    if args.len() == 0 {
        return SysCommand::Usage;
    }
    assert(args.deep_view()[0] == args[0]@);
    if args.len() == 1 {
        let name = args[0].as_str();
        return if contains(name, "onboot") {
            SysCommand::Onboot
        } else if contains(name, "onshutdown") {
            SysCommand::Onshutdown
        } else if contains(name, "microCE") {
            SysCommand::MicroCe
        } else {
            SysCommand::Usage
        };
    }
    assert(args.deep_view()[1] == args[1]@);
    let word = args[1].as_str();
    if str_eq(word, "uInit") {
        SysCommand::UInit
    } else if str_eq(word, "clean") {
        SysCommand::Clean
    } else if args.len() < 3 {
        SysCommand::Usage
    } else {
        assert(args.deep_view()[2] == args[2]@);
        if str_eq(word, "stop") {
            SysCommand::Stop(args[2].clone())
        } else if str_eq(word, "start") {
            SysCommand::Start(args[2].clone())
        } else if str_eq(word, "restart") {
            SysCommand::Restart(args[2].clone())
        } else {
            SysCommand::Usage
        }
    }
}

} // verus!
