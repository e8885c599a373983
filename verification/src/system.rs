//! The system initializer: resource limits, the hostname, the resolver
//! file, the clock and the loopback interface.

use crate::effect::{invocation, Invocation, InvocationModel};
use crate::mounts::{mkdir_step, push_step, write_step, Step, StepModel};
use crate::text::{join2, remove_char, str_eq, trim, trimmed, without};
use vstd::prelude::*;

verus! {

/// A resource whose limit is set at bring-up.
#[derive(Debug, Clone, Copy, PartialEq, Eq, Structural)]
pub enum Resource {
    /// The number of open files.
    Nofile,
    /// The number of processes.
    Nproc,
}

/// A bound on a resource: a number, or no bound.
#[derive(Debug, Clone, Copy, PartialEq, Eq, Structural)]
pub enum Bound {
    Limited(u64),
    Unlimited,
}

/// The soft and the hard limit of a resource.
#[derive(Debug, Clone, Copy, PartialEq, Eq, Structural)]
pub struct ResourceLimit {
    pub resource: Resource,
    pub soft: Bound,
    pub hard: Bound,
}

/// The most files that a process may have open.
pub const NOFILE_LIMIT: u64 = 1048576;

/// The limits to set: open files at [`NOFILE_LIMIT`], processes without a
/// bound; soft and hard limit alike.
pub open spec fn limits() -> Seq<ResourceLimit> {
    seq![
        ResourceLimit {
            resource: Resource::Nofile,
            soft: Bound::Limited(NOFILE_LIMIT),
            hard: Bound::Limited(NOFILE_LIMIT),
        },
        ResourceLimit {
            resource: Resource::Nproc,
            soft: Bound::Unlimited,
            hard: Bound::Unlimited,
        },
    ]
}

/// The resource limits to set, in order.
pub fn do_limits() -> (out: Vec<ResourceLimit>)
    ensures
        out@ == limits(),
{
    let mut out: Vec<ResourceLimit> = Vec::new();
    out.push(
        ResourceLimit {
            resource: Resource::Nofile,
            soft: Bound::Limited(NOFILE_LIMIT),
            hard: Bound::Limited(NOFILE_LIMIT),
        },
    );
    out.push(
        ResourceLimit {
            resource: Resource::Nproc,
            soft: Bound::Unlimited,
            hard: Bound::Unlimited,
        },
    );
    assert(out@ =~= limits());
    out
}

/// What to do about the hostname.
#[derive(Debug, Clone, PartialEq, Eq)]
pub enum Hostname {
    /// Set it to this name.
    Assign(String),
    /// Leave the name that the kernel has.
    Keep,
    /// No name can be derived: warn, and leave the kernel's default.
    Missing,
}

/// The mathematical value of a [`Hostname`].
pub enum HostnameModel {
    Assign(Seq<char>),
    Keep,
    Missing,
}

impl DeepView for Hostname {
    type V = HostnameModel;

    open spec fn deep_view(&self) -> HostnameModel {
        match self {
            Hostname::Assign(name) => HostnameModel::Assign(name@),
            Hostname::Keep => HostnameModel::Keep,
            Hostname::Missing => HostnameModel::Missing,
        }
    }
}

/// Whether the kernel has no hostname of its own: the name is empty, or
/// the name `(none)` that a kernel reports before one is set.
pub open spec fn is_unset(current: Seq<char>) -> bool {
    current.len() == 0 || current == "(none)"@
}

/// The hardware address in the text of an interface's address file: the
/// text without the white space around it and without its colons.
pub open spec fn mac_digits(mac: Seq<char>) -> Seq<char> {
    without(trimmed(mac), ':')
}

/// The hostname derived from a hardware address: `ukama-` and the
/// address's digits.
pub open spec fn mac_hostname(mac: Seq<char>) -> Seq<char> {
    "ukama-"@ + mac_digits(mac)
}

/// What to do about the hostname, given the text of `/etc/hostname`
/// (empty if the file is missing), the kernel's current hostname, and the
/// text of the first interface's address file (empty if it is missing).
///
/// - A configured name is set as it stands.
/// - Else a name that the kernel already has is kept.
/// - Else the name is derived from the hardware address.
/// - Else no name is to be had.
pub open spec fn hostname_of(
    configured: Seq<char>,
    current: Seq<char>,
    mac: Seq<char>,
) -> HostnameModel {
    if configured.len() > 0 {
        HostnameModel::Assign(configured)
    } else if !is_unset(current) {
        HostnameModel::Keep
    } else if trimmed(mac).len() > 0 {
        HostnameModel::Assign(mac_hostname(mac))
    } else {
        HostnameModel::Missing
    }
}

/// What to do about the hostname: see [`hostname_of`].
pub fn do_hostname(configured: &str, current: &str, mac: &str) -> (decision: Hostname)
    ensures
        decision.deep_view() == hostname_of(configured@, current@, mac@),
{
    if configured.unicode_len() > 0 {
        return Hostname::Assign(String::from_str(configured));
    }
    if current.unicode_len() > 0 && !str_eq(current, "(none)") {
        return Hostname::Keep;
    }
    let address = trim(mac);
    if address.as_str().unicode_len() > 0 {
        let digits = remove_char(address.as_str(), ':');
        Hostname::Assign(join2("ukama-", digits.as_str()))
    } else {
        Hostname::Missing
    }
}

/// The directory that holds `path`, as `std::path::Path::parent` gives it:
/// `None` where the path ends in a root or is empty.
pub uninterp spec fn parent_of(path: Seq<char>) -> Option<Seq<char>>;

/// Calls `std::path::Path::parent` on `path`. Not proved: that the result
/// is [`parent_of`], which names what that method returns for this path.
#[verifier::external_body]
fn parent_dir(path: &str) -> (parent: Option<String>)
    ensures
        parent.deep_view() == parent_of(path@),
{
    match std::path::Path::new(path).parent() {
        Some(dir) => Some(dir.to_string_lossy().into_owned()),
        None => None,
    }
}

/// The steps that make the resolver file that a link points to: its
/// directory, where it has one, with mode 0755; then the file itself,
/// empty.
pub open spec fn resolver_steps(target: Seq<char>, parent: Option<Seq<char>>) -> Seq<StepModel> {
    let file = StepModel::Write { path: target, data: ""@ };
    match parent {
        Some(dir) => seq![StepModel::Mkdir { path: dir, mode: 0o755 }, file],
        None => seq![file],
    }
}

/// The steps that make the resolver file `target`, whose directory is
/// `parent`.
pub fn resolver_scaffold(target: &str, parent: Option<&str>) -> (plan: Vec<Step>)
    ensures
        plan.deep_view() == resolver_steps(target@, parent.deep_view()),
{
    let mut plan: Vec<Step> = Vec::new();
    assert(plan.deep_view() =~= Seq::<StepModel>::empty());
    match parent {
        Some(dir) => {
            push_step(&mut plan, mkdir_step(dir, 0o755));
        },
        None => {},
    }
    push_step(&mut plan, write_step(target, ""));
    assert(plan.deep_view() =~= resolver_steps(target@, parent.deep_view()));
    plan
}

/// The steps that scaffold the resolver file, given what `/etc/resolv.conf`
/// points to, or `None` if it is no symbolic link: then nothing is done.
pub fn do_resolvconf(link: Option<&str>) -> (plan: Vec<Step>)
    ensures
        plan.deep_view() == (match link {
            Some(target) => resolver_steps(target@, parent_of(target@)),
            None => Seq::empty(),
        }),
{
    match link {
        Some(target) => {
            let parent = parent_dir(target);
            match &parent {
                Some(dir) => resolver_scaffold(target, Some(dir.as_str())),
                None => resolver_scaffold(target, None),
            }
        },
        None => {
            let plan: Vec<Step> = Vec::new();
            assert(plan.deep_view() =~= Seq::<StepModel>::empty());
            plan
        },
    }
}

/// `/sbin/hwclock --hctosys --utc`: copy the hardware clock, which keeps
/// UTC, to the system clock.
pub open spec fn clock_command() -> InvocationModel {
    invocation("/sbin/hwclock"@, seq!["--hctosys"@, "--utc"@])
}

/// The command that sets the system clock from the hardware clock.
pub fn do_clock() -> (command: Invocation)
    ensures
        command.deep_view() == clock_command(),
{
    let command = Invocation::new("/sbin/hwclock").arg("--hctosys").arg("--utc");
    assert(command.deep_view().args =~= clock_command().args);
    command
}

/// The three commands that bring the loopback interface up: its address,
/// its route, and the link.
pub open spec fn loopback_commands() -> Seq<InvocationModel> {
    seq![
        invocation(
            "/sbin/ip"@,
            seq![
                "addr"@,
                "add"@,
                "127.0.0.1/8"@,
                "dev"@,
                "lo"@,
                "brd"@,
                "+"@,
                "scope"@,
                "host"@,
            ],
        ),
        invocation(
            "/sbin/ip"@,
            seq!["route"@, "add"@, "127.0.0.0/8"@, "dev"@, "lo"@, "scope"@, "host"@],
        ),
        invocation("/sbin/ip"@, seq!["link"@, "set"@, "lo"@, "up"@]),
    ]
}

/// The commands that bring the loopback interface up, in order.
pub fn do_loopback() -> (commands: Vec<Invocation>)
    ensures
        commands.deep_view() == loopback_commands(),
{
    let address = Invocation::new("/sbin/ip").arg("addr").arg("add").arg("127.0.0.1/8").arg(
        "dev",
    ).arg("lo").arg("brd").arg("+").arg("scope").arg("host");
    assert(address.deep_view().args =~= loopback_commands()[0].args);
    let route = Invocation::new("/sbin/ip").arg("route").arg("add").arg("127.0.0.0/8").arg(
        "dev",
    ).arg("lo").arg("scope").arg("host");
    assert(route.deep_view().args =~= loopback_commands()[1].args);
    let link = Invocation::new("/sbin/ip").arg("link").arg("set").arg("lo").arg("up");
    assert(link.deep_view().args =~= loopback_commands()[2].args);
    let mut commands: Vec<Invocation> = Vec::new();
    commands.push(address);
    commands.push(route);
    commands.push(link);
    assert(commands.deep_view() =~= loopback_commands());
    commands
}

} // verus!
