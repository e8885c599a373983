//! The device layer's cold plug: the devices that the kernel found before
//! anyone listened are announced again, and their drivers loaded.

use crate::effect::{invocation, Invocation, InvocationModel};
use crate::text::{join2, starts_with};
use vstd::prelude::*;

verus! {

/// One step of the cold plug.
#[derive(Debug, Clone, PartialEq, Eq)]
pub enum HotplugStep {
    /// Write `data` to the file at `path`.
    Write { path: String, data: String },
    /// Write `add` to this uevent file, if the file exists.
    Trigger(String),
    /// Run the command to its end.
    Run(Invocation),
    /// For each file that matches the pattern, read the alias it holds and
    /// run the command of [`modalias`] for it; go on after a failure.
    LoadDrivers(String),
}

/// The mathematical value of a [`HotplugStep`].
pub enum HotplugModel {
    Write { path: Seq<char>, data: Seq<char> },
    Trigger(Seq<char>),
    Run(InvocationModel),
    LoadDrivers(Seq<char>),
}

impl DeepView for HotplugStep {
    type V = HotplugModel;

    open spec fn deep_view(&self) -> HotplugModel {
        match self {
            HotplugStep::Write { path, data } => HotplugModel::Write { path: path@, data: data@ },
            HotplugStep::Trigger(path) => HotplugModel::Trigger(path@),
            HotplugStep::Run(command) => HotplugModel::Run(command.deep_view()),
            HotplugStep::LoadDrivers(pattern) => HotplugModel::LoadDrivers(pattern@),
        }
    }
}

/// The uevent file of the child `name` of `/sys/devices`, if the child is
/// a USB device: its name begins with `usb`.
pub open spec fn uevent_of(name: Seq<char>) -> Option<Seq<char>> {
    if "usb"@.is_prefix_of(name) {
        Some("/sys/devices/"@ + name + "/uevent"@)
    } else {
        None
    }
}

/// The trigger for the child `name`, if it is a USB device.
pub open spec fn trigger_of(name: Seq<char>) -> Option<HotplugModel> {
    match uevent_of(name) {
        Some(path) => Some(HotplugModel::Trigger(path)),
        None => None,
    }
}

/// The files that hold the aliases of the devices on every bus.
pub open spec fn modalias_pattern() -> Seq<char> {
    "/sys/bus/*/devices/*/modalias"@
}

/// `/sbin/modprobe -abq <alias>`: load the module that matches best, and
/// say nothing.
pub open spec fn modprobe_command(alias: Seq<char>) -> InvocationModel {
    invocation("/sbin/modprobe"@, seq!["-abq"@, alias])
}

/// `mdev -s`: have the device manager scan for the devices that are there.
pub open spec fn scan_command() -> InvocationModel {
    invocation("mdev"@, seq!["-s"@])
}

/// The cold plug, for a `/sys/devices` whose children are named
/// `children`: the device manager is installed as the kernel's hotplug
/// handler; each USB child is triggered, in the order of `children`; the
/// device manager scans once; the drivers are loaded.
pub open spec fn hotplug_plan(children: Seq<Seq<char>>) -> Seq<HotplugModel> {
    seq![HotplugModel::Write { path: "/proc/sys/kernel/hotplug"@, data: "/sbin/mdev"@ }]
        + children.filter_map(|name: Seq<char>| trigger_of(name)) + seq![
        HotplugModel::Run(scan_command()),
        HotplugModel::LoadDrivers(modalias_pattern()),
    ]
}

/// The uevent file of the child `name` of `/sys/devices`, if it is a USB
/// device.
pub fn uevent_path(name: &str) -> (path: Option<String>)
    ensures
        path.deep_view() == uevent_of(name@),
{
    if starts_with(name, "usb") {
        let mut path = join2("/sys/devices/", name);
        path.append("/uevent");
        Some(path)
    } else {
        None
    }
}

/// The command that loads the driver for the device alias `alias`.
pub fn modalias(alias: &str) -> (command: Invocation)
    ensures
        command.deep_view() == modprobe_command(alias@),
{
    let command = Invocation::new("/sbin/modprobe").arg("-abq").arg(alias);
    assert(command.deep_view().args =~= modprobe_command(alias@).args);
    command
}

/// The steps of the cold plug, in order: see [`hotplug_plan`].
pub fn do_hotplug(children: &Vec<String>) -> (plan: Vec<HotplugStep>)
    ensures
        plan.deep_view() == hotplug_plan(children.deep_view()),
{
    let ghost all = children.deep_view();
    let ghost pick = |name: Seq<char>| trigger_of(name);
    let ghost first = seq![
        HotplugModel::Write { path: "/proc/sys/kernel/hotplug"@, data: "/sbin/mdev"@ },
    ];
    let mut plan: Vec<HotplugStep> = Vec::new();
    plan.push(
        HotplugStep::Write {
            path: String::from_str("/proc/sys/kernel/hotplug"),
            data: String::from_str("/sbin/mdev"),
        },
    );
    let mut i: usize = 0;
    assert(all.take(0) =~= Seq::<Seq<char>>::empty());
    assert(plan.deep_view() =~= first + all.take(0).filter_map(pick));
    while i < children.len()
        invariant
            i <= children.len(),
            all == children.deep_view(),
            all.len() == children.len(),
            pick == |name: Seq<char>| trigger_of(name),
            first == seq![
                HotplugModel::Write { path: "/proc/sys/kernel/hotplug"@, data: "/sbin/mdev"@ },
            ],
            plan.deep_view() == first + all.take(i as int).filter_map(pick),
        decreases children.len() - i,
    {
        proof {
            assert(all.take(i + 1).drop_last() =~= all.take(i as int));
            assert(all.take(i + 1).last() == children[i as int]@);
        }
        let ghost before = plan.deep_view();
        match uevent_path(children[i].as_str()) {
            Some(path) => {
                plan.push(HotplugStep::Trigger(path));
                assert(plan.deep_view() =~= before + seq![HotplugModel::Trigger(path@)]);
                assert(first + all.take(i as int).filter_map(pick) + seq![
                    HotplugModel::Trigger(path@),
                ] =~= first + (all.take(i as int).filter_map(pick) + seq![
                    HotplugModel::Trigger(path@),
                ]));
            },
            None => {},
        }
        i += 1;
    }
    assert(all.take(children.len() as int) =~= all);
    let ghost before = plan.deep_view();
    let scan = Invocation::new("mdev").arg("-s");
    assert(scan.deep_view().args =~= scan_command().args);
    plan.push(HotplugStep::Run(scan));
    plan.push(HotplugStep::LoadDrivers(String::from_str("/sys/bus/*/devices/*/modalias")));
    assert(plan.deep_view() =~= before + seq![
        HotplugModel::Run(scan_command()),
        HotplugModel::LoadDrivers(modalias_pattern()),
    ]);
    plan
}

} // verus!
