use microinit::effect::Invocation;
use microinit::hotplug::{do_hotplug, modalias, uevent_path, HotplugStep};
use microinit::mounts::Step;
use microinit::system::{
    do_clock, do_hostname, do_limits, do_loopback, do_resolvconf, resolver_scaffold, Bound,
    Hostname, Resource, ResourceLimit, NOFILE_LIMIT,
};

fn command(program: &str, args: &[&str]) -> Invocation {
    Invocation { program: program.to_string(), args: args.iter().map(|s| s.to_string()).collect() }
}

#[test]
fn limits_are_nofile_and_nproc() {
    assert_eq!(NOFILE_LIMIT, 1_048_576);
    assert_eq!(
        do_limits(),
        vec![
            ResourceLimit { resource: Resource::Nofile, soft: Bound::Limited(1048576), hard: Bound::Limited(1048576) },
            ResourceLimit { resource: Resource::Nproc, soft: Bound::Unlimited, hard: Bound::Unlimited },
        ]
    );
}

#[test]
fn hostname_from_mac() {
    assert_eq!(do_hostname("", "", "aa:bb:cc:dd:ee:ff"), Hostname::Assign("ukama-aabbccddeeff".to_string()));
}

#[test]
fn hostname_falls_back_to_the_mac() {
    assert_eq!(
        do_hostname("", "(none)", "02:42:ac:11:00:02\n"),
        Hostname::Assign("ukama-0242ac110002".to_string())
    );
}

#[test]
fn hostname_configured_wins() {
    assert_eq!(do_hostname("node7", "old", "aa:bb"), Hostname::Assign("node7".to_string()));
    assert_eq!(do_hostname("node7", "", ""), Hostname::Assign("node7".to_string()));
}

#[test]
fn hostname_of_the_kernel_is_kept() {
    assert_eq!(do_hostname("", "appliance", "aa:bb:cc:dd:ee:ff"), Hostname::Keep);
    assert_eq!(do_hostname("", "(none) ", ""), Hostname::Keep);
}

#[test]
fn hostname_without_mac_is_missing() {
    assert_eq!(do_hostname("", "", ""), Hostname::Missing);
    assert_eq!(do_hostname("", "(none)", "\n"), Hostname::Missing);
    assert_eq!(do_hostname("", "", "  \t"), Hostname::Missing);
}

#[test]
fn resolver_scaffold_makes_directory_then_file() {
    assert_eq!(
        do_resolvconf(Some("/run/resolvconf/resolv.conf")),
        vec![
            Step::Mkdir { path: "/run/resolvconf".to_string(), mode: 0o755 },
            Step::Write { path: "/run/resolvconf/resolv.conf".to_string(), data: String::new() },
        ]
    );
    assert_eq!(
        do_resolvconf(Some("/resolv.conf")),
        vec![
            Step::Mkdir { path: "/".to_string(), mode: 0o755 },
            Step::Write { path: "/resolv.conf".to_string(), data: String::new() },
        ]
    );
    assert_eq!(
        do_resolvconf(Some("resolv.conf")),
        vec![
            Step::Mkdir { path: "".to_string(), mode: 0o755 },
            Step::Write { path: "resolv.conf".to_string(), data: String::new() },
        ]
    );
}

#[test]
fn resolver_scaffold_without_link_does_nothing() {
    assert_eq!(do_resolvconf(None), vec![]);
}

#[test]
fn resolver_scaffold_without_parent_makes_the_file_only() {
    assert_eq!(do_resolvconf(Some("/")), vec![Step::Write { path: "/".to_string(), data: String::new() }]);
    assert_eq!(
        resolver_scaffold("/a/b", None),
        vec![Step::Write { path: "/a/b".to_string(), data: String::new() }]
    );
    assert_eq!(
        resolver_scaffold("/a/b", Some("/a")),
        vec![
            Step::Mkdir { path: "/a".to_string(), mode: 0o755 },
            Step::Write { path: "/a/b".to_string(), data: String::new() },
        ]
    );
}

#[test]
fn clock_command_line() {
    assert_eq!(do_clock(), command("/sbin/hwclock", &["--hctosys", "--utc"]));
}

#[test]
fn loopback_command_lines() {
    assert_eq!(
        do_loopback(),
        vec![
            command("/sbin/ip", &["addr", "add", "127.0.0.1/8", "dev", "lo", "brd", "+", "scope", "host"]),
            command("/sbin/ip", &["route", "add", "127.0.0.0/8", "dev", "lo", "scope", "host"]),
            command("/sbin/ip", &["link", "set", "lo", "up"]),
        ]
    );
}

#[test]
fn uevent_files_of_usb_children() {
    assert_eq!(uevent_path("usb1"), Some("/sys/devices/usb1/uevent".to_string()));
    assert_eq!(uevent_path("usb"), Some("/sys/devices/usb/uevent".to_string()));
    assert_eq!(uevent_path("platform"), None);
    assert_eq!(uevent_path("us"), None);
    assert_eq!(uevent_path("xusb"), None);
}

#[test]
fn modprobe_command_line() {
    assert_eq!(modalias("usb:v1D6Bp0002"), command("/sbin/modprobe", &["-abq", "usb:v1D6Bp0002"]));
}

#[test]
fn cold_plug_order() {
    let children = vec!["platform".to_string(), "usb2".to_string(), "system".to_string(), "usb1".to_string()];
    assert_eq!(
        do_hotplug(&children),
        vec![
            HotplugStep::Write { path: "/proc/sys/kernel/hotplug".to_string(), data: "/sbin/mdev".to_string() },
            HotplugStep::Trigger("/sys/devices/usb2/uevent".to_string()),
            HotplugStep::Trigger("/sys/devices/usb1/uevent".to_string()),
            HotplugStep::Run(command("mdev", &["-s"])),
            HotplugStep::LoadDrivers("/sys/bus/*/devices/*/modalias".to_string()),
        ]
    );
    assert_eq!(do_hotplug(&vec![]).len(), 3);
}
