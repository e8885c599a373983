use nix::mount::MsFlags;
use microinit::cgroups::{cgroup_parse, enabled_subsystems, CgroupSubsystem};
use microinit::mounts::{
    do_mounts, mounts_after_cgroups, mounts_before_cgroups, topology_plan, DeviceKind, DeviceNode,
    MountFlag, MountFlags, MountSpec, Severity, Step,
};

fn flags(list: &[MountFlag]) -> MountFlags {
    let mut out = MountFlags::empty();
    for f in list {
        out = out.with(*f);
    }
    out
}

fn mount(source: &str, target: &str, fstype: &str, fl: &[MountFlag], data: &str, severity: Severity) -> Step {
    Step::Mount(MountSpec {
        source: source.to_string(),
        target: target.to_string(),
        fstype: fstype.to_string(),
        flags: flags(fl),
        data: data.to_string(),
        severity,
    })
}

fn mkdir(path: &str, mode: u32) -> Step {
    Step::Mkdir { path: path.to_string(), mode }
}

fn chardev(path: &str, mode: u32, major: u64, minor: u64) -> Step {
    Step::Mkchar(DeviceNode { path: path.to_string(), kind: DeviceKind::Char, mode, major, minor })
}

fn symlink(target: &str, link: &str) -> Step {
    Step::Symlink { target: target.to_string(), link: link.to_string() }
}

const LOCKED: [MountFlag; 3] = [MountFlag::Nosuid, MountFlag::Nodev, MountFlag::Noexec];
const RELA: [MountFlag; 4] = [MountFlag::Nosuid, MountFlag::Nodev, MountFlag::Noexec, MountFlag::Relatime];

fn targets(plan: &[Step]) -> Vec<String> {
    let mut out: Vec<String> = Vec::new();
    for step in plan {
        if let Step::Mount(m) = step {
            if !out.contains(&m.target) {
                out.push(m.target.clone());
            }
        }
    }
    out.sort();
    out
}

#[test]
fn flag_bits_are_those_of_the_kernel() {
    assert_eq!(MountFlags::empty().bits(), 0);
    assert_eq!(flags(&[MountFlag::Rdonly]).bits(), 1);
    assert_eq!(flags(&[MountFlag::Nosuid]).bits(), 2);
    assert_eq!(flags(&[MountFlag::Nodev]).bits(), 4);
    assert_eq!(flags(&[MountFlag::Noexec]).bits(), 8);
    assert_eq!(flags(&[MountFlag::Remount]).bits(), 32);
    assert_eq!(flags(&[MountFlag::Move]).bits(), 8192);
    assert_eq!(flags(&[MountFlag::Rec]).bits(), 16384);
    assert_eq!(flags(&[MountFlag::Shared]).bits(), 1 << 20);
    assert_eq!(flags(&[MountFlag::Relatime]).bits(), 1 << 21);
    assert_eq!(flags(&RELA).bits(), 2 | 4 | 8 | (1 << 21));
    assert_eq!(flags(&[MountFlag::Rec, MountFlag::Shared]).bits(), 16384 | (1 << 20));
    assert_eq!(flags(&[MountFlag::Nosuid, MountFlag::Nosuid]).bits(), 2);
}

#[test]
fn flag_bits_agree_with_nix() {
    assert_eq!(flags(&[MountFlag::Rdonly]).bits(), MsFlags::MS_RDONLY.bits() as u64);
    assert_eq!(flags(&[MountFlag::Nosuid]).bits(), MsFlags::MS_NOSUID.bits() as u64);
    assert_eq!(flags(&[MountFlag::Nodev]).bits(), MsFlags::MS_NODEV.bits() as u64);
    assert_eq!(flags(&[MountFlag::Noexec]).bits(), MsFlags::MS_NOEXEC.bits() as u64);
    assert_eq!(flags(&[MountFlag::Remount]).bits(), MsFlags::MS_REMOUNT.bits() as u64);
    assert_eq!(flags(&[MountFlag::Move]).bits(), MsFlags::MS_MOVE.bits() as u64);
    assert_eq!(flags(&[MountFlag::Rec]).bits(), MsFlags::MS_REC.bits() as u64);
    assert_eq!(flags(&[MountFlag::Shared]).bits(), MsFlags::MS_SHARED.bits() as u64);
    assert_eq!(flags(&[MountFlag::Relatime]).bits(), MsFlags::MS_RELATIME.bits() as u64);
}

#[test]
fn flag_membership() {
    let f = flags(&[MountFlag::Nosuid, MountFlag::Relatime]);
    assert!(f.contains(MountFlag::Nosuid));
    assert!(f.contains(MountFlag::Relatime));
    assert!(!f.contains(MountFlag::Nodev));
    assert!(!MountFlags::empty().contains(MountFlag::Move));
}

#[test]
fn topology_begins_with_proc_and_working_areas() {
    let plan = mounts_before_cgroups();
    assert_eq!(plan[0], mount("proc", "/proc", "proc", &RELA, "", Severity::Required));
    assert_eq!(plan[1], mount("", "/", "", &[MountFlag::Remount], "", Severity::BestEffort));
    assert_eq!(plan[2], mount("tmpfs", "/run", "tmpfs", &RELA, "size=10%,mode=755", Severity::Required));
    assert_eq!(plan[3], mount("tmpfs", "/tmp", "tmpfs", &RELA, "size=10%,mode=1777", Severity::Required));
    assert_eq!(plan[4], mount("tmpfs", "/var", "tmpfs", &RELA, "size=50%,mode=755", Severity::Required));
}

#[test]
fn topology_fixed_part_is_complete_and_ordered() {
    let plan = mounts_before_cgroups();
    let expect = vec![
        mount("proc", "/proc", "proc", &RELA, "", Severity::Required),
        mount("", "/", "", &[MountFlag::Remount], "", Severity::BestEffort),
        mount("tmpfs", "/run", "tmpfs", &RELA, "size=10%,mode=755", Severity::Required),
        mount("tmpfs", "/tmp", "tmpfs", &RELA, "size=10%,mode=1777", Severity::Required),
        mount("tmpfs", "/var", "tmpfs", &RELA, "size=50%,mode=755", Severity::Required),
        mkdir("/var/cache", 0o755),
        mkdir("/var/empty", 0o555),
        mkdir("/var/lib", 0o755),
        mkdir("/var/local", 0o755),
        mkdir("/var/lock", 0o755),
        mkdir("/var/log", 0o755),
        mkdir("/var/opt", 0o755),
        mkdir("/var/spool", 0o755),
        mkdir("/var/tmp", 0o1777),
        mount("dev", "/dev", "devtmpfs", &[MountFlag::Nosuid, MountFlag::Noexec, MountFlag::Relatime], "size=10m,nr_inodes=248418,mode=755", Severity::Required),
        chardev("/dev/console", 0o600, 5, 1),
        chardev("/dev/tty1", 0o620, 4, 1),
        chardev("/dev/tty", 0o666, 5, 0),
        chardev("/dev/null", 0o666, 1, 3),
        chardev("/dev/kmsg", 0o660, 1, 11),
        symlink("/proc/self/fd", "/dev/fd"),
        symlink("/proc/self/fd/0", "/dev/stdin"),
        symlink("/proc/self/fd/1", "/dev/stdout"),
        symlink("/proc/self/fd/2", "/dev/stderr"),
        symlink("/proc/kcore", "/dev/kcore"),
        mkdir("/dev/mqueue", 0o1777),
        mkdir("/dev/shm", 0o1777),
        mkdir("/dev/pts", 0o755),
        mount("mqueue", "/dev/mqueue", "mqueue", &LOCKED, "", Severity::Required),
        mount("shm", "/dev/shm", "tmpfs", &LOCKED, "mode=1777", Severity::Required),
        mount("devpts", "/dev/pts", "devpts", &[MountFlag::Nosuid, MountFlag::Nodev], "gid=5,mode=0620", Severity::Required),
        mount("sysfs", "/sys", "sysfs", &LOCKED, "", Severity::Required),
        mount("securityfs", "/sys/kernel/security", "securityfs", &LOCKED, "", Severity::BestEffort),
        mount("debugfs", "/sys/kernel/debug", "debugfs", &LOCKED, "", Severity::BestEffort),
        mount("configfs", "/sys/kernel/config", "configfs", &LOCKED, "", Severity::BestEffort),
        mount("fusectl", "/sys/fs/fuse/connections", "fusectl", &LOCKED, "", Severity::BestEffort),
        mount("selinuxfs", "/sys/fs/selinux", "selinuxfs", &LOCKED, "", Severity::BestEffort),
        mount("pstore", "/sys/fs/pstore", "pstore", &LOCKED, "", Severity::BestEffort),
        mount("bpffs", "/sys/fs/bpf", "bpf", &[MountFlag::Nosuid], "", Severity::BestEffort),
        mount("efivarfs", "/sys/firmware/efi/efivars", "efivarfs", &LOCKED, "", Severity::BestEffort),
        mount("binfmt_misc", "/proc/sys/fs/binfmt_misc", "binfmt_misc", &LOCKED, "", Severity::BestEffort),
        mount("cgroup_root", "/sys/fs/cgroup", "tmpfs", &LOCKED, "mode=755,size=10m", Severity::Required),
    ];
    assert_eq!(plan, expect);
}

#[test]
fn topology_after_cgroups_mounts_each_controller_in_order() {
    let plan = mounts_after_cgroups(&vec!["cpu".to_string(), "memory".to_string()]);
    let expect = vec![
        mkdir("/sys/fs/cgroup/cpu", 0o666),
        mount("cpu", "/sys/fs/cgroup/cpu", "cgroup", &LOCKED, "cpu", Severity::Required),
        mkdir("/sys/fs/cgroup/memory", 0o666),
        mount("memory", "/sys/fs/cgroup/memory", "cgroup", &LOCKED, "memory", Severity::Required),
        Step::Write { path: "/sys/fs/cgroup/memory/memory.use_hierarchy".to_string(), data: "1".to_string() },
        mkdir("/sys/fs/cgroup/systemd", 0o666),
        mount("cgroup", "/sys/fs/cgroup/systemd", "cgroup", &[], "none,name=systemd", Severity::Required),
        mount("", "/", "", &[MountFlag::Rec, MountFlag::Shared], "", Severity::Required),
    ];
    assert_eq!(plan, expect);
}

#[test]
fn topology_without_controllers_still_closes() {
    let plan = mounts_after_cgroups(&vec![]);
    assert_eq!(plan.len(), 4);
    assert_eq!(plan[3], mount("", "/", "", &[MountFlag::Rec, MountFlag::Shared], "", Severity::Required));
}

#[test]
fn topology_plan_is_both_parts() {
    let names = vec!["cpu".to_string()];
    let mut expect = mounts_before_cgroups();
    expect.extend(mounts_after_cgroups(&names));
    assert_eq!(topology_plan(&names), expect);
}

#[test]
fn required_rows_are_in_the_plan() {
    let plan = do_mounts(b"cpu\t2\t1\t1\n");
    let required = vec![
        mount("proc", "/proc", "proc", &RELA, "", Severity::Required),
        mount("tmpfs", "/run", "tmpfs", &RELA, "size=10%,mode=755", Severity::Required),
        mount("tmpfs", "/tmp", "tmpfs", &RELA, "size=10%,mode=1777", Severity::Required),
        mount("tmpfs", "/var", "tmpfs", &RELA, "size=50%,mode=755", Severity::Required),
        mount("dev", "/dev", "devtmpfs", &[MountFlag::Nosuid, MountFlag::Noexec, MountFlag::Relatime], "size=10m,nr_inodes=248418,mode=755", Severity::Required),
        mount("mqueue", "/dev/mqueue", "mqueue", &LOCKED, "", Severity::Required),
        mount("shm", "/dev/shm", "tmpfs", &LOCKED, "mode=1777", Severity::Required),
        mount("devpts", "/dev/pts", "devpts", &[MountFlag::Nosuid, MountFlag::Nodev], "gid=5,mode=0620", Severity::Required),
        mount("sysfs", "/sys", "sysfs", &LOCKED, "", Severity::Required),
        mount("cgroup_root", "/sys/fs/cgroup", "tmpfs", &LOCKED, "mode=755,size=10m", Severity::Required),
        mount("cpu", "/sys/fs/cgroup/cpu", "cgroup", &LOCKED, "cpu", Severity::Required),
        mount("cgroup", "/sys/fs/cgroup/systemd", "cgroup", &[], "none,name=systemd", Severity::Required),
        mount("", "/", "", &[MountFlag::Rec, MountFlag::Shared], "", Severity::Required),
    ];
    for row in &required {
        assert!(plan.contains(row), "missing {:?}", row);
    }
}

#[test]
fn device_nodes_are_exactly_the_five() {
    let plan = do_mounts(b"");
    let nodes: Vec<&Step> = plan.iter().filter(|s| matches!(s, Step::Mkchar(_))).collect();
    let expect = vec![
        chardev("/dev/console", 0o600, 5, 1),
        chardev("/dev/tty1", 0o620, 4, 1),
        chardev("/dev/tty", 0o666, 5, 0),
        chardev("/dev/null", 0o666, 1, 3),
        chardev("/dev/kmsg", 0o660, 1, 11),
    ];
    assert_eq!(nodes, expect.iter().collect::<Vec<&Step>>());
}

#[test]
fn dev_is_mounted_before_its_nodes_and_mount_points() {
    let plan = do_mounts(b"");
    let at = |step: &Step| plan.iter().position(|s| s == step).unwrap();
    let dev = at(&mount("dev", "/dev", "devtmpfs", &[MountFlag::Nosuid, MountFlag::Noexec, MountFlag::Relatime], "size=10m,nr_inodes=248418,mode=755", Severity::Required));
    assert!(dev < at(&chardev("/dev/null", 0o666, 1, 3)));
    assert!(at(&mkdir("/dev/pts", 0o755)) < at(&mount("devpts", "/dev/pts", "devpts", &[MountFlag::Nosuid, MountFlag::Nodev], "gid=5,mode=0620", Severity::Required)));
    assert!(at(&mount("tmpfs", "/var", "tmpfs", &RELA, "size=50%,mode=755", Severity::Required)) < at(&mkdir("/var/log", 0o755)));
    assert!(at(&mkdir("/var/log", 0o755)) < dev);
}

#[test]
fn only_enabled_controllers_are_mounted() {
    let data = b"cpu\t2\t1\t1\nmemory\t3\t1\t0\n";
    assert_eq!(cgroup_parse(data), vec!["cpu".to_string()]);
    let plan = do_mounts(data);
    assert!(plan.contains(&mkdir("/sys/fs/cgroup/cpu", 0o666)));
    assert!(plan.contains(&mount("cpu", "/sys/fs/cgroup/cpu", "cgroup", &LOCKED, "cpu", Severity::Required)));
    assert!(!plan.contains(&mkdir("/sys/fs/cgroup/memory", 0o666)));
    assert!(!targets(&plan).contains(&"/sys/fs/cgroup/memory".to_string()));
    assert!(plan.contains(&Step::Write {
        path: "/sys/fs/cgroup/memory/memory.use_hierarchy".to_string(),
        data: "1".to_string(),
    }));
}

#[test]
fn cgroup_parse_reads_the_kernel_table() {
    let data = b"#subsys_name\thierarchy\tnum_cgroups\tenabled\ncpuset\t0\t1\t1\ncpu\t0\t1\t1\nmemory\t0\t1\t0\npids\t0\t1\t1\n";
    assert_eq!(cgroup_parse(data), vec!["cpuset".to_string(), "cpu".to_string(), "pids".to_string()]);
    assert_eq!(cgroup_parse(b""), Vec::<String>::new());
}

#[test]
fn cgroup_parse_passes_over_bad_rows() {
    // the second and third row do not have the four fields of the first
    let data = b"cpu\t2\t1\t1\nshort\t1\nlong\t1\t1\t1\t1\npids\t0\t1\t1\n";
    assert_eq!(cgroup_parse(data), vec!["cpu".to_string(), "pids".to_string()]);
    // three fields throughout: no row is a record
    assert_eq!(cgroup_parse(b"cpu\t2\t1\npids\t0\t1\n"), Vec::<String>::new());
}

#[test]
fn enabled_subsystems_by_position() {
    let row = |f: &[&str]| Some(f.iter().map(|s| s.to_string()).collect::<Vec<String>>());
    let rows = vec![
        row(&["cpu", "2", "1", "1"]),
        None,
        row(&["memory", "3", "1", "0"]),
        row(&["io", "", "", "1", "extra"]),
        row(&["short", "1", "1"]),
        row(&["blank", "1", "1", ""]),
        row(&["ten", "1", "1", "10"]),
    ];
    assert_eq!(enabled_subsystems(&rows), vec!["cpu".to_string(), "io".to_string()]);
}

#[test]
fn cgroup_record_fields() {
    let row = Some(vec!["io".to_string(), "".to_string(), "7".to_string(), "1".to_string()]);
    let record = CgroupSubsystem::from_row(&row).unwrap();
    assert_eq!(
        record,
        CgroupSubsystem {
            subsys_name: "io".to_string(),
            hierarchy: None,
            num_cgroups: Some("7".to_string()),
            enabled: Some("1".to_string()),
        }
    );
    assert!(record.is_enabled());
    assert_eq!(CgroupSubsystem::from_row(&None), None);
    assert_eq!(CgroupSubsystem::from_row(&Some(vec!["a".to_string()])), None);
}

#[test]
fn bring_up_twice_gives_the_same_mount_points() {
    let once = do_mounts(b"cpu\t2\t1\t1\n");
    let mut twice = once.clone();
    twice.extend(once.clone());
    assert_eq!(targets(&once), targets(&twice));
    assert_eq!(do_mounts(b"cpu\t2\t1\t1\n"), once);
}

#[test]
fn device_numbers() {
    let node = |major: u64, minor: u64| DeviceNode {
        path: "/dev/x".to_string(),
        kind: DeviceKind::Char,
        mode: 0o600,
        major,
        minor,
    };
    assert_eq!(node(1, 3).device_id(), 0x103);
    assert_eq!(node(5, 1).device_id(), 0x501);
    assert_eq!(node(4, 1).device_id(), 0x401);
    assert_eq!(node(1, 11).device_id(), 0x10b);
    assert_eq!(node(0, 0).device_id(), 0);
    assert_eq!(node(0xfff, 0xff).device_id(), 0xfffff);
    assert_eq!(node(0x1000, 0).device_id(), 0x1000 << 32);
    assert_eq!(node(0, 0x100).device_id(), 0x100 << 12);
    assert_eq!(node(259, 65536).device_id(), (259 << 8) | (65536 << 12));
}
