use microinit::effect::{Action, Invocation, Outcome};
use microinit::supervisor::{
    do_reap, do_shutdown, parse_mounts, regular_files, run_init, sort_paths, unmount_plan,
    unmount_strategy, EntryKind, HookEntry, MountedFs, ShutdownAction, ShutdownState, Strategy,
    Unmount,
};

fn unmount(target: &str, strategy: Strategy) -> Unmount {
    Unmount { target: target.to_string(), strategy }
}

fn entry(path: &str, kind: EntryKind) -> HookEntry {
    HookEntry { path: path.to_string(), kind }
}

fn strings(list: &[&str]) -> Vec<String> {
    list.iter().map(|s| s.to_string()).collect()
}

#[test]
fn reaping_goes_on_while_children_are_reaped() {
    assert!(do_reap(1234));
    assert!(do_reap(1));
    assert!(!do_reap(0));
    assert!(!do_reap(-1));
    assert!(!do_reap(i32::MIN));
}

#[test]
fn unmount_decisions() {
    for fs in ["ext2", "ext3", "ext4", "btrfs", "xfs", "vfat", "msdos", "overlay"] {
        assert_eq!(unmount_strategy(fs), Some(Strategy::Plain), "{}", fs);
    }
    for fs in ["nfs", "nfs4", "cifs"] {
        assert_eq!(unmount_strategy(fs), Some(Strategy::Detach), "{}", fs);
    }
    for fs in ["proc", "sysfs", "tmpfs", "devtmpfs", "cgroup", "", "ext", "ext5", "EXT4", "nfs3", "overlayfs"] {
        assert_eq!(unmount_strategy(fs), None, "{}", fs);
    }
}

#[test]
fn local_is_unmounted_and_networked_detached() {
    let data = b"/dev/sda1 /data ext4 rw,relatime 0 0\nserver:/export /home nfs4 rw 0 0\n";
    assert_eq!(
        parse_mounts(data),
        vec![unmount("/data", Strategy::Plain), unmount("/home", Strategy::Detach)]
    );
    assert_eq!(do_shutdown("poweroff"), ShutdownAction::Poweroff);
}

#[test]
fn parse_mounts_reads_a_kernel_table() {
    let data = b"rootfs / rootfs rw 0 0\nproc /proc proc rw,nosuid,nodev,noexec,relatime 0 0\n/dev/mmcblk0p2 /boot vfat rw 0 0\ntmpfs /run tmpfs rw 0 0\n//nas/share /mnt/nas cifs rw 0 0\noverlay /var/lib/c overlay rw 0 0\n";
    assert_eq!(
        parse_mounts(data),
        vec![
            unmount("/boot", Strategy::Plain),
            unmount("/mnt/nas", Strategy::Detach),
            unmount("/var/lib/c", Strategy::Plain),
        ]
    );
    assert_eq!(parse_mounts(b""), vec![]);
}

#[test]
fn parse_mounts_passes_over_bad_rows() {
    let data = b"/dev/a /a ext4 rw 0 0\n/dev/b /b ext4\n/dev/c /c xfs rw 0 0\n";
    assert_eq!(parse_mounts(data), vec![unmount("/a", Strategy::Plain), unmount("/c", Strategy::Plain)]);
    // five fields throughout: no row is a mount
    assert_eq!(parse_mounts(b"/dev/a /a ext4 rw 0\n"), vec![]);
}

#[test]
fn unmount_plan_by_position() {
    let row = |f: &[&str]| Some(strings(f));
    let rows = vec![
        row(&["d", "/x", "ext4", "rw", "0", "0"]),
        None,
        row(&["d", "/y", "nfs", "rw", "0", "0", "more"]),
        row(&["d", "/z", "ext4", "rw", "0"]),
        row(&["d", "/p", "proc", "rw", "0", "0"]),
    ];
    assert_eq!(unmount_plan(&rows), vec![unmount("/x", Strategy::Plain), unmount("/y", Strategy::Detach)]);
    let mount = MountedFs::from_row(&rows[0]).unwrap();
    assert_eq!(
        mount,
        MountedFs {
            device: "d".to_string(),
            mount_point: "/x".to_string(),
            fstype: "ext4".to_string(),
            flags: "rw".to_string(),
        }
    );
    assert_eq!(MountedFs::from_row(&rows[1]), None);
    assert_eq!(MountedFs::from_row(&rows[3]), None);
}

#[test]
fn hooks_are_the_regular_files_in_lexicographic_order() {
    let entries = vec![
        entry("/etc/init.d/S20app", EntryKind::Regular),
        entry("/etc/init.d/dir", EntryKind::Other),
        entry("/etc/init.d/S10net", EntryKind::Regular),
        entry("/etc/init.d/broken", EntryKind::Unreadable),
        entry("/etc/init.d/S10", EntryKind::Regular),
    ];
    assert_eq!(regular_files(&entries), strings(&["/etc/init.d/S20app", "/etc/init.d/S10net", "/etc/init.d/S10"]));
    let spawn = |path: &str| Action::Spawn(Invocation { program: path.to_string(), args: vec![] });
    assert_eq!(
        run_init(&entries),
        vec![spawn("/etc/init.d/S10"), spawn("/etc/init.d/S10net"), spawn("/etc/init.d/S20app")]
    );
    assert_eq!(run_init(&vec![]), vec![]);
}

#[test]
fn sort_paths_matches_std() {
    let input = strings(&["b", "a", "", "ab", "a", "Z", "é", "/x/2", "/x/10"]);
    let mut expect = input.clone();
    expect.sort();
    assert_eq!(sort_paths(&input), expect);
}

#[test]
fn shutdown_word() {
    assert_eq!(do_shutdown("poweroff"), ShutdownAction::Poweroff);
    assert_eq!(do_shutdown("reboot"), ShutdownAction::Reboot);
    assert_eq!(do_shutdown(""), ShutdownAction::Reboot);
    assert_eq!(do_shutdown("Poweroff"), ShutdownAction::Reboot);
}

#[test]
fn shutdown_runs_through_whatever_fails() {
    let mut state = ShutdownState::Running;
    let mut seen = vec![state];
    for outcome in [Outcome::Done, Outcome::Failed, Outcome::TimedOut, Outcome::Failed, Outcome::Failed] {
        state = state.next(&outcome);
        seen.push(state);
    }
    assert_eq!(
        seen,
        vec![
            ShutdownState::Running,
            ShutdownState::Draining,
            ShutdownState::Syncing,
            ShutdownState::Unmounting,
            ShutdownState::Finalize,
            ShutdownState::Finalize,
        ]
    );
}
