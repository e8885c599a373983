use microinit::effect::{exit_code, Action, Invocation, Outcome};
use microinit::runc::{
    bundles_with_path, create_invocation, onboot, onshutdown, pid_file_path, runc_init,
    start_invocation, Bundle, WorkloadDriver,
};
use microinit::uconfig::{AppConfig, Config};

fn app(name: &str, path: Option<&str>) -> AppConfig {
    AppConfig {
        name: name.to_string(),
        image: None,
        version: "1".to_string(),
        path: path.map(String::from),
    }
}

fn run(program: &str, args: &[&str]) -> Action {
    Action::Run(
        Invocation {
            program: program.to_string(),
            args: args.iter().map(|s| s.to_string()).collect(),
        },
        10,
    )
}

fn create(runtime: &str, name: &str, path: &str) -> Action {
    let pid = format!("/run/log/onboot/{}", name);
    run(runtime, &["create", "--bundle", path, "--pid-file", &pid, name])
}

fn started(runtime: &str, apps: &[AppConfig]) -> WorkloadDriver {
    let mut driver = runc_init(runtime, &apps.to_vec());
    assert_eq!(driver.action(), Action::SetSubreaper);
    driver = driver.advance(&Outcome::Done);
    assert_eq!(driver.action(), Action::CreateDirAll("/run/log/onboot".to_string()));
    driver = driver.advance(&Outcome::Done);
    assert_eq!(driver.action(), Action::CreateDirAll("/var/log/onboot".to_string()));
    driver.advance(&Outcome::Done)
}

/// Drives to the end with outcomes picked by `answer`, and returns every
/// action in order.
fn drive(mut driver: WorkloadDriver, answer: &dyn Fn(&Action) -> Outcome) -> Vec<Action> {
    let mut trace = Vec::new();
    for _ in 0..1000 {
        let action = driver.action();
        trace.push(action.clone());
        if driver.is_finished() {
            return trace;
        }
        driver = driver.advance(&answer(&action));
    }
    panic!("the driver did not finish");
}

fn all_well(action: &Action) -> Outcome {
    match action {
        Action::Run(_, _) => Outcome::Exited(Some(0)),
        Action::ReadFile(_) => Outcome::Text("4711".to_string()),
        _ => Outcome::Done,
    }
}

#[test]
fn pid_file_lives_under_run_log_onboot() {
    assert_eq!(pid_file_path("svc"), "/run/log/onboot/svc");
}

#[test]
fn create_and_start_commands() {
    let bundle = Bundle { name: "svc".to_string(), path: "/bundles/svc".to_string() };
    assert_eq!(Action::Run(create_invocation("/usr/bin/crun", &bundle), 10), create("/usr/bin/crun", "svc", "/bundles/svc"));
    assert_eq!(Action::Run(start_invocation("/usr/bin/crun", "svc"), 10), run("/usr/bin/crun", &["start", "svc"]));
}

#[test]
fn bundles_without_path_are_passed_over() {
    let apps = vec![app("a", Some("/a")), app("b", None), app("c", Some("/c"))];
    let plan = bundles_with_path(&apps);
    assert_eq!(
        plan,
        vec![
            Bundle { name: "a".to_string(), path: "/a".to_string() },
            Bundle { name: "c".to_string(), path: "/c".to_string() },
        ]
    );
    let without = vec![app("a", Some("/a")), app("c", Some("/c"))];
    assert_eq!(bundles_with_path(&without), plan);
    assert_eq!(bundles_with_path(&vec![]), vec![]);
}

#[test]
fn boot_sequence_of_one_bundle() {
    let trace = drive(runc_init("/usr/bin/crun", &vec![app("svc", Some("/bundles/svc"))]), &all_well);
    assert_eq!(
        trace,
        vec![
            Action::SetSubreaper,
            Action::CreateDirAll("/run/log/onboot".to_string()),
            Action::CreateDirAll("/var/log/onboot".to_string()),
            Action::ProbeDir("/bundles/svc".to_string()),
            create("/usr/bin/crun", "svc", "/bundles/svc"),
            Action::ReadFile("/run/log/onboot/svc".to_string()),
            run("/usr/bin/crun", &["start", "svc"]),
            Action::RemoveFile("/run/log/onboot/svc".to_string()),
            Action::Finish(0),
        ]
    );
}

#[test]
fn bundles_are_attempted_in_configuration_order() {
    let apps = vec![app("one", Some("/1")), app("skipped", None), app("two", Some("/2")), app("three", Some("/3"))];
    let trace = drive(runc_init("rt", &apps), &all_well);
    let creates: Vec<&Action> = trace
        .iter()
        .filter(|a| matches!(a, Action::Run(c, _) if c.args[0] == "create"))
        .collect();
    assert_eq!(creates, vec![&create("rt", "one", "/1"), &create("rt", "two", "/2"), &create("rt", "three", "/3")]);
    let starts: Vec<String> = trace
        .iter()
        .filter_map(|a| match a {
            Action::Run(c, _) if c.args[0] == "start" => Some(c.args[1].clone()),
            _ => None,
        })
        .collect();
    assert_eq!(starts, vec!["one", "two", "three"]);
    let without: Vec<AppConfig> = apps.iter().filter(|a| a.path.is_some()).cloned().collect();
    assert_eq!(drive(runc_init("rt", &without), &all_well), trace);
}

#[test]
fn timed_out_create_fails_the_bundle_and_the_next_is_tried() {
    let apps = [app("svc", Some("/b/svc")), app("svc2", Some("/b/svc2"))];
    let mut driver = started("/usr/bin/crun", &apps);
    assert_eq!(driver.action(), Action::ProbeDir("/b/svc".to_string()));
    driver = driver.advance(&Outcome::Done);
    assert_eq!(driver.action(), create("/usr/bin/crun", "svc", "/b/svc"));
    assert_eq!(microinit::effect::WAIT_SECS, 10);
    driver = driver.advance(&Outcome::TimedOut);
    assert_eq!(driver.status(), 1);
    assert_eq!(driver.action(), Action::ProbeDir("/b/svc2".to_string()));
    driver = driver.advance(&Outcome::Done);
    assert_eq!(driver.action(), create("/usr/bin/crun", "svc2", "/b/svc2"));
    driver = driver.advance(&Outcome::Exited(Some(0)));
    driver = driver.advance(&Outcome::Text("12".to_string()));
    assert_eq!(driver.action(), run("/usr/bin/crun", &["start", "svc2"]));
    driver = driver.advance(&Outcome::Exited(Some(0)));
    assert_eq!(driver.action(), Action::RemoveFile("/run/log/onboot/svc2".to_string()));
    driver = driver.advance(&Outcome::Failed);
    assert!(driver.is_finished());
    assert_eq!(driver.action(), Action::Finish(1));
}

#[test]
fn missing_bundle_directory_is_skipped_without_failure() {
    let mut driver = started("rt", &[app("gone", Some("/gone")), app("here", Some("/here"))]);
    driver = driver.advance(&Outcome::Failed);
    assert_eq!(driver.status(), 0);
    assert_eq!(driver.action(), Action::ProbeDir("/here".to_string()));
}

#[test]
fn spawn_failure_is_recorded() {
    let mut driver = started("rt", &[app("a", Some("/a"))]);
    driver = driver.advance(&Outcome::Done);
    driver = driver.advance(&Outcome::Failed);
    assert_eq!(driver.action(), Action::Finish(1));
}

#[test]
fn nonzero_exit_of_create_is_no_failure() {
    let mut driver = started("rt", &[app("a", Some("/a"))]);
    driver = driver.advance(&Outcome::Done);
    driver = driver.advance(&Outcome::Exited(Some(3)));
    assert_eq!(driver.status(), 0);
    assert_eq!(driver.action(), Action::ReadFile("/run/log/onboot/a".to_string()));
    driver = driver.advance(&Outcome::Exited(None));
    assert_eq!(driver.action(), Action::Finish(1));
}

#[test]
fn pid_file_must_hold_an_i32() {
    for (text, ok) in [("1", true), ("-7", true), ("12\n", false), ("", false), ("abc", false), ("99999999999", false)] {
        let mut driver = started("rt", &[app("a", Some("/a"))]);
        driver = driver.advance(&Outcome::Done);
        driver = driver.advance(&Outcome::Exited(Some(0)));
        driver = driver.advance(&Outcome::Text(text.to_string()));
        if ok {
            assert_eq!(driver.action(), run("rt", &["start", "a"]), "pid text {:?}", text);
            assert_eq!(driver.status(), 0);
        } else {
            assert_eq!(driver.action(), Action::Finish(1), "pid text {:?}", text);
        }
    }
    let mut driver = started("rt", &[app("a", Some("/a"))]);
    driver = driver.advance(&Outcome::Done);
    driver = driver.advance(&Outcome::Exited(Some(0)));
    driver = driver.advance(&Outcome::Failed);
    assert_eq!(driver.action(), Action::Finish(1));
}

#[test]
fn start_timeout_keeps_the_pid_file() {
    let mut driver = started("rt", &[app("a", Some("/a")), app("b", Some("/b"))]);
    driver = driver.advance(&Outcome::Done);
    driver = driver.advance(&Outcome::Exited(Some(0)));
    driver = driver.advance(&Outcome::Text("5".to_string()));
    driver = driver.advance(&Outcome::TimedOut);
    assert_eq!(driver.status(), 1);
    assert_eq!(driver.action(), Action::ProbeDir("/b".to_string()));
}

#[test]
fn failed_directories_abort() {
    let driver = runc_init("rt", &vec![app("a", Some("/a"))]).advance(&Outcome::Failed);
    assert!(driver.is_finished());
    assert_eq!(driver.action(), Action::Abort);
    assert_eq!(exit_code(&driver.action()), 1);
    let driver = runc_init("rt", &vec![]).advance(&Outcome::Done).advance(&Outcome::Failed);
    assert_eq!(driver.action(), Action::Abort);
    let driver = runc_init("rt", &vec![]).advance(&Outcome::Done).advance(&Outcome::Done).advance(&Outcome::Failed);
    assert_eq!(driver.action(), Action::Abort);
    assert_eq!(driver.advance(&Outcome::Done).action(), Action::Abort);
}

#[test]
fn no_bundles_finish_at_once() {
    let driver = started("rt", &[app("nopath", None)]);
    assert!(driver.is_finished());
    assert_eq!(driver.action(), Action::Finish(0));
    assert_eq!(exit_code(&driver.action()), 0);
    assert_eq!(exit_code(&Action::Finish(1)), 0);
}

#[test]
fn onboot_uses_the_configured_runtime() {
    let config = Config::new(
        vec![app("oci-runtime", Some("/opt/runc"))],
        vec![app("svc", Some("/b/svc"))],
        vec![],
    );
    let trace = drive(onboot(&config), &all_well);
    assert_eq!(trace[4], create("/opt/runc", "svc", "/b/svc"));
    let bare = Config::new(vec![], vec![app("svc", Some("/b/svc"))], vec![]);
    let trace = drive(onboot(&bare), &all_well);
    assert_eq!(trace[4], create("/usr/bin/crun", "svc", "/b/svc"));
}

#[test]
fn onshutdown_succeeds() {
    let config = Config::new(vec![], vec![], vec![app("bye", Some("/bye"))]);
    assert_eq!(onshutdown(&config), 0);
}
