use microinit::cmd::{
    clean_cmd, cleanup_for, cleanup_targets, ctr_clean, ctr_cmd, parse_list, parse_record,
    parse_state, restart_cmd, restart_u_ce, start_cmd, stop_cmd, CleanDriver, Cleanup,
    ContainerRecord, ContainerState, Target,
};
use microinit::effect::{Action, Invocation, Outcome};
use microinit::uconfig::{AppConfig, Config};

fn complete(program: &str, args: &[&str]) -> Action {
    Action::Complete(Invocation {
        program: program.to_string(),
        args: args.iter().map(|s| s.to_string()).collect(),
    })
}

fn printed(text: &str) -> Outcome {
    Outcome::Printed { success: true, text: Some(text.to_string()) }
}

fn ran() -> Outcome {
    Outcome::Printed { success: true, text: Some(String::new()) }
}

fn record(id: &str, state: ContainerState) -> ContainerRecord {
    ContainerRecord { id: id.to_string(), state }
}

const LISTING: &str = "ID          PID         STATUS      BUNDLE      CREATED     OWNER\nweb         120         running     /b/web      2021        root\n\ndb          0           stopped     /b/db       2021        root\nnew         0           created     /b/new      2021        root\nshort       1\nidle        5           paused      /b/idle     2021        root\n";

fn drive(mut driver: CleanDriver, answer: &dyn Fn(&Action) -> Outcome) -> Vec<Action> {
    let mut trace = Vec::new();
    for _ in 0..1000 {
        let action = driver.action();
        trace.push(action.clone());
        if driver.is_finished() {
            return trace;
        }
        driver = driver.advance(&answer(&action));
    }
    panic!("the driver did not finish");
}

#[test]
fn states_by_name() {
    assert_eq!(parse_state("created"), ContainerState::Created);
    assert_eq!(parse_state("running"), ContainerState::Running);
    assert_eq!(parse_state("stopped"), ContainerState::Stopped);
    assert_eq!(parse_state("paused"), ContainerState::Paused);
    assert_eq!(parse_state("STATUS"), ContainerState::Unknown);
    assert_eq!(parse_state(""), ContainerState::Unknown);
    assert_eq!(parse_state("Running"), ContainerState::Unknown);
}

#[test]
fn record_needs_three_columns() {
    assert_eq!(parse_record("web 120 running /b"), Some(record("web", ContainerState::Running)));
    assert_eq!(parse_record("  db\t0\tstopped"), Some(record("db", ContainerState::Stopped)));
    assert_eq!(parse_record("web 120"), None);
    assert_eq!(parse_record("web"), None);
    assert_eq!(parse_record(""), None);
    assert_eq!(parse_record("   "), None);
}

#[test]
fn list_tolerates_blank_and_short_lines() {
    assert_eq!(
        parse_list(LISTING),
        vec![
            record("ID", ContainerState::Unknown),
            record("web", ContainerState::Running),
            record("db", ContainerState::Stopped),
            record("new", ContainerState::Created),
            record("idle", ContainerState::Paused),
        ]
    );
    assert_eq!(parse_list(""), vec![]);
    assert_eq!(parse_list("\n\n"), vec![]);
}

#[test]
fn cleanup_by_state() {
    assert_eq!(cleanup_for(ContainerState::Stopped), Some(Cleanup::Delete));
    assert_eq!(cleanup_for(ContainerState::Running), Some(Cleanup::KillThenDelete));
    assert_eq!(cleanup_for(ContainerState::Created), None);
    assert_eq!(cleanup_for(ContainerState::Paused), None);
    assert_eq!(cleanup_for(ContainerState::Unknown), None);
    assert_eq!(
        cleanup_targets(&parse_list(LISTING)),
        vec![
            Target { id: "web".to_string(), cleanup: Cleanup::KillThenDelete },
            Target { id: "db".to_string(), cleanup: Cleanup::Delete },
        ]
    );
}

#[test]
fn runtime_command_line() {
    assert_eq!(Action::Complete(ctr_cmd("/usr/bin/crun", "web", "kill")), complete("/usr/bin/crun", &["kill", "web"]));
}

#[test]
fn cleanup_kills_then_deletes_running_and_deletes_stopped() {
    let trace = drive(ctr_clean("rt"), &|a| match a {
        Action::Complete(c) if c.args[0] == "list" => printed(LISTING),
        _ => ran(),
    });
    assert_eq!(
        trace,
        vec![
            complete("rt", &["list"]),
            complete("rt", &["kill", "web"]),
            complete("rt", &["delete", "web"]),
            complete("rt", &["delete", "db"]),
            Action::Finish(0),
        ]
    );
}

#[test]
fn failed_kill_skips_the_delete_and_goes_on() {
    let trace = drive(ctr_clean("rt"), &|a| match a {
        Action::Complete(c) if c.args[0] == "list" => printed("a 1 running\nb 2 running\nc 0 stopped\n"),
        Action::Complete(c) if c.args[0] == "kill" && c.args[1] == "a" => Outcome::Failed,
        Action::Complete(c) if c.args[0] == "delete" => Outcome::Failed,
        _ => ran(),
    });
    assert_eq!(
        trace,
        vec![
            complete("rt", &["list"]),
            complete("rt", &["kill", "a"]),
            complete("rt", &["kill", "b"]),
            complete("rt", &["delete", "b"]),
            complete("rt", &["delete", "c"]),
            Action::Finish(0),
        ]
    );
}

#[test]
fn unsuccessful_list_ends_with_minus_one() {
    let driver = ctr_clean("rt").advance(&Outcome::Printed { success: false, text: Some("web 1 running".to_string()) });
    assert!(driver.is_finished());
    assert_eq!(driver.action(), Action::Finish(-1));
    let driver = ctr_clean("rt").advance(&Outcome::Printed { success: true, text: None });
    assert_eq!(driver.action(), Action::Finish(-1));
}

#[test]
fn list_that_cannot_run_aborts() {
    let driver = ctr_clean("rt").advance(&Outcome::Failed);
    assert!(driver.is_finished());
    assert_eq!(driver.action(), Action::Abort);
}

#[test]
fn empty_list_finishes() {
    let driver = ctr_clean("rt").advance(&printed(""));
    assert!(driver.is_finished());
    assert_eq!(driver.action(), Action::Finish(0));
}

#[test]
fn clean_cmd_uses_the_configured_runtime() {
    let app = |name: &str, path: Option<&str>| AppConfig {
        name: name.to_string(),
        image: None,
        version: "1".to_string(),
        path: path.map(String::from),
    };
    let config = Config::new(vec![app("oci-runtime", Some("/opt/runc"))], vec![], vec![]);
    assert_eq!(clean_cmd(&config).action(), complete("/opt/runc", &["list"]));
    let pathless = Config::new(vec![app("oci-runtime", None)], vec![], vec![]);
    assert_eq!(clean_cmd(&pathless).action(), complete("/usr/bin/crun", &["list"]));
    let missing = Config::new(vec![], vec![], vec![]);
    assert_eq!(clean_cmd(&missing).action(), complete("/usr/bin/crun", &["list"]));
}

#[test]
fn service_commands_ask_nothing() {
    assert_eq!(start_cmd("web"), Action::Finish(0));
    assert_eq!(stop_cmd("web"), Action::Finish(0));
    assert_eq!(restart_cmd("web"), Action::Finish(0));
    assert_eq!(restart_u_ce(), Action::Finish(0));
}
