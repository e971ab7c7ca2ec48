use up::controller::{Controller, Event as InitEvent, Flow};
use up::daemon::{relativize, Daemon, DaemonError, RestartOutcome};
use up::event::{Event, SignalKind, WatchKind};
use up::flags::Decision;
use up::pattern::{any_matches, first_invalid};
use up::process::{Process, StopStep};
use up::service::{ConfigError, Service, ServiceError};

fn service(name: &str, cmd: &str, watch: &[&str]) -> Service {
    Service::new(
        name.to_string(),
        cmd.to_string(),
        watch.iter().map(|w| w.to_string()).collect(),
    )
}

fn daemon_with(services: Vec<Service>) -> Daemon {
    let mut d = Daemon::new("/work".to_string());
    for s in services {
        d.add(s).unwrap();
    }
    d
}

#[test]
fn relativize_strips_the_root() {
    assert_eq!(relativize("/work", "/work/src/main.go"), "src/main.go");
    assert_eq!(relativize("/work/", "/work/src/main.go"), "src/main.go");
    assert_eq!(relativize("/work", "/work//a"), "a");
    assert_eq!(relativize("/work", "/work"), "");
}

#[test]
fn relativize_keeps_paths_outside_the_root() {
    assert_eq!(relativize("/work", "/workshop/a"), "/workshop/a");
    assert_eq!(relativize("/work", "/other/a"), "/other/a");
    assert_eq!(relativize("/work/deep", "/work"), "/work");
}

#[test]
fn watch_events_keep_creations_writes_and_removals() {
    let p = "/work/a".to_string();
    assert_eq!(Event::from_watch(WatchKind::Create, p.clone()), Some(Event::FileChanged(p.clone())));
    assert_eq!(Event::from_watch(WatchKind::Write, p.clone()), Some(Event::FileChanged(p.clone())));
    assert_eq!(Event::from_watch(WatchKind::Remove, p.clone()), Some(Event::FileChanged(p.clone())));
    assert_eq!(Event::from_watch(WatchKind::Other, p), None);
}

#[test]
fn signals_map_to_events() {
    assert_eq!(Event::from_signal(SignalKind::ChildExited), Event::ChildExited);
    assert_eq!(Event::from_signal(SignalKind::Terminate), Event::WakeUp);
    assert_eq!(Event::from_signal(SignalKind::Interrupt), Event::WakeUp);
}

#[test]
fn service_matches_its_patterns() {
    let s = service("build", "echo ok", &["src/**/*.go", "*.toml"]);
    assert!(s.matches_path("src/main.go"));
    assert!(s.matches_path("src/a/b/c.go"));
    assert!(s.matches_path("up.toml"));
    assert!(!s.matches_path("src/main.rs"));
    assert!(!s.matches_path("docs/main.go"));
}

#[test]
fn service_without_patterns_matches_nothing() {
    let s = service("web", "sleep 9999", &[]);
    assert!(!s.matches_path("src/main.go"));
    assert!(!s.matches_path(""));
}

#[test]
fn config_with_bad_pattern_is_refused() {
    let r = Service::from_config(
        "build".to_string(),
        "make".to_string(),
        Some(vec!["src/*.c".to_string(), "a/**b".to_string(), "abc[".to_string()]),
    );
    assert_eq!(
        r.unwrap_err(),
        ConfigError::InvalidPattern { service: "build".to_string(), pattern: "a/**b".to_string() }
    );
}

#[test]
fn config_without_watch_is_accepted() {
    let s = Service::from_config("web".to_string(), "sleep 9999".to_string(), None).unwrap();
    assert_eq!(s.name, "web");
    assert_eq!(s.cmd, "sleep 9999");
    assert!(s.watched_paths.is_empty());
    assert!(s.proc.is_none());
}

#[test]
fn start_gives_the_shell_command_line() {
    let mut s = service("web", "sleep 9999", &[]);
    assert_eq!(s.start().unwrap(), vec!["/bin/sh", "-c", "sleep 9999"]);
    s.started(Process::new(41));
    assert_eq!(s.start().unwrap_err(), ServiceError::AlreadyRunning("web".to_string()));
    assert_eq!(s.stop(), Some(Process::new(41)));
    s.stopped();
    assert_eq!(s.stop(), None);
    assert!(s.start().is_ok());
}

#[test]
fn is_up_needs_an_attached_live_leader() {
    let mut s = service("web", "sleep 9999", &[]);
    assert!(!s.is_up(true));
    s.started(Process::new(7));
    assert!(s.is_up(true));
    assert!(!s.is_up(false));
}

#[test]
fn stop_escalates_after_timeout() {
    assert_eq!(Process::stop_step(true, 0, 10_000, false), StopStep::Done);
    assert_eq!(Process::stop_step(false, 9_999, 10_000, false), StopStep::Wait);
    assert_eq!(Process::stop_step(false, 10_000, 10_000, false), StopStep::Kill);
    assert_eq!(Process::stop_step(false, 20_000, 10_000, true), StopStep::Wait);
    assert_eq!(Process::stop_step(true, 20_000, 10_000, true), StopStep::Done);
}

#[test]
fn duplicate_service_names_are_refused() {
    let mut d = daemon_with(vec![service("web", "a", &[])]);
    assert_eq!(
        d.add(service("web", "b", &[])),
        Err(DaemonError::DuplicateService("web".to_string()))
    );
    assert_eq!(d.services.len(), 1);
    assert_eq!(d.services[0].cmd, "a");
    assert!(d.add(service("db", "b", &[])).is_ok());
    assert_eq!(d.services.len(), 2);
    assert_eq!(d.flags.len(), 2);
}

#[test]
fn file_change_marks_only_matching_services() {
    let mut d = daemon_with(vec![
        service("build", "echo ok", &["src/**/*.go"]),
        service("docs", "echo docs", &["docs/*.md"]),
    ]);
    assert!(!d.handle_event(&Event::FileChanged("/work/src/main.go".to_string())));
    assert!(d.flags[0].restart);
    assert!(!d.flags[1].restart);
}

#[test]
fn child_exit_asks_for_a_reap_and_wakeup_does_nothing() {
    let mut d = daemon_with(vec![service("build", "echo ok", &["**"])]);
    assert!(d.handle_event(&Event::ChildExited));
    assert!(!d.handle_event(&Event::WakeUp));
    assert!(!d.flags[0].restart);
}

#[test]
fn many_changes_in_one_batch_restart_once() {
    let mut d = daemon_with(vec![service("build", "echo ok", &["src/**/*.go"])]);
    d.service_started(0, Process::new(10)).unwrap();
    let batch = vec![
        Event::FileChanged("/work/src/main.go".to_string()),
        Event::FileChanged("/work/src/main.go".to_string()),
        Event::ChildExited,
        Event::FileChanged("/work/src/main.go".to_string()),
        Event::ChildExited,
    ];
    assert_eq!(d.handle_events(&batch), 2);
    assert_eq!(d.check_service(0, true, 0), Decision::Restart);
    d.finish_restart(0, RestartOutcome::Launched(Process::new(11)));
    assert_eq!(d.check_service(0, true, 100), Decision::Healthy);
    assert_eq!(d.flags[0].restart_attempts, 1);
    assert_eq!(d.services[0].proc, Some(Process::new(11)));
}

#[test]
fn crashed_web_service_is_relaunched_with_new_pid() {
    let mut d = daemon_with(vec![service("web", "sleep 9999", &[])]);
    d.service_started(0, Process::new(100)).unwrap();
    assert_eq!(d.check_service(0, true, 1_000), Decision::Healthy);
    // the process was killed from outside: the probe fails
    let up = d.services[0].is_up(false);
    assert_eq!(d.check_service(0, up, 4_000), Decision::Restart);
    assert_eq!(d.services[0].start().unwrap_err(), ServiceError::AlreadyRunning("web".to_string()));
    assert_eq!(d.services[0].stop(), Some(Process::new(100)));
    d.finish_restart(0, RestartOutcome::Launched(Process::new(200)));
    assert_eq!(d.services[0].proc, Some(Process::new(200)));
    assert!(!d.flags[0].restart);
    assert_eq!(d.flags[0].restart_attempts, 1);
}

#[test]
fn touched_go_file_restarts_build_once() {
    let mut d = daemon_with(vec![service("build", "echo ok", &["src/**/*.go"])]);
    d.service_started(0, Process::new(5)).unwrap();
    assert_eq!(relativize("/work", "/work/src/main.go"), "src/main.go");
    assert_eq!(d.handle_events(&vec![Event::FileChanged("/work/src/main.go".to_string())]), 0);
    assert!(d.flags[0].restart);
    assert_eq!(d.check_service(0, true, 50), Decision::Restart);
    d.finish_restart(0, RestartOutcome::Launched(Process::new(6)));
    assert_eq!(d.check_service(0, true, 60), Decision::Healthy);
    assert_eq!(d.check_service(0, true, 5_000), Decision::Healthy);
    assert_eq!(d.flags[0].restart_attempts, 0);
}

#[test]
fn failed_stop_keeps_process_attached() {
    let mut d = daemon_with(vec![service("web", "x", &[])]);
    d.service_started(0, Process::new(3)).unwrap();
    assert_eq!(d.check_service(0, false, 0), Decision::Restart);
    d.finish_restart(0, RestartOutcome::StopFailed);
    assert_eq!(d.services[0].proc, Some(Process::new(3)));
    assert!(d.flags[0].restart);
    assert_eq!(d.check_service(0, false, 10), Decision::Deferred);
}

#[test]
fn failed_launch_leaves_service_down_and_pending() {
    let mut d = daemon_with(vec![service("web", "x", &[])]);
    d.service_started(0, Process::new(3)).unwrap();
    assert_eq!(d.check_service(0, false, 0), Decision::Restart);
    d.finish_restart(0, RestartOutcome::LaunchFailed);
    assert_eq!(d.services[0].proc, None);
    assert!(d.flags[0].restart);
}

#[test]
fn start_twice_is_refused() {
    let mut d = daemon_with(vec![service("web", "x", &[])]);
    assert!(d.service_started(0, Process::new(3)).is_ok());
    assert_eq!(
        d.service_started(0, Process::new(4)),
        Err(ServiceError::AlreadyRunning("web".to_string()))
    );
    assert_eq!(d.services[0].proc, Some(Process::new(3)));
}

#[test]
fn shutdown_removes_services_front_to_back() {
    let mut d = daemon_with(vec![service("a", "x", &[]), service("b", "y", &[])]);
    assert!(!d.is_empty());
    d.finish_stop_first(false);
    assert_eq!(d.services.len(), 2);
    d.finish_stop_first(true);
    assert_eq!(d.services.len(), 1);
    assert_eq!(d.services[0].name, "b");
    d.finish_stop_first(true);
    assert!(d.is_empty());
    assert!(d.flags.is_empty());
}

#[test]
fn init_controller_reaps_until_shutdown() {
    let c = Controller::new();
    assert_eq!(c.handle_event(InitEvent::ChildExited), Flow::Reap);
    assert_eq!(c.handle_event(InitEvent::Shutdown), Flow::Stop);
    assert_eq!(InitEvent::from_signal(SignalKind::ChildExited), InitEvent::ChildExited);
    assert_eq!(InitEvent::from_signal(SignalKind::Terminate), InitEvent::Shutdown);
}

#[test]
fn first_invalid_pattern_is_found() {
    let ok = vec!["src/**/*.go".to_string(), "*.md".to_string()];
    assert_eq!(first_invalid(&ok), None);
    let bad = vec!["*.md".to_string(), "abc[".to_string(), "a**b".to_string()];
    assert_eq!(first_invalid(&bad), Some(1));
    assert_eq!(first_invalid(&vec![]), None);
    assert!(any_matches(&ok, "README.md"));
    assert!(!any_matches(&ok, "README.txt"));
    assert!(!any_matches(&bad, "abc["));
}
