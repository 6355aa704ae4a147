use std::sync::Arc;

use supermon::config::{
    AppInfo, AppSpec, Spec, _bool_false, _bool_true, _string_new, _u32_one, _vec_string_new,
};
use supermon::events::{Event, EventKind, StreamKind};
use supermon::pid::Pid;
use supermon::reactor::{Action, Reactor};

fn app_spec(exec_path: &str, args: &[&str], restart: bool, disable: bool) -> AppSpec {
    AppSpec {
        exec_path: exec_path.to_string(),
        args: args.iter().map(|a| a.to_string()).collect(),
        env: _vec_string_new(),
        workdir: _string_new(),
        stdout: _bool_true(),
        stderr: _bool_true(),
        restart: restart,
        restart_delay: _u32_one(),
        disable: disable,
    }
}

fn app(name: &str, restart: bool) -> Arc<AppInfo> {
    Arc::new(AppInfo::new(name.to_string(), app_spec("/bin/false", &[], restart, false)))
}

fn started(app: &Arc<AppInfo>, pid: i64) -> Event {
    Event::new(app, EventKind::Started(Pid(pid)))
}

/// The bytes written to the given stream, in order.
fn written(actions: &[Action], which: StreamKind) -> String {
    let mut out = Vec::new();
    for a in actions {
        if let Action::Write { stream, bytes } = a {
            if *stream == which {
                out.extend_from_slice(bytes);
            }
        }
    }
    String::from_utf8(out).unwrap()
}

fn spawns(actions: &[Action]) -> Vec<(String, u32)> {
    actions
        .iter()
        .filter_map(|a| match a {
            Action::Spawn { app, delay_secs } => Some((app.name.clone(), *delay_secs)),
            _ => None,
        })
        .collect()
}

fn kills(actions: &[Action]) -> Vec<(i64, i32)> {
    actions
        .iter()
        .filter_map(|a| match a {
            Action::Kill { pid, signal } => Some((pid.0, *signal)),
            _ => None,
        })
        .collect()
}

#[test]
fn defaults() {
    assert!(_vec_string_new().is_empty());
    assert_eq!(_string_new(), ".");
    assert_eq!(_u32_one(), 1);
    assert!(_bool_true());
    assert!(!_bool_false());
}

#[test]
fn app_info_keeps_every_field() {
    let mut spec = app_spec("/bin/sh", &["-c", "true"], false, true);
    spec.env = vec!["A=1".to_string()];
    spec.workdir = "/tmp".to_string();
    spec.stdout = false;
    spec.restart_delay = 7;
    let info = AppInfo::new("x".to_string(), spec);
    assert_eq!(info.name, "x");
    assert_eq!(info.exec_path, "/bin/sh");
    assert_eq!(info.args, vec!["-c".to_string(), "true".to_string()]);
    assert_eq!(info.env, vec!["A=1".to_string()]);
    assert_eq!(info.workdir, "/tmp");
    assert!(!info.stdout);
    assert!(info.stderr);
    assert!(!info.restart);
    assert_eq!(info.restart_delay, 7);
    assert!(info.disable);
}

#[test]
fn single_line_clean_exit() {
    let reactor = Reactor::new();
    let spec = Spec {
        apps: vec![(
            "echo".to_string(),
            app_spec("/bin/sh", &["-c", "echo hello; exit 0"], false, false),
        )],
    };
    let start = reactor.initialize(spec);
    assert_eq!(spawns(&start), vec![("echo".to_string(), 0)]);
    let echo = match &start[0] {
        Action::Spawn { app, .. } => app.clone(),
        _ => unreachable!(),
    };
    let mut reactor = reactor;
    let mut all = Vec::new();
    all.extend(reactor.handle_event(started(&echo, 42)));
    all.extend(reactor.handle_event(Event::new(
        &echo,
        EventKind::Line(StreamKind::Stdout, b"hello".to_vec()),
    )));
    all.extend(reactor.handle_event(Event::new(&echo, EventKind::Eof(StreamKind::Stdout))));
    all.extend(reactor.handle_event(Event::Exited(Pid(42), 0)));
    assert_eq!(written(&all, StreamKind::Stdout), "[echo] hello\n");
    assert_eq!(
        written(&all, StreamKind::Stderr),
        "[supermon] echo spawned with pid 42\n[supermon] echo has exited with code 0\n"
    );
    assert!(spawns(&all).is_empty());
    assert!(!reactor.can_exit());
    let last = reactor.handle_event(Event::Signal(15));
    assert!(last.is_empty());
    assert!(reactor.can_exit());
}

#[test]
fn restart_on_failure() {
    let mut reactor = Reactor::new();
    let flapper = app("flapper", true);
    let mut all = Vec::new();
    for pid in 100..103 {
        all.extend(reactor.handle_event(started(&flapper, pid)));
        all.extend(reactor.handle_event(Event::Exited(Pid(pid), 1)));
    }
    let err = written(&all, StreamKind::Stderr);
    assert_eq!(err.matches("[supermon] flapper has exited with code 1\n").count(), 3);
    assert_eq!(err.matches("[supermon] restarting app flapper in 1 sec(s)\n").count(), 3);
    assert_eq!(spawns(&all), vec![("flapper".to_string(), 1); 3]);
    all.clear();
    all.extend(reactor.handle_event(started(&flapper, 103)));
    let stop = reactor.handle_event(Event::Signal(15));
    assert_eq!(kills(&stop), vec![(103, 15)]);
    let end = reactor.handle_event(Event::Signaled(Pid(103), 15));
    assert!(spawns(&end).is_empty());
    assert_eq!(
        written(&end, StreamKind::Stderr),
        "[supermon] flapper was terminated by signal 15\n"
    );
    assert!(reactor.can_exit());
}

#[test]
fn disabled_app_never_starts() {
    let reactor = Reactor::new();
    let spec = Spec {
        apps: vec![
            ("a".to_string(), app_spec("/bin/sleep", &["100"], true, true)),
            ("b".to_string(), app_spec("/bin/sleep", &["100"], true, false)),
        ],
    };
    let start = reactor.initialize(spec);
    assert_eq!(spawns(&start), vec![("b".to_string(), 0)]);
}

#[test]
fn startup_keeps_configuration_order() {
    let reactor = Reactor::new();
    let spec = Spec {
        apps: vec![
            ("z".to_string(), app_spec("/bin/true", &[], true, false)),
            ("m".to_string(), app_spec("/bin/true", &[], true, true)),
            ("a".to_string(), app_spec("/bin/true", &[], true, false)),
        ],
    };
    let start = reactor.initialize(spec);
    assert_eq!(spawns(&start), vec![("z".to_string(), 0), ("a".to_string(), 0)]);
    assert_eq!(start.len(), 2);
}

#[test]
fn empty_configuration_starts_nothing() {
    let reactor = Reactor::new();
    assert!(reactor.initialize(Spec { apps: Vec::new() }).is_empty());
}

#[test]
fn crlf_stripping_end_to_end() {
    let mut reactor = Reactor::new();
    let a = app("app", false);
    reactor.handle_event(started(&a, 7));
    let mut all = Vec::new();
    all.extend(reactor.handle_event(Event::new(&a, EventKind::Line(StreamKind::Stdout, b"one".to_vec()))));
    all.extend(reactor.handle_event(Event::new(&a, EventKind::Line(StreamKind::Stdout, b"two".to_vec()))));
    assert_eq!(written(&all, StreamKind::Stdout), "[app] one\n[app] two\n");
    assert_eq!(written(&all, StreamKind::Stderr), "");
}

#[test]
fn stderr_lines_go_to_stderr() {
    let mut reactor = Reactor::new();
    let a = app("w", false);
    let out = reactor.handle_event(Event::new(&a, EventKind::Line(StreamKind::Stderr, b"oops".to_vec())));
    assert_eq!(written(&out, StreamKind::Stderr), "[w] oops\n");
    assert_eq!(written(&out, StreamKind::Stdout), "");
}

#[test]
fn shutdown_propagation() {
    let mut reactor = Reactor::new();
    let one = app("one", true);
    let two = app("two", true);
    reactor.handle_event(started(&one, 10));
    reactor.handle_event(started(&two, 20));
    let stop = reactor.handle_event(Event::Signal(2));
    let mut targets = kills(&stop);
    targets.sort();
    assert_eq!(targets, vec![(10, 2), (20, 2)]);
    assert!(!reactor.can_exit());
    let again = reactor.handle_event(Event::Signal(2));
    assert!(again.is_empty());
    let first = reactor.handle_event(Event::Signaled(Pid(10), 2));
    assert_eq!(written(&first, StreamKind::Stderr), "[supermon] one was terminated by signal 2\n");
    assert!(spawns(&first).is_empty());
    assert!(!reactor.can_exit());
    let second = reactor.handle_event(Event::Exited(Pid(20), 130));
    assert_eq!(written(&second, StreamKind::Stderr), "[supermon] two has exited with code 130\n");
    assert!(spawns(&second).is_empty());
    assert!(reactor.can_exit());
}

#[test]
fn start_during_shutdown_is_stopped_at_once() {
    let mut reactor = Reactor::new();
    let late = app("late", true);
    reactor.handle_event(Event::Signal(15));
    assert!(reactor.can_exit());
    let out = reactor.handle_event(started(&late, 55));
    assert_eq!(kills(&out), vec![(55, 15)]);
    assert_eq!(written(&out, StreamKind::Stderr), "[supermon] late spawned with pid 55\n");
    assert!(reactor.can_exit());
}

#[test]
fn zombie_reaping() {
    let mut reactor = Reactor::new();
    let parent = app("parent", false);
    reactor.handle_event(started(&parent, 30));
    let out = reactor.handle_event(Event::Exited(Pid(31), 0));
    assert_eq!(written(&out, StreamKind::Stderr), "[supermon] zombie 31 has been reaped\n");
    assert!(spawns(&out).is_empty());
    reactor.handle_event(Event::Signal(15));
    assert!(!reactor.can_exit());
    let gone = reactor.handle_event(Event::Signaled(Pid(32), 9));
    assert_eq!(written(&gone, StreamKind::Stderr), "[supermon] zombie 32 has been reaped\n");
    assert!(!reactor.can_exit());
}

#[test]
fn termination_is_handled_once() {
    let mut reactor = Reactor::new();
    let a = app("svc", true);
    reactor.handle_event(started(&a, 9));
    let first = reactor.handle_event(Event::Exited(Pid(9), 3));
    assert_eq!(spawns(&first).len(), 1);
    let second = reactor.handle_event(Event::Signaled(Pid(9), 9));
    assert_eq!(written(&second, StreamKind::Stderr), "[supermon] zombie 9 has been reaped\n");
    assert!(spawns(&second).is_empty());
}

#[test]
fn child_stays_mapped_until_it_terminates() {
    let mut reactor = Reactor::new();
    let a = app("a", false);
    let b = app("b", false);
    reactor.handle_event(started(&a, 1));
    reactor.handle_event(started(&b, 2));
    reactor.handle_event(Event::new(&b, EventKind::Eof(StreamKind::Stdout)));
    reactor.handle_event(Event::new(&a, EventKind::ReadError(StreamKind::Stderr, "broken".to_string())));
    reactor.handle_event(Event::Exited(Pid(2), 0));
    let out = reactor.handle_event(Event::Exited(Pid(1), 4));
    assert_eq!(written(&out, StreamKind::Stderr), "[supermon] a has exited with code 4\n");
}

#[test]
fn spawn_error_is_logged_without_restart() {
    let mut reactor = Reactor::new();
    let a = app("bad", true);
    let out = reactor.handle_event(Event::new(&a, EventKind::SpawnError("No such file or directory (os error 2)".to_string())));
    assert_eq!(
        written(&out, StreamKind::Stderr),
        "[supermon] Error spawning app bad: No such file or directory (os error 2)\n"
    );
    assert!(spawns(&out).is_empty());
}

#[test]
fn no_restart_when_not_asked() {
    let mut reactor = Reactor::new();
    let a = app("once", false);
    reactor.handle_event(started(&a, 5));
    let out = reactor.handle_event(Event::Signaled(Pid(5), 9));
    assert!(spawns(&out).is_empty());
    assert_eq!(out.len(), 1);
}

#[test]
fn negative_exit_code_text() {
    let mut reactor = Reactor::new();
    let a = app("neg", false);
    reactor.handle_event(started(&a, 5));
    let out = reactor.handle_event(Event::Exited(Pid(5), -1));
    assert_eq!(written(&out, StreamKind::Stderr), "[supermon] neg has exited with code -1\n");
}
