//! The reactor: the single consumer of events, which owns the process table,
//! applies the restart policy and drives shutdown. It performs nothing itself:
//! for each event it returns the actions that its caller carries out in order.
use std::sync::Arc;

use vstd::prelude::*;

use crate::config::{app_info_of, AppInfo, Spec, AppSpec};
use crate::events::{Event, EventKind, StreamKind};
use crate::framing::{app_line, write_app_line_to_stream};
use crate::pid::Pid;
use crate::table::{
    holds_pid, lemma_absent, lemma_lookup, lemma_pids, lemma_push, lemma_remove, pids_of,
    table_of, unique_pids,
};
use crate::text::{append_bytes, append_decimal, append_str, append_string, decimal, lit, utf8};

verus! {

/// Something the reactor asks its caller to do.
#[derive(Debug)]
pub enum Action {
    /// Start a child for the app after waiting this many seconds.
    Spawn { app: Arc<AppInfo>, delay_secs: u32 },
    /// Send the signal with this number to the process.
    Kill { pid: Pid, signal: i32 },
    /// Write these bytes to the supervisor's own stdout or stderr.
    Write { stream: StreamKind, bytes: Vec<u8> },
}

/// What an action stands for.
pub enum ActionView {
    Spawn(AppInfo, nat),
    Kill(int, int),
    Write(StreamKind, Seq<u8>),
}

impl View for Action {
    type V = ActionView;

    open spec fn view(&self) -> ActionView {
        match self {
            Action::Spawn { app, delay_secs } => ActionView::Spawn(**app, *delay_secs as nat),
            Action::Kill { pid, signal } => ActionView::Kill(pid.0 as int, *signal as int),
            Action::Write { stream, bytes } => ActionView::Write(*stream, bytes@),
        }
    }
}

/// What a list of actions stands for.
pub open spec fn views(a: Seq<Action>) -> Seq<ActionView> {
    a.map_values(|x: Action| x@)
}

/// The state of the reactor: the process table, the shutdown flag, and the signal
/// that started the shutdown.
pub struct ReactorState {
    pub table: Map<int, AppInfo>,
    pub shutdown: bool,
    pub signal: int,
}

/// A diagnostic line of the supervisor itself.
pub open spec fn diag(msg: Seq<u8>) -> Seq<u8> {
    lit("[supermon] ") + msg + lit("\n")
}

pub open spec fn spawned_msg(name: Seq<u8>, pid: int) -> Seq<u8> {
    name + lit(" spawned with pid ") + decimal(pid)
}

pub open spec fn spawn_error_msg(name: Seq<u8>, err: Seq<u8>) -> Seq<u8> {
    lit("Error spawning app ") + name + lit(": ") + err
}

pub open spec fn exited_msg(name: Seq<u8>, code: int) -> Seq<u8> {
    name + lit(" has exited with code ") + decimal(code)
}

pub open spec fn signaled_msg(name: Seq<u8>, signal: int) -> Seq<u8> {
    name + lit(" was terminated by signal ") + decimal(signal)
}

pub open spec fn zombie_msg(pid: int) -> Seq<u8> {
    lit("zombie ") + decimal(pid) + lit(" has been reaped")
}

pub open spec fn restart_msg(name: Seq<u8>, delay: int) -> Seq<u8> {
    lit("restarting app ") + name + lit(" in ") + decimal(delay) + lit(" sec(s)")
}

/// A diagnostic action.
pub open spec fn log(msg: Seq<u8>) -> ActionView {
    ActionView::Write(StreamKind::Stderr, diag(msg))
}

/// The restart policy for an app whose child has just terminated: restart it after
/// its delay where it asks for restarts and no shutdown is under way.
pub open spec fn restart_effects(s: ReactorState, app: AppInfo) -> Seq<ActionView> {
    if app.restart && !s.shutdown {
        seq![
            log(restart_msg(utf8(&app.name), app.restart_delay as int)),
            ActionView::Spawn(app, app.restart_delay as nat),
        ]
    } else {
        seq![]
    }
}

/// The state after one event.
pub open spec fn next(s: ReactorState, e: Event) -> ReactorState {
    match e {
        Event::App { app, kind } => match kind {
            EventKind::Started(pid) => if s.shutdown {
                s
            } else {
                ReactorState { table: s.table.insert(pid.0 as int, *app), ..s }
            },
            _ => s,
        },
        Event::Signal(sig) => if s.shutdown {
            s
        } else {
            ReactorState { shutdown: true, signal: sig as int, ..s }
        },
        Event::Exited(pid, _) => ReactorState { table: s.table.remove(pid.0 as int), ..s },
        Event::Signaled(pid, _) => ReactorState { table: s.table.remove(pid.0 as int), ..s },
    }
}

/// What the reactor asks for on one event, in order; `pids` are the identifiers of
/// the table in the order in which the reactor holds them.
pub open spec fn effects(s: ReactorState, pids: Seq<int>, e: Event) -> Seq<ActionView> {
    match e {
        Event::App { app, kind } => match kind {
            EventKind::Started(pid) => if s.shutdown {
                seq![
                    log(spawned_msg(utf8(&app.name), pid.0 as int)),
                    ActionView::Kill(pid.0 as int, s.signal),
                ]
            } else {
                seq![log(spawned_msg(utf8(&app.name), pid.0 as int))]
            },
            EventKind::SpawnError(err) => seq![log(spawn_error_msg(utf8(&app.name), utf8(&err)))],
            EventKind::Line(stream, line) => seq![
                ActionView::Write(stream, app_line(utf8(&app.name), line@)),
            ],
            _ => seq![],
        },
        Event::Signal(sig) => if s.shutdown {
            seq![]
        } else {
            pids.map_values(|p: int| ActionView::Kill(p, sig as int))
        },
        Event::Exited(pid, code) => if s.table.contains_key(pid.0 as int) {
            let app = s.table[pid.0 as int];
            seq![log(exited_msg(utf8(&app.name), code as int))] + restart_effects(s, app)
        } else {
            seq![log(zombie_msg(pid.0 as int))]
        },
        Event::Signaled(pid, sig) => if s.table.contains_key(pid.0 as int) {
            let app = s.table[pid.0 as int];
            seq![log(signaled_msg(utf8(&app.name), sig as int))] + restart_effects(s, app)
        } else {
            seq![log(zombie_msg(pid.0 as int))]
        },
    }
}

/// The actions at startup: an immediate start of each app that is not disabled,
/// in the order of the configuration.
pub open spec fn startup_effects(apps: Seq<(String, AppSpec)>) -> Seq<ActionView>
    decreases apps.len(),
{
    if apps.len() == 0 {
        seq![]
    } else {
        let rest = startup_effects(apps.drop_last());
        let last = apps.last();
        if !last.1.disable {
            rest.push(ActionView::Spawn(app_info_of(last.0, last.1), 0))
        } else {
            rest
        }
    }
}

/// Appends one action to a list.
fn push_action(actions: &mut Vec<Action>, a: Action)
    ensures
        views(final(actions)@) == views(old(actions)@).push(a@),
{
    let ghost v = a@;
    actions.push(a);
    assert(views(actions@) =~= views(old(actions)@).push(v));
}

/// The action that writes a diagnostic line.
fn log_action(msg: Vec<u8>) -> (a: Action)
    ensures
        a@ == log(msg@),
{
    let mut out: Vec<u8> = Vec::new();
    append_str(&mut out, "[supermon] ");
    append_bytes(&mut out, msg.as_slice());
    append_str(&mut out, "\n");
    assert(out@ =~= diag(msg@));
    Action::Write { stream: StreamKind::Stderr, bytes: out }
}

fn spawned_text(app: &AppInfo, pid: Pid) -> (r: Vec<u8>)
    ensures
        r@ == spawned_msg(utf8(&app.name), pid.0 as int),
{
    let mut out: Vec<u8> = Vec::new();
    append_string(&mut out, &app.name);
    append_str(&mut out, " spawned with pid ");
    append_decimal(&mut out, pid.0);
    assert(out@ =~= spawned_msg(utf8(&app.name), pid.0 as int));
    out
}

fn spawn_error_text(app: &AppInfo, err: &String) -> (r: Vec<u8>)
    ensures
        r@ == spawn_error_msg(utf8(&app.name), utf8(err)),
{
    let mut out: Vec<u8> = Vec::new();
    append_str(&mut out, "Error spawning app ");
    append_string(&mut out, &app.name);
    append_str(&mut out, ": ");
    append_string(&mut out, err);
    assert(out@ =~= spawn_error_msg(utf8(&app.name), utf8(err)));
    out
}

fn exited_text(app: &AppInfo, code: i32) -> (r: Vec<u8>)
    ensures
        r@ == exited_msg(utf8(&app.name), code as int),
{
    let mut out: Vec<u8> = Vec::new();
    append_string(&mut out, &app.name);
    append_str(&mut out, " has exited with code ");
    append_decimal(&mut out, code as i64);
    assert(out@ =~= exited_msg(utf8(&app.name), code as int));
    out
}

fn signaled_text(app: &AppInfo, signal: i32) -> (r: Vec<u8>)
    ensures
        r@ == signaled_msg(utf8(&app.name), signal as int),
{
    let mut out: Vec<u8> = Vec::new();
    append_string(&mut out, &app.name);
    append_str(&mut out, " was terminated by signal ");
    append_decimal(&mut out, signal as i64);
    assert(out@ =~= signaled_msg(utf8(&app.name), signal as int));
    out
}

fn zombie_text(pid: Pid) -> (r: Vec<u8>)
    ensures
        r@ == zombie_msg(pid.0 as int),
{
    let mut out: Vec<u8> = Vec::new();
    append_str(&mut out, "zombie ");
    append_decimal(&mut out, pid.0);
    append_str(&mut out, " has been reaped");
    assert(out@ =~= zombie_msg(pid.0 as int));
    out
}

fn restart_text(app: &AppInfo) -> (r: Vec<u8>)
    ensures
        r@ == restart_msg(utf8(&app.name), app.restart_delay as int),
{
    let mut out: Vec<u8> = Vec::new();
    append_str(&mut out, "restarting app ");
    append_string(&mut out, &app.name);
    append_str(&mut out, " in ");
    append_decimal(&mut out, app.restart_delay as i64);
    append_str(&mut out, " sec(s)");
    assert(out@ =~= restart_msg(utf8(&app.name), app.restart_delay as int));
    out
}

/// The supervisor's decision state.
pub struct Reactor {
    processes: Vec<(Pid, Arc<AppInfo>)>,
    shutdown_requested: bool,
    shutdown_signal: i32,
}

impl View for Reactor {
    type V = ReactorState;

    closed spec fn view(&self) -> ReactorState {
        ReactorState {
            table: table_of(self.processes@),
            shutdown: self.shutdown_requested,
            signal: self.shutdown_signal as int,
        }
    }
}

impl Reactor {
    /// The process table holds each identifier once.
    pub closed spec fn wf(&self) -> bool {
        unique_pids(self.processes@)
    }

    /// The identifiers of the live children, in the order in which they are signalled.
    pub closed spec fn pids(&self) -> Seq<int> {
        pids_of(self.processes@)
    }

    /// The identifiers of the live children are those of the table, each once.
    pub proof fn lemma_pids(&self)
        requires
            self.wf(),
        ensures
            self.pids().no_duplicates(),
            self.pids().to_set() == self@.table.dom(),
    {
        lemma_pids(self.processes@);
    }

    /// A reactor with an empty table and no shutdown under way.
    pub fn new() -> (r: Reactor)
        ensures
            r.wf(),
            r@.table == Map::<int, AppInfo>::empty(),
            !r@.shutdown,
    {
        let r = Reactor { processes: Vec::new(), shutdown_requested: false, shutdown_signal: 0 };
        assert(r@.table =~= Map::<int, AppInfo>::empty());
        r
    }

    /// The supervisor may stop: a shutdown is under way and no child is left.
    pub fn can_exit(&self) -> (r: bool)
        requires
            self.wf(),
        ensures
            r == (self@.shutdown && self@.table.len() == 0),
    {
        proof {
            lemma_pids(self.processes@);
            self.processes@.map_values(|x: (Pid, Arc<AppInfo>)| x.0.0 as int).unique_seq_to_set();
        }
        self.shutdown_requested && self.processes.len() == 0
    }

    /// Where `pid` stands in the table, if it is there.
    fn find(&self, pid: Pid) -> (r: Option<usize>)
        requires
            self.wf(),
        ensures
            match r {
                Some(i) => i < self.processes@.len() && self.processes@[i as int].0.0 == pid.0,
                None => !holds_pid(self.processes@, pid.0 as int),
            },
    {
        let n = self.processes.len();
        let mut i: usize = 0;
        while i < n
            invariant
                n == self.processes@.len(),
                i <= n,
                forall|j: int| 0 <= j < i ==> self.processes@[j].0.0 != pid.0,
            decreases n - i,
        {
            if self.processes[i].0.0 == pid.0 {
                return Some(i);
            }
            i = i + 1;
        }
        None
    }

    /// Asks for a new child of `app` after `delay_secs`, unless the app is disabled or
    /// a shutdown is under way.
    fn start_app(&self, app: &Arc<AppInfo>, delay_secs: u32, actions: &mut Vec<Action>)
        ensures
            views(final(actions)@) == if !app.disable && !self@.shutdown {
                views(old(actions)@).push(ActionView::Spawn(**app, delay_secs as nat))
            } else {
                views(old(actions)@)
            },
    {
        if !app.disable && !self.shutdown_requested {
            push_action(actions, Action::Spawn { app: app.clone(), delay_secs: delay_secs });
        }
    }

    /// Applies the restart policy to an app whose child has terminated.
    fn restart_app(&self, app: &Arc<AppInfo>, actions: &mut Vec<Action>)
        ensures
            views(final(actions)@) == views(old(actions)@) + restart_effects(self@, **app),
    {
        if app.restart && !self.shutdown_requested {
            push_action(actions, log_action(restart_text(app)));
            let a = Action::Spawn { app: app.clone(), delay_secs: app.restart_delay };
            push_action(actions, a);
        }
        assert(views(actions@) =~= views(old(actions)@) + restart_effects(self@, **app));
    }

    /// The actions at startup: an immediate start of each configured app that is
    /// not disabled, in the order of the configuration.
    pub fn initialize(&self, spec: Spec) -> (actions: Vec<Action>)
        ensures
            views(actions@) == if self@.shutdown {
                Seq::<ActionView>::empty()
            } else {
                startup_effects(spec.apps@)
            },
    {
        let ghost all = spec.apps@;
        let n_all = spec.apps.len();
        let mut apps = spec.apps;
        let mut actions: Vec<Action> = Vec::new();
        let mut taken: usize = 0;
        while apps.len() > 0
            invariant
                taken + apps@.len() == all.len() == n_all,
                apps@ == all.skip(taken as int),
                views(actions@) == if self@.shutdown {
                    Seq::<ActionView>::empty()
                } else {
                    startup_effects(all.take(taken as int))
                },
            decreases apps@.len(),
        {
            let (name, app_spec) = apps.remove(0);
            proof {
                assert(all.take(taken + 1 as int).drop_last() =~= all.take(taken as int));
            }
            let app = Arc::new(AppInfo::new(name, app_spec));
            self.start_app(&app, 0, &mut actions);
            taken = taken + 1;
            assert(apps@ =~= all.skip(taken as int));
        }
        assert(all.take(taken as int) =~= all);
        actions
    }

    /// Handles an event about one app's child.
    fn handle_app_event(&mut self, app: &Arc<AppInfo>, kind: EventKind) -> (actions: Vec<Action>)
        requires
            old(self).wf(),
        ensures
            final(self).wf(),
            final(self)@ == next(old(self)@, Event::App { app: *app, kind: kind }),
            views(actions@) == effects(
                old(self)@,
                old(self).pids(),
                Event::App { app: *app, kind: kind },
            ),
    {
        let mut actions: Vec<Action> = Vec::new();
        match kind {
            EventKind::Line(stream, line) => {
                let mut out: Vec<u8> = Vec::new();
                write_app_line_to_stream(&mut out, app, line.as_slice());
                assert(out@ =~= app_line(utf8(&app.name), line@));
                push_action(&mut actions, Action::Write { stream: stream, bytes: out });
            },
            EventKind::Started(pid) => {
                push_action(&mut actions, log_action(spawned_text(app, pid)));
                if self.shutdown_requested {
                    push_action(
                        &mut actions,
                        Action::Kill { pid: pid, signal: self.shutdown_signal },
                    );
                } else {
                    match self.find(pid) {
                        Some(i) => {
                            proof {
                                lemma_remove(self.processes@, i as int);
                            }
                            self.processes.remove(i);
                        },
                        None => {},
                    }
                    proof {
                        assert forall|j: int| 0 <= j < self.processes@.len() implies
                            self.processes@[j].0.0 != pid.0 by {
                            // the entry for pid, if any, has just been removed
                        }
                    }
                    let entry = (pid, app.clone());
                    proof {
                        lemma_push(self.processes@, entry);
                    }
                    self.processes.push(entry);
                    proof {
                        assert(self@.table =~= old(self)@.table.insert(pid.0 as int, **app));
                    }
                }
            },
            EventKind::SpawnError(err) => {
                push_action(&mut actions, log_action(spawn_error_text(app, &err)));
            },
            EventKind::ReadError(_, _) => {},
            EventKind::Eof(_) => {},
        }
        proof {
            assert(views(actions@) =~= effects(
                old(self)@,
                old(self).pids(),
                Event::App { app: *app, kind: kind },
            ));
            assert(self@ == next(old(self)@, Event::App { app: *app, kind: kind }));
        }
        actions
    }

    /// Starts the shutdown on the first terminating signal: every live child gets
    /// the same signal. A later signal changes nothing.
    fn shutdown(&mut self, signal: i32) -> (actions: Vec<Action>)
        requires
            old(self).wf(),
        ensures
            final(self).wf(),
            final(self)@ == next(old(self)@, Event::Signal(signal)),
            final(self).pids() == old(self).pids(),
            views(actions@) == effects(old(self)@, old(self).pids(), Event::Signal(signal)),
    {
        let mut actions: Vec<Action> = Vec::new();
        if self.shutdown_requested {
            assert(views(actions@) =~= Seq::<ActionView>::empty());
            return actions;
        }
        self.shutdown_requested = true;
        self.shutdown_signal = signal;
        let ghost pids = old(self).pids();
        let n = self.processes.len();
        let mut i: usize = 0;
        while i < n
            invariant
                n == self.processes@.len() == pids.len(),
                pids == self.pids(),
                i <= n,
                views(actions@) == pids.take(i as int).map_values(
                    |p: int| ActionView::Kill(p, signal as int),
                ),
            decreases n - i,
        {
            let pid = self.processes[i].0;
            push_action(&mut actions, Action::Kill { pid: pid, signal: signal });
            i = i + 1;
            assert(views(actions@) =~= pids.take(i as int).map_values(
                |p: int| ActionView::Kill(p, signal as int),
            ));
        }
        assert(pids.take(n as int) =~= pids);
        actions
    }

    /// Handles the termination of process `pid`, found at `found` in the table: the
    /// entry leaves the table, and its app gets the restart policy applied.
    fn handle_exit(&mut self, pid: Pid, found: Option<usize>, actions: &mut Vec<Action>)
        requires
            old(self).wf(),
            match found {
                Some(i) => i < old(self).processes@.len() && old(self).processes@[i as int].0.0
                    == pid.0,
                None => !holds_pid(old(self).processes@, pid.0 as int),
            },
        ensures
            final(self).wf(),
            final(self)@ == (ReactorState {
                table: old(self)@.table.remove(pid.0 as int),
                ..old(self)@
            }),
            views(final(actions)@) == views(old(actions)@) + if old(self)@.table.contains_key(
                pid.0 as int,
            ) {
                restart_effects(old(self)@, old(self)@.table[pid.0 as int])
            } else {
                Seq::<ActionView>::empty()
            },
    {
        match found {
            Some(i) => {
                proof {
                    lemma_lookup(self.processes@, i as int);
                    lemma_remove(self.processes@, i as int);
                }
                let entry = self.processes.remove(i);
                let ghost before = *self;
                self.restart_app(&entry.1, actions);
                assert(before@ == self@);
            },
            None => {
                proof {
                    lemma_absent(self.processes@, pid.0 as int);
                    assert(self@.table =~= old(self)@.table.remove(pid.0 as int));
                }
                assert(views(actions@) =~= views(old(actions)@) + Seq::<ActionView>::empty());
            },
        }
    }

    /// Handles one event: returns what to do, in order, and moves to the next state.
    pub fn handle_event(&mut self, event: Event) -> (actions: Vec<Action>)
        requires
            old(self).wf(),
        ensures
            final(self).wf(),
            final(self)@ == next(old(self)@, event),
            views(actions@) == effects(old(self)@, old(self).pids(), event),
    {
        match event {
            Event::App { app, kind } => self.handle_app_event(&app, kind),
            Event::Signal(signal) => self.shutdown(signal),
            Event::Exited(pid, code) => {
                let mut actions: Vec<Action> = Vec::new();
                let found = self.find(pid);
                match found {
                    Some(i) => {
                        proof {
                            lemma_lookup(self.processes@, i as int);
                        }
                        let text = exited_text(&self.processes[i].1, code);
                        push_action(&mut actions, log_action(text));
                    },
                    None => {
                        proof {
                            lemma_absent(self.processes@, pid.0 as int);
                        }
                        push_action(&mut actions, log_action(zombie_text(pid)));
                    },
                }
                self.handle_exit(pid, found, &mut actions);
                assert(views(actions@) =~= effects(old(self)@, old(self).pids(), event));
                actions
            },
            Event::Signaled(pid, signal) => {
                let mut actions: Vec<Action> = Vec::new();
                let found = self.find(pid);
                match found {
                    Some(i) => {
                        proof {
                            lemma_lookup(self.processes@, i as int);
                        }
                        let text = signaled_text(&self.processes[i].1, signal);
                        push_action(&mut actions, log_action(text));
                    },
                    None => {
                        proof {
                            lemma_absent(self.processes@, pid.0 as int);
                        }
                        push_action(&mut actions, log_action(zombie_text(pid)));
                    },
                }
                self.handle_exit(pid, found, &mut actions);
                assert(views(actions@) =~= effects(old(self)@, old(self).pids(), event));
                actions
            },
        }
    }
}

} // verus!
