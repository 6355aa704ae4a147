//! Properties of the reactor over whole runs of events.
use vstd::prelude::*;

use crate::config::AppInfo;
use crate::events::{Event, EventKind};
use crate::reactor::{effects, log, next, zombie_msg, ActionView, ReactorState};

verus! {

/// The state after a run of events, one after another.
pub open spec fn run(s: ReactorState, es: Seq<Event>) -> ReactorState
    decreases es.len(),
{
    if es.len() == 0 {
        s
    } else {
        next(run(s, es.drop_last()), es.last())
    }
}

/// The event reports that process `p` has terminated.
pub open spec fn terminates(e: Event, p: int) -> bool {
    match e {
        Event::Exited(pid, _) => pid.0 == p,
        Event::Signaled(pid, _) => pid.0 == p,
        _ => false,
    }
}

/// The event reports that process `p` has been started.
pub open spec fn starts(e: Event, p: int) -> bool {
    match e {
        Event::App { app, kind } => match kind {
            EventKind::Started(pid) => pid.0 == p,
            _ => false,
        },
        _ => false,
    }
}

/// The action starts a child.
pub open spec fn is_spawn(a: ActionView) -> bool {
    match a {
        ActionView::Spawn(_, _) => true,
        _ => false,
    }
}

/// Once a child is in the table, it stays there, mapped to its app, through every
/// event that neither reports its termination nor starts the same identifier anew.
pub proof fn lemma_mapping_kept(s: ReactorState, es: Seq<Event>, p: int)
    requires
        s.table.contains_key(p),
        forall|k: int| 0 <= k < es.len() ==> !terminates(#[trigger] es[k], p) && !starts(es[k], p),
    ensures
        run(s, es).table.contains_key(p),
        run(s, es).table[p] == s.table[p],
    decreases es.len(),
{
    if es.len() > 0 {
        let es0 = es.drop_last();
        assert forall|k: int| 0 <= k < es0.len() implies !terminates(#[trigger] es0[k], p)
            && !starts(es0[k], p) by {
            assert(es0[k] == es[k]);
        }
        lemma_mapping_kept(s, es0, p);
        assert(!terminates(es[es.len() - 1], p) && !starts(es[es.len() - 1], p));
    }
}

/// A child that starts while no shutdown is under way is mapped to its app from its
/// start until its termination is reported.
pub proof fn lemma_started_child_mapped(
    s: ReactorState,
    app: std::sync::Arc<AppInfo>,
    pid: crate::pid::Pid,
    es: Seq<Event>,
)
    requires
        !s.shutdown,
        forall|k: int|
            0 <= k < es.len() ==> !terminates(#[trigger] es[k], pid.0 as int) && !starts(
                es[k],
                pid.0 as int,
            ),
    ensures
        ({
            let t = run(
                next(s, Event::App { app: app, kind: EventKind::Started(pid) }),
                es,
            ).table;
            t.contains_key(pid.0 as int) && t[pid.0 as int] == *app
        }),
{
    let s1 = next(s, Event::App { app: app, kind: EventKind::Started(pid) });
    assert(s1.table.contains_key(pid.0 as int));
    lemma_mapping_kept(s1, es, pid.0 as int);
}

/// Once the shutdown flag is set it stays set, and no process identifier enters the
/// table any more.
pub proof fn lemma_no_insert_after_shutdown(s: ReactorState, es: Seq<Event>)
    requires
        s.shutdown,
    ensures
        run(s, es).shutdown,
        run(s, es).table.dom().subset_of(s.table.dom()),
    decreases es.len(),
{
    if es.len() > 0 {
        lemma_no_insert_after_shutdown(s, es.drop_last());
    }
}

/// The termination of a child is handled once: the first report takes it out of the
/// table, and any later report of the same identifier is only logged as a reaped
/// zombie, with no restart.
pub proof fn lemma_termination_handled_once(
    s: ReactorState,
    pids: Seq<int>,
    e1: Event,
    e2: Event,
    p: int,
)
    requires
        terminates(e1, p),
        terminates(e2, p),
    ensures
        !next(s, e1).table.contains_key(p),
        effects(next(s, e1), pids, e2) == seq![log(zombie_msg(p))],
{
}

/// While no shutdown is under way, every reported termination of a child whose app
/// asks for restarts leads to exactly one new start of that app, after its delay.
pub proof fn lemma_restart_on_termination(s: ReactorState, pids: Seq<int>, e: Event, p: int)
    requires
        !s.shutdown,
        terminates(e, p),
        s.table.contains_key(p),
        s.table[p].restart,
    ensures
        effects(s, pids, e).last() == ActionView::Spawn(
            s.table[p],
            s.table[p].restart_delay as nat,
        ),
        forall|i: int| 0 <= i < effects(s, pids, e).len() - 1 ==> !is_spawn(
            #[trigger] effects(s, pids, e)[i],
        ),
{
}

/// Once a shutdown is under way no event leads to a new start.
pub proof fn lemma_no_spawn_in_shutdown(s: ReactorState, pids: Seq<int>, e: Event)
    requires
        s.shutdown,
    ensures
        forall|i: int| 0 <= i < effects(s, pids, e).len() ==> !is_spawn(
            #[trigger] effects(s, pids, e)[i],
        ),
{
}

} // verus!
