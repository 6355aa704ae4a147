//! The process table: which live child belongs to which app.
use std::sync::Arc;

use vstd::prelude::*;

use crate::config::AppInfo;
use crate::pid::Pid;

verus! {

/// The entries hold each process identifier at most once.
pub open spec fn unique_pids(e: Seq<(Pid, Arc<AppInfo>)>) -> bool {
    forall|i: int, j: int|
        0 <= i < e.len() && 0 <= j < e.len() && i != j ==> #[trigger] e[i].0.0 != #[trigger] e[j].0.0
}

/// Some entry holds process `k`.
pub open spec fn holds_pid(e: Seq<(Pid, Arc<AppInfo>)>, k: int) -> bool {
    exists|i: int| 0 <= i < e.len() && e[i].0.0 == k
}

/// The mapping from process identifier to app that the entries stand for.
pub open spec fn table_of(e: Seq<(Pid, Arc<AppInfo>)>) -> Map<int, AppInfo> {
    Map::new(
        |k: int| holds_pid(e, k),
        |k: int| *e[choose|i: int| 0 <= i < e.len() && e[i].0.0 == k].1,
    )
}

/// The app of one entry.
pub open spec fn app_of(x: (Pid, Arc<AppInfo>)) -> AppInfo {
    *x.1
}

/// The process identifiers of the entries, in order.
pub open spec fn pids_of(e: Seq<(Pid, Arc<AppInfo>)>) -> Seq<int> {
    e.map_values(|x: (Pid, Arc<AppInfo>)| x.0.0 as int)
}

pub proof fn lemma_lookup(e: Seq<(Pid, Arc<AppInfo>)>, i: int)
    requires
        unique_pids(e),
        0 <= i < e.len(),
    ensures
        table_of(e).contains_key(e[i].0.0 as int),
        table_of(e)[e[i].0.0 as int] == *e[i].1,
{
    let k = e[i].0.0 as int;
    assert(holds_pid(e, k));
    let j = choose|j: int| 0 <= j < e.len() && e[j].0.0 == k;
    assert(e[j].0.0 == e[i].0.0);
}

pub proof fn lemma_absent(e: Seq<(Pid, Arc<AppInfo>)>, k: int)
    requires
        forall|i: int| 0 <= i < e.len() ==> e[i].0.0 != k,
    ensures
        !table_of(e).contains_key(k),
{
}

pub proof fn lemma_pids(e: Seq<(Pid, Arc<AppInfo>)>)
    requires
        unique_pids(e),
    ensures
        pids_of(e).no_duplicates(),
        pids_of(e).to_set() == table_of(e).dom(),
{
    let p = pids_of(e);
    assert forall|i: int, j: int| 0 <= i < p.len() && 0 <= j < p.len() && i != j implies p[i]
        != p[j] by {
        assert(e[i].0.0 != e[j].0.0);
    }
    assert forall|k: int| p.to_set().contains(k) <==> table_of(e).dom().contains(k) by {
        if p.to_set().contains(k) {
            let i = choose|i: int| 0 <= i < p.len() && p[i] == k;
            assert(e[i].0.0 == k);
        }
        if table_of(e).dom().contains(k) {
            let i = choose|i: int| 0 <= i < e.len() && e[i].0.0 == k;
            assert(p[i] == k);
        }
    }
    assert(p.to_set() =~= table_of(e).dom());
}

pub proof fn lemma_push(e: Seq<(Pid, Arc<AppInfo>)>, x: (Pid, Arc<AppInfo>))
    requires
        unique_pids(e),
        !holds_pid(e, x.0.0 as int),
    ensures
        unique_pids(e.push(x)),
        table_of(e.push(x)) == table_of(e).insert(x.0.0 as int, app_of(x)),
{
    let e2 = e.push(x);
    let k = x.0.0 as int;
    assert forall|i: int, j: int|
        0 <= i < e2.len() && 0 <= j < e2.len() && i != j implies #[trigger] e2[i].0.0
        != #[trigger] e2[j].0.0 by {
        if i < e.len() && j < e.len() {
            assert(e[i].0.0 != e[j].0.0);
        } else if i < e.len() {
            assert(e[i].0.0 != k);
        } else {
            assert(e[j].0.0 != k);
        }
    }
    let ghost m1 = table_of(e).insert(k, app_of(x));
    let ghost m2 = table_of(e2);
    assert forall|q: int| #[trigger] m2.contains_key(q) <==> m1.contains_key(q) by {
        if m2.contains_key(q) && q != k {
            let i = choose|i: int| 0 <= i < e2.len() && e2[i].0.0 == q;
            assert(i < e.len());
            assert(e[i].0.0 == q);
        }
        if m1.contains_key(q) {
            if q == k {
                assert(e2[e.len() as int].0.0 == k);
            } else {
                let i = choose|i: int| 0 <= i < e.len() && e[i].0.0 == q;
                assert(e2[i].0.0 == q);
            }
        }
    }
    assert forall|q: int| #[trigger] m2.contains_key(q) implies m2[q] == m1[q] by {
        if q == k {
            lemma_lookup(e2, e.len() as int);
        } else {
            let i = choose|i: int| 0 <= i < e2.len() && e2[i].0.0 == q;
            assert(i < e.len());
            lemma_lookup(e2, i);
            lemma_lookup(e, i);
        }
    }
    assert(m2 =~= m1);
}

pub proof fn lemma_remove(e: Seq<(Pid, Arc<AppInfo>)>, i: int)
    requires
        unique_pids(e),
        0 <= i < e.len(),
    ensures
        unique_pids(e.remove(i)),
        table_of(e.remove(i)) == table_of(e).remove(e[i].0.0 as int),
{
    let e2 = e.remove(i);
    let k = e[i].0.0 as int;
    assert forall|a: int, b: int|
        0 <= a < e2.len() && 0 <= b < e2.len() && a != b implies #[trigger] e2[a].0.0
        != #[trigger] e2[b].0.0 by {
        let a1 = if a < i { a } else { a + 1 };
        let b1 = if b < i { b } else { b + 1 };
        assert(e2[a] == e[a1]);
        assert(e2[b] == e[b1]);
        assert(e[a1].0.0 != e[b1].0.0);
    }
    let ghost m1 = table_of(e).remove(k);
    let ghost m2 = table_of(e2);
    assert forall|q: int| #[trigger] m2.contains_key(q) <==> m1.contains_key(q) by {
        if m2.contains_key(q) {
            let a = choose|a: int| 0 <= a < e2.len() && e2[a].0.0 == q;
            let a1 = if a < i { a } else { a + 1 };
            assert(e2[a] == e[a1]);
            assert(e[a1].0.0 != e[i].0.0);
        }
        if m1.contains_key(q) {
            let a1 = choose|a1: int| 0 <= a1 < e.len() && e[a1].0.0 == q;
            assert(a1 != i);
            let a = if a1 < i { a1 } else { a1 - 1 };
            assert(e2[a] == e[a1]);
        }
    }
    assert forall|q: int| #[trigger] m2.contains_key(q) implies m2[q] == m1[q] by {
        let a = choose|a: int| 0 <= a < e2.len() && e2[a].0.0 == q;
        let a1 = if a < i { a } else { a + 1 };
        assert(e2[a] == e[a1]);
        lemma_lookup(e2, a);
        lemma_lookup(e, a1);
    }
    assert(m2 =~= m1);
}

} // verus!
