use vstd::prelude::*;

use crate::error::ErrorKind;
use crate::pm::{after_completion, start_action, ControlMessage, SupervisorAction};
use crate::program_data::ModuleSpecView;
use crate::registry::{apply_write, RegistryView};
use crate::runner::{
    next, ControlLoopView, ControlPoll, LoopActionView, LoopEvent, Phase, RESTART_CAP,
};
use crate::spawner::stop_target;

verus! {

/// A control loop writes a pid into its record only on the outcome of its
/// own launch: whenever a transition writes a record that names a running
/// pid, the event was that launch having given exactly that pid. (The write
/// always goes to the loop's own name, and the exit monitor only ever
/// clears the pid.)
pub proof fn lemma_pid_comes_from_own_spawn(
    s: ControlLoopView,
    recs: Map<Seq<char>, ModuleSpecView>,
    ev: LoopEvent,
    p: u32,
)
    requires
        s.wf(),
        s.accepts(ev),
        next(s, recs, ev).1 is Some,
        next(s, recs, ev).1.unwrap().pid() == Some(p),
    ensures
        ev == LoopEvent::Spawned(Ok(p)),
{
}

/// Inserting a record under a name and flushing makes a retrieval under
/// that name give the record back, in memory and in the durable state.
pub proof fn lemma_round_trip(reg: RegistryView, name: Seq<char>, spec: ModuleSpecView)
    ensures
        reg.inserted(name, spec).flushed().retrieved(name) == Some(spec),
        reg.inserted(name, spec).flushed().durable[name] == spec,
{
}

/// The state and records after `n` cycles in which every launch fails with
/// `e` and the control channel stays empty.
pub open spec fn failing_cycles(
    s: ControlLoopView,
    recs: Map<Seq<char>, ModuleSpecView>,
    e: ErrorKind,
    n: nat,
) -> (ControlLoopView, Map<Seq<char>, ModuleSpecView>)
    decreases n,
{
    if n == 0 {
        (s, recs)
    } else {
        let (s0, r0) = failing_cycles(s, recs, e, (n - 1) as nat);
        let (s1, _, _) = next(s0, r0, LoopEvent::Tick);
        let (s2, w2, _) = next(s1, r0, LoopEvent::Spawned(Err(e)));
        let r2 = apply_write(r0, s.name, w2);
        let (s3, _, _) = next(s2, r2, LoopEvent::Polled(ControlPoll::Empty));
        (s3, r2)
    }
}

proof fn lemma_failing_cycles_count(
    s: ControlLoopView,
    recs: Map<Seq<char>, ModuleSpecView>,
    e: ErrorKind,
    n: nat,
)
    requires
        s.phase == Phase::Start,
        s.restart_count == 0,
        s.pending is None,
        recs.contains_key(s.name),
        recs[s.name].pid() is None,
        n < RESTART_CAP,
    ensures
        failing_cycles(s, recs, e, n).0 == (ControlLoopView { restart_count: n, ..s }),
        failing_cycles(s, recs, e, n).1.contains_key(s.name),
        failing_cycles(s, recs, e, n).1[s.name].pid() is None,
    decreases n,
{
    if n > 0 {
        lemma_failing_cycles_count(s, recs, e, (n - 1) as nat);
    }
}

/// The restart cap: a fresh loop whose launches all fail makes one attempt
/// per cycle and stays active through the first `RESTART_CAP - 1` such
/// cycles; in cycle `RESTART_CAP` its attempt, once failed, ends the loop
/// with its single completion notification, after which no event leads to
/// a launch or a write. So at most `RESTART_CAP` attempts are made.
pub proof fn lemma_restart_cap(
    s: ControlLoopView,
    recs: Map<Seq<char>, ModuleSpecView>,
    e: ErrorKind,
    ev: LoopEvent,
    later: Map<Seq<char>, ModuleSpecView>,
)
    requires
        s.phase == Phase::Start,
        s.restart_count == 0,
        s.pending is None,
        recs.contains_key(s.name),
        recs[s.name].pid() is None,
    ensures
        forall|n: nat|
            n < RESTART_CAP ==> #[trigger] failing_cycles(s, recs, e, n).0 == (ControlLoopView {
                restart_count: n,
                ..s
            }),
        ({
            let (s0, r0) = failing_cycles(s, recs, e, (RESTART_CAP - 1) as nat);
            let (s1, w1, a1) = next(s0, r0, LoopEvent::Tick);
            let (s2, w2, a2) = next(s1, r0, LoopEvent::Spawned(Err(e)));
            &&& a1 == LoopActionView::Spawn(r0[s.name])
            &&& w1 is None
            &&& w2 is Some
            &&& w2.unwrap().pid() is None
            &&& a2 == LoopActionView::Finish(s.name, None)
            &&& s2.phase == Phase::Finished
            &&& next(s2, later, ev) == (s2, None::<ModuleSpecView>, LoopActionView::Halted)
        }),
{
    assert forall|n: nat| n < RESTART_CAP implies #[trigger] failing_cycles(s, recs, e, n).0
        == (ControlLoopView { restart_count: n, ..s }) by {
        lemma_failing_cycles_count(s, recs, e, n);
    }
    lemma_failing_cycles_count(s, recs, e, (RESTART_CAP - 1) as nat);
}

/// A finished loop stays finished: every event leaves it as it is, writes
/// nothing and asks for nothing, so its completion is handed out once.
pub proof fn lemma_finished_is_final(
    s: ControlLoopView,
    recs: Map<Seq<char>, ModuleSpecView>,
    ev: LoopEvent,
)
    requires
        s.phase == Phase::Finished,
    ensures
        next(s, recs, ev) == (s, None::<ModuleSpecView>, LoopActionView::Halted),
{
}

/// The stop law: a stop or exit message to a loop that looks at its control
/// channel ends it with a termination signal to the pid that its record
/// names and one completion notification, without a write; and from then on
/// no event writes to the registry or produces another notification.
pub proof fn lemma_stop(
    s: ControlLoopView,
    recs: Map<Seq<char>, ModuleSpecView>,
    m: ControlMessage,
    ev: LoopEvent,
    later: Map<Seq<char>, ModuleSpecView>,
)
    requires
        s.wf(),
        s.phase == Phase::AwaitPoll,
        recs.contains_key(s.name),
    ensures
        ({
            let (t, w, a) = next(s, recs, LoopEvent::Polled(ControlPoll::Message(m)));
            &&& w is None
            &&& a == LoopActionView::Finish(s.name, stop_target(recs[s.name]))
            &&& t.phase == Phase::Finished
            &&& next(t, later, ev) == (t, None::<ModuleSpecView>, LoopActionView::Halted)
        }),
{
}

/// How many loops are still running after `j` completions out of `k`.
pub open spec fn running_after(k: nat, j: nat) -> nat
    decreases j,
{
    if j == 0 {
        k
    } else {
        after_completion(running_after(k, (j - 1) as nat)).0
    }
}

proof fn lemma_running_after(k: nat, j: nat)
    requires
        j <= k,
    ensures
        running_after(k, j) == k - j,
    decreases j,
{
    if j > 0 {
        lemma_running_after(k, (j - 1) as nat);
    }
}

/// The drain law, for any number `k >= 1` of loops: the `j`-th completion
/// leads to waiting while more than two loops ran before it, to the stop
/// broadcast when it leaves one loop running (at once, for a single loop),
/// and to termination when it is the last.
pub proof fn lemma_drain(k: nat, j: nat)
    requires
        1 <= j <= k,
    ensures
        (k == 1) == (start_action(k) == SupervisorAction::StopAll),
        after_completion(running_after(k, (j - 1) as nat)).1 == (if j == k {
            SupervisorAction::Done
        } else if j + 1 == k {
            SupervisorAction::StopAll
        } else {
            SupervisorAction::Wait
        }),
        running_after(k, j) == k - j,
{
    lemma_running_after(k, (j - 1) as nat);
    lemma_running_after(k, j);
}

/// Two loops that own distinct modules never disturb each other's record:
/// whatever each writes under its own name (a record or nothing), in either
/// order, each name ends up with its own loop's write, or as it was where
/// that loop wrote nothing, and every other name is as it was.
pub proof fn lemma_disjoint_writers(
    recs: Map<Seq<char>, ModuleSpecView>,
    a: Seq<char>,
    wa: Option<ModuleSpecView>,
    b: Seq<char>,
    wb: Option<ModuleSpecView>,
)
    requires
        a != b,
    ensures
        apply_write(apply_write(recs, a, wa), b, wb) == apply_write(apply_write(recs, b, wb), a, wa),
        apply_write(apply_write(recs, a, wa), b, wb).contains_key(a) == (wa is Some
            || recs.contains_key(a)),
        apply_write(apply_write(recs, a, wa), b, wb)[a] == match wa {
            Some(m) => m,
            None => recs[a],
        },
        apply_write(apply_write(recs, a, wa), b, wb)[b] == match wb {
            Some(m) => m,
            None => recs[b],
        },
        forall|k: Seq<char>|
            k != a && k != b ==> #[trigger] apply_write(apply_write(recs, a, wa), b, wb).contains_key(k)
                == recs.contains_key(k) && apply_write(apply_write(recs, a, wa), b, wb)[k] == recs[k],
{
    assert(apply_write(apply_write(recs, a, wa), b, wb) =~= apply_write(apply_write(recs, b, wb), a, wa));
}

} // verus!
