use vstd::prelude::*;

use crate::error::ErrorKind;
use crate::pm::{ControlMessage, ControlResponse};
use crate::program_data::{ModuleSpec, ModuleSpecView, Status, StatusView};
use crate::registry::{apply_write, Registry};
use crate::spawner::{kill_process, stop_target};

verus! {

/// How many start attempts a control loop may make; once its count of
/// attempts reaches this, the loop finishes.
pub const RESTART_CAP: u32 = 10;

/// What a look at the control channel, without waiting, found.
#[derive(Clone, Copy, Debug, PartialEq, Eq, Structural)]
pub enum ControlPoll {
    Message(ControlMessage),
    /// The channel is closed: the supervisor can no longer be reached.
    Closed,
    Empty,
}

/// What happened outside since the loop's last action.
#[derive(Clone, Copy, Debug)]
pub enum LoopEvent {
    /// A cycle begins: at the start, and after each sleep.
    Tick,
    /// The launch that `Spawn` asked for gave this pid, or failed.
    Spawned(Result<u32, ErrorKind>),
    /// The control channel was looked at.
    Polled(ControlPoll),
}

/// What the loop asks to be done next.
#[derive(Debug)]
pub enum LoopAction {
    /// Launch the process of this record, and answer with `Spawned`.
    Spawn(ModuleSpec),
    /// Look at the control channel without waiting, and answer with `Polled`.
    PollControl,
    /// Wait for the poll interval, and answer with `Tick`.
    Sleep,
    /// The loop is over: send this completion notification. The pid that the
    /// loop signalled on the way out, if any, is given too.
    Finish(ControlResponse, Option<u32>),
    /// The loop was already over: nothing to do.
    Halted,
}

pub enum LoopActionView {
    Spawn(ModuleSpecView),
    PollControl,
    Sleep,
    Finish(Seq<char>, Option<u32>),
    Halted,
}

impl View for LoopAction {
    type V = LoopActionView;

    open spec fn view(&self) -> LoopActionView {
        match self {
            LoopAction::Spawn(m) => LoopActionView::Spawn(m@),
            LoopAction::PollControl => LoopActionView::PollControl,
            LoopAction::Sleep => LoopActionView::Sleep,
            LoopAction::Finish(r, p) => LoopActionView::Finish(r.module_spec(), *p),
            LoopAction::Halted => LoopActionView::Halted,
        }
    }
}

/// Where a control loop stands.
#[derive(Clone, Copy, Debug, PartialEq, Eq, Structural)]
pub enum Phase {
    /// At the start of a cycle, waiting for `Tick`.
    Start,
    /// Waiting for the outcome of a launch.
    AwaitSpawn,
    /// Waiting for a look at the control channel.
    AwaitPoll,
    /// Done: the completion notification has been handed out.
    Finished,
}

/// The state machine that owns one module's process lifecycle.
#[derive(Debug)]
pub struct ControlLoop {
    module_name: String,
    restart_count: u32,
    phase: Phase,
    pending: Option<ModuleSpec>,
}

pub struct ControlLoopView {
    pub name: Seq<char>,
    pub restart_count: nat,
    pub phase: Phase,
    /// The record whose launch is awaited.
    pub pending: Option<ModuleSpecView>,
}

impl View for ControlLoop {
    type V = ControlLoopView;

    closed spec fn view(&self) -> ControlLoopView {
        ControlLoopView {
            name: self.module_name@,
            restart_count: self.restart_count as nat,
            phase: self.phase,
            pending: match self.pending {
                Some(m) => Some(m@),
                None => None,
            },
        }
    }
}

impl ControlLoopView {
    pub open spec fn wf(self) -> bool {
        &&& (self.phase == Phase::AwaitSpawn) == self.pending.is_some()
        &&& self.restart_count <= RESTART_CAP
        &&& (self.phase == Phase::Start || self.phase == Phase::AwaitPoll) ==> self.restart_count
            < RESTART_CAP
    }

    /// Whether `ev` answers what the loop waits for.
    pub open spec fn accepts(self, ev: LoopEvent) -> bool {
        match self.phase {
            Phase::Start => ev is Tick,
            Phase::AwaitSpawn => ev is Spawned,
            Phase::AwaitPoll => ev is Polled,
            Phase::Finished => true,
        }
    }
}

/// The status recorded after a launch: the new pid, or nothing where the
/// launch failed.
pub open spec fn spawn_status(o: Result<u32, ErrorKind>) -> StatusView {
    StatusView {
        pid: match o {
            Ok(p) => Some(p),
            Err(_) => None,
        },
        exit_status: None,
    }
}

/// After a start attempt, or a cycle without one: finish once the count of
/// attempts has reached the cap, else look at the control channel. A process
/// that the loop still tracks is left running when it finishes this way.
pub open spec fn after_attempt(s: ControlLoopView) -> (ControlLoopView, LoopActionView) {
    if s.restart_count >= RESTART_CAP {
        (ControlLoopView { phase: Phase::Finished, ..s }, LoopActionView::Finish(s.name, None))
    } else {
        (ControlLoopView { phase: Phase::AwaitPoll, ..s }, LoopActionView::PollControl)
    }
}

/// One transition of the control loop in state `s`, over the registry
/// records `recs`, on event `ev`: the next state, the record that the loop
/// writes under its own name (inserted and flushed as one step), if any, and
/// the action that it asks for.
pub open spec fn next(s: ControlLoopView, recs: Map<Seq<char>, ModuleSpecView>, ev: LoopEvent) -> (
    ControlLoopView,
    Option<ModuleSpecView>,
    LoopActionView,
) {
    match s.phase {
        Phase::Finished => (s, None, LoopActionView::Halted),
        Phase::Start => {
            if recs.contains_key(s.name) && recs[s.name].pid() is None {
                (
                    ControlLoopView {
                        restart_count: s.restart_count + 1,
                        phase: Phase::AwaitSpawn,
                        pending: Some(recs[s.name]),
                        ..s
                    },
                    None,
                    LoopActionView::Spawn(recs[s.name]),
                )
            } else {
                let (t, a) = after_attempt(s);
                (t, None, a)
            }
        },
        Phase::AwaitSpawn => match ev {
            LoopEvent::Spawned(o) => {
                let w = ModuleSpecView { status: Some(spawn_status(o)), ..s.pending.unwrap() };
                let (t, a) = after_attempt(ControlLoopView { pending: None, ..s });
                (t, Some(w), a)
            },
            _ => (s, None, LoopActionView::Halted),
        },
        Phase::AwaitPoll => match ev {
            LoopEvent::Polled(ControlPoll::Message(_)) => (
                ControlLoopView { phase: Phase::Finished, ..s },
                None,
                LoopActionView::Finish(
                    s.name,
                    if recs.contains_key(s.name) {
                        stop_target(recs[s.name])
                    } else {
                        None
                    },
                ),
            ),
            LoopEvent::Polled(ControlPoll::Closed) => (
                ControlLoopView { phase: Phase::Finished, ..s },
                None,
                LoopActionView::Finish(s.name, None),
            ),
            LoopEvent::Polled(ControlPoll::Empty) => (
                ControlLoopView { phase: Phase::Start, ..s },
                None,
                LoopActionView::Sleep,
            ),
            _ => (s, None, LoopActionView::Halted),
        },
    }
}

impl ControlLoop {
    /// A loop for module `module_name` that has made no start attempt yet.
    pub fn new(module_name: String) -> (r: Self)
        ensures
            r@ == (ControlLoopView {
                name: module_name@,
                restart_count: 0,
                phase: Phase::Start,
                pending: None,
            }),
    {
        ControlLoop { module_name, restart_count: 0, phase: Phase::Start, pending: None }
    }

    pub fn module_name(&self) -> (r: &String)
        ensures
            r@ == self@.name,
    {
        &self.module_name
    }

    pub fn restart_count(&self) -> (r: u32)
        ensures
            r == self@.restart_count,
    {
        self.restart_count
    }

    pub fn phase(&self) -> (r: Phase)
        ensures
            r == self@.phase,
    {
        self.phase
    }

    /// Whether `ev` answers what the loop waits for.
    pub fn accepts(&self, ev: &LoopEvent) -> (r: bool)
        ensures
            r == self@.accepts(*ev),
    {
        match (self.phase, ev) {
            (Phase::Finished, _) => true,
            (Phase::Start, LoopEvent::Tick) => true,
            (Phase::AwaitSpawn, LoopEvent::Spawned(_)) => true,
            (Phase::AwaitPoll, LoopEvent::Polled(_)) => true,
            _ => false,
        }
    }

    fn after_attempt(&mut self) -> (r: LoopAction)
        requires
            old(self)@.restart_count <= RESTART_CAP,
        ensures
            (final(self)@, r@) == after_attempt(old(self)@),
    {
        if self.restart_count >= RESTART_CAP {
            self.phase = Phase::Finished;
            LoopAction::Finish(ControlResponse::Stopped(self.module_name.clone()), None)
        } else {
            self.phase = Phase::AwaitPoll;
            LoopAction::PollControl
        }
    }

    /// Runs one transition on event `ev`, reading and writing the shared
    /// registry `reg`: only the record under this loop's own name is ever
    /// written, and a write is an insert and a flush as one step.
    pub fn step(&mut self, reg: &mut Registry, ev: LoopEvent) -> (r: LoopAction)
        requires
            old(self)@.wf(),
            old(self)@.accepts(ev),
            old(reg).wf(),
        ensures
            final(self)@.wf(),
            final(reg).wf(),
            ({
                let (t, w, a) = next(old(self)@, old(reg)@.records, ev);
                &&& final(self)@ == t
                &&& r@ == a
                &&& final(reg)@.records == apply_write(old(reg)@.records, old(self)@.name, w)
                &&& match w {
                    None => final(reg)@ == old(reg)@,
                    Some(m) => final(reg)@ == old(reg)@.inserted(old(self)@.name, m).flushed(),
                }
            }),
    {
        match self.phase {
            Phase::Finished => LoopAction::Halted,
            Phase::Start => {
                match reg.retrieve(&self.module_name) {
                    Ok(spec) => {
                        if spec.pid().is_none() {
                            self.restart_count = self.restart_count + 1;
                            self.phase = Phase::AwaitSpawn;
                            self.pending = Some(spec.clone());
                            LoopAction::Spawn(spec)
                        } else {
                            self.after_attempt()
                        }
                    },
                    Err(_) => self.after_attempt(),
                }
            },
            Phase::AwaitSpawn => {
                match ev {
                    LoopEvent::Spawned(o) => {
                        let pending = self.pending.take();
                        let spec = pending.unwrap();
                        let pid = match o {
                            Ok(p) => Some(p),
                            Err(_) => None,
                        };
                        let spec = spec.with_status(Status::new(pid, None));
                        reg.update(self.module_name.clone(), spec);
                        self.after_attempt()
                    },
                    _ => LoopAction::Halted,
                }
            },
            Phase::AwaitPoll => {
                match ev {
                    LoopEvent::Polled(ControlPoll::Message(_)) => {
                        let signalled = match reg.retrieve(&self.module_name) {
                            Ok(spec) => kill_process(&spec),
                            Err(_) => None,
                        };
                        self.phase = Phase::Finished;
                        LoopAction::Finish(ControlResponse::Stopped(self.module_name.clone()), signalled)
                    },
                    LoopEvent::Polled(ControlPoll::Closed) => {
                        self.phase = Phase::Finished;
                        LoopAction::Finish(ControlResponse::Stopped(self.module_name.clone()), None)
                    },
                    LoopEvent::Polled(ControlPoll::Empty) => {
                        self.phase = Phase::Start;
                        LoopAction::Sleep
                    },
                    _ => LoopAction::Halted,
                }
            },
        }
    }
}

/// The exit monitor's update: once the process of module `name` has
/// completed with `code`, its record says that nothing runs and gives the
/// code; `DbRetrieve`, with nothing written, where there is no record.
pub fn record_exit(reg: &mut Registry, name: &String, code: Option<i32>) -> (r: Result<(), ErrorKind>)
    requires
        old(reg).wf(),
    ensures
        final(reg).wf(),
        match r {
            Ok(()) => {
                &&& old(reg)@.records.contains_key(name@)
                &&& final(reg)@ == old(reg)@.inserted(
                    name@,
                    ModuleSpecView {
                        status: Some(StatusView { pid: None, exit_status: code }),
                        ..old(reg)@.records[name@]
                    },
                ).flushed()
            },
            Err(e) => {
                &&& !old(reg)@.records.contains_key(name@)
                &&& e == ErrorKind::DbRetrieve
                &&& final(reg)@ == old(reg)@
            },
        },
{
    let spec = reg.retrieve(name)?;
    let spec = spec.with_status(Status::new(None, code));
    reg.update(name.clone(), spec);
    Ok(())
}

} // verus!
