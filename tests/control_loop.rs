use process_manager::error::ErrorKind;
use process_manager::pm::{ControlMessage, Supervisor, SupervisorAction, PM};
use process_manager::program_data::{Config, ModuleSpec, ProcessParameters};
use process_manager::registry::Registry;
use process_manager::runner::{
    record_exit, ControlLoop, ControlPoll, LoopAction, LoopEvent, Phase, RESTART_CAP,
};

fn seeded(names: &[&str]) -> Registry {
    let mut reg = Registry::new();
    for n in names {
        let p = ProcessParameters::new(vec!["/bin/true".to_string()], vec![], "/tmp".to_string());
        reg.update(n.to_string(), ModuleSpec::new(n.to_string(), Config::new(None, p)));
    }
    reg
}

fn pid_of(reg: &Registry, name: &str) -> Option<u32> {
    reg.retrieve(&name.to_string()).unwrap().pid()
}

#[test]
fn spawn_records_the_new_pid() {
    let mut reg = seeded(&["a"]);
    let mut cl = ControlLoop::new("a".to_string());
    match cl.step(&mut reg, LoopEvent::Tick) {
        LoopAction::Spawn(spec) => assert_eq!(spec.name(), "a"),
        other => panic!("expected a spawn, got {:?}", other),
    }
    assert_eq!(cl.restart_count(), 1);
    assert!(matches!(cl.step(&mut reg, LoopEvent::Spawned(Ok(4242))), LoopAction::PollControl));
    assert_eq!(pid_of(&reg, "a"), Some(4242));
    assert!(matches!(cl.step(&mut reg, LoopEvent::Polled(ControlPoll::Empty)), LoopAction::Sleep));
    // A process believed running is not started again.
    assert!(matches!(cl.step(&mut reg, LoopEvent::Tick), LoopAction::PollControl));
    assert_eq!(cl.restart_count(), 1);
}

#[test]
fn failed_spawn_records_no_pid() {
    let mut reg = seeded(&["a"]);
    let mut cl = ControlLoop::new("a".to_string());
    cl.step(&mut reg, LoopEvent::Tick);
    cl.step(&mut reg, LoopEvent::Spawned(Err(ErrorKind::ForkFailed)));
    let rec = reg.retrieve(&"a".to_string()).unwrap();
    assert_eq!(rec.pid(), None);
    assert_eq!(rec.status().unwrap().exit_status(), None);
}

#[test]
fn missing_record_is_retried_next_cycle() {
    let mut reg = Registry::new();
    let mut cl = ControlLoop::new("ghost".to_string());
    assert!(matches!(cl.step(&mut reg, LoopEvent::Tick), LoopAction::PollControl));
    assert_eq!(cl.restart_count(), 0);
    assert!(matches!(cl.step(&mut reg, LoopEvent::Polled(ControlPoll::Empty)), LoopAction::Sleep));
    assert_eq!(cl.phase(), Phase::Start);
}

#[test]
fn restart_cap_ends_the_loop() {
    let mut reg = seeded(&["a"]);
    let mut cl = ControlLoop::new("a".to_string());
    let mut spawns = 0;
    let mut completions = 0;
    for _cycle in 0..(RESTART_CAP + 5) {
        if !cl.accepts(&LoopEvent::Tick) || cl.phase() == Phase::Finished {
            break;
        }
        match cl.step(&mut reg, LoopEvent::Tick) {
            LoopAction::Spawn(_) => spawns += 1,
            other => panic!("expected a spawn, got {:?}", other),
        }
        match cl.step(&mut reg, LoopEvent::Spawned(Err(ErrorKind::ForkFailed))) {
            LoopAction::PollControl => {
                cl.step(&mut reg, LoopEvent::Polled(ControlPoll::Empty));
            }
            LoopAction::Finish(resp, signalled) => {
                completions += 1;
                assert_eq!(resp.module(), "a");
                assert_eq!(signalled, None);
            }
            other => panic!("unexpected {:?}", other),
        }
    }
    assert_eq!(spawns, RESTART_CAP);
    assert_eq!(completions, 1);
    assert_eq!(cl.phase(), Phase::Finished);
    assert!(matches!(cl.step(&mut reg, LoopEvent::Tick), LoopAction::Halted));
}

#[test]
fn stop_signals_the_recorded_pid_and_completes_once() {
    let mut reg = seeded(&["a"]);
    let mut cl = ControlLoop::new("a".to_string());
    cl.step(&mut reg, LoopEvent::Tick);
    // No process can have this pid, so the signal harms nothing.
    cl.step(&mut reg, LoopEvent::Spawned(Ok(2_000_000_000)));
    match cl.step(&mut reg, LoopEvent::Polled(ControlPoll::Message(ControlMessage::Stop))) {
        LoopAction::Finish(resp, signalled) => {
            assert_eq!(resp.module(), "a");
            assert_eq!(signalled, Some(2_000_000_000));
        }
        other => panic!("expected the completion, got {:?}", other),
    }
    assert!(reg.take_unsaved().is_some());
    assert!(matches!(cl.step(&mut reg, LoopEvent::Tick), LoopAction::Halted));
    assert!(matches!(
        cl.step(&mut reg, LoopEvent::Polled(ControlPoll::Message(ControlMessage::Exit))),
        LoopAction::Halted
    ));
    assert!(reg.take_unsaved().is_none());
}

#[test]
fn closed_channel_ends_the_loop() {
    let mut reg = seeded(&["a"]);
    let mut cl = ControlLoop::new("a".to_string());
    cl.step(&mut reg, LoopEvent::Tick);
    cl.step(&mut reg, LoopEvent::Spawned(Err(ErrorKind::ForkFailed)));
    match cl.step(&mut reg, LoopEvent::Polled(ControlPoll::Closed)) {
        LoopAction::Finish(resp, signalled) => {
            assert_eq!(resp.module(), "a");
            assert_eq!(signalled, None);
        }
        other => panic!("expected the completion, got {:?}", other),
    }
}

#[test]
fn events_out_of_turn_are_refused() {
    let cl = ControlLoop::new("a".to_string());
    assert!(cl.accepts(&LoopEvent::Tick));
    assert!(!cl.accepts(&LoopEvent::Spawned(Ok(1))));
    assert!(!cl.accepts(&LoopEvent::Polled(ControlPoll::Empty)));
}

#[test]
fn exit_monitor_records_the_exit_code() {
    let mut reg = seeded(&["a"]);
    let mut cl = ControlLoop::new("a".to_string());
    cl.step(&mut reg, LoopEvent::Tick);
    cl.step(&mut reg, LoopEvent::Spawned(Ok(77)));
    record_exit(&mut reg, &"a".to_string(), Some(3)).unwrap();
    let rec = reg.retrieve(&"a".to_string()).unwrap();
    assert_eq!(rec.pid(), None);
    assert_eq!(rec.status().unwrap().exit_status(), Some(3));
    assert_eq!(record_exit(&mut reg, &"b".to_string(), Some(0)), Err(ErrorKind::DbRetrieve));
}

#[test]
fn two_loops_write_only_their_own_records() {
    let mut reg = seeded(&["a", "b"]);
    let mut la = ControlLoop::new("a".to_string());
    let mut lb = ControlLoop::new("b".to_string());
    la.step(&mut reg, LoopEvent::Tick);
    lb.step(&mut reg, LoopEvent::Tick);
    lb.step(&mut reg, LoopEvent::Spawned(Ok(200)));
    la.step(&mut reg, LoopEvent::Spawned(Ok(100)));
    assert_eq!(pid_of(&reg, "a"), Some(100));
    assert_eq!(pid_of(&reg, "b"), Some(200));
}

#[test]
fn supervisor_drains_two_modules() {
    let (mut sup, first) = Supervisor::start(2);
    assert_eq!(first, SupervisorAction::Wait);
    let resp = process_manager::pm::ControlResponse::Stopped("a".to_string());
    assert_eq!(sup.on_notification(Some(&resp)), SupervisorAction::StopAll);
    assert_eq!(sup.running(), 1);
    assert_eq!(sup.on_notification(Some(&resp)), SupervisorAction::Done);
    assert_eq!(sup.running(), 0);
}

#[test]
fn supervisor_drain_for_one_and_three_modules() {
    let (_, first) = Supervisor::start(1);
    assert_eq!(first, SupervisorAction::StopAll);
    let (_, none) = Supervisor::start(0);
    assert_eq!(none, SupervisorAction::Done);
    let (mut sup, first) = Supervisor::start(3);
    assert_eq!(first, SupervisorAction::Wait);
    let resp = process_manager::pm::ControlResponse::Stopped("x".to_string());
    assert_eq!(sup.on_notification(Some(&resp)), SupervisorAction::Wait);
    assert_eq!(sup.on_notification(Some(&resp)), SupervisorAction::StopAll);
    assert_eq!(sup.on_notification(Some(&resp)), SupervisorAction::Done);
}

#[test]
fn supervisor_fails_on_a_closed_completion_channel() {
    let (mut sup, _) = Supervisor::start(2);
    assert_eq!(sup.on_notification(None), SupervisorAction::Fail);
    assert_eq!(sup.running(), 2);
}

#[test]
fn build_database_seeds_the_demo_modules() {
    let pm = PM::new("/tmp/pm".to_string());
    assert_eq!(pm.workingdir(), "/tmp/pm");
    let mut reg = Registry::new();
    let names = pm.build_database(&mut reg);
    assert_eq!(names, vec!["module1".to_string(), "module2".to_string()]);
    let m1 = reg.retrieve(&"module1".to_string()).unwrap();
    assert_eq!(m1.config().settings().exe(), "/bin/ls");
    assert_eq!(m1.config().settings().stdout_log(), Some("/tmp/m1.out"));
    let m2 = reg.retrieve(&"module2".to_string()).unwrap();
    assert_eq!(m2.config().settings().args().unwrap().len(), 2);
    assert!(m2.config().env().is_none());
    assert!(reg.take_unsaved().is_some());
}

/// One-shot module "A" and long-running module "B": A exits and is
/// restarted until its cap, then B alone is left, is stopped and signalled,
/// and the supervisor ends with nothing running.
#[test]
fn one_shot_and_long_running_modules_drain() {
    let mut reg = seeded(&["A", "B"]);
    let (mut sup, first) = Supervisor::start(2);
    assert_eq!(first, SupervisorAction::Wait);
    let mut la = ControlLoop::new("A".to_string());
    let mut lb = ControlLoop::new("B".to_string());

    assert!(matches!(lb.step(&mut reg, LoopEvent::Tick), LoopAction::Spawn(_)));
    assert!(matches!(lb.step(&mut reg, LoopEvent::Spawned(Ok(2_000_000_001))), LoopAction::PollControl));
    assert!(matches!(lb.step(&mut reg, LoopEvent::Polled(ControlPoll::Empty)), LoopAction::Sleep));

    let mut pid: u32 = 1_999_000_000;
    let completion = loop {
        match la.step(&mut reg, LoopEvent::Tick) {
            LoopAction::Spawn(_) => {}
            other => panic!("A should be restarted, got {:?}", other),
        }
        pid += 1;
        match la.step(&mut reg, LoopEvent::Spawned(Ok(pid))) {
            LoopAction::PollControl => {}
            LoopAction::Finish(resp, _) => break resp,
            other => panic!("unexpected {:?}", other),
        }
        record_exit(&mut reg, &"A".to_string(), Some(0)).unwrap();
        let rec = reg.retrieve(&"A".to_string()).unwrap();
        assert_eq!(rec.pid(), None);
        assert_eq!(rec.status().unwrap().exit_status(), Some(0));
        assert!(matches!(la.step(&mut reg, LoopEvent::Polled(ControlPoll::Empty)), LoopAction::Sleep));
    };
    assert_eq!(completion.module(), "A");
    assert_eq!(la.restart_count(), RESTART_CAP);

    assert_eq!(sup.on_notification(Some(&completion)), SupervisorAction::StopAll);
    assert_eq!(sup.running(), 1);

    assert!(matches!(lb.step(&mut reg, LoopEvent::Tick), LoopAction::PollControl));
    match lb.step(&mut reg, LoopEvent::Polled(ControlPoll::Message(ControlMessage::Stop))) {
        LoopAction::Finish(resp, signalled) => {
            assert_eq!(signalled, Some(2_000_000_001));
            assert_eq!(sup.on_notification(Some(&resp)), SupervisorAction::Done);
        }
        other => panic!("B should finish, got {:?}", other),
    }
    assert_eq!(sup.running(), 0);
}
