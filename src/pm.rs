use vstd::prelude::*;

use crate::program_data::{
    envs_view, strs_view, Config, ConfigView, EnvVar, EnvVarView, ModuleSpec, ModuleSpecView,
    ProcessParameters, ProcessParametersView,
};
use crate::registry::Registry;

verus! {

/// A request from the supervisor to a control loop.
#[derive(Clone, Copy, Debug, PartialEq, Eq, Structural)]
pub enum ControlMessage {
    Stop,
    Exit,
}

/// A notification from a control loop to the supervisor.
#[derive(Debug)]
pub enum ControlResponse {
    /// The loop of the named module has finished.
    Stopped(String),
}

impl ControlResponse {
    /// The module that the notification is about.
    pub open spec fn module_spec(&self) -> Seq<char> {
        match self {
            ControlResponse::Stopped(m) => m@,
        }
    }

    pub fn module(&self) -> (r: &String)
        ensures
            r@ == self.module_spec(),
    {
        match self {
            ControlResponse::Stopped(m) => m,
        }
    }
}

/// What the supervisor asks to be done next.
#[derive(Clone, Copy, Debug, PartialEq, Eq, Structural)]
pub enum SupervisorAction {
    /// Receive the next completion notification.
    Wait,
    /// Wait for the grace period, send a stop message to every module's
    /// control channel (failures ignored), then receive the next notification.
    StopAll,
    /// Every control loop has completed: terminate successfully.
    Done,
    /// Something other than a completion notification arrived: a fatal
    /// protocol violation.
    Fail,
}

/// The supervisor's count of running control loops after one more has
/// completed, and what it then asks for.
pub open spec fn after_completion(running: nat) -> (nat, SupervisorAction) {
    if running <= 1 {
        (0, SupervisorAction::Done)
    } else if running == 2 {
        (1, SupervisorAction::StopAll)
    } else {
        ((running - 1) as nat, SupervisorAction::Wait)
    }
}

/// What the supervisor asks for once `k` control loops have been started.
pub open spec fn start_action(k: nat) -> SupervisorAction {
    if k == 0 {
        SupervisorAction::Done
    } else if k == 1 {
        SupervisorAction::StopAll
    } else {
        SupervisorAction::Wait
    }
}

/// The supervisor's fan-in: it counts the control loops that are still
/// running and drives the drain once a single one is left.
#[derive(Debug)]
pub struct Supervisor {
    running: usize,
}

impl Supervisor {
    pub closed spec fn running_spec(&self) -> nat {
        self.running as nat
    }

    /// A supervisor over `modules` started control loops, and its first
    /// action: with a single loop the drain starts at once.
    pub fn start(modules: usize) -> (r: (Supervisor, SupervisorAction))
        ensures
            r.0.running_spec() == modules,
            r.1 == start_action(modules as nat),
    {
        let action = if modules == 0 {
            SupervisorAction::Done
        } else if modules == 1 {
            SupervisorAction::StopAll
        } else {
            SupervisorAction::Wait
        };
        (Supervisor { running: modules }, action)
    }

    pub fn running(&self) -> (r: usize)
        ensures
            r == self.running_spec(),
    {
        self.running
    }

    /// Takes what the completion channel gave: a notification, or nothing
    /// where the channel has closed.
    pub fn on_notification(&mut self, n: Option<&ControlResponse>) -> (r: SupervisorAction)
        ensures
            match n {
                Some(_) => {
                    &&& final(self).running_spec() == after_completion(old(self).running_spec()).0
                    &&& r == after_completion(old(self).running_spec()).1
                },
                None => final(self).running_spec() == old(self).running_spec() && r
                    == SupervisorAction::Fail,
            },
    {
        match n {
            None => SupervisorAction::Fail,
            Some(_) => {
                if self.running <= 1 {
                    self.running = 0;
                    SupervisorAction::Done
                } else if self.running == 2 {
                    self.running = 1;
                    SupervisorAction::StopAll
                } else {
                    self.running = self.running - 1;
                    SupervisorAction::Wait
                }
            },
        }
    }
}

/// The process manager, run against a working directory.
#[derive(Debug, Default)]
pub struct PM {
    workingdir: String,
}

/// The launch parameters of the first demo module: a one-shot listing.
pub open spec fn demo_settings_1() -> ProcessParametersView {
    ProcessParametersView {
        command: seq!["/bin/ls"@],
        args: seq!["-l"@],
        working_directory: "/tmp"@,
        user: None,
        group: None,
        stderr_log: Some("/tmp/m1.err"@),
        stdout_log: Some("/tmp/m1.out"@),
    }
}

/// The first demo module.
pub open spec fn demo_module_1() -> ModuleSpecView {
    ModuleSpecView {
        name: "module1"@,
        type_: "native"@,
        config: ConfigView {
            env: Some(seq![EnvVarView { key: "A"@, value: "B"@ }]),
            settings: demo_settings_1(),
        },
        status: None,
    }
}

/// The second demo module: a long-running shell loop.
pub open spec fn demo_module_2() -> ModuleSpecView {
    ModuleSpecView {
        name: "module2"@,
        type_: "native"@,
        config: ConfigView {
            env: None,
            settings: ProcessParametersView {
                command: seq!["/bin/bash"@],
                args: seq!["-c"@, "while true; do date; sleep 10; done"@],
                working_directory: "/tmp"@,
                user: None,
                group: None,
                stderr_log: None,
                stdout_log: None,
            },
        },
        status: None,
    }
}

fn one_string(a: &str) -> (r: Vec<String>)
    ensures
        strs_view(r@) == seq![a@],
{
    let mut v: Vec<String> = Vec::new();
    v.push(String::from_str(a));
    assert(strs_view(v@) =~= seq![a@]);
    v
}

impl PM {
    pub fn new(workingdir: String) -> (r: Self)
        ensures
            r.workingdir_spec() == workingdir@,
    {
        PM { workingdir }
    }

    pub closed spec fn workingdir_spec(&self) -> Seq<char> {
        self.workingdir@
    }

    pub fn workingdir(&self) -> (r: &String)
        ensures
            r@ == self.workingdir_spec(),
    {
        &self.workingdir
    }

    /// Seeds the registry with the demo modules, flushes it, and returns
    /// their names in the order in which their loops are to start.
    pub fn build_database(&self, db: &mut Registry) -> (r: Vec<String>)
        requires
            old(db).wf(),
        ensures
            final(db).wf(),
            strs_view(r@) == seq!["module1"@, "module2"@],
            final(db)@ == old(db)@.inserted("module1"@, demo_module_1()).inserted(
                "module2"@,
                demo_module_2(),
            ).flushed(),
    {
        let m1_name = String::from_str("module1");
        let p1 = ProcessParameters::new(one_string("/bin/ls"), one_string("-l"), String::from_str("/tmp"))
            .with_logs(Some(String::from_str("/tmp/m1.err")), Some(String::from_str("/tmp/m1.out")));
        let e1 = EnvVar::new(String::from_str("A"), String::from_str("B"));
        let mut env: Vec<EnvVar> = Vec::new();
        env.push(e1);
        assert(envs_view(env@) =~= seq![EnvVarView { key: "A"@, value: "B"@ }]);
        let c1 = Config::new(Some(env), p1);
        let m1 = ModuleSpec::new(m1_name.clone(), c1);
        assert(m1@ == demo_module_1());
        db.insert(m1_name.clone(), m1);

        let m2_name = String::from_str("module2");
        let mut a2: Vec<String> = Vec::new();
        a2.push(String::from_str("-c"));
        a2.push(String::from_str("while true; do date; sleep 10; done"));
        assert(strs_view(a2@) =~= seq!["-c"@, "while true; do date; sleep 10; done"@]);
        let p2 = ProcessParameters::new(one_string("/bin/bash"), a2, String::from_str("/tmp"));
        let c2 = Config::new(None, p2);
        let m2 = ModuleSpec::new(m2_name.clone(), c2);
        assert(m2@ == demo_module_2());
        db.insert(m2_name.clone(), m2);
        db.flush();

        let mut names: Vec<String> = Vec::new();
        names.push(m1_name);
        names.push(m2_name);
        assert(strs_view(names@) =~= seq!["module1"@, "module2"@]);
        names
    }
}

} // verus!
