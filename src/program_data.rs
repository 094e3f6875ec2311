use vstd::prelude::*;

verus! {

/// The view of an optional string.
pub open spec fn opt_str_view(o: Option<String>) -> Option<Seq<char>> {
    match o {
        Some(s) => Some(s@),
        None => None,
    }
}

/// The view of a list of strings.
pub open spec fn strs_view(v: Seq<String>) -> Seq<Seq<char>> {
    v.map_values(|s: String| s@)
}

pub(crate) fn clone_opt_string(o: &Option<String>) -> (r: Option<String>)
    ensures
        opt_str_view(r) == opt_str_view(*o),
{
    match o {
        Some(s) => Some(s.clone()),
        None => None,
    }
}

pub(crate) fn clone_strings(v: &Vec<String>) -> (r: Vec<String>)
    ensures
        strs_view(r@) == strs_view(v@),
{
    let mut r: Vec<String> = Vec::new();
    let mut i: usize = 0;
    while i < v.len()
        invariant
            i <= v@.len(),
            r@.len() == i,
            forall|j: int| 0 <= j < i ==> (#[trigger] r@[j])@ == v@[j]@,
        decreases v@.len() - i,
    {
        r.push(v[i].clone());
        i = i + 1;
    }
    assert(strs_view(r@) =~= strs_view(v@));
    r
}

/// An environment variable handed to a module's process.
#[derive(Debug)]
pub struct EnvVar {
    key: String,
    value: String,
}

pub struct EnvVarView {
    pub key: Seq<char>,
    pub value: Seq<char>,
}

impl View for EnvVar {
    type V = EnvVarView;

    closed spec fn view(&self) -> EnvVarView {
        EnvVarView { key: self.key@, value: self.value@ }
    }
}

impl Clone for EnvVar {
    fn clone(&self) -> (r: Self)
        ensures
            r@ == self@,
    {
        EnvVar { key: self.key.clone(), value: self.value.clone() }
    }
}

impl EnvVar {
    pub fn new(key: String, value: String) -> (r: Self)
        ensures
            r@ == (EnvVarView { key: key@, value: value@ }),
    {
        EnvVar { key, value }
    }

    pub fn key(&self) -> (r: &String)
        ensures
            r@ == self@.key,
    {
        &self.key
    }

    pub fn value(&self) -> (r: &String)
        ensures
            r@ == self@.value,
    {
        &self.value
    }
}

/// The view of a list of environment variables.
pub open spec fn envs_view(v: Seq<EnvVar>) -> Seq<EnvVarView> {
    v.map_values(|e: EnvVar| e@)
}

pub(crate) fn clone_envs(v: &Vec<EnvVar>) -> (r: Vec<EnvVar>)
    ensures
        envs_view(r@) == envs_view(v@),
{
    let mut r: Vec<EnvVar> = Vec::new();
    let mut i: usize = 0;
    while i < v.len()
        invariant
            i <= v@.len(),
            r@.len() == i,
            forall|j: int| 0 <= j < i ==> (#[trigger] r@[j])@ == v@[j]@,
        decreases v@.len() - i,
    {
        r.push(v[i].clone());
        i = i + 1;
    }
    assert(envs_view(r@) =~= envs_view(v@));
    r
}

/// How a module's process is launched: the command (executable first, then
/// the arguments baked into it), further arguments, the working directory,
/// an optional user and group, and optional log files for stderr and stdout.
#[derive(Debug)]
pub struct ProcessParameters {
    command: Vec<String>,
    args: Vec<String>,
    working_directory: String,
    user: Option<String>,
    group: Option<String>,
    stderr_log: Option<String>,
    stdout_log: Option<String>,
}

pub struct ProcessParametersView {
    pub command: Seq<Seq<char>>,
    pub args: Seq<Seq<char>>,
    pub working_directory: Seq<char>,
    pub user: Option<Seq<char>>,
    pub group: Option<Seq<char>>,
    pub stderr_log: Option<Seq<char>>,
    pub stdout_log: Option<Seq<char>>,
}

impl View for ProcessParameters {
    type V = ProcessParametersView;

    closed spec fn view(&self) -> ProcessParametersView {
        ProcessParametersView {
            command: strs_view(self.command@),
            args: strs_view(self.args@),
            working_directory: self.working_directory@,
            user: opt_str_view(self.user),
            group: opt_str_view(self.group),
            stderr_log: opt_str_view(self.stderr_log),
            stdout_log: opt_str_view(self.stdout_log),
        }
    }
}

impl Clone for ProcessParameters {
    fn clone(&self) -> (r: Self)
        ensures
            r@ == self@,
    {
        ProcessParameters {
            command: clone_strings(&self.command),
            args: clone_strings(&self.args),
            working_directory: self.working_directory.clone(),
            user: clone_opt_string(&self.user),
            group: clone_opt_string(&self.group),
            stderr_log: clone_opt_string(&self.stderr_log),
            stdout_log: clone_opt_string(&self.stdout_log),
        }
    }
}

impl ProcessParameters {
    pub fn new(command: Vec<String>, args: Vec<String>, working_directory: String) -> (r: Self)
        ensures
            r@ == (ProcessParametersView {
                command: strs_view(command@),
                args: strs_view(args@),
                working_directory: working_directory@,
                user: None,
                group: None,
                stderr_log: None,
                stdout_log: None,
            }),
    {
        ProcessParameters {
            command,
            args,
            working_directory,
            user: None,
            group: None,
            stderr_log: None,
            stdout_log: None,
        }
    }

    pub fn with_user(self, user: Option<String>) -> (r: Self)
        ensures
            r@ == (ProcessParametersView { user: opt_str_view(user), ..self@ }),
    {
        let mut s = self;
        s.user = user;
        s
    }

    pub fn with_group(self, group: Option<String>) -> (r: Self)
        ensures
            r@ == (ProcessParametersView { group: opt_str_view(group), ..self@ }),
    {
        let mut s = self;
        s.group = group;
        s
    }

    pub fn with_logs(self, stderr_log: Option<String>, stdout_log: Option<String>) -> (r: Self)
        ensures
            r@ == (ProcessParametersView {
                stderr_log: opt_str_view(stderr_log),
                stdout_log: opt_str_view(stdout_log),
                ..self@
            }),
    {
        let mut s = self;
        s.stderr_log = stderr_log;
        s.stdout_log = stdout_log;
        s
    }

    /// The executable: the first word of the command.
    pub fn exe(&self) -> (r: &String)
        requires
            self@.command.len() > 0,
        ensures
            r@ == self@.command[0],
    {
        &self.command[0]
    }

    /// The arguments baked into the command, if there are any.
    pub fn exe_args(&self) -> (r: Option<&[String]>)
        ensures
            self@.command.len() > 1 ==> r.is_some() && strs_view(r.unwrap()@)
                == self@.command.subrange(1, self@.command.len() as int),
            self@.command.len() <= 1 ==> r.is_none(),
    {
        if self.command.len() > 1 {
            let (_, rest) = self.command.as_slice().split_at(1);
            assert(strs_view(rest@) =~= self@.command.subrange(1, self@.command.len() as int));
            Some(rest)
        } else {
            None
        }
    }

    /// The explicit arguments, if there are any.
    pub fn args(&self) -> (r: Option<&[String]>)
        ensures
            self@.args.len() > 0 ==> r.is_some() && strs_view(r.unwrap()@) == self@.args,
            self@.args.len() == 0 ==> r.is_none(),
    {
        if self.args.len() > 0 {
            Some(self.args.as_slice())
        } else {
            None
        }
    }

    /// The whole command: the executable, then the arguments baked into it.
    pub fn command_words(&self) -> (r: &[String])
        ensures
            strs_view(r@) == self@.command,
    {
        self.command.as_slice()
    }

    /// The explicit arguments, possibly none.
    pub fn explicit_args(&self) -> (r: &[String])
        ensures
            strs_view(r@) == self@.args,
    {
        self.args.as_slice()
    }

    pub fn stderr_log_path(&self) -> (r: &Option<String>)
        ensures
            opt_str_view(*r) == self@.stderr_log,
    {
        &self.stderr_log
    }

    pub fn stdout_log_path(&self) -> (r: &Option<String>)
        ensures
            opt_str_view(*r) == self@.stdout_log,
    {
        &self.stdout_log
    }

    pub fn working_directory(&self) -> (r: &str)
        ensures
            r@ == self@.working_directory,
    {
        self.working_directory.as_str()
    }

    pub fn user(&self) -> (r: Option<&str>)
        ensures
            opt_ref_view(r) == self@.user,
    {
        opt_as_str(&self.user)
    }

    pub fn group(&self) -> (r: Option<&str>)
        ensures
            opt_ref_view(r) == self@.group,
    {
        opt_as_str(&self.group)
    }

    pub fn stderr_log(&self) -> (r: Option<&str>)
        ensures
            opt_ref_view(r) == self@.stderr_log,
    {
        opt_as_str(&self.stderr_log)
    }

    pub fn stdout_log(&self) -> (r: Option<&str>)
        ensures
            opt_ref_view(r) == self@.stdout_log,
    {
        opt_as_str(&self.stdout_log)
    }
}

/// The view of an optional string slice.
pub open spec fn opt_ref_view(o: Option<&str>) -> Option<Seq<char>> {
    match o {
        Some(s) => Some(s@),
        None => None,
    }
}

fn opt_as_str(o: &Option<String>) -> (r: Option<&str>)
    ensures
        opt_ref_view(r) == opt_str_view(*o),
{
    match o {
        Some(s) => Some(s.as_str()),
        None => None,
    }
}

/// A module's desired configuration: optional environment variables and the
/// launch parameters.
#[derive(Debug)]
pub struct Config {
    env: Option<Vec<EnvVar>>,
    settings: ProcessParameters,
}

pub struct ConfigView {
    pub env: Option<Seq<EnvVarView>>,
    pub settings: ProcessParametersView,
}

impl View for Config {
    type V = ConfigView;

    closed spec fn view(&self) -> ConfigView {
        ConfigView {
            env: match self.env {
                Some(v) => Some(envs_view(v@)),
                None => None,
            },
            settings: self.settings@,
        }
    }
}

impl Clone for Config {
    fn clone(&self) -> (r: Self)
        ensures
            r@ == self@,
    {
        let env = match &self.env {
            Some(v) => Some(clone_envs(v)),
            None => None,
        };
        Config { env, settings: self.settings.clone() }
    }
}

impl Config {
    pub fn new(env: Option<Vec<EnvVar>>, settings: ProcessParameters) -> (r: Self)
        ensures
            r@.settings == settings@,
            r@.env == (match env {
                Some(v) => Some(envs_view(v@)),
                None => None::<Seq<EnvVarView>>,
            }),
    {
        Config { env, settings }
    }

    pub fn env(&self) -> (r: Option<&Vec<EnvVar>>)
        ensures
            self@.env == (match r {
                Some(v) => Some(envs_view(v@)),
                None => None::<Seq<EnvVarView>>,
            }),
    {
        match &self.env {
            Some(v) => Some(v),
            None => None,
        }
    }

    pub fn settings(&self) -> (r: &ProcessParameters)
        ensures
            r@ == self@.settings,
    {
        &self.settings
    }
}

/// The last known runtime status of a module: the pid of the process that is
/// believed to run, and the exit code of the last completed run.
#[derive(Clone, Copy, Debug, Default, PartialEq, Eq, Structural)]
pub struct Status {
    pid: Option<u32>,
    exit_status: Option<i32>,
}

pub struct StatusView {
    pub pid: Option<u32>,
    pub exit_status: Option<i32>,
}

impl View for Status {
    type V = StatusView;

    closed spec fn view(&self) -> StatusView {
        StatusView { pid: self.pid, exit_status: self.exit_status }
    }
}

impl Status {
    pub fn new(pid: Option<u32>, exit_status: Option<i32>) -> (r: Self)
        ensures
            r@ == (StatusView { pid, exit_status }),
    {
        Status { pid, exit_status }
    }

    pub fn pid(&self) -> (r: Option<&u32>)
        ensures
            match r {
                Some(p) => self@.pid == Some(*p),
                None => self@.pid.is_none(),
            },
    {
        match &self.pid {
            Some(p) => Some(p),
            None => None,
        }
    }

    pub fn exit_status(&self) -> (r: Option<i32>)
        ensures
            r == self@.exit_status,
    {
        self.exit_status
    }
}

/// The persisted unit: a named module of type "native", its configuration and
/// its last known status.
#[derive(Debug)]
pub struct ModuleSpec {
    name: String,
    type_: String,
    config: Config,
    status: Option<Status>,
}

pub struct ModuleSpecView {
    pub name: Seq<char>,
    pub type_: Seq<char>,
    pub config: ConfigView,
    pub status: Option<StatusView>,
}

impl ModuleSpecView {
    /// The pid that the record says is running, if any.
    pub open spec fn pid(self) -> Option<u32> {
        match self.status {
            Some(s) => s.pid,
            None => None,
        }
    }
}

impl View for ModuleSpec {
    type V = ModuleSpecView;

    closed spec fn view(&self) -> ModuleSpecView {
        ModuleSpecView {
            name: self.name@,
            type_: self.type_@,
            config: self.config@,
            status: match self.status {
                Some(st) => Some(st@),
                None => None,
            },
        }
    }
}

impl Clone for ModuleSpec {
    fn clone(&self) -> (r: Self)
        ensures
            r@ == self@,
    {
        ModuleSpec {
            name: self.name.clone(),
            type_: self.type_.clone(),
            config: self.config.clone(),
            status: self.status,
        }
    }
}

impl ModuleSpec {
    pub fn new(name: String, config: Config) -> (r: Self)
        ensures
            r@ == (ModuleSpecView {
                name: name@,
                type_: "native"@,
                config: config@,
                status: None,
            }),
    {
        ModuleSpec { name, type_: String::from_str("native"), config, status: None }
    }

    pub fn with_status(self, status: Status) -> (r: Self)
        ensures
            r@ == (ModuleSpecView { status: Some(status@), ..self@ }),
    {
        let mut s = self;
        s.status = Some(status);
        s
    }

    pub fn name(&self) -> (r: &String)
        ensures
            r@ == self@.name,
    {
        &self.name
    }

    pub fn type_(&self) -> (r: &String)
        ensures
            r@ == self@.type_,
    {
        &self.type_
    }

    pub fn config(&self) -> (r: &Config)
        ensures
            r@ == self@.config,
    {
        &self.config
    }

    pub fn status(&self) -> (r: Option<&Status>)
        ensures
            match r {
                Some(s) => self@.status == Some(s@),
                None => self@.status.is_none(),
            },
    {
        match &self.status {
            Some(s) => Some(s),
            None => None,
        }
    }

    /// The pid that the record says is running, if any.
    pub fn pid(&self) -> (r: Option<u32>)
        ensures
            r == self@.pid(),
    {
        match &self.status {
            Some(s) => s.pid,
            None => None,
        }
    }
}

} // verus!
