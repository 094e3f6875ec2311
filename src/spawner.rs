use vstd::prelude::*;

use crate::error::ErrorKind;
use crate::program_data::{
    clone_envs, clone_opt_string, envs_view, opt_ref_view, opt_str_view, strs_view, EnvVar,
    EnvVarView, ModuleSpec, ModuleSpecView,
};

verus! {

pub open spec fn is_digit(c: char) -> bool {
    '0' <= c && c <= '9'
}

pub open spec fn digit_value(c: char) -> int {
    (c as u32) as int - ('0' as u32) as int
}

/// The number that a string of decimal digits spells.
pub open spec fn digits_value(s: Seq<char>) -> int
    decreases s.len(),
{
    if s.len() == 0 {
        0
    } else {
        digits_value(s.drop_last()) * 10 + digit_value(s.last())
    }
}

pub open spec fn all_digits(d: Seq<char>) -> bool {
    forall|i: int| 0 <= i < d.len() ==> is_digit(#[trigger] d[i])
}

/// The digits of a decimal numeral: all but a leading `+`.
pub open spec fn numeral_digits(s: Seq<char>) -> Seq<char> {
    if s.len() > 0 && s[0] == '+' {
        s.subrange(1, s.len() as int)
    } else {
        s
    }
}

/// What a decimal numeral reads as a `u32`: an optional `+`, then one or
/// more decimal digits whose value fits.
pub open spec fn parse_u32_spec(s: Seq<char>) -> Option<u32> {
    let d = numeral_digits(s);
    if d.len() > 0 && all_digits(d) && digits_value(d) <= u32::MAX {
        Some(digits_value(d) as u32)
    } else {
        None
    }
}

proof fn lemma_digits_value_grows(d: Seq<char>, j: int, k: int)
    requires
        0 <= j <= k <= d.len(),
        forall|i: int| 0 <= i < d.len() ==> is_digit(#[trigger] d[i]),
    ensures
        0 <= digits_value(d.subrange(0, j)) <= digits_value(d.subrange(0, k)),
    decreases k - j,
{
    if j < k {
        lemma_digits_value_grows(d, j, k - 1);
        let p = d.subrange(0, k);
        assert(p.drop_last() =~= d.subrange(0, k - 1));
        assert(is_digit(d[k - 1]));
        assert(digits_value(p) == digits_value(d.subrange(0, k - 1)) * 10 + digit_value(d[k - 1]));
    } else {
        lemma_digits_value_nonneg(d, j);
    }
}

proof fn lemma_digits_value_nonneg(d: Seq<char>, j: int)
    requires
        0 <= j <= d.len(),
        forall|i: int| 0 <= i < d.len() ==> is_digit(#[trigger] d[i]),
    ensures
        0 <= digits_value(d.subrange(0, j)),
    decreases j,
{
    if j > 0 {
        lemma_digits_value_nonneg(d, j - 1);
        assert(d.subrange(0, j).drop_last() =~= d.subrange(0, j - 1));
        assert(is_digit(d[j - 1]));
    }
}

/// Reads a decimal numeral as a `u32`, as `str::parse::<u32>` does.
pub fn parse_u32(s: &str) -> (r: Option<u32>)
    ensures
        r == parse_u32_spec(s@),
{
    let len = s.unicode_len();
    let start: usize = if len > 0 && s.get_char(0) == '+' { 1 } else { 0 };
    let ghost d = numeral_digits(s@);
    assert(d =~= s@.subrange(start as int, len as int));
    if start >= len {
        return None;
    }
    let mut acc: u64 = 0;
    let mut i: usize = start;
    while i < len
        invariant
            start <= i <= len,
            len == s@.len(),
            d == s@.subrange(start as int, len as int),
            d == numeral_digits(s@),
            forall|j: int| 0 <= j < i - start ==> is_digit(#[trigger] d[j]),
            acc == digits_value(d.subrange(0, i - start)),
            acc <= u32::MAX,
        decreases len - i,
    {
        let c = s.get_char(i);
        if !('0' <= c && c <= '9') {
            assert(d[i - start] == c);
            assert(!is_digit(d[i - start]));
            assert(!all_digits(d));
            return None;
        }
        let ghost p = d.subrange(0, i + 1 - start);
        assert(p.drop_last() =~= d.subrange(0, i - start));
        assert(p.last() == c);
        assert(d[i - start] == c);
        let v: u64 = acc * 10 + (c as u64 - '0' as u64);
        if v > u32::MAX as u64 {
            proof {
                if all_digits(d) {
                    lemma_digits_value_grows(d, i + 1 - start, d.len() as int);
                    assert(d.subrange(0, d.len() as int) =~= d);
                }
            }
            return None;
        }
        acc = v;
        i = i + 1;
    }
    assert(d.subrange(0, d.len() as int) =~= d);
    assert(all_digits(d));
    Some(acc as u32)
}

/// Relies on users::get_user_by_name and User::uid: the uid of the named
/// user in the host's user database, if it has one. The answer depends on
/// the host, so nothing is promised of it.
#[verifier::external_body]
fn user_id_by_name(name: &str) -> (r: Option<u32>) {
    users::get_user_by_name(name).map(|u| u.uid())
}

/// Relies on users::get_group_by_name and Group::gid: the gid of the named
/// group in the host's group database, if it has one. The answer depends on
/// the host, so nothing is promised of it.
#[verifier::external_body]
fn group_id_by_name(name: &str) -> (r: Option<u32>) {
    users::get_group_by_name(name).map(|g| g.gid())
}

/// What holds of an identity resolved from `text`: none without a text, and
/// the number itself where the text is a numeral. For any other text the
/// result comes from the host's database and is left open here.
pub open spec fn id_resolved(text: Option<Seq<char>>, id: Option<u32>) -> bool {
    match text {
        None => id.is_none(),
        Some(t) => parse_u32_spec(t).is_some() ==> id == parse_u32_spec(t),
    }
}

/// Resolves a user given by number or by name to a uid.
pub fn lookup_uid(uid: Option<&str>) -> (r: Option<u32>)
    ensures
        id_resolved(opt_ref_view(uid), r),
{
    match uid {
        None => None,
        Some(u) => match parse_u32(u) {
            Some(n) => Some(n),
            None => user_id_by_name(u),
        },
    }
}

/// Resolves a group given by number or by name to a gid.
pub fn lookup_gid(gid: Option<&str>) -> (r: Option<u32>)
    ensures
        id_resolved(opt_ref_view(gid), r),
{
    match gid {
        None => None,
        Some(g) => match parse_u32(g) {
            Some(n) => Some(n),
            None => group_id_by_name(g),
        },
    }
}

/// Everything needed to launch a module's process, resolved: the executable,
/// its whole argument list, the working directory, the identity to run as,
/// the environment added to the inherited one, and the log files to
/// truncate and redirect stderr and stdout to.
#[derive(Debug)]
pub struct LaunchPlan {
    pub program: String,
    pub args: Vec<String>,
    pub working_directory: String,
    pub uid: Option<u32>,
    pub gid: Option<u32>,
    pub env: Vec<EnvVar>,
    pub stderr_log: Option<String>,
    pub stdout_log: Option<String>,
}

/// The argument list of a launch: the words of the command after the
/// executable, then the explicit arguments, in that order.
pub open spec fn launch_args(m: ModuleSpecView) -> Seq<Seq<char>> {
    let c = m.config.settings.command;
    c.subrange(1, c.len() as int) + m.config.settings.args
}

/// The environment of a launch: the configured variables, or none.
pub open spec fn launch_env(m: ModuleSpecView) -> Seq<EnvVarView> {
    match m.config.env {
        Some(e) => e,
        None => Seq::empty(),
    }
}

/// Whether `p` is the launch that record `m` asks for.
pub open spec fn plans_launch(m: ModuleSpecView, p: LaunchPlan) -> bool {
    &&& m.config.settings.command.len() > 0
    &&& p.program@ == m.config.settings.command[0]
    &&& strs_view(p.args@) == launch_args(m)
    &&& p.working_directory@ == m.config.settings.working_directory
    &&& id_resolved(m.config.settings.user, p.uid)
    &&& id_resolved(m.config.settings.group, p.gid)
    &&& envs_view(p.env@) == launch_env(m)
    &&& opt_str_view(p.stderr_log) == m.config.settings.stderr_log
    &&& opt_str_view(p.stdout_log) == m.config.settings.stdout_log
}

fn push_clones(dst: &mut Vec<String>, src: &[String], from: usize)
    requires
        from <= src@.len(),
    ensures
        strs_view(final(dst)@) == strs_view(old(dst)@) + strs_view(src@).subrange(
            from as int,
            src@.len() as int,
        ),
{
    let ghost start = dst@;
    let mut i: usize = from;
    while i < src.len()
        invariant
            from <= i <= src@.len(),
            strs_view(dst@) == strs_view(start) + strs_view(src@).subrange(from as int, i as int),
        decreases src@.len() - i,
    {
        let ghost before = dst@;
        dst.push(src[i].clone());
        i = i + 1;
        assert(strs_view(dst@) =~= strs_view(before).push(src@[i - 1]@));
        assert(strs_view(src@).subrange(from as int, i as int) =~= strs_view(src@).subrange(
            from as int,
            i - 1,
        ).push(src@[i - 1]@));
    }
}

/// Works out how to launch the process of record `spec`; `ForkFailed` where
/// its command is empty, since there is then nothing to execute.
pub fn launch_plan(spec: &ModuleSpec) -> (r: Result<LaunchPlan, ErrorKind>)
    ensures
        match r {
            Ok(p) => plans_launch(spec@, p),
            Err(e) => spec@.config.settings.command.len() == 0 && e == ErrorKind::ForkFailed,
        },
{
    let settings = spec.config().settings();
    let command = settings.command_words();
    if command.len() == 0 {
        return Err(ErrorKind::ForkFailed);
    }
    let program = command[0].clone();
    let mut args: Vec<String> = Vec::new();
    push_clones(&mut args, command, 1);
    let explicit = settings.explicit_args();
    let ghost mid = args@;
    push_clones(&mut args, explicit, 0);
    assert(strs_view(explicit@).subrange(0, explicit@.len() as int) =~= strs_view(explicit@));
    assert(strs_view(args@) =~= launch_args(spec@));
    let env = match spec.config().env() {
        Some(e) => clone_envs(e),
        None => Vec::new(),
    };
    assert(envs_view(env@) =~= launch_env(spec@));
    let working_directory = settings.working_directory().to_owned();
    let p = LaunchPlan {
        program,
        args,
        working_directory,
        uid: lookup_uid(settings.user()),
        gid: lookup_gid(settings.group()),
        env,
        stderr_log: clone_opt_string(settings.stderr_log_path()),
        stdout_log: clone_opt_string(settings.stdout_log_path()),
    };
    Ok(p)
}

/// Whether `pid` names a single process that a signal can be sent to.
pub open spec fn signalable(pid: u32) -> bool {
    0 < pid && pid <= i32::MAX
}

/// The pid that stopping record `m` signals: the one it says is running.
pub open spec fn stop_target(m: ModuleSpecView) -> Option<u32> {
    match m.pid() {
        Some(p) => if signalable(p) {
            Some(p)
        } else {
            None
        },
        None => None,
    }
}

/// Relies on nix::sys::signal::kill with SIGTERM: asks the OS to deliver a
/// termination signal to process `pid`. Whether the OS accepted is returned;
/// the process may already be gone.
#[verifier::external_body]
fn send_sigterm(pid: i32) -> (r: bool)
    requires
        pid > 0,
{
    nix::sys::signal::kill(nix::unistd::Pid::from_raw(pid), nix::sys::signal::Signal::SIGTERM).is_ok()
}

/// Sends a termination signal to the process that record `spec` says is
/// running, and returns its pid; a failed delivery is not escalated.
pub fn kill_process(spec: &ModuleSpec) -> (r: Option<u32>)
    ensures
        r == stop_target(spec@),
{
    match spec.pid() {
        Some(p) => {
            if 0 < p && p <= i32::MAX as u32 {
                let _delivered = send_sigterm(p as i32);
                Some(p)
            } else {
                None
            }
        },
        None => None,
    }
}

} // verus!
