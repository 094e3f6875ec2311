use process_manager::error::ErrorKind;
use process_manager::program_data::{Config, EnvVar, ModuleSpec, ProcessParameters, Status};
use process_manager::spawner::{kill_process, launch_plan, lookup_gid, lookup_uid, parse_u32};

#[test]
fn parse_u32_reads_decimal_numerals() {
    assert_eq!(parse_u32("42"), Some(42));
    assert_eq!(parse_u32("+7"), Some(7));
    assert_eq!(parse_u32("007"), Some(7));
    assert_eq!(parse_u32("4294967295"), Some(u32::MAX));
    assert_eq!(parse_u32("4294967296"), None);
    assert_eq!(parse_u32(""), None);
    assert_eq!(parse_u32("+"), None);
    assert_eq!(parse_u32("-1"), None);
    assert_eq!(parse_u32("12a"), None);
    assert_eq!(parse_u32(" 1"), None);
}

#[test]
fn lookup_takes_numbers_as_ids() {
    assert_eq!(lookup_uid(Some("1000")), Some(1000));
    assert_eq!(lookup_gid(Some("0")), Some(0));
    assert_eq!(lookup_uid(None), None);
    assert_eq!(lookup_gid(None), None);
}

#[test]
fn lookup_of_unknown_name_means_no_override() {
    assert_eq!(lookup_uid(Some("no-such-user-for-this-test")), None);
    assert_eq!(lookup_gid(Some("no-such-group-for-this-test")), None);
}

#[test]
fn launch_plan_orders_arguments() {
    let p = ProcessParameters::new(
        vec!["/bin/sh".to_string(), "-e".to_string()],
        vec!["-c".to_string(), "true".to_string()],
        "/work".to_string(),
    )
    .with_user(Some("12".to_string()))
    .with_group(Some("34".to_string()))
    .with_logs(Some("/tmp/e".to_string()), None);
    let env = vec![EnvVar::new("K".to_string(), "V".to_string())];
    let m = ModuleSpec::new("m".to_string(), Config::new(Some(env), p));
    let plan = launch_plan(&m).unwrap();
    assert_eq!(plan.program, "/bin/sh");
    assert_eq!(plan.args, vec!["-e", "-c", "true"]);
    assert_eq!(plan.working_directory, "/work");
    assert_eq!(plan.uid, Some(12));
    assert_eq!(plan.gid, Some(34));
    assert_eq!(plan.env.len(), 1);
    assert_eq!(plan.env[0].key(), "K");
    assert_eq!(plan.env[0].value(), "V");
    assert_eq!(plan.stderr_log.as_deref(), Some("/tmp/e"));
    assert_eq!(plan.stdout_log, None);
}

#[test]
fn launch_plan_of_empty_command_fails_to_fork() {
    let p = ProcessParameters::new(vec![], vec!["x".to_string()], "/".to_string());
    let m = ModuleSpec::new("m".to_string(), Config::new(None, p));
    assert_eq!(launch_plan(&m).unwrap_err(), ErrorKind::ForkFailed);
}

fn module_with(status: Option<Status>) -> ModuleSpec {
    let p = ProcessParameters::new(vec!["/bin/true".to_string()], vec![], "/".to_string());
    let m = ModuleSpec::new("m".to_string(), Config::new(None, p));
    match status {
        Some(s) => m.with_status(s),
        None => m,
    }
}

#[test]
fn kill_process_signals_only_a_recorded_pid() {
    assert_eq!(kill_process(&module_with(None)), None);
    assert_eq!(kill_process(&module_with(Some(Status::new(None, Some(0))))), None);
    assert_eq!(kill_process(&module_with(Some(Status::new(Some(0), None)))), None);
    assert_eq!(kill_process(&module_with(Some(Status::new(Some(3_000_000_000), None)))), None);
    // No process can have this pid: the signal is attempted and fails quietly.
    assert_eq!(kill_process(&module_with(Some(Status::new(Some(2_000_000_000), None)))), Some(2_000_000_000));
}
