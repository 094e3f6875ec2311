use process_manager::error::ErrorKind;
use process_manager::program_data::{Config, ModuleSpec, ProcessParameters, Status};
use process_manager::registry::Registry;

fn module(name: &str, exe: &str) -> ModuleSpec {
    let p = ProcessParameters::new(vec![exe.to_string()], vec![], "/tmp".to_string());
    ModuleSpec::new(name.to_string(), Config::new(None, p))
}

#[test]
fn insert_flush_retrieve_round_trip() {
    let mut reg = Registry::new();
    reg.insert("m".to_string(), module("m", "/bin/true"));
    reg.flush();
    let got = reg.retrieve(&"m".to_string()).unwrap();
    assert_eq!(got.name(), "m");
    assert_eq!(got.config().settings().exe(), "/bin/true");
    assert!(got.status().is_none());
}

#[test]
fn retrieve_missing_is_db_retrieve() {
    let reg = Registry::new();
    assert_eq!(reg.retrieve(&"nope".to_string()).unwrap_err(), ErrorKind::DbRetrieve);
    assert!(!reg.contains(&"nope".to_string()));
}

#[test]
fn insert_replaces_existing_record() {
    let mut reg = Registry::new();
    reg.insert("m".to_string(), module("m", "/bin/a"));
    reg.insert("m".to_string(), module("m", "/bin/b").with_status(Status::new(Some(7), None)));
    let got = reg.retrieve(&"m".to_string()).unwrap();
    assert_eq!(got.config().settings().exe(), "/bin/b");
    assert_eq!(got.pid(), Some(7));
}

#[test]
fn flush_hands_out_the_durable_state_once() {
    let mut reg = Registry::new();
    assert!(reg.take_unsaved().is_none());
    reg.insert("a".to_string(), module("a", "/bin/a"));
    assert!(reg.take_unsaved().is_none());
    reg.flush();
    let saved = reg.take_unsaved().unwrap();
    assert_eq!(saved.len(), 1);
    assert_eq!(saved[0].0, "a");
    assert!(reg.take_unsaved().is_none());
}

#[test]
fn writers_on_distinct_keys_keep_their_own_records() {
    let mut reg = Registry::new();
    reg.update("a".to_string(), module("a", "/bin/a").with_status(Status::new(Some(10), None)));
    reg.update("b".to_string(), module("b", "/bin/b").with_status(Status::new(Some(20), None)));
    reg.update("a".to_string(), module("a", "/bin/a").with_status(Status::new(None, Some(0))));
    let a = reg.retrieve(&"a".to_string()).unwrap();
    let b = reg.retrieve(&"b".to_string()).unwrap();
    assert_eq!(a.pid(), None);
    assert_eq!(a.status().unwrap().exit_status(), Some(0));
    assert_eq!(b.pid(), Some(20));
}

#[test]
fn open_holds_what_storage_held() {
    let entries = vec![
        ("x".to_string(), module("x", "/bin/x")),
        ("y".to_string(), module("y", "/bin/y")),
    ];
    let mut reg = Registry::open(entries);
    assert!(reg.contains(&"x".to_string()));
    assert!(reg.contains(&"y".to_string()));
    assert!(reg.take_unsaved().is_none());
}
