use iron_button::config::{Action, Bind, Configuration, Run};
use iron_button::dispatch::{resolve, Direction, Dispatch};
use iron_button::errors::Error;
use iron_button::reload::ConfigStore;

fn run(program: &str) -> Action {
    Action::Run(Run { program: program.to_string(), arguments: None })
}

fn config_with(id: &str, program: &str) -> Configuration {
    let mut config = Configuration::new();
    config.insert(
        id.to_string(),
        Bind { description: None, suggest: None, on_down: Some(run(program)), on_up: None },
    );
    config
}

#[test]
fn successful_reload_replaces_configuration() {
    let mut store = ConfigStore::new(config_with("a", "/bin/old"));
    let requests = store.start_reload(Ok(config_with("b", "/bin/new"))).unwrap();
    assert_eq!(requests.len(), 1);
    assert_eq!(requests[0].id, "b");
    assert!(store.is_reloading());
    assert_eq!(store.finish_reload(Ok(())), Ok(()));
    assert!(!store.is_reloading());
    assert_eq!(resolve(store.current(), "a", Direction::Down), Dispatch::Unknown);
    assert_eq!(resolve(store.current(), "b", Direction::Down), Dispatch::Execute(run("/bin/new")));
}

#[test]
fn failed_parse_keeps_configuration() {
    let mut store = ConfigStore::new(config_with("a", "/bin/old"));
    let err = Error::ConfigParseError("bad".to_string());
    assert_eq!(store.start_reload(Err(err.clone())), Err(err));
    assert!(!store.is_reloading());
    assert_eq!(resolve(store.current(), "a", Direction::Down), Dispatch::Execute(run("/bin/old")));
}

#[test]
fn deleted_file_reload_keeps_prior_bindings() {
    let mut store = ConfigStore::new(config_with("toggle-mute", "/usr/bin/amixer"));
    let err = Error::ConfigReadError("No such file or directory".to_string());
    assert_eq!(store.start_reload(Err(err.clone())), Err(err));
    assert_eq!(
        resolve(store.current(), "toggle-mute", Direction::Down),
        Dispatch::Execute(run("/usr/bin/amixer"))
    );
}

#[test]
fn failed_registration_keeps_configuration() {
    let mut store = ConfigStore::new(config_with("a", "/bin/old"));
    assert!(store.start_reload(Ok(config_with("a", "/bin/new"))).is_ok());
    let err = Error::XDGError("portal gone".to_string());
    assert_eq!(store.finish_reload(Err(err.clone())), Err(err));
    assert!(!store.is_reloading());
    assert_eq!(resolve(store.current(), "a", Direction::Down), Dispatch::Execute(run("/bin/old")));
}

#[test]
fn rebind_affects_only_later_resolutions() {
    let mut store = ConfigStore::new(config_with("x", "/bin/a1"));
    let before = resolve(store.current(), "x", Direction::Down);
    store.start_reload(Ok(config_with("x", "/bin/a2"))).unwrap();
    let during = resolve(store.current(), "x", Direction::Down);
    store.finish_reload(Ok(())).unwrap();
    let after = resolve(store.current(), "x", Direction::Down);
    assert_eq!(before, Dispatch::Execute(run("/bin/a1")));
    assert_eq!(during, Dispatch::Execute(run("/bin/a1")));
    assert_eq!(after, Dispatch::Execute(run("/bin/a2")));
}

#[test]
fn finish_without_start_changes_nothing() {
    let mut store = ConfigStore::new(config_with("a", "/bin/old"));
    assert_eq!(store.finish_reload(Ok(())), Ok(()));
    assert_eq!(resolve(store.current(), "a", Direction::Down), Dispatch::Execute(run("/bin/old")));
}

#[test]
fn second_start_replaces_staged_configuration() {
    let mut store = ConfigStore::new(config_with("a", "/bin/old"));
    store.start_reload(Ok(config_with("a", "/bin/first"))).unwrap();
    store.start_reload(Ok(config_with("a", "/bin/second"))).unwrap();
    store.finish_reload(Ok(())).unwrap();
    assert_eq!(resolve(store.current(), "a", Direction::Down), Dispatch::Execute(run("/bin/second")));
}

#[test]
fn error_variants_are_distinct() {
    assert_ne!(Error::ConfigParseError("e".to_string()), Error::ConfigReadError("e".to_string()));
    assert_ne!(Error::XDGError("e".to_string()), Error::UnexpectedEndOfKeys);
}
