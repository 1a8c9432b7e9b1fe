use pato_plugins::error::{ErrorKind, PluginError};
use pato_plugins::registry::Registry;

#[test]
fn register_assigns_stable_positions() {
    let mut reg: Registry<u32> = Registry::new();
    assert!(reg.is_empty());
    assert_eq!(reg.register(10), 0);
    assert_eq!(reg.register(20), 1);
    assert_eq!(reg.register(30), 2);
    assert_eq!(reg.len(), 3);
    assert_eq!(*reg.entry_mut(0).unwrap(), 10);
    assert_eq!(*reg.entry_mut(2).unwrap(), 30);
}

#[test]
fn missing_entry_is_not_found() {
    let mut reg: Registry<u32> = Registry::new();
    assert_eq!(reg.entry_mut(0).err().unwrap().kind(), ErrorKind::NotFound);
    reg.register(5);
    assert_eq!(reg.entry_mut(1).err().unwrap().kind(), ErrorKind::NotFound);
    assert_eq!(reg.len(), 1);
}

#[test]
fn entry_can_be_changed_in_place() {
    let mut reg: Registry<u32> = Registry::new();
    reg.register(1);
    reg.register(2);
    *reg.entry_mut(1).unwrap() = 7;
    assert_eq!(*reg.entry_mut(0).unwrap(), 1);
    assert_eq!(*reg.entry_mut(1).unwrap(), 7);
}

#[test]
fn failed_outcomes_are_reported_and_skipped() {
    let mut reg: Registry<u32> = Registry::new();
    reg.register(1);
    let outcomes = vec![
        Err(PluginError::new(ErrorKind::Compile, "bad magic".to_string())),
        Ok(2),
        Err(PluginError::new(ErrorKind::Io, "unreadable".to_string())),
        Ok(3),
    ];
    let failures = reg.register_outcomes(outcomes);
    let kinds: Vec<ErrorKind> = failures.iter().map(|e| e.kind()).collect();
    assert_eq!(kinds, vec![ErrorKind::Compile, ErrorKind::Io]);
    assert_eq!(failures[0].cause(), "bad magic");
    assert_eq!(reg.len(), 3);
    assert_eq!(*reg.entry_mut(1).unwrap(), 2);
    assert_eq!(*reg.entry_mut(2).unwrap(), 3);
}

#[test]
fn no_outcomes_change_nothing() {
    let mut reg: Registry<u32> = Registry::new();
    let failures = reg.register_outcomes(Vec::new());
    assert!(failures.is_empty());
    assert!(reg.is_empty());
}
