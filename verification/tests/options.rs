use rye_sync::options::{CommandOutput, LockMode, LockOptions, SyncMode, SyncOptions};

#[test]
fn python_only_changes_nothing_but_the_mode() {
    let options = SyncOptions::python_only();
    assert_eq!(options.mode, SyncMode::PythonOnly);
    assert_eq!(options.output, CommandOutput::Normal);
    assert!(!options.dev);
    assert!(!options.force);
    assert!(!options.lock_options.update_all);
    assert!(options.lock_options.update.is_empty());
    assert!(!options.lock_options.pre);
}

#[test]
fn python_only_equals_the_default() {
    assert_eq!(SyncOptions::python_only(), SyncOptions::default());
}

#[test]
fn defaults_of_the_parts() {
    assert_eq!(SyncMode::default(), SyncMode::PythonOnly);
    assert_eq!(CommandOutput::default(), CommandOutput::Normal);
    assert_eq!(
        LockOptions::default(),
        LockOptions { update_all: false, update: vec![], pre: false }
    );
}

#[test]
fn lock_options_clone_keeps_every_field() {
    let options = LockOptions {
        update_all: true,
        update: vec!["flask".to_string(), "requests".to_string()],
        pre: true,
    };
    assert_eq!(options.clone(), options);
}

#[test]
fn modes_are_four_distinct_values() {
    let modes = [SyncMode::PythonOnly, SyncMode::LockOnly, SyncMode::Regular, SyncMode::Full];
    for (i, a) in modes.iter().enumerate() {
        for (j, b) in modes.iter().enumerate() {
            assert_eq!(a == b, i == j);
        }
    }
    assert_ne!(LockMode::Production, LockMode::Dev);
}
