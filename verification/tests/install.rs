use std::collections::HashMap;

use system_uri::app::App;
use system_uri::errors::{IoFailure, SystemUriError};
use system_uri::installation::{install, Installation, INSTALLATION_PENDING};
use system_uri::registry::{Hive, RegistryWrite};

fn app() -> App {
    App::new("My App".to_string(), "C:\\Program Files\\My App\\app.exe".to_string(), None)
}

fn schemes(names: &[&str]) -> Vec<String> {
    names.iter().map(|name| name.to_string()).collect()
}

fn write(key: &str, name: &str, data: &str) -> RegistryWrite {
    RegistryWrite {
        hive: Hive::CurrentUser,
        key: key.to_string(),
        name: name.to_string(),
        data: data.to_string(),
    }
}

fn denied() -> IoFailure {
    IoFailure { code: Some(5), message: "Access is denied.".to_string() }
}

/// A registry that takes every write, except those to the keys of `refused`.
struct FakeRegistry {
    values: HashMap<(Hive, String, String), String>,
    attempts: Vec<RegistryWrite>,
    refused: Option<String>,
}

impl FakeRegistry {
    fn new(refused: Option<&str>) -> FakeRegistry {
        FakeRegistry {
            values: HashMap::new(),
            attempts: Vec::new(),
            refused: refused.map(|scheme| format!("Software\\Classes\\{}", scheme)),
        }
    }

    fn perform(&mut self, write: &RegistryWrite) -> Result<(), IoFailure> {
        self.attempts.push(RegistryWrite {
            hive: write.hive,
            key: write.key.clone(),
            name: write.name.clone(),
            data: write.data.clone(),
        });
        if self.refused.as_deref() == Some(write.key.as_str()) {
            return Err(denied());
        }
        self.values.insert((write.hive, write.key.clone(), write.name.clone()), write.data.clone());
        Ok(())
    }

    fn run(&mut self, mut installation: Installation) -> Installation {
        loop {
            let outcome = match installation.next_write() {
                Some(write) => self.perform(write),
                None => return installation,
            };
            installation.record(outcome);
        }
    }
}

#[test]
fn install_plans_marker_then_command_for_one_scheme() {
    let mut registry = FakeRegistry::new(None);
    let done = registry.run(install(&app(), &schemes(&["myapp"])));
    assert_eq!(done.result(), Ok(()));
    assert_eq!(
        registry.attempts,
        vec![
            write("Software\\Classes\\myapp", "URL Protocol", "My App"),
            write(
                "Software\\Classes\\myapp\\shell\\open\\command",
                "",
                "C:\\Program Files\\My App\\app.exe \"%1\"",
            ),
        ]
    );
}

#[test]
fn install_handles_schemes_in_order() {
    let mut registry = FakeRegistry::new(None);
    let done = registry.run(install(&app(), &schemes(&["a", "b", "c"])));
    assert_eq!(done.result(), Ok(()));
    let keys: Vec<&str> = registry.attempts.iter().map(|w| w.key.as_str()).collect();
    assert_eq!(
        keys,
        vec![
            "Software\\Classes\\a",
            "Software\\Classes\\a\\shell\\open\\command",
            "Software\\Classes\\b",
            "Software\\Classes\\b\\shell\\open\\command",
            "Software\\Classes\\c",
            "Software\\Classes\\c\\shell\\open\\command",
        ]
    );
}

#[test]
fn install_command_ends_with_quoted_placeholder() {
    let mut registry = FakeRegistry::new(None);
    registry.run(install(&app(), &schemes(&["myapp"])));
    let command = &registry.values[&(
        Hive::CurrentUser,
        "Software\\Classes\\myapp\\shell\\open\\command".to_string(),
        String::new(),
    )];
    assert_eq!(command, "C:\\Program Files\\My App\\app.exe \"%1\"");
    assert!(command.ends_with(" \"%1\""));
}

#[test]
fn install_of_no_scheme_succeeds_without_a_write() {
    let installation = install(&app(), &[]);
    assert!(installation.next_write().is_none());
    assert_eq!(installation.result(), Ok(()));
    assert!(installation.failed_write().is_none());

    let mut registry = FakeRegistry::new(None);
    let done = registry.run(install(&app(), &[]));
    assert_eq!(done.result(), Ok(()));
    assert!(registry.attempts.is_empty());
    assert!(registry.values.is_empty());
}

#[test]
fn install_twice_leaves_the_registry_as_once() {
    let names = schemes(&["myapp", "other", "myapp"]);
    let mut registry = FakeRegistry::new(None);
    assert_eq!(registry.run(install(&app(), &names)).result(), Ok(()));
    let once = registry.values.clone();
    assert_eq!(registry.run(install(&app(), &names)).result(), Ok(()));
    assert_eq!(registry.values, once);
    assert_eq!(once.len(), 4);
}

#[test]
fn install_overwrites_an_earlier_registration() {
    let mut registry = FakeRegistry::new(None);
    let old = App::new("Old".to_string(), "old.exe".to_string(), None);
    assert_eq!(registry.run(install(&old, &schemes(&["myapp"]))).result(), Ok(()));
    assert_eq!(registry.run(install(&app(), &schemes(&["myapp"]))).result(), Ok(()));
    assert_eq!(
        registry.values[&(
            Hive::CurrentUser,
            "Software\\Classes\\myapp".to_string(),
            "URL Protocol".to_string(),
        )],
        "My App"
    );
    assert_eq!(registry.values.len(), 2);
}

#[test]
fn install_writes_below_the_classes_of_the_current_user() {
    let mut registry = FakeRegistry::new(None);
    registry.run(install(&app(), &schemes(&["a", "b", "c"])));
    assert_eq!(registry.attempts.len(), 6);
    assert!(registry.attempts.iter().all(|w| w.hive == Hive::CurrentUser));
    assert!(registry.attempts.iter().all(|w| w.key.starts_with("Software\\Classes\\")));
}

#[test]
fn install_writes_a_duplicate_scheme_again() {
    let mut registry = FakeRegistry::new(None);
    registry.run(install(&app(), &schemes(&["dup", "dup"])));
    assert_eq!(registry.attempts.len(), 4);
    assert_eq!(registry.attempts[0], registry.attempts[2]);
    assert_eq!(registry.attempts[1], registry.attempts[3]);
}

#[test]
fn install_stops_at_the_first_failure() {
    let mut registry = FakeRegistry::new(Some("b"));
    let done = registry.run(install(&app(), &schemes(&["a", "b", "c"])));

    assert_eq!(done.result(), Err(SystemUriError::IoError(denied())));
    assert!(done.next_write().is_none());
    assert_eq!(
        done.failed_write(),
        Some(&write("Software\\Classes\\b", "URL Protocol", "My App"))
    );

    // `a` was registered, `b` was tried once, `c` never.
    let keys: Vec<&str> = registry.attempts.iter().map(|w| w.key.as_str()).collect();
    assert_eq!(
        keys,
        vec![
            "Software\\Classes\\a",
            "Software\\Classes\\a\\shell\\open\\command",
            "Software\\Classes\\b",
        ]
    );
    assert_eq!(registry.values.len(), 2);
    assert_eq!(
        registry.values[&(
            Hive::CurrentUser,
            "Software\\Classes\\a\\shell\\open\\command".to_string(),
            String::new(),
        )],
        "C:\\Program Files\\My App\\app.exe \"%1\""
    );
}

#[test]
fn install_fails_when_the_command_cannot_be_written() {
    let mut installation = install(&app(), &schemes(&["a", "b"]));
    installation.record(Ok(()));
    installation.record(Err(denied()));
    assert_eq!(installation.result(), Err(SystemUriError::IoError(denied())));
    assert_eq!(
        installation.failed_write().map(|w| w.key.as_str()),
        Some("Software\\Classes\\a\\shell\\open\\command")
    );
    assert!(installation.next_write().is_none());
}

#[test]
fn install_ignores_outcomes_after_the_end() {
    let mut failed = install(&app(), &schemes(&["a"]));
    failed.record(Err(denied()));
    failed.record(Ok(()));
    failed.record(Err(IoFailure { code: None, message: "later".to_string() }));
    assert_eq!(failed.result(), Err(SystemUriError::IoError(denied())));
    assert!(failed.next_write().is_none());

    let mut done = install(&app(), &schemes(&["a"]));
    done.record(Ok(()));
    done.record(Ok(()));
    done.record(Err(denied()));
    assert_eq!(done.result(), Ok(()));
    assert!(done.failed_write().is_none());
}

#[test]
fn install_has_no_result_while_a_write_is_pending() {
    let mut installation = install(&app(), &schemes(&["a"]));
    assert_eq!(installation.result(), Err(SystemUriError::Unexpected(INSTALLATION_PENDING)));
    installation.record(Ok(()));
    assert_eq!(installation.result(), Err(SystemUriError::Unexpected(INSTALLATION_PENDING)));
    assert!(installation.failed_write().is_none());
    installation.record(Ok(()));
    assert_eq!(installation.result(), Ok(()));
}

#[test]
fn install_next_write_does_not_advance_by_itself() {
    let installation = install(&app(), &schemes(&["a"]));
    let first = installation.next_write().map(|w| w.key.clone());
    let again = installation.next_write().map(|w| w.key.clone());
    assert_eq!(first, Some("Software\\Classes\\a".to_string()));
    assert_eq!(first, again);
}

#[test]
fn install_does_not_validate_the_descriptor() {
    let empty = App::new(String::new(), String::new(), Some("icon.ico".to_string()));
    let mut registry = FakeRegistry::new(None);
    let done = registry.run(install(&empty, &schemes(&["s"])));
    assert_eq!(done.result(), Ok(()));
    assert_eq!(
        registry.attempts,
        vec![
            write("Software\\Classes\\s", "URL Protocol", ""),
            write("Software\\Classes\\s\\shell\\open\\command", "", " \"%1\""),
        ]
    );
}

#[test]
fn registry_write_constructors_give_the_two_values() {
    assert_eq!(
        RegistryWrite::protocol_marker(&app(), "web+x.y-z"),
        write("Software\\Classes\\web+x.y-z", "URL Protocol", "My App")
    );
    assert_eq!(
        RegistryWrite::open_command(&app(), "web+x.y-z"),
        write(
            "Software\\Classes\\web+x.y-z\\shell\\open\\command",
            "",
            "C:\\Program Files\\My App\\app.exe \"%1\"",
        )
    );
}

#[test]
fn installed_command_takes_the_opened_uri_as_its_one_argument() {
    let mut registry = FakeRegistry::new(None);
    registry.run(install(&app(), &schemes(&["myapp"])));
    let command = &registry.values[&(
        Hive::CurrentUser,
        "Software\\Classes\\myapp\\shell\\open\\command".to_string(),
        String::new(),
    )];

    // What the shell does with a registered command: the URI takes the
    // place of `%1`.
    let request = system_uri::shell::open("myapp://evil\nmalicious-command");
    let units = &request.file[..request.file.len() - 1];
    let uri = String::from_utf16(units).unwrap();
    let launched = command.replace("%1", &uri);

    assert_eq!(
        launched,
        "C:\\Program Files\\My App\\app.exe \"myapp://evil%0Amalicious-command\""
    );
    assert_eq!(launched.lines().count(), 1);
}

#[test]
fn install_of_joined_lists_is_one_installation_after_the_other() {
    let first = schemes(&["a", "b"]);
    let second = schemes(&["c", "a"]);
    let mut apart = FakeRegistry::new(None);
    apart.run(install(&app(), &first));
    apart.run(install(&app(), &second));

    let mut joined = FakeRegistry::new(None);
    joined.run(install(&app(), &schemes(&["a", "b", "c", "a"])));

    assert_eq!(joined.attempts, apart.attempts);
    assert_eq!(joined.attempts.len(), 8);
}
