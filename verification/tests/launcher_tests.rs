use sherlock::launcher::app_launcher::{App, AppData};
use sherlock::launcher::system_cmd_launcher::SystemCommand;
use sherlock::launcher::web_launcher::Web;
use sherlock::launcher::{aliases_are_distinct, Launcher, LauncherKind};
use sherlock::mode::{Mode, ModeRegistry};
use std::collections::HashMap;

fn lt_app(name: &str, alias: Option<&str>, priority: u32, home: bool, only_home: bool) -> Launcher {
    Launcher {
        kind: LauncherKind::App(App {
            alias: alias.map(|a| a.to_string()),
            method: "app".to_string(),
            name: name.to_string(),
            is_async: false,
            priority,
            apps: HashMap::new(),
        }),
        home,
        only_home,
    }
}

fn lt_web(name: &str, alias: Option<&str>, priority: u32) -> Launcher {
    Launcher {
        kind: LauncherKind::Web(Web {
            alias: alias.map(|a| a.to_string()),
            method: "web".to_string(),
            uuid: "w1".to_string(),
            name: name.to_string(),
            icon: "google".to_string(),
            engine: "https://example.org/?q={keyword}".to_string(),
            priority,
            is_async: true,
        }),
        home: false,
        only_home: false,
    }
}

fn lt_command(name: &str, alias: Option<&str>, priority: u32) -> Launcher {
    let mut commands = HashMap::new();
    commands.insert(
        "Shutdown".to_string(),
        AppData {
            icon: "system-shutdown".to_string(),
            command: "systemctl poweroff".to_string(),
            search_string: "shutdown;poweroff".to_string(),
        },
    );
    Launcher {
        kind: LauncherKind::SystemCommand(SystemCommand {
            alias: alias.map(|a| a.to_string()),
            method: "command".to_string(),
            name: name.to_string(),
            commands,
            is_async: false,
            priority,
        }),
        home: false,
        only_home: false,
    }
}

#[test]
fn accessors_read_through_every_kind() {
    let a = lt_app("Files", Some("f"), 3, true, false);
    let w = lt_web("Google", Some("g"), 0);
    let c = lt_command("Power", None, 7);
    assert_eq!(a.name(), "Files");
    assert_eq!(a.method(), "app");
    assert_eq!(a.alias(), &Some("f".to_string()));
    assert_eq!(a.priority(), 3);
    assert!(!a.is_async());
    assert_eq!(w.name(), "Google");
    assert_eq!(w.method(), "web");
    assert_eq!(w.alias(), &Some("g".to_string()));
    assert_eq!(w.priority(), 0);
    assert!(w.is_async());
    assert_eq!(c.name(), "Power");
    assert_eq!(c.method(), "command");
    assert_eq!(c.alias(), &None);
    assert_eq!(c.priority(), 7);
    assert!(!c.is_async());
}

#[test]
fn all_mode_takes_positive_priorities_only() {
    let shown = lt_app("Files", None, 1, true, false);
    let hidden = lt_app("Hidden", Some("h"), 0, true, false);
    assert!(shown.is_eligible(&Mode::All, true));
    assert!(shown.is_eligible(&Mode::All, false));
    assert!(!hidden.is_eligible(&Mode::All, true));
    assert!(!hidden.is_eligible(&Mode::All, false));
}

#[test]
fn named_mode_takes_its_own_alias_at_priority_zero() {
    let own = lt_web("Google", Some("g"), 0);
    let other = lt_web("Duck", Some("d"), 0);
    let positive = lt_web("Loud", Some("g"), 2);
    let nameless = lt_command("Power", None, 0);
    let mode = Mode::Named("g".to_string());
    assert!(own.is_eligible(&mode, false));
    assert!(!other.is_eligible(&mode, false));
    assert!(!positive.is_eligible(&mode, false));
    assert!(!nameless.is_eligible(&mode, false));
    assert!(!nameless.is_eligible(&Mode::Named(String::new()), false));
}

#[test]
fn home_screen_takes_home_sources_and_other_screens_the_rest() {
    let home_too = lt_app("Files", None, 1, true, false);
    let never_home = lt_app("Calc", None, 1, false, false);
    let home_only = lt_app("Clock", None, 1, true, true);
    let marked_only = lt_app("Odd", None, 1, false, true);
    assert!(home_too.is_eligible(&Mode::All, true));
    assert!(home_too.is_eligible(&Mode::All, false));
    assert!(!never_home.is_eligible(&Mode::All, true));
    assert!(never_home.is_eligible(&Mode::All, false));
    assert!(home_only.is_eligible(&Mode::All, true));
    assert!(!home_only.is_eligible(&Mode::All, false));
    assert!(!marked_only.is_eligible(&Mode::All, true));
    assert!(!marked_only.is_eligible(&Mode::All, false));
}

#[test]
fn registry_collects_one_namespace_for_each_alias() {
    let launchers = vec![
        lt_app("Files", None, 1, true, false),
        lt_web("Google", Some("g"), 0),
        lt_command("Power", Some("p"), 2),
    ];
    let modes = ModeRegistry::collect(&launchers);
    assert_eq!(modes.lookup(&"g".to_string()), Some(&"Google".to_string()));
    assert_eq!(modes.lookup(&"p".to_string()), Some(&"Power".to_string()));
    assert_eq!(modes.lookup(&"f".to_string()), None);
    assert_eq!(modes.lookup(&"g ".to_string()), None);
    assert_eq!(modes.lookup(&String::new()), None);
}

#[test]
fn registry_keeps_the_last_name_under_a_repeated_alias() {
    let launchers = vec![lt_web("Google", Some("g"), 0), lt_web("Github", Some("g"), 0)];
    let modes = ModeRegistry::collect(&launchers);
    assert_eq!(modes.lookup(&"g".to_string()), Some(&"Github".to_string()));
}

#[test]
fn registry_register_replaces_and_adds() {
    let mut modes = ModeRegistry::new();
    assert_eq!(modes.lookup(&"g".to_string()), None);
    modes.register("g".to_string(), "Google".to_string());
    modes.register("d".to_string(), "Duck".to_string());
    modes.register("g".to_string(), "Github".to_string());
    assert_eq!(modes.lookup(&"g".to_string()), Some(&"Github".to_string()));
    assert_eq!(modes.lookup(&"d".to_string()), Some(&"Duck".to_string()));
}

#[test]
fn aliases_are_distinct_finds_a_repeated_alias() {
    let distinct = vec![
        lt_app("Files", None, 1, true, false),
        lt_web("Google", Some("g"), 0),
        lt_command("Power", None, 2),
        lt_web("Duck", Some("d"), 0),
    ];
    assert!(aliases_are_distinct(&distinct));
    let repeated = vec![
        lt_web("Google", Some("g"), 0),
        lt_app("Files", Some("f"), 1, true, false),
        lt_web("Github", Some("g"), 0),
    ];
    assert!(!aliases_are_distinct(&repeated));
    let nameless = vec![lt_command("A", None, 1), lt_command("B", None, 1)];
    assert!(aliases_are_distinct(&nameless));
    assert!(aliases_are_distinct(&Vec::new()));
}
