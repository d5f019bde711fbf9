use sherlock::keys::{ConfKeys, Key, KeyPress, Modifiers, SHIFT_MASK, TAB_KEYCODE};
use sherlock::launcher::app_launcher::App;
use sherlock::launcher::web_launcher::Web;
use sherlock::launcher::{Launcher, LauncherKind};
use sherlock::mode::Mode;
use sherlock::nav::{classify, nav_event, NavCommand};
use sherlock::results::ResultItem;
use sherlock::search::{change_event, populate, search, SearchSession};
use std::collections::HashMap;

const NT_CTRL: u32 = 4;

fn nt_binds() -> ConfKeys {
    ConfKeys {
        next: Some(Key::Other(0x6a)),
        next_mod: Some(Modifiers { bits: NT_CTRL }),
        prev: Some(Key::Other(0x6b)),
        prev_mod: Some(Modifiers { bits: NT_CTRL }),
        shortcut_modifier: Some(Modifiers { bits: NT_CTRL }),
        shortcut_modifier_str: "ctrl".to_string(),
    }
}

fn nt_press(key: Key, bits: u32) -> KeyPress {
    KeyPress { key, keycode: 0, modifiers: Modifiers { bits } }
}

fn nt_item(title: &str, priority: u64, shortcut: bool) -> ResultItem {
    ResultItem {
        priority,
        title: title.to_string(),
        body: String::new(),
        attributes: vec![("exec".to_string(), title.to_lowercase())],
        shortcut,
        image_slot: false,
    }
}

fn nt_session(binds: ConfKeys) -> SearchSession {
    let launchers = vec![
        Launcher {
            kind: LauncherKind::App(App {
                alias: None,
                method: "app".to_string(),
                name: "Apps".to_string(),
                is_async: false,
                priority: 1,
                apps: HashMap::new(),
            }),
            home: true,
            only_home: false,
        },
        Launcher {
            kind: LauncherKind::Web(Web {
                alias: Some("g".to_string()),
                method: "web".to_string(),
                uuid: "w".to_string(),
                name: "Google".to_string(),
                icon: "web".to_string(),
                engine: "plain".to_string(),
                priority: 0,
                is_async: true,
            }),
            home: false,
            only_home: false,
        },
    ];
    let (mut session, plan) = search(launchers, binds, false);
    let tiles = vec![nt_item("C", 3, true), nt_item("A", 1, false), nt_item("B", 2, true)];
    assert!(populate(&mut session, plan.ticket, tiles, None, false));
    session
}

#[test]
fn classify_reads_fixed_keys() {
    let binds = nt_binds();
    assert_eq!(classify(&binds, nt_press(Key::Up, 0)), NavCommand::Previous(false));
    assert_eq!(classify(&binds, nt_press(Key::Down, 0)), NavCommand::Next);
    assert_eq!(classify(&binds, nt_press(Key::Return, 0)), NavCommand::Enter);
    assert_eq!(classify(&binds, nt_press(Key::BackSpace, 0)), NavCommand::EraseOne);
    assert_eq!(classify(&binds, nt_press(Key::BackSpace, NT_CTRL)), NavCommand::EraseAll);
    assert_eq!(classify(&binds, nt_press(Key::BackSpace, NT_CTRL | SHIFT_MASK)), NavCommand::EraseAll);
    assert_eq!(classify(&binds, nt_press(Key::Tab, 0)), NavCommand::Ignore);
    assert_eq!(classify(&binds, nt_press(Key::Other(0x61), 0)), NavCommand::Ignore);
}

#[test]
fn classify_reads_digits_with_the_shortcut_modifier() {
    let binds = nt_binds();
    for n in 1..=5u8 {
        assert_eq!(classify(&binds, nt_press(Key::Digit(n), NT_CTRL)), NavCommand::Shortcut(n));
        assert_eq!(classify(&binds, nt_press(Key::Digit(n), 0)), NavCommand::Ignore);
        assert_eq!(classify(&binds, nt_press(Key::Digit(n), SHIFT_MASK)), NavCommand::Ignore);
    }
    assert_eq!(classify(&binds, nt_press(Key::Digit(0), NT_CTRL)), NavCommand::Ignore);
    assert_eq!(classify(&binds, nt_press(Key::Digit(6), NT_CTRL)), NavCommand::Ignore);
    let mut unset = nt_binds();
    unset.shortcut_modifier = None;
    assert_eq!(classify(&unset, nt_press(Key::Digit(1), NT_CTRL)), NavCommand::Ignore);
    assert_eq!(classify(&unset, nt_press(Key::BackSpace, NT_CTRL)), NavCommand::EraseOne);
}

#[test]
fn classify_puts_bound_keys_first() {
    let binds = nt_binds();
    assert_eq!(classify(&binds, nt_press(Key::Other(0x6b), NT_CTRL)), NavCommand::Previous(true));
    assert_eq!(classify(&binds, nt_press(Key::Other(0x6a), NT_CTRL)), NavCommand::Next);
    assert_eq!(classify(&binds, nt_press(Key::Other(0x6a), NT_CTRL | SHIFT_MASK)), NavCommand::Next);
    assert_eq!(classify(&binds, nt_press(Key::Other(0x6a), 0)), NavCommand::Ignore);
    assert_eq!(classify(&binds, nt_press(Key::Other(0x6b), SHIFT_MASK)), NavCommand::Ignore);
    let mut odd = nt_binds();
    odd.prev = Some(Key::Down);
    odd.prev_mod = None;
    odd.next = Some(Key::Down);
    odd.next_mod = None;
    assert_eq!(classify(&odd, nt_press(Key::Down, 0)), NavCommand::Previous(true));
    odd.prev = Some(Key::Return);
    assert_eq!(classify(&odd, nt_press(Key::Return, 0)), NavCommand::Previous(true));
    assert_eq!(classify(&odd, nt_press(Key::Down, 0)), NavCommand::Next);
}

#[test]
fn classify_reads_shift_tab_by_its_keycode() {
    let mut binds = nt_binds();
    binds.prev = Some(Key::Tab);
    binds.prev_mod = Some(Modifiers { bits: SHIFT_MASK });
    binds.next = Some(Key::Tab);
    binds.next_mod = None;
    let back_tab = KeyPress { key: Key::Other(0xfe20), keycode: TAB_KEYCODE, modifiers: Modifiers { bits: SHIFT_MASK } };
    assert_eq!(classify(&binds, back_tab), NavCommand::Previous(true));
    let no_shift = KeyPress { key: Key::Other(0xfe20), keycode: TAB_KEYCODE, modifiers: Modifiers { bits: 0 } };
    assert_eq!(classify(&binds, no_shift), NavCommand::Ignore);
    let other_code = KeyPress { key: Key::Other(0xfe20), keycode: 24, modifiers: Modifiers { bits: SHIFT_MASK } };
    assert_eq!(classify(&binds, other_code), NavCommand::Ignore);
    assert_eq!(classify(&binds, nt_press(Key::Tab, 0)), NavCommand::Next);
    binds.prev = Some(Key::Other(1));
    binds.next_mod = Some(Modifiers { bits: SHIFT_MASK });
    assert_eq!(classify(&binds, back_tab), NavCommand::Next);
    binds.next_mod = Some(Modifiers { bits: SHIFT_MASK | NT_CTRL });
    assert_eq!(classify(&binds, back_tab), NavCommand::Ignore);
}

#[test]
fn modifiers_contain_their_parts() {
    let both = Modifiers { bits: NT_CTRL | SHIFT_MASK };
    assert!(both.contains(Modifiers { bits: NT_CTRL }));
    assert!(both.contains(Modifiers { bits: SHIFT_MASK }));
    assert!(both.contains(both));
    assert!(both.contains(Modifiers { bits: 0 }));
    assert!(!Modifiers { bits: NT_CTRL }.contains(both));
    assert!(!Modifiers { bits: 0 }.contains(Modifiers { bits: SHIFT_MASK }));
    assert!(Modifiers { bits: SHIFT_MASK }.is_shift());
    assert!(!both.is_shift());
    assert!(!Modifiers { bits: 0 }.is_shift());
}

#[test]
fn arrows_move_the_focus_and_stop_at_the_ends() {
    let mut session = nt_session(nt_binds());
    assert_eq!(session.results.selected, Some(0));
    let up = nav_event(&mut session, nt_press(Key::Up, 0));
    assert!(!up.consumed);
    assert_eq!(session.results.selected, Some(0));
    let down = nav_event(&mut session, nt_press(Key::Down, 0));
    assert!(down.consumed);
    assert!(!down.clear_query);
    assert!(down.switched.is_none());
    assert_eq!(down.activate, None);
    assert_eq!(session.results.selected, Some(1));
    nav_event(&mut session, nt_press(Key::Down, 0));
    assert_eq!(session.results.selected, Some(2));
    nav_event(&mut session, nt_press(Key::Down, 0));
    assert_eq!(session.results.selected, Some(2));
    let bound = nav_event(&mut session, nt_press(Key::Other(0x6b), NT_CTRL));
    assert!(bound.consumed);
    assert_eq!(session.results.selected, Some(1));
    assert_eq!(session.generation, 1);
}

#[test]
fn enter_activates_the_focused_item() {
    let mut session = nt_session(nt_binds());
    nav_event(&mut session, nt_press(Key::Down, 0));
    let enter = nav_event(&mut session, nt_press(Key::Return, 0));
    assert!(!enter.consumed);
    assert_eq!(enter.activate, Some(2));
    assert_eq!(session.results.items[2].attributes, vec![("exec".to_string(), "b".to_string())]);
    assert_eq!(session.results.selected, Some(1));
    let (mut empty, _) = search(Vec::new(), nt_binds(), false);
    let nothing = nav_event(&mut empty, nt_press(Key::Return, 0));
    assert_eq!(nothing.activate, None);
    assert!(!nothing.consumed);
}

#[test]
fn shortcut_activates_its_row_without_moving_the_focus() {
    let mut session = nt_session(nt_binds());
    assert_eq!(session.results.order, vec![1, 2, 0]);
    assert_eq!(session.results.shortcuts, vec![None, Some(1), Some(2)]);
    let first = nav_event(&mut session, nt_press(Key::Digit(1), NT_CTRL));
    assert!(first.consumed);
    assert_eq!(first.activate, Some(2));
    let second = nav_event(&mut session, nt_press(Key::Digit(2), NT_CTRL));
    assert_eq!(second.activate, Some(0));
    let free = nav_event(&mut session, nt_press(Key::Digit(3), NT_CTRL));
    assert!(free.consumed);
    assert_eq!(free.activate, None);
    let plain = nav_event(&mut session, nt_press(Key::Digit(1), 0));
    assert!(!plain.consumed);
    assert_eq!(plain.activate, None);
    assert_eq!(session.results.selected, Some(0));
}

#[test]
fn erase_all_asks_for_an_empty_query() {
    let mut session = nt_session(nt_binds());
    change_event(&mut session, "abc".to_string());
    nav_event(&mut session, nt_press(Key::Down, 0));
    let erase = nav_event(&mut session, nt_press(Key::BackSpace, NT_CTRL));
    assert!(erase.clear_query);
    assert!(!erase.consumed);
    assert!(erase.switched.is_none());
    assert_eq!(session.results.selected, Some(0));
    assert_eq!(session.query, "abc");
    assert_eq!(session.generation, 2);
}

#[test]
fn backspace_on_empty_query_leaves_the_namespace() {
    let mut session = nt_session(nt_binds());
    change_event(&mut session, "g ".to_string());
    assert!(matches!(&session.mode, Mode::Named(a) if a == "g"));
    nav_event(&mut session, nt_press(Key::Down, 0));
    let back = nav_event(&mut session, nt_press(Key::BackSpace, 0));
    assert!(!back.consumed);
    assert!(!back.clear_query);
    let switch = back.switched.expect("the namespace was not left");
    assert!(matches!(session.mode, Mode::All));
    assert_eq!(switch.label, "All");
    assert!(!switch.named);
    assert!(switch.plan.is_home);
    assert_eq!(switch.plan.query, "");
    assert_eq!(switch.plan.sync_launchers, vec![0]);
    assert_eq!(switch.plan.async_launchers, Vec::<usize>::new());
    assert_eq!(switch.plan.ticket.generation, 3);
    assert_eq!(session.results.selected, Some(0));
    assert!(populate(&mut session, switch.plan.ticket, vec![nt_item("Home", 1, true)], None, false));
    assert_eq!(session.results.items[0].title, "Home");
}

#[test]
fn backspace_elsewhere_only_moves_the_focus() {
    let mut session = nt_session(nt_binds());
    nav_event(&mut session, nt_press(Key::Down, 0));
    let at_home = nav_event(&mut session, nt_press(Key::BackSpace, 0));
    assert!(at_home.switched.is_none());
    assert!(!at_home.consumed);
    assert!(matches!(session.mode, Mode::All));
    assert_eq!(session.results.selected, Some(0));
    assert_eq!(session.generation, 1);

    change_event(&mut session, "g ".to_string());
    change_event(&mut session, "rust".to_string());
    nav_event(&mut session, nt_press(Key::Down, 0));
    let typing = nav_event(&mut session, nt_press(Key::BackSpace, 0));
    assert!(typing.switched.is_none());
    assert!(matches!(&session.mode, Mode::Named(a) if a == "g"));
    assert_eq!(session.results.selected, Some(0));
    assert_eq!(session.generation, 3);
}

#[test]
fn other_keys_change_nothing() {
    let mut session = nt_session(nt_binds());
    nav_event(&mut session, nt_press(Key::Down, 0));
    let outcome = nav_event(&mut session, nt_press(Key::Other(0x61), SHIFT_MASK));
    assert!(!outcome.consumed);
    assert!(!outcome.clear_query);
    assert!(outcome.switched.is_none());
    assert_eq!(outcome.activate, None);
    assert_eq!(session.results.selected, Some(1));
    assert_eq!(session.generation, 1);
}
