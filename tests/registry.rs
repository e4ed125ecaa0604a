use ask_turing_desktop::actions::{action_for_id, dispatch, Action};
use ask_turing_desktop::keys::{Hotkey, KeyCode, Modifiers};
use ask_turing_desktop::shortcuts::{
    builtin_registration, get_shortcuts, update_shortcuts, ShortcutConfig, ShortcutState,
};
use ask_turing_desktop::window::{WindowName, WindowStep};

fn config(id: &str, keys: &[&str]) -> ShortcutConfig {
    ShortcutConfig { id: id.to_string(), keys: keys.iter().map(|s| s.to_string()).collect() }
}

fn cmd_o() -> Hotkey {
    Hotkey {
        modifiers: Modifiers { meta: true, control: false, alt: false, shift: false },
        key: KeyCode::Letter(b'O'),
    }
}

/// Replaces the shortcuts and records every planned registration, as a host
/// that accepts them all would.
fn configure(state: &mut ShortcutState, cfgs: Vec<ShortcutConfig>) -> usize {
    let plan = update_shortcuts(state, cfgs);
    let n = plan.len();
    for reg in plan {
        state.record_registration(reg);
    }
    n
}

#[test]
fn new_registry_is_empty() {
    let state = ShortcutState::new();
    assert!(get_shortcuts(&state).is_empty());
}

#[test]
fn replace_with_empty_list_succeeds_and_clears() {
    let mut state = ShortcutState::new();
    configure(&mut state, vec![config("open-settings", &["Cmd", "O"])]);
    let plan = update_shortcuts(&mut state, Vec::new());
    assert!(plan.is_empty());
    assert!(get_shortcuts(&state).is_empty());
}

#[test]
fn snapshot_returns_stored_list_in_order() {
    let mut state = ShortcutState::new();
    update_shortcuts(
        &mut state,
        vec![config("b", &["Cmd", "B"]), config("unparsable", &["Shift"]), config("a", &["Alt", "1"])],
    );
    let got = get_shortcuts(&state);
    assert_eq!(got.len(), 3);
    assert_eq!(got[0].id, "b");
    assert_eq!(got[0].keys, vec!["Cmd".to_string(), "B".to_string()]);
    assert_eq!(got[1].id, "unparsable");
    assert_eq!(got[2].id, "a");
    assert_eq!(got[2].keys, vec!["Alt".to_string(), "1".to_string()]);
}

#[test]
fn unparsable_bindings_are_skipped_not_fatal() {
    let mut state = ShortcutState::new();
    let plan = update_shortcuts(
        &mut state,
        vec![config("x", &["Shift"]), config("y", &["Ctrl", "Y"]), config("z", &["Cmd", "?"])],
    );
    assert_eq!(plan.len(), 1);
    assert_eq!(plan[0].id, "y");
    assert_eq!(plan[0].hotkey.key, KeyCode::Letter(b'Y'));
}

#[test]
fn shared_id_gives_two_registrations() {
    let mut state = ShortcutState::new();
    let plan = update_shortcuts(
        &mut state,
        vec![config("open-settings", &["Cmd", "O"]), config("open-settings", &["Alt", "P"])],
    );
    assert_eq!(plan.len(), 2);
    assert_eq!(plan[0].id, "open-settings");
    assert_eq!(plan[0].hotkey, cmd_o());
    assert_eq!(plan[1].id, "open-settings");
    assert_eq!(plan[1].hotkey.key, KeyCode::Letter(b'P'));
}

#[test]
fn open_settings_binding_shows_main_window_only() {
    let mut state = ShortcutState::new();
    assert_eq!(configure(&mut state, vec![config("open-settings", &["Cmd", "O"])]), 1);
    let action = state.fire(cmd_o(), true);
    assert_eq!(action, Some(Action::OpenSettings));
    let plan = dispatch(action.unwrap(), true).unwrap();
    assert_eq!(plan.window, WindowName::Main);
    assert_eq!(plan.steps, vec![WindowStep::Show, WindowStep::Focus]);
}

#[test]
fn cleared_binding_no_longer_fires() {
    let mut state = ShortcutState::new();
    configure(&mut state, vec![config("open-settings", &["Cmd", "O"])]);
    assert_eq!(state.fire(cmd_o(), true), Some(Action::OpenSettings));
    configure(&mut state, Vec::new());
    assert_eq!(state.fire(cmd_o(), true), None);
}

#[test]
fn release_does_not_fire() {
    let mut state = ShortcutState::new();
    configure(&mut state, vec![config("open-settings", &["Cmd", "O"])]);
    assert_eq!(state.fire(cmd_o(), false), None);
}

#[test]
fn unregistered_hotkey_does_not_fire() {
    let mut state = ShortcutState::new();
    configure(&mut state, vec![config("open-settings", &["Cmd", "O"])]);
    let other = Hotkey { modifiers: cmd_o().modifiers, key: KeyCode::Letter(b'P') };
    assert_eq!(state.fire(other, true), None);
}

#[test]
fn unknown_id_fires_unknown_and_dispatches_nothing() {
    let mut state = ShortcutState::new();
    configure(&mut state, vec![config("launch-rockets", &["Cmd", "O"])]);
    assert_eq!(state.fire(cmd_o(), true), Some(Action::Unknown));
    assert!(dispatch(Action::Unknown, false).is_none());
}

#[test]
fn first_registration_of_a_hotkey_wins() {
    let mut state = ShortcutState::new();
    configure(
        &mut state,
        vec![config("show-hide-bubble", &["Cmd", "O"]), config("open-settings", &["Meta", "o"])],
    );
    assert_eq!(state.fire(cmd_o(), true), Some(Action::ToggleBubble));
}

#[test]
fn action_ids() {
    assert_eq!(action_for_id(&"show-hide-bubble".to_string()), Action::ToggleBubble);
    assert_eq!(action_for_id(&"open-settings".to_string()), Action::OpenSettings);
    assert_eq!(action_for_id(&"Open-Settings".to_string()), Action::Unknown);
    assert_eq!(action_for_id(&String::new()), Action::Unknown);
}

#[test]
fn builtin_binding_toggles_bubble() {
    let reg = builtin_registration();
    assert_eq!(reg.id, "show-hide-bubble");
    assert_eq!(
        reg.hotkey,
        Hotkey {
            modifiers: Modifiers { meta: true, control: false, alt: false, shift: true },
            key: KeyCode::Letter(b'K'),
        }
    );
    let mut state = ShortcutState::new();
    state.record_registration(reg);
    let action = state.fire(builtin_registration().hotkey, true).unwrap();
    assert_eq!(action, Action::ToggleBubble);
    let plan = dispatch(action, false).unwrap();
    assert_eq!(plan.window, WindowName::Bubble);
    assert_eq!(plan.steps[0], WindowStep::Position);
}

#[test]
fn replacing_shortcuts_drops_builtin_binding() {
    let mut state = ShortcutState::new();
    state.record_registration(builtin_registration());
    update_shortcuts(&mut state, Vec::new());
    assert_eq!(state.fire(builtin_registration().hotkey, true), None);
}
