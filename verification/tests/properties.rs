use keyboard_shortcuts::label_for;
use keyboard_shortcuts::Key;
use keyboard_shortcuts::KeyboardState;
use keyboard_shortcuts::Modifiers;
use keyboard_shortcuts::ModifierType;
use keyboard_shortcuts::Shortcuts;

#[test]
fn modifier_requirement_matches() {
    assert!(ModifierType::RequirePressed.matches(true));
    assert!(!ModifierType::RequirePressed.matches(false));
    assert!(!ModifierType::RequireNotPressed.matches(true));
    assert!(ModifierType::RequireNotPressed.matches(false));
}

#[test]
fn policy_channel_with_keys_up() {
    // With control's physical keys both up, the policy holds exactly when
    // control is absent or forbidden, never when it is required.
    let keys = KeyboardState::new();

    let absent = Modifiers::default();
    assert!(absent.pressed(&keys));
    assert!(absent.none());

    let required = Modifiers { control: Some(ModifierType::RequirePressed), ..Modifiers::default() };
    assert!(!required.pressed(&keys));
    assert!(!required.none());

    let forbidden =
        Modifiers { control: Some(ModifierType::RequireNotPressed), ..Modifiers::default() };
    assert!(forbidden.pressed(&keys));
}

#[test]
fn policy_conflates_left_and_right() {
    // A channel is down when either physical key is: ControlRight alone
    // satisfies a required control channel.
    let shortcuts = Shortcuts::repeating(&[Key::KeyS]).with_ctrl();
    let mut keys = KeyboardState::new();
    keys.press(Key::KeyS);
    keys.press(Key::ControlRight);
    assert!(shortcuts.pressed(&keys));
}

#[test]
fn rendering_is_idempotent() {
    let shortcuts = Shortcuts::single_press(&[Key::KeyZ, Key::ArrowUp]).with_ctrl().with_shift();
    assert_eq!(shortcuts.label(), shortcuts.label());
}

#[test]
fn default_group_never_matches() {
    let shortcuts = Shortcuts::default();
    let mut keys = KeyboardState::new();
    // Even a state with many keys down, modifiers included, matches nothing.
    keys.press(Key::KeyA);
    keys.press(Key::Space);
    keys.press(Key::ControlLeft);
    keys.press(Key::AltLeft);
    keys.press(Key::ShiftLeft);
    keys.press(Key::SuperLeft);
    assert!(!shortcuts.pressed(&keys));
    assert_eq!(shortcuts.label(), "");
}

#[test]
fn repeating_group_stays_active_while_held() {
    let shortcuts = Shortcuts::repeating(&[Key::KeyA]);
    let mut keys = KeyboardState::new();
    keys.press(Key::KeyA);
    assert!(shortcuts.pressed(&keys));

    // Later ticks: the key is still down but no longer "just pressed".
    keys.clear();
    assert!(shortcuts.pressed(&keys));
    keys.clear();
    assert!(shortcuts.pressed(&keys));
}

#[test]
fn single_press_group_fires_once_per_press() {
    let shortcuts = Shortcuts::single_press(&[Key::KeyA]);
    let mut keys = KeyboardState::new();

    // Tick of the down-transition: active.
    keys.press(Key::KeyA);
    assert!(shortcuts.pressed(&keys));

    // Later ticks of the same hold: inactive.
    keys.clear();
    assert!(!shortcuts.pressed(&keys));
    keys.clear();
    assert!(!shortcuts.pressed(&keys));

    // Release and press again: active again.
    keys.release(Key::KeyA);
    keys.clear();
    keys.press(Key::KeyA);
    assert!(shortcuts.pressed(&keys));
}

#[test]
fn any_alternative_matches_independently() {
    let shortcuts = Shortcuts::single_press(&[Key::KeyA, Key::ArrowLeft]);
    let mut keys = KeyboardState::new();

    // Only the second alternative fires; the first stays untouched.
    keys.press(Key::ArrowLeft);
    assert!(shortcuts.pressed(&keys));

    // Neither fires after the tick ends.
    keys.clear();
    assert!(!shortcuts.pressed(&keys));
}

#[test]
fn modifier_label_order_is_fixed() {
    // Constraints added in reverse order still render control, alt, shift,
    // super.
    let shortcuts =
        Shortcuts::single_press(&[Key::KeyK]).with_super().with_shift().with_alt().with_ctrl();
    assert_eq!(shortcuts.label(), "Ctrl + Alt + Shift + Super + K");

    let one_order = Shortcuts::single_press(&[Key::KeyZ]).with_ctrl().with_shift();
    let other_order = Shortcuts::single_press(&[Key::KeyZ]).with_shift().with_ctrl();
    assert_eq!(one_order.label(), other_order.label());
}

#[test]
fn forbidden_modifiers_are_not_rendered() {
    let shortcuts = Shortcuts::single_press(&[Key::KeyS]).without_ctrl();
    assert_eq!(shortcuts.label(), "S");

    let mixed = Shortcuts::single_press(&[Key::KeyZ]).with_ctrl().without_shift();
    assert_eq!(mixed.label(), "Ctrl + Z");
}

#[test]
fn scenario_repeating_key_a() {
    let shortcuts = Shortcuts::repeating(&[Key::KeyA]);
    let mut keys = KeyboardState::new();
    keys.press(Key::KeyA);
    assert!(shortcuts.pressed(&keys));
    assert_eq!(shortcuts.label(), "A");
}

#[test]
fn scenario_single_press_ctrl_s() {
    let shortcuts = Shortcuts::single_press(&[Key::KeyS]).with_ctrl();
    let mut keys = KeyboardState::new();

    // Tick 1: S just pressed, control down.
    keys.press(Key::ControlLeft);
    keys.press(Key::KeyS);
    assert!(shortcuts.pressed(&keys));
    assert_eq!(shortcuts.label(), "Ctrl + S");

    // Tick 2: S still down, no longer just pressed.
    keys.clear();
    assert!(!shortcuts.pressed(&keys));
}

#[test]
fn scenario_ctrl_z_shift_forbidden() {
    let shortcuts = Shortcuts::repeating(&[Key::KeyZ]).with_ctrl().without_shift();
    let mut keys = KeyboardState::new();
    keys.press(Key::KeyZ);
    keys.press(Key::ControlLeft);
    keys.press(Key::ShiftLeft);
    assert!(!shortcuts.pressed(&keys));

    keys.release(Key::ShiftLeft);
    assert!(shortcuts.pressed(&keys));
}

#[test]
fn label_for_unknown_name_is_returned_unchanged() {
    assert_eq!(label_for("NoSuchKey"), "NoSuchKey");
    assert_eq!(label_for(""), "");
    assert_eq!(label_for("keya"), "keya");
}

#[test]
fn label_for_known_names() {
    assert_eq!(label_for("KeyA"), "A");
    assert_eq!(label_for("Digit7"), "7");
    assert_eq!(label_for("ArrowLeft"), "←");
    assert_eq!(label_for("Backspace"), "⌫");
    assert_eq!(label_for("Numpad5"), "Num 5");
    assert_eq!(label_for("NumpadAdd"), "Num +");
    assert_eq!(label_for("F1"), "F1");
    assert_eq!(label_for("F35"), "F35");
    assert_eq!(label_for("MediaPlayPause"), "Play/Pause");
    assert_eq!(label_for("ControlLeft"), "Ctrl");
    assert_eq!(label_for("ControlRight"), "Ctrl");
    assert_eq!(label_for("SuperRight"), "Super");
    assert_eq!(label_for("IntlYen"), "¥");
}

#[test]
fn key_names_round_trip() {
    assert_eq!(Key::KeyA.name(), "KeyA");
    assert_eq!(Key::ArrowLeft.name(), "ArrowLeft");
    assert_eq!(Key::NumpadMemoryStore.name(), "NumpadMemoryStore");
    assert_eq!(Key::from_name("KeyZ"), Some(Key::KeyZ));
    assert_eq!(Key::from_name("Hyper"), Some(Key::Hyper));
    assert_eq!(Key::from_name("NoSuchKey"), None);
    assert_eq!(Key::from_name(&Key::PageDown.name()), Some(Key::PageDown));
}

#[test]
fn key_labels_cover_the_table() {
    assert_eq!(Key::KeyQ.label(), "Q");
    assert_eq!(Key::Space.label(), "Space");
    assert_eq!(Key::Enter.label(), "↵");
    assert_eq!(Key::Escape.label(), "Esc");
    assert_eq!(Key::Minus.label(), "-");
    assert_eq!(Key::Eject.label(), "⏏");
    assert_eq!(Key::BrowserHome.label(), "Browser Home");
}

#[test]
fn builders_on_empty_group_change_nothing() {
    let shortcuts = Shortcuts::default().with_ctrl().without_shift();
    let mut keys = KeyboardState::new();
    keys.press(Key::ControlLeft);
    assert!(!shortcuts.pressed(&keys));
    assert_eq!(shortcuts.label(), "");
}

#[test]
fn builders_touch_only_the_first_alternative() {
    // The modifier constraint attaches to the first alternative alone; the
    // second alternative stays unconstrained.
    let shortcuts = Shortcuts::repeating(&[Key::KeyA, Key::ArrowLeft]).with_ctrl();
    let mut keys = KeyboardState::new();

    // First alternative without control: no match.
    keys.press(Key::KeyA);
    assert!(!shortcuts.pressed(&keys));

    // Second alternative needs no control at all.
    keys.release(Key::KeyA);
    keys.press(Key::ArrowLeft);
    assert!(shortcuts.pressed(&keys));

    assert_eq!(shortcuts.label(), "Ctrl + A, ←");
}
