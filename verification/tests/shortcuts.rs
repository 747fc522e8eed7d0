use keyboard_shortcuts::Key;
use keyboard_shortcuts::KeyboardState;
use keyboard_shortcuts::Shortcuts;

#[test]
fn test_shortcuts_display_single() {
    let shortcuts = Shortcuts::single_press(&[Key::KeyA]);
    assert_eq!(shortcuts.label(), "A");
}

#[test]
fn test_shortcuts_display_multiple() {
    let shortcuts = Shortcuts::repeating(&[Key::KeyA, Key::ArrowLeft]);
    assert_eq!(shortcuts.label(), "A, ←");
}

#[test]
fn test_shortcuts_display_with_modifiers() {
    let shortcuts = Shortcuts::single_press(&[Key::KeyS]).with_ctrl();
    assert_eq!(shortcuts.label(), "Ctrl + S");
}

#[test]
fn test_shortcuts_display_multiple_modifiers() {
    let shortcuts = Shortcuts::single_press(&[Key::KeyZ]).with_ctrl().with_shift();
    assert_eq!(shortcuts.label(), "Ctrl + Shift + Z");
}

#[test]
fn test_shortcuts_display_mixed() {
    // Test displaying shortcuts with different modifiers
    let ctrl_s = Shortcuts::single_press(&[Key::KeyS]).with_ctrl();
    let super_s = Shortcuts::single_press(&[Key::KeyS]).with_super();

    assert_eq!(ctrl_s.label(), "Ctrl + S");
    assert_eq!(super_s.label(), "Super + S");
}

#[test]
fn test_shortcuts_display_special_keys() {
    let shortcuts = Shortcuts::single_press(&[Key::ArrowUp, Key::Space, Key::Enter]);

    assert_eq!(shortcuts.label(), "↑, Space, ↵");
}

#[test]
fn test_shortcuts_pressed_repeating_when_held() {
    let shortcuts = Shortcuts::repeating(&[Key::KeyA]);
    let mut keys = KeyboardState::new();

    // Not pressed initially
    assert!(!shortcuts.pressed(&keys));

    // Press the key
    keys.press(Key::KeyA);
    assert!(shortcuts.pressed(&keys));

    // Still pressed (simulating held key)
    assert!(shortcuts.pressed(&keys));
}

#[test]
fn test_shortcuts_pressed_non_repeating_just_pressed() {
    let shortcuts = Shortcuts::single_press(&[Key::KeyA]);
    let mut keys = KeyboardState::new();

    // Not pressed initially
    assert!(!shortcuts.pressed(&keys));

    // Press the key
    keys.press(Key::KeyA);
    assert!(shortcuts.pressed(&keys));

    // Clear just_pressed state (simulating next frame)
    keys.clear_just_pressed(Key::KeyA);
    assert!(!shortcuts.pressed(&keys));
}

#[test]
fn test_shortcuts_pressed_multiple_alternatives() {
    let shortcuts = Shortcuts::repeating(&[Key::KeyA, Key::ArrowLeft]);
    let mut keys = KeyboardState::new();

    // Press first alternative
    keys.press(Key::KeyA);
    assert!(shortcuts.pressed(&keys));

    keys.release(Key::KeyA);
    keys.clear();

    // Press second alternative
    keys.press(Key::ArrowLeft);
    assert!(shortcuts.pressed(&keys));
}

#[test]
fn test_shortcuts_pressed_with_modifiers() {
    let shortcuts = Shortcuts::single_press(&[Key::KeyS]).with_ctrl();
    let mut keys = KeyboardState::new();

    // Press S without Ctrl - should not match
    keys.press(Key::KeyS);
    assert!(!shortcuts.pressed(&keys));

    // Press Ctrl as well - should match
    keys.press(Key::ControlLeft);
    assert!(shortcuts.pressed(&keys));
}

#[test]
fn test_shortcuts_pressed_default_ignore_modifiers() {
    // This tests the default behavior - modifiers are ignored
    let shortcuts = Shortcuts::repeating(&[Key::KeyA]);
    let mut keys = KeyboardState::new();

    // Press A without Ctrl - should match
    keys.press(Key::KeyA);
    assert!(shortcuts.pressed(&keys));

    // Press Ctrl as well - should still match (default is Ignore)
    keys.press(Key::ControlLeft);
    assert!(shortcuts.pressed(&keys));
}

#[test]
fn test_shortcuts_pressed_empty_shortcuts() {
    let shortcuts = Shortcuts::default();
    let mut keys = KeyboardState::new();
    keys.press(Key::KeyA);

    // No shortcuts defined, should never match
    assert!(!shortcuts.pressed(&keys));
}

#[test]
fn test_shortcuts_pressed_multiple_modifiers() {
    let shortcuts = Shortcuts::single_press(&[Key::KeyZ]).with_ctrl().with_shift();
    let mut keys = KeyboardState::new();

    // Press Z with only Ctrl - should not match
    keys.press(Key::KeyZ);
    keys.press(Key::ControlLeft);
    assert!(!shortcuts.pressed(&keys));

    // Add Shift - should now match
    keys.press(Key::ShiftLeft);
    assert!(shortcuts.pressed(&keys));
}

#[test]
fn test_shortcuts_press_and_repeating() {
    let press_shortcuts = Shortcuts::single_press(&[Key::KeyW]);
    assert!(!press_shortcuts.repeats);

    let repeating_shortcuts = Shortcuts::repeating(&[Key::KeyW]);
    assert!(repeating_shortcuts.repeats);
}

#[test]
fn test_shortcuts_without_ctrl() {
    let shortcuts = Shortcuts::single_press(&[Key::KeyS]).without_ctrl();
    let mut keys = KeyboardState::new();

    // Press S without Ctrl - should match
    keys.press(Key::KeyS);
    assert!(shortcuts.pressed(&keys));

    // Press Ctrl as well - should NOT match
    keys.press(Key::ControlLeft);
    assert!(!shortcuts.pressed(&keys));
}

#[test]
fn test_shortcuts_without_alt() {
    let shortcuts = Shortcuts::single_press(&[Key::F4]).without_alt();
    let mut keys = KeyboardState::new();

    // Press F4 without Alt - should match
    keys.press(Key::F4);
    assert!(shortcuts.pressed(&keys));

    // Press Alt as well - should NOT match
    keys.press(Key::AltLeft);
    assert!(!shortcuts.pressed(&keys));
}

#[test]
fn test_shortcuts_without_shift() {
    let shortcuts = Shortcuts::single_press(&[Key::Tab]).without_shift();
    let mut keys = KeyboardState::new();

    // Press Tab without Shift - should match
    keys.press(Key::Tab);
    assert!(shortcuts.pressed(&keys));

    // Press Shift as well - should NOT match
    keys.press(Key::ShiftLeft);
    assert!(!shortcuts.pressed(&keys));
}

#[test]
fn test_shortcuts_without_super() {
    let shortcuts = Shortcuts::single_press(&[Key::KeyD]).without_super();
    let mut keys = KeyboardState::new();

    // Press D without Super - should match
    keys.press(Key::KeyD);
    assert!(shortcuts.pressed(&keys));

    // Press Super as well - should NOT match
    keys.press(Key::SuperLeft);
    assert!(!shortcuts.pressed(&keys));
}

#[test]
fn test_shortcuts_with_and_without_modifiers() {
    // Require Ctrl but forbid Alt
    let shortcuts = Shortcuts::single_press(&[Key::KeyZ]).with_ctrl().without_alt();
    let mut keys = KeyboardState::new();

    // Press Z with Ctrl but no Alt - should match
    keys.press(Key::KeyZ);
    keys.press(Key::ControlLeft);
    assert!(shortcuts.pressed(&keys));

    // Add Alt - should NOT match
    keys.press(Key::AltLeft);
    assert!(!shortcuts.pressed(&keys));
}

#[test]
fn test_shortcuts_default_ignores_modifiers() {
    // Default behavior should ignore all modifiers
    let shortcuts = Shortcuts::single_press(&[Key::KeyA]);
    let mut keys = KeyboardState::new();

    // Press A without modifiers - should match
    keys.press(Key::KeyA);
    assert!(shortcuts.pressed(&keys));

    // Press A with Ctrl - should still match (default is Ignore)
    keys.press(Key::ControlLeft);
    assert!(shortcuts.pressed(&keys));

    // Add Alt - should still match
    keys.press(Key::AltLeft);
    assert!(shortcuts.pressed(&keys));

    // Add Shift - should still match
    keys.press(Key::ShiftLeft);
    assert!(shortcuts.pressed(&keys));

    // Add Super - should still match
    keys.press(Key::SuperLeft);
    assert!(shortcuts.pressed(&keys));
}

#[test]
fn test_shortcuts_mixed_modifier_modes() {
    // Require Ctrl, forbid Shift, Alt defaults to Ignore
    let shortcuts = Shortcuts::single_press(&[Key::KeyZ]).with_ctrl().without_shift();
    let mut keys = KeyboardState::new();

    // Press Z with Ctrl, no Shift - should match
    keys.press(Key::KeyZ);
    keys.press(Key::ControlLeft);
    assert!(shortcuts.pressed(&keys));

    // Add Alt - should still match (Alt defaults to Ignore)
    keys.press(Key::AltLeft);
    assert!(shortcuts.pressed(&keys));

    // Add Shift - should NOT match (forbidden)
    keys.press(Key::ShiftLeft);
    assert!(!shortcuts.pressed(&keys));
}
