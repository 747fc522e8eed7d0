//! Keyboard shortcut matching and display.
//!
//! A shortcut pairs a primary [`Key`] with a set of modifier requirements
//! ([`Modifiers`]); a [`Shortcuts`] value groups several such alternatives
//! under one action and decides, against a [`KeyboardState`] snapshot taken
//! once per input tick, whether the action is active. Every shortcut can be
//! rendered as a single-line label for display in a user interface.

pub mod key;
pub mod modifier;
pub mod shortcut;
pub mod state;
pub mod text;

pub use key::label_for;
pub use key::Key;
pub use modifier::ModChannel;
pub use modifier::Modifiers;
pub use modifier::ModifierType;
pub use shortcut::Shortcut;
pub use shortcut::Shortcuts;
pub use state::KeyboardState;
