//! The keys a shortcut can name, their canonical names and display labels.

use crate::text::str_eq;
use vstd::prelude::*;

verus! {

/// A physical key, identified by its canonical name.
///
/// The host's input layer reports keys in this domain; the shortcut engine
/// itself only needs equality on it and, for rendering, the display label
/// of each key.
#[derive(Clone, Copy, Debug, PartialEq, Eq, Structural)]
pub enum Key {
    Backquote,
    Backslash,
    BracketLeft,
    BracketRight,
    Comma,
    Equal,
    Minus,
    Period,
    Quote,
    Semicolon,
    Slash,
    Backspace,
    Delete,
    Enter,
    Escape,
    Tab,
    Space,
    ArrowUp,
    ArrowDown,
    ArrowLeft,
    ArrowRight,
    Home,
    End,
    PageUp,
    PageDown,
    CapsLock,
    NumLock,
    ScrollLock,
    PrintScreen,
    Pause,
    ContextMenu,
    Insert,
    KeyA,
    KeyB,
    KeyC,
    KeyD,
    KeyE,
    KeyF,
    KeyG,
    KeyH,
    KeyI,
    KeyJ,
    KeyK,
    KeyL,
    KeyM,
    KeyN,
    KeyO,
    KeyP,
    KeyQ,
    KeyR,
    KeyS,
    KeyT,
    KeyU,
    KeyV,
    KeyW,
    KeyX,
    KeyY,
    KeyZ,
    Digit0,
    Digit1,
    Digit2,
    Digit3,
    Digit4,
    Digit5,
    Digit6,
    Digit7,
    Digit8,
    Digit9,
    Numpad0,
    Numpad1,
    Numpad2,
    Numpad3,
    Numpad4,
    Numpad5,
    Numpad6,
    Numpad7,
    Numpad8,
    Numpad9,
    NumpadAdd,
    NumpadSubtract,
    NumpadMultiply,
    NumpadDivide,
    NumpadDecimal,
    NumpadEqual,
    NumpadEnter,
    NumpadComma,
    NumpadBackspace,
    NumpadClear,
    NumpadClearEntry,
    NumpadHash,
    NumpadParenLeft,
    NumpadParenRight,
    NumpadStar,
    NumpadMemoryAdd,
    NumpadMemoryClear,
    NumpadMemoryRecall,
    NumpadMemoryStore,
    NumpadMemorySubtract,
    F1,
    F2,
    F3,
    F4,
    F5,
    F6,
    F7,
    F8,
    F9,
    F10,
    F11,
    F12,
    F13,
    F14,
    F15,
    F16,
    F17,
    F18,
    F19,
    F20,
    F21,
    F22,
    F23,
    F24,
    F25,
    F26,
    F27,
    F28,
    F29,
    F30,
    F31,
    F32,
    F33,
    F34,
    F35,
    MediaPlayPause,
    MediaStop,
    MediaTrackNext,
    MediaTrackPrevious,
    MediaSelect,
    AudioVolumeUp,
    AudioVolumeDown,
    AudioVolumeMute,
    BrowserBack,
    BrowserForward,
    BrowserRefresh,
    BrowserStop,
    BrowserSearch,
    BrowserFavorites,
    BrowserHome,
    LaunchMail,
    LaunchApp1,
    LaunchApp2,
    Copy,
    Cut,
    Paste,
    Undo,
    Find,
    Open,
    Select,
    ControlLeft,
    ControlRight,
    AltLeft,
    AltRight,
    ShiftLeft,
    ShiftRight,
    SuperLeft,
    SuperRight,
    IntlBackslash,
    IntlRo,
    IntlYen,
    Lang1,
    Lang2,
    Lang3,
    Lang4,
    Lang5,
    KanaMode,
    Hiragana,
    Katakana,
    Convert,
    NonConvert,
    Again,
    Resume,
    Suspend,
    Abort,
    Props,
    Help,
    Power,
    Sleep,
    WakeUp,
    Eject,
    Fn,
    FnLock,
    Turbo,
    Meta,
    Hyper,
}

impl Key {
    /// The canonical name of this key, the form configuration files use.
    pub open spec fn spec_name(self) -> Seq<char> {
        match self {
            Key::Backquote => "Backquote"@,
            Key::Backslash => "Backslash"@,
            Key::BracketLeft => "BracketLeft"@,
            Key::BracketRight => "BracketRight"@,
            Key::Comma => "Comma"@,
            Key::Equal => "Equal"@,
            Key::Minus => "Minus"@,
            Key::Period => "Period"@,
            Key::Quote => "Quote"@,
            Key::Semicolon => "Semicolon"@,
            Key::Slash => "Slash"@,
            Key::Backspace => "Backspace"@,
            Key::Delete => "Delete"@,
            Key::Enter => "Enter"@,
            Key::Escape => "Escape"@,
            Key::Tab => "Tab"@,
            Key::Space => "Space"@,
            Key::ArrowUp => "ArrowUp"@,
            Key::ArrowDown => "ArrowDown"@,
            Key::ArrowLeft => "ArrowLeft"@,
            Key::ArrowRight => "ArrowRight"@,
            Key::Home => "Home"@,
            Key::End => "End"@,
            Key::PageUp => "PageUp"@,
            Key::PageDown => "PageDown"@,
            Key::CapsLock => "CapsLock"@,
            Key::NumLock => "NumLock"@,
            Key::ScrollLock => "ScrollLock"@,
            Key::PrintScreen => "PrintScreen"@,
            Key::Pause => "Pause"@,
            Key::ContextMenu => "ContextMenu"@,
            Key::Insert => "Insert"@,
            Key::KeyA => "KeyA"@,
            Key::KeyB => "KeyB"@,
            Key::KeyC => "KeyC"@,
            Key::KeyD => "KeyD"@,
            Key::KeyE => "KeyE"@,
            Key::KeyF => "KeyF"@,
            Key::KeyG => "KeyG"@,
            Key::KeyH => "KeyH"@,
            Key::KeyI => "KeyI"@,
            Key::KeyJ => "KeyJ"@,
            Key::KeyK => "KeyK"@,
            Key::KeyL => "KeyL"@,
            Key::KeyM => "KeyM"@,
            Key::KeyN => "KeyN"@,
            Key::KeyO => "KeyO"@,
            Key::KeyP => "KeyP"@,
            Key::KeyQ => "KeyQ"@,
            Key::KeyR => "KeyR"@,
            Key::KeyS => "KeyS"@,
            Key::KeyT => "KeyT"@,
            Key::KeyU => "KeyU"@,
            Key::KeyV => "KeyV"@,
            Key::KeyW => "KeyW"@,
            Key::KeyX => "KeyX"@,
            Key::KeyY => "KeyY"@,
            Key::KeyZ => "KeyZ"@,
            Key::Digit0 => "Digit0"@,
            Key::Digit1 => "Digit1"@,
            Key::Digit2 => "Digit2"@,
            Key::Digit3 => "Digit3"@,
            Key::Digit4 => "Digit4"@,
            Key::Digit5 => "Digit5"@,
            Key::Digit6 => "Digit6"@,
            Key::Digit7 => "Digit7"@,
            Key::Digit8 => "Digit8"@,
            Key::Digit9 => "Digit9"@,
            Key::Numpad0 => "Numpad0"@,
            Key::Numpad1 => "Numpad1"@,
            Key::Numpad2 => "Numpad2"@,
            Key::Numpad3 => "Numpad3"@,
            Key::Numpad4 => "Numpad4"@,
            Key::Numpad5 => "Numpad5"@,
            Key::Numpad6 => "Numpad6"@,
            Key::Numpad7 => "Numpad7"@,
            Key::Numpad8 => "Numpad8"@,
            Key::Numpad9 => "Numpad9"@,
            Key::NumpadAdd => "NumpadAdd"@,
            Key::NumpadSubtract => "NumpadSubtract"@,
            Key::NumpadMultiply => "NumpadMultiply"@,
            Key::NumpadDivide => "NumpadDivide"@,
            Key::NumpadDecimal => "NumpadDecimal"@,
            Key::NumpadEqual => "NumpadEqual"@,
            Key::NumpadEnter => "NumpadEnter"@,
            Key::NumpadComma => "NumpadComma"@,
            Key::NumpadBackspace => "NumpadBackspace"@,
            Key::NumpadClear => "NumpadClear"@,
            Key::NumpadClearEntry => "NumpadClearEntry"@,
            Key::NumpadHash => "NumpadHash"@,
            Key::NumpadParenLeft => "NumpadParenLeft"@,
            Key::NumpadParenRight => "NumpadParenRight"@,
            Key::NumpadStar => "NumpadStar"@,
            Key::NumpadMemoryAdd => "NumpadMemoryAdd"@,
            Key::NumpadMemoryClear => "NumpadMemoryClear"@,
            Key::NumpadMemoryRecall => "NumpadMemoryRecall"@,
            Key::NumpadMemoryStore => "NumpadMemoryStore"@,
            Key::NumpadMemorySubtract => "NumpadMemorySubtract"@,
            Key::F1 => "F1"@,
            Key::F2 => "F2"@,
            Key::F3 => "F3"@,
            Key::F4 => "F4"@,
            Key::F5 => "F5"@,
            Key::F6 => "F6"@,
            Key::F7 => "F7"@,
            Key::F8 => "F8"@,
            Key::F9 => "F9"@,
            Key::F10 => "F10"@,
            Key::F11 => "F11"@,
            Key::F12 => "F12"@,
            Key::F13 => "F13"@,
            Key::F14 => "F14"@,
            Key::F15 => "F15"@,
            Key::F16 => "F16"@,
            Key::F17 => "F17"@,
            Key::F18 => "F18"@,
            Key::F19 => "F19"@,
            Key::F20 => "F20"@,
            Key::F21 => "F21"@,
            Key::F22 => "F22"@,
            Key::F23 => "F23"@,
            Key::F24 => "F24"@,
            Key::F25 => "F25"@,
            Key::F26 => "F26"@,
            Key::F27 => "F27"@,
            Key::F28 => "F28"@,
            Key::F29 => "F29"@,
            Key::F30 => "F30"@,
            Key::F31 => "F31"@,
            Key::F32 => "F32"@,
            Key::F33 => "F33"@,
            Key::F34 => "F34"@,
            Key::F35 => "F35"@,
            Key::MediaPlayPause => "MediaPlayPause"@,
            Key::MediaStop => "MediaStop"@,
            Key::MediaTrackNext => "MediaTrackNext"@,
            Key::MediaTrackPrevious => "MediaTrackPrevious"@,
            Key::MediaSelect => "MediaSelect"@,
            Key::AudioVolumeUp => "AudioVolumeUp"@,
            Key::AudioVolumeDown => "AudioVolumeDown"@,
            Key::AudioVolumeMute => "AudioVolumeMute"@,
            Key::BrowserBack => "BrowserBack"@,
            Key::BrowserForward => "BrowserForward"@,
            Key::BrowserRefresh => "BrowserRefresh"@,
            Key::BrowserStop => "BrowserStop"@,
            Key::BrowserSearch => "BrowserSearch"@,
            Key::BrowserFavorites => "BrowserFavorites"@,
            Key::BrowserHome => "BrowserHome"@,
            Key::LaunchMail => "LaunchMail"@,
            Key::LaunchApp1 => "LaunchApp1"@,
            Key::LaunchApp2 => "LaunchApp2"@,
            Key::Copy => "Copy"@,
            Key::Cut => "Cut"@,
            Key::Paste => "Paste"@,
            Key::Undo => "Undo"@,
            Key::Find => "Find"@,
            Key::Open => "Open"@,
            Key::Select => "Select"@,
            Key::ControlLeft => "ControlLeft"@,
            Key::ControlRight => "ControlRight"@,
            Key::AltLeft => "AltLeft"@,
            Key::AltRight => "AltRight"@,
            Key::ShiftLeft => "ShiftLeft"@,
            Key::ShiftRight => "ShiftRight"@,
            Key::SuperLeft => "SuperLeft"@,
            Key::SuperRight => "SuperRight"@,
            Key::IntlBackslash => "IntlBackslash"@,
            Key::IntlRo => "IntlRo"@,
            Key::IntlYen => "IntlYen"@,
            Key::Lang1 => "Lang1"@,
            Key::Lang2 => "Lang2"@,
            Key::Lang3 => "Lang3"@,
            Key::Lang4 => "Lang4"@,
            Key::Lang5 => "Lang5"@,
            Key::KanaMode => "KanaMode"@,
            Key::Hiragana => "Hiragana"@,
            Key::Katakana => "Katakana"@,
            Key::Convert => "Convert"@,
            Key::NonConvert => "NonConvert"@,
            Key::Again => "Again"@,
            Key::Resume => "Resume"@,
            Key::Suspend => "Suspend"@,
            Key::Abort => "Abort"@,
            Key::Props => "Props"@,
            Key::Help => "Help"@,
            Key::Power => "Power"@,
            Key::Sleep => "Sleep"@,
            Key::WakeUp => "WakeUp"@,
            Key::Eject => "Eject"@,
            Key::Fn => "Fn"@,
            Key::FnLock => "FnLock"@,
            Key::Turbo => "Turbo"@,
            Key::Meta => "Meta"@,
            Key::Hyper => "Hyper"@,
        }
    }

    /// Returns the canonical name of this key.
    pub fn name(&self) -> (r: String)
        ensures
            r@ == self.spec_name(),
    {
        match self {
            Key::Backquote => String::from_str("Backquote"),
            Key::Backslash => String::from_str("Backslash"),
            Key::BracketLeft => String::from_str("BracketLeft"),
            Key::BracketRight => String::from_str("BracketRight"),
            Key::Comma => String::from_str("Comma"),
            Key::Equal => String::from_str("Equal"),
            Key::Minus => String::from_str("Minus"),
            Key::Period => String::from_str("Period"),
            Key::Quote => String::from_str("Quote"),
            Key::Semicolon => String::from_str("Semicolon"),
            Key::Slash => String::from_str("Slash"),
            Key::Backspace => String::from_str("Backspace"),
            Key::Delete => String::from_str("Delete"),
            Key::Enter => String::from_str("Enter"),
            Key::Escape => String::from_str("Escape"),
            Key::Tab => String::from_str("Tab"),
            Key::Space => String::from_str("Space"),
            Key::ArrowUp => String::from_str("ArrowUp"),
            Key::ArrowDown => String::from_str("ArrowDown"),
            Key::ArrowLeft => String::from_str("ArrowLeft"),
            Key::ArrowRight => String::from_str("ArrowRight"),
            Key::Home => String::from_str("Home"),
            Key::End => String::from_str("End"),
            Key::PageUp => String::from_str("PageUp"),
            Key::PageDown => String::from_str("PageDown"),
            Key::CapsLock => String::from_str("CapsLock"),
            Key::NumLock => String::from_str("NumLock"),
            Key::ScrollLock => String::from_str("ScrollLock"),
            Key::PrintScreen => String::from_str("PrintScreen"),
            Key::Pause => String::from_str("Pause"),
            Key::ContextMenu => String::from_str("ContextMenu"),
            Key::Insert => String::from_str("Insert"),
            Key::KeyA => String::from_str("KeyA"),
            Key::KeyB => String::from_str("KeyB"),
            Key::KeyC => String::from_str("KeyC"),
            Key::KeyD => String::from_str("KeyD"),
            Key::KeyE => String::from_str("KeyE"),
            Key::KeyF => String::from_str("KeyF"),
            Key::KeyG => String::from_str("KeyG"),
            Key::KeyH => String::from_str("KeyH"),
            Key::KeyI => String::from_str("KeyI"),
            Key::KeyJ => String::from_str("KeyJ"),
            Key::KeyK => String::from_str("KeyK"),
            Key::KeyL => String::from_str("KeyL"),
            Key::KeyM => String::from_str("KeyM"),
            Key::KeyN => String::from_str("KeyN"),
            Key::KeyO => String::from_str("KeyO"),
            Key::KeyP => String::from_str("KeyP"),
            Key::KeyQ => String::from_str("KeyQ"),
            Key::KeyR => String::from_str("KeyR"),
            Key::KeyS => String::from_str("KeyS"),
            Key::KeyT => String::from_str("KeyT"),
            Key::KeyU => String::from_str("KeyU"),
            Key::KeyV => String::from_str("KeyV"),
            Key::KeyW => String::from_str("KeyW"),
            Key::KeyX => String::from_str("KeyX"),
            Key::KeyY => String::from_str("KeyY"),
            Key::KeyZ => String::from_str("KeyZ"),
            Key::Digit0 => String::from_str("Digit0"),
            Key::Digit1 => String::from_str("Digit1"),
            Key::Digit2 => String::from_str("Digit2"),
            Key::Digit3 => String::from_str("Digit3"),
            Key::Digit4 => String::from_str("Digit4"),
            Key::Digit5 => String::from_str("Digit5"),
            Key::Digit6 => String::from_str("Digit6"),
            Key::Digit7 => String::from_str("Digit7"),
            Key::Digit8 => String::from_str("Digit8"),
            Key::Digit9 => String::from_str("Digit9"),
            Key::Numpad0 => String::from_str("Numpad0"),
            Key::Numpad1 => String::from_str("Numpad1"),
            Key::Numpad2 => String::from_str("Numpad2"),
            Key::Numpad3 => String::from_str("Numpad3"),
            Key::Numpad4 => String::from_str("Numpad4"),
            Key::Numpad5 => String::from_str("Numpad5"),
            Key::Numpad6 => String::from_str("Numpad6"),
            Key::Numpad7 => String::from_str("Numpad7"),
            Key::Numpad8 => String::from_str("Numpad8"),
            Key::Numpad9 => String::from_str("Numpad9"),
            Key::NumpadAdd => String::from_str("NumpadAdd"),
            Key::NumpadSubtract => String::from_str("NumpadSubtract"),
            Key::NumpadMultiply => String::from_str("NumpadMultiply"),
            Key::NumpadDivide => String::from_str("NumpadDivide"),
            Key::NumpadDecimal => String::from_str("NumpadDecimal"),
            Key::NumpadEqual => String::from_str("NumpadEqual"),
            Key::NumpadEnter => String::from_str("NumpadEnter"),
            Key::NumpadComma => String::from_str("NumpadComma"),
            Key::NumpadBackspace => String::from_str("NumpadBackspace"),
            Key::NumpadClear => String::from_str("NumpadClear"),
            Key::NumpadClearEntry => String::from_str("NumpadClearEntry"),
            Key::NumpadHash => String::from_str("NumpadHash"),
            Key::NumpadParenLeft => String::from_str("NumpadParenLeft"),
            Key::NumpadParenRight => String::from_str("NumpadParenRight"),
            Key::NumpadStar => String::from_str("NumpadStar"),
            Key::NumpadMemoryAdd => String::from_str("NumpadMemoryAdd"),
            Key::NumpadMemoryClear => String::from_str("NumpadMemoryClear"),
            Key::NumpadMemoryRecall => String::from_str("NumpadMemoryRecall"),
            Key::NumpadMemoryStore => String::from_str("NumpadMemoryStore"),
            Key::NumpadMemorySubtract => String::from_str("NumpadMemorySubtract"),
            Key::F1 => String::from_str("F1"),
            Key::F2 => String::from_str("F2"),
            Key::F3 => String::from_str("F3"),
            Key::F4 => String::from_str("F4"),
            Key::F5 => String::from_str("F5"),
            Key::F6 => String::from_str("F6"),
            Key::F7 => String::from_str("F7"),
            Key::F8 => String::from_str("F8"),
            Key::F9 => String::from_str("F9"),
            Key::F10 => String::from_str("F10"),
            Key::F11 => String::from_str("F11"),
            Key::F12 => String::from_str("F12"),
            Key::F13 => String::from_str("F13"),
            Key::F14 => String::from_str("F14"),
            Key::F15 => String::from_str("F15"),
            Key::F16 => String::from_str("F16"),
            Key::F17 => String::from_str("F17"),
            Key::F18 => String::from_str("F18"),
            Key::F19 => String::from_str("F19"),
            Key::F20 => String::from_str("F20"),
            Key::F21 => String::from_str("F21"),
            Key::F22 => String::from_str("F22"),
            Key::F23 => String::from_str("F23"),
            Key::F24 => String::from_str("F24"),
            Key::F25 => String::from_str("F25"),
            Key::F26 => String::from_str("F26"),
            Key::F27 => String::from_str("F27"),
            Key::F28 => String::from_str("F28"),
            Key::F29 => String::from_str("F29"),
            Key::F30 => String::from_str("F30"),
            Key::F31 => String::from_str("F31"),
            Key::F32 => String::from_str("F32"),
            Key::F33 => String::from_str("F33"),
            Key::F34 => String::from_str("F34"),
            Key::F35 => String::from_str("F35"),
            Key::MediaPlayPause => String::from_str("MediaPlayPause"),
            Key::MediaStop => String::from_str("MediaStop"),
            Key::MediaTrackNext => String::from_str("MediaTrackNext"),
            Key::MediaTrackPrevious => String::from_str("MediaTrackPrevious"),
            Key::MediaSelect => String::from_str("MediaSelect"),
            Key::AudioVolumeUp => String::from_str("AudioVolumeUp"),
            Key::AudioVolumeDown => String::from_str("AudioVolumeDown"),
            Key::AudioVolumeMute => String::from_str("AudioVolumeMute"),
            Key::BrowserBack => String::from_str("BrowserBack"),
            Key::BrowserForward => String::from_str("BrowserForward"),
            Key::BrowserRefresh => String::from_str("BrowserRefresh"),
            Key::BrowserStop => String::from_str("BrowserStop"),
            Key::BrowserSearch => String::from_str("BrowserSearch"),
            Key::BrowserFavorites => String::from_str("BrowserFavorites"),
            Key::BrowserHome => String::from_str("BrowserHome"),
            Key::LaunchMail => String::from_str("LaunchMail"),
            Key::LaunchApp1 => String::from_str("LaunchApp1"),
            Key::LaunchApp2 => String::from_str("LaunchApp2"),
            Key::Copy => String::from_str("Copy"),
            Key::Cut => String::from_str("Cut"),
            Key::Paste => String::from_str("Paste"),
            Key::Undo => String::from_str("Undo"),
            Key::Find => String::from_str("Find"),
            Key::Open => String::from_str("Open"),
            Key::Select => String::from_str("Select"),
            Key::ControlLeft => String::from_str("ControlLeft"),
            Key::ControlRight => String::from_str("ControlRight"),
            Key::AltLeft => String::from_str("AltLeft"),
            Key::AltRight => String::from_str("AltRight"),
            Key::ShiftLeft => String::from_str("ShiftLeft"),
            Key::ShiftRight => String::from_str("ShiftRight"),
            Key::SuperLeft => String::from_str("SuperLeft"),
            Key::SuperRight => String::from_str("SuperRight"),
            Key::IntlBackslash => String::from_str("IntlBackslash"),
            Key::IntlRo => String::from_str("IntlRo"),
            Key::IntlYen => String::from_str("IntlYen"),
            Key::Lang1 => String::from_str("Lang1"),
            Key::Lang2 => String::from_str("Lang2"),
            Key::Lang3 => String::from_str("Lang3"),
            Key::Lang4 => String::from_str("Lang4"),
            Key::Lang5 => String::from_str("Lang5"),
            Key::KanaMode => String::from_str("KanaMode"),
            Key::Hiragana => String::from_str("Hiragana"),
            Key::Katakana => String::from_str("Katakana"),
            Key::Convert => String::from_str("Convert"),
            Key::NonConvert => String::from_str("NonConvert"),
            Key::Again => String::from_str("Again"),
            Key::Resume => String::from_str("Resume"),
            Key::Suspend => String::from_str("Suspend"),
            Key::Abort => String::from_str("Abort"),
            Key::Props => String::from_str("Props"),
            Key::Help => String::from_str("Help"),
            Key::Power => String::from_str("Power"),
            Key::Sleep => String::from_str("Sleep"),
            Key::WakeUp => String::from_str("WakeUp"),
            Key::Eject => String::from_str("Eject"),
            Key::Fn => String::from_str("Fn"),
            Key::FnLock => String::from_str("FnLock"),
            Key::Turbo => String::from_str("Turbo"),
            Key::Meta => String::from_str("Meta"),
            Key::Hyper => String::from_str("Hyper"),
        }
    }

    /// The display label of this key: the character or short word a user
    /// interface shows for it.
    pub open spec fn spec_label(self) -> Seq<char> {
        match self {
            Key::Backquote => "`"@,
            Key::Backslash => "\\"@,
            Key::BracketLeft => "["@,
            Key::BracketRight => "]"@,
            Key::Comma => ","@,
            Key::Equal => "="@,
            Key::Minus => "-"@,
            Key::Period => "."@,
            Key::Quote => "'"@,
            Key::Semicolon => ";"@,
            Key::Slash => "/"@,
            Key::Backspace => "⌫"@,
            Key::Delete => "⌦"@,
            Key::Enter => "↵"@,
            Key::Escape => "Esc"@,
            Key::Tab => "⇥"@,
            Key::Space => "Space"@,
            Key::ArrowUp => "↑"@,
            Key::ArrowDown => "↓"@,
            Key::ArrowLeft => "←"@,
            Key::ArrowRight => "→"@,
            Key::Home => "Home"@,
            Key::End => "End"@,
            Key::PageUp => "PgUp"@,
            Key::PageDown => "PgDn"@,
            Key::CapsLock => "CapsLock"@,
            Key::NumLock => "NumLock"@,
            Key::ScrollLock => "ScrollLock"@,
            Key::PrintScreen => "PrtScr"@,
            Key::Pause => "Pause"@,
            Key::ContextMenu => "Menu"@,
            Key::Insert => "Insert"@,
            Key::KeyA => "A"@,
            Key::KeyB => "B"@,
            Key::KeyC => "C"@,
            Key::KeyD => "D"@,
            Key::KeyE => "E"@,
            Key::KeyF => "F"@,
            Key::KeyG => "G"@,
            Key::KeyH => "H"@,
            Key::KeyI => "I"@,
            Key::KeyJ => "J"@,
            Key::KeyK => "K"@,
            Key::KeyL => "L"@,
            Key::KeyM => "M"@,
            Key::KeyN => "N"@,
            Key::KeyO => "O"@,
            Key::KeyP => "P"@,
            Key::KeyQ => "Q"@,
            Key::KeyR => "R"@,
            Key::KeyS => "S"@,
            Key::KeyT => "T"@,
            Key::KeyU => "U"@,
            Key::KeyV => "V"@,
            Key::KeyW => "W"@,
            Key::KeyX => "X"@,
            Key::KeyY => "Y"@,
            Key::KeyZ => "Z"@,
            Key::Digit0 => "0"@,
            Key::Digit1 => "1"@,
            Key::Digit2 => "2"@,
            Key::Digit3 => "3"@,
            Key::Digit4 => "4"@,
            Key::Digit5 => "5"@,
            Key::Digit6 => "6"@,
            Key::Digit7 => "7"@,
            Key::Digit8 => "8"@,
            Key::Digit9 => "9"@,
            Key::Numpad0 => "Num 0"@,
            Key::Numpad1 => "Num 1"@,
            Key::Numpad2 => "Num 2"@,
            Key::Numpad3 => "Num 3"@,
            Key::Numpad4 => "Num 4"@,
            Key::Numpad5 => "Num 5"@,
            Key::Numpad6 => "Num 6"@,
            Key::Numpad7 => "Num 7"@,
            Key::Numpad8 => "Num 8"@,
            Key::Numpad9 => "Num 9"@,
            Key::NumpadAdd => "Num +"@,
            Key::NumpadSubtract => "Num -"@,
            Key::NumpadMultiply => "Num *"@,
            Key::NumpadDivide => "Num /"@,
            Key::NumpadDecimal => "Num ."@,
            Key::NumpadEqual => "Num ="@,
            Key::NumpadEnter => "Num Enter"@,
            Key::NumpadComma => "Num ,"@,
            Key::NumpadBackspace => "Num ⌫"@,
            Key::NumpadClear => "Num Clear"@,
            Key::NumpadClearEntry => "Num CE"@,
            Key::NumpadHash => "Num #"@,
            Key::NumpadParenLeft => "Num ("@,
            Key::NumpadParenRight => "Num )"@,
            Key::NumpadStar => "Num *"@,
            Key::NumpadMemoryAdd => "Num M+"@,
            Key::NumpadMemoryClear => "Num MC"@,
            Key::NumpadMemoryRecall => "Num MR"@,
            Key::NumpadMemoryStore => "Num MS"@,
            Key::NumpadMemorySubtract => "Num M-"@,
            Key::F1 => "F1"@,
            Key::F2 => "F2"@,
            Key::F3 => "F3"@,
            Key::F4 => "F4"@,
            Key::F5 => "F5"@,
            Key::F6 => "F6"@,
            Key::F7 => "F7"@,
            Key::F8 => "F8"@,
            Key::F9 => "F9"@,
            Key::F10 => "F10"@,
            Key::F11 => "F11"@,
            Key::F12 => "F12"@,
            Key::F13 => "F13"@,
            Key::F14 => "F14"@,
            Key::F15 => "F15"@,
            Key::F16 => "F16"@,
            Key::F17 => "F17"@,
            Key::F18 => "F18"@,
            Key::F19 => "F19"@,
            Key::F20 => "F20"@,
            Key::F21 => "F21"@,
            Key::F22 => "F22"@,
            Key::F23 => "F23"@,
            Key::F24 => "F24"@,
            Key::F25 => "F25"@,
            Key::F26 => "F26"@,
            Key::F27 => "F27"@,
            Key::F28 => "F28"@,
            Key::F29 => "F29"@,
            Key::F30 => "F30"@,
            Key::F31 => "F31"@,
            Key::F32 => "F32"@,
            Key::F33 => "F33"@,
            Key::F34 => "F34"@,
            Key::F35 => "F35"@,
            Key::MediaPlayPause => "Play/Pause"@,
            Key::MediaStop => "Stop"@,
            Key::MediaTrackNext => "Next Track"@,
            Key::MediaTrackPrevious => "Prev Track"@,
            Key::MediaSelect => "Media Select"@,
            Key::AudioVolumeUp => "Vol+"@,
            Key::AudioVolumeDown => "Vol-"@,
            Key::AudioVolumeMute => "Mute"@,
            Key::BrowserBack => "Browser Back"@,
            Key::BrowserForward => "Browser Forward"@,
            Key::BrowserRefresh => "Refresh"@,
            Key::BrowserStop => "Browser Stop"@,
            Key::BrowserSearch => "Browser Search"@,
            Key::BrowserFavorites => "Favorites"@,
            Key::BrowserHome => "Browser Home"@,
            Key::LaunchMail => "Mail"@,
            Key::LaunchApp1 => "App1"@,
            Key::LaunchApp2 => "App2"@,
            Key::Copy => "Copy"@,
            Key::Cut => "Cut"@,
            Key::Paste => "Paste"@,
            Key::Undo => "Undo"@,
            Key::Find => "Find"@,
            Key::Open => "Open"@,
            Key::Select => "Select"@,
            Key::ControlLeft => "Ctrl"@,
            Key::ControlRight => "Ctrl"@,
            Key::AltLeft => "Alt"@,
            Key::AltRight => "Alt"@,
            Key::ShiftLeft => "Shift"@,
            Key::ShiftRight => "Shift"@,
            Key::SuperLeft => "Super"@,
            Key::SuperRight => "Super"@,
            Key::IntlBackslash => "Intl \\"@,
            Key::IntlRo => "Ro"@,
            Key::IntlYen => "¥"@,
            Key::Lang1 => "Lang1"@,
            Key::Lang2 => "Lang2"@,
            Key::Lang3 => "Lang3"@,
            Key::Lang4 => "Lang4"@,
            Key::Lang5 => "Lang5"@,
            Key::KanaMode => "Kana"@,
            Key::Hiragana => "Hiragana"@,
            Key::Katakana => "Katakana"@,
            Key::Convert => "Convert"@,
            Key::NonConvert => "NonConvert"@,
            Key::Again => "Again"@,
            Key::Resume => "Resume"@,
            Key::Suspend => "Suspend"@,
            Key::Abort => "Abort"@,
            Key::Props => "Props"@,
            Key::Help => "Help"@,
            Key::Power => "Power"@,
            Key::Sleep => "Sleep"@,
            Key::WakeUp => "WakeUp"@,
            Key::Eject => "⏏"@,
            Key::Fn => "Fn"@,
            Key::FnLock => "FnLock"@,
            Key::Turbo => "Turbo"@,
            Key::Meta => "Meta"@,
            Key::Hyper => "Hyper"@,
        }
    }

    /// Returns the display label of this key.
    pub fn label(&self) -> (r: String)
        ensures
            r@ == self.spec_label(),
    {
        match self {
            Key::Backquote => String::from_str("`"),
            Key::Backslash => String::from_str("\\"),
            Key::BracketLeft => String::from_str("["),
            Key::BracketRight => String::from_str("]"),
            Key::Comma => String::from_str(","),
            Key::Equal => String::from_str("="),
            Key::Minus => String::from_str("-"),
            Key::Period => String::from_str("."),
            Key::Quote => String::from_str("'"),
            Key::Semicolon => String::from_str(";"),
            Key::Slash => String::from_str("/"),
            Key::Backspace => String::from_str("⌫"),
            Key::Delete => String::from_str("⌦"),
            Key::Enter => String::from_str("↵"),
            Key::Escape => String::from_str("Esc"),
            Key::Tab => String::from_str("⇥"),
            Key::Space => String::from_str("Space"),
            Key::ArrowUp => String::from_str("↑"),
            Key::ArrowDown => String::from_str("↓"),
            Key::ArrowLeft => String::from_str("←"),
            Key::ArrowRight => String::from_str("→"),
            Key::Home => String::from_str("Home"),
            Key::End => String::from_str("End"),
            Key::PageUp => String::from_str("PgUp"),
            Key::PageDown => String::from_str("PgDn"),
            Key::CapsLock => String::from_str("CapsLock"),
            Key::NumLock => String::from_str("NumLock"),
            Key::ScrollLock => String::from_str("ScrollLock"),
            Key::PrintScreen => String::from_str("PrtScr"),
            Key::Pause => String::from_str("Pause"),
            Key::ContextMenu => String::from_str("Menu"),
            Key::Insert => String::from_str("Insert"),
            Key::KeyA => String::from_str("A"),
            Key::KeyB => String::from_str("B"),
            Key::KeyC => String::from_str("C"),
            Key::KeyD => String::from_str("D"),
            Key::KeyE => String::from_str("E"),
            Key::KeyF => String::from_str("F"),
            Key::KeyG => String::from_str("G"),
            Key::KeyH => String::from_str("H"),
            Key::KeyI => String::from_str("I"),
            Key::KeyJ => String::from_str("J"),
            Key::KeyK => String::from_str("K"),
            Key::KeyL => String::from_str("L"),
            Key::KeyM => String::from_str("M"),
            Key::KeyN => String::from_str("N"),
            Key::KeyO => String::from_str("O"),
            Key::KeyP => String::from_str("P"),
            Key::KeyQ => String::from_str("Q"),
            Key::KeyR => String::from_str("R"),
            Key::KeyS => String::from_str("S"),
            Key::KeyT => String::from_str("T"),
            Key::KeyU => String::from_str("U"),
            Key::KeyV => String::from_str("V"),
            Key::KeyW => String::from_str("W"),
            Key::KeyX => String::from_str("X"),
            Key::KeyY => String::from_str("Y"),
            Key::KeyZ => String::from_str("Z"),
            Key::Digit0 => String::from_str("0"),
            Key::Digit1 => String::from_str("1"),
            Key::Digit2 => String::from_str("2"),
            Key::Digit3 => String::from_str("3"),
            Key::Digit4 => String::from_str("4"),
            Key::Digit5 => String::from_str("5"),
            Key::Digit6 => String::from_str("6"),
            Key::Digit7 => String::from_str("7"),
            Key::Digit8 => String::from_str("8"),
            Key::Digit9 => String::from_str("9"),
            Key::Numpad0 => String::from_str("Num 0"),
            Key::Numpad1 => String::from_str("Num 1"),
            Key::Numpad2 => String::from_str("Num 2"),
            Key::Numpad3 => String::from_str("Num 3"),
            Key::Numpad4 => String::from_str("Num 4"),
            Key::Numpad5 => String::from_str("Num 5"),
            Key::Numpad6 => String::from_str("Num 6"),
            Key::Numpad7 => String::from_str("Num 7"),
            Key::Numpad8 => String::from_str("Num 8"),
            Key::Numpad9 => String::from_str("Num 9"),
            Key::NumpadAdd => String::from_str("Num +"),
            Key::NumpadSubtract => String::from_str("Num -"),
            Key::NumpadMultiply => String::from_str("Num *"),
            Key::NumpadDivide => String::from_str("Num /"),
            Key::NumpadDecimal => String::from_str("Num ."),
            Key::NumpadEqual => String::from_str("Num ="),
            Key::NumpadEnter => String::from_str("Num Enter"),
            Key::NumpadComma => String::from_str("Num ,"),
            Key::NumpadBackspace => String::from_str("Num ⌫"),
            Key::NumpadClear => String::from_str("Num Clear"),
            Key::NumpadClearEntry => String::from_str("Num CE"),
            Key::NumpadHash => String::from_str("Num #"),
            Key::NumpadParenLeft => String::from_str("Num ("),
            Key::NumpadParenRight => String::from_str("Num )"),
            Key::NumpadStar => String::from_str("Num *"),
            Key::NumpadMemoryAdd => String::from_str("Num M+"),
            Key::NumpadMemoryClear => String::from_str("Num MC"),
            Key::NumpadMemoryRecall => String::from_str("Num MR"),
            Key::NumpadMemoryStore => String::from_str("Num MS"),
            Key::NumpadMemorySubtract => String::from_str("Num M-"),
            Key::F1 => String::from_str("F1"),
            Key::F2 => String::from_str("F2"),
            Key::F3 => String::from_str("F3"),
            Key::F4 => String::from_str("F4"),
            Key::F5 => String::from_str("F5"),
            Key::F6 => String::from_str("F6"),
            Key::F7 => String::from_str("F7"),
            Key::F8 => String::from_str("F8"),
            Key::F9 => String::from_str("F9"),
            Key::F10 => String::from_str("F10"),
            Key::F11 => String::from_str("F11"),
            Key::F12 => String::from_str("F12"),
            Key::F13 => String::from_str("F13"),
            Key::F14 => String::from_str("F14"),
            Key::F15 => String::from_str("F15"),
            Key::F16 => String::from_str("F16"),
            Key::F17 => String::from_str("F17"),
            Key::F18 => String::from_str("F18"),
            Key::F19 => String::from_str("F19"),
            Key::F20 => String::from_str("F20"),
            Key::F21 => String::from_str("F21"),
            Key::F22 => String::from_str("F22"),
            Key::F23 => String::from_str("F23"),
            Key::F24 => String::from_str("F24"),
            Key::F25 => String::from_str("F25"),
            Key::F26 => String::from_str("F26"),
            Key::F27 => String::from_str("F27"),
            Key::F28 => String::from_str("F28"),
            Key::F29 => String::from_str("F29"),
            Key::F30 => String::from_str("F30"),
            Key::F31 => String::from_str("F31"),
            Key::F32 => String::from_str("F32"),
            Key::F33 => String::from_str("F33"),
            Key::F34 => String::from_str("F34"),
            Key::F35 => String::from_str("F35"),
            Key::MediaPlayPause => String::from_str("Play/Pause"),
            Key::MediaStop => String::from_str("Stop"),
            Key::MediaTrackNext => String::from_str("Next Track"),
            Key::MediaTrackPrevious => String::from_str("Prev Track"),
            Key::MediaSelect => String::from_str("Media Select"),
            Key::AudioVolumeUp => String::from_str("Vol+"),
            Key::AudioVolumeDown => String::from_str("Vol-"),
            Key::AudioVolumeMute => String::from_str("Mute"),
            Key::BrowserBack => String::from_str("Browser Back"),
            Key::BrowserForward => String::from_str("Browser Forward"),
            Key::BrowserRefresh => String::from_str("Refresh"),
            Key::BrowserStop => String::from_str("Browser Stop"),
            Key::BrowserSearch => String::from_str("Browser Search"),
            Key::BrowserFavorites => String::from_str("Favorites"),
            Key::BrowserHome => String::from_str("Browser Home"),
            Key::LaunchMail => String::from_str("Mail"),
            Key::LaunchApp1 => String::from_str("App1"),
            Key::LaunchApp2 => String::from_str("App2"),
            Key::Copy => String::from_str("Copy"),
            Key::Cut => String::from_str("Cut"),
            Key::Paste => String::from_str("Paste"),
            Key::Undo => String::from_str("Undo"),
            Key::Find => String::from_str("Find"),
            Key::Open => String::from_str("Open"),
            Key::Select => String::from_str("Select"),
            Key::ControlLeft => String::from_str("Ctrl"),
            Key::ControlRight => String::from_str("Ctrl"),
            Key::AltLeft => String::from_str("Alt"),
            Key::AltRight => String::from_str("Alt"),
            Key::ShiftLeft => String::from_str("Shift"),
            Key::ShiftRight => String::from_str("Shift"),
            Key::SuperLeft => String::from_str("Super"),
            Key::SuperRight => String::from_str("Super"),
            Key::IntlBackslash => String::from_str("Intl \\"),
            Key::IntlRo => String::from_str("Ro"),
            Key::IntlYen => String::from_str("¥"),
            Key::Lang1 => String::from_str("Lang1"),
            Key::Lang2 => String::from_str("Lang2"),
            Key::Lang3 => String::from_str("Lang3"),
            Key::Lang4 => String::from_str("Lang4"),
            Key::Lang5 => String::from_str("Lang5"),
            Key::KanaMode => String::from_str("Kana"),
            Key::Hiragana => String::from_str("Hiragana"),
            Key::Katakana => String::from_str("Katakana"),
            Key::Convert => String::from_str("Convert"),
            Key::NonConvert => String::from_str("NonConvert"),
            Key::Again => String::from_str("Again"),
            Key::Resume => String::from_str("Resume"),
            Key::Suspend => String::from_str("Suspend"),
            Key::Abort => String::from_str("Abort"),
            Key::Props => String::from_str("Props"),
            Key::Help => String::from_str("Help"),
            Key::Power => String::from_str("Power"),
            Key::Sleep => String::from_str("Sleep"),
            Key::WakeUp => String::from_str("WakeUp"),
            Key::Eject => String::from_str("⏏"),
            Key::Fn => String::from_str("Fn"),
            Key::FnLock => String::from_str("FnLock"),
            Key::Turbo => String::from_str("Turbo"),
            Key::Meta => String::from_str("Meta"),
            Key::Hyper => String::from_str("Hyper"),
        }
    }

    /// Looks a canonical name up in the whole key table.
    pub fn from_name(name: &str) -> (r: Option<Key>)
        ensures
            r == spec_key_of_name(name@),
    {
        if let Some(k) = Key::from_name_punctuation(name) {
            return Some(k);
        }
        if let Some(k) = Key::from_name_special(name) {
            return Some(k);
        }
        if let Some(k) = Key::from_name_navigation(name) {
            return Some(k);
        }
        if let Some(k) = Key::from_name_lock(name) {
            return Some(k);
        }
        if let Some(k) = Key::from_name_system(name) {
            return Some(k);
        }
        if let Some(k) = Key::from_name_letter(name) {
            return Some(k);
        }
        if let Some(k) = Key::from_name_digit(name) {
            return Some(k);
        }
        if let Some(k) = Key::from_name_numpad_digit(name) {
            return Some(k);
        }
        if let Some(k) = Key::from_name_numpad_other(name) {
            return Some(k);
        }
        if let Some(k) = Key::from_name_function(name) {
            return Some(k);
        }
        if let Some(k) = Key::from_name_media(name) {
            return Some(k);
        }
        if let Some(k) = Key::from_name_browser(name) {
            return Some(k);
        }
        if let Some(k) = Key::from_name_application(name) {
            return Some(k);
        }
        if let Some(k) = Key::from_name_modifier(name) {
            return Some(k);
        }
        if let Some(k) = Key::from_name_international(name) {
            return Some(k);
        }
        if let Some(k) = Key::from_name_language(name) {
            return Some(k);
        }
        if let Some(k) = Key::from_name_misc(name) {
            return Some(k);
        }
        None
    }

    /// Looks a canonical name up among the punctuation and symbol keys, shown as their character.
    fn from_name_punctuation(name: &str) -> (r: Option<Key>)
        ensures
            r == key_of_name_punctuation(name@),
    {
        if str_eq(name, "Backquote") {
            Some(Key::Backquote)
        } else if str_eq(name, "Backslash") {
            Some(Key::Backslash)
        } else if str_eq(name, "BracketLeft") {
            Some(Key::BracketLeft)
        } else if str_eq(name, "BracketRight") {
            Some(Key::BracketRight)
        } else if str_eq(name, "Comma") {
            Some(Key::Comma)
        } else if str_eq(name, "Equal") {
            Some(Key::Equal)
        } else if str_eq(name, "Minus") {
            Some(Key::Minus)
        } else if str_eq(name, "Period") {
            Some(Key::Period)
        } else if str_eq(name, "Quote") {
            Some(Key::Quote)
        } else if str_eq(name, "Semicolon") {
            Some(Key::Semicolon)
        } else if str_eq(name, "Slash") {
            Some(Key::Slash)
        } else {
            None
        }
    }

    /// Looks a canonical name up among the editing keys, shown as a symbol or short word.
    fn from_name_special(name: &str) -> (r: Option<Key>)
        ensures
            r == key_of_name_special(name@),
    {
        if str_eq(name, "Backspace") {
            Some(Key::Backspace)
        } else if str_eq(name, "Delete") {
            Some(Key::Delete)
        } else if str_eq(name, "Enter") {
            Some(Key::Enter)
        } else if str_eq(name, "Escape") {
            Some(Key::Escape)
        } else if str_eq(name, "Tab") {
            Some(Key::Tab)
        } else if str_eq(name, "Space") {
            Some(Key::Space)
        } else {
            None
        }
    }

    /// Looks a canonical name up among the navigation keys.
    fn from_name_navigation(name: &str) -> (r: Option<Key>)
        ensures
            r == key_of_name_navigation(name@),
    {
        if str_eq(name, "ArrowUp") {
            Some(Key::ArrowUp)
        } else if str_eq(name, "ArrowDown") {
            Some(Key::ArrowDown)
        } else if str_eq(name, "ArrowLeft") {
            Some(Key::ArrowLeft)
        } else if str_eq(name, "ArrowRight") {
            Some(Key::ArrowRight)
        } else if str_eq(name, "Home") {
            Some(Key::Home)
        } else if str_eq(name, "End") {
            Some(Key::End)
        } else if str_eq(name, "PageUp") {
            Some(Key::PageUp)
        } else if str_eq(name, "PageDown") {
            Some(Key::PageDown)
        } else {
            None
        }
    }

    /// Looks a canonical name up among the lock keys.
    fn from_name_lock(name: &str) -> (r: Option<Key>)
        ensures
            r == key_of_name_lock(name@),
    {
        if str_eq(name, "CapsLock") {
            Some(Key::CapsLock)
        } else if str_eq(name, "NumLock") {
            Some(Key::NumLock)
        } else if str_eq(name, "ScrollLock") {
            Some(Key::ScrollLock)
        } else {
            None
        }
    }

    /// Looks a canonical name up among the system keys.
    fn from_name_system(name: &str) -> (r: Option<Key>)
        ensures
            r == key_of_name_system(name@),
    {
        if str_eq(name, "PrintScreen") {
            Some(Key::PrintScreen)
        } else if str_eq(name, "Pause") {
            Some(Key::Pause)
        } else if str_eq(name, "ContextMenu") {
            Some(Key::ContextMenu)
        } else if str_eq(name, "Insert") {
            Some(Key::Insert)
        } else {
            None
        }
    }

    /// Looks a canonical name up among the letter keys, shown as the bare letter.
    fn from_name_letter(name: &str) -> (r: Option<Key>)
        ensures
            r == key_of_name_letter(name@),
    {
        if str_eq(name, "KeyA") {
            Some(Key::KeyA)
        } else if str_eq(name, "KeyB") {
            Some(Key::KeyB)
        } else if str_eq(name, "KeyC") {
            Some(Key::KeyC)
        } else if str_eq(name, "KeyD") {
            Some(Key::KeyD)
        } else if str_eq(name, "KeyE") {
            Some(Key::KeyE)
        } else if str_eq(name, "KeyF") {
            Some(Key::KeyF)
        } else if str_eq(name, "KeyG") {
            Some(Key::KeyG)
        } else if str_eq(name, "KeyH") {
            Some(Key::KeyH)
        } else if str_eq(name, "KeyI") {
            Some(Key::KeyI)
        } else if str_eq(name, "KeyJ") {
            Some(Key::KeyJ)
        } else if str_eq(name, "KeyK") {
            Some(Key::KeyK)
        } else if str_eq(name, "KeyL") {
            Some(Key::KeyL)
        } else if str_eq(name, "KeyM") {
            Some(Key::KeyM)
        } else if str_eq(name, "KeyN") {
            Some(Key::KeyN)
        } else if str_eq(name, "KeyO") {
            Some(Key::KeyO)
        } else if str_eq(name, "KeyP") {
            Some(Key::KeyP)
        } else if str_eq(name, "KeyQ") {
            Some(Key::KeyQ)
        } else if str_eq(name, "KeyR") {
            Some(Key::KeyR)
        } else if str_eq(name, "KeyS") {
            Some(Key::KeyS)
        } else if str_eq(name, "KeyT") {
            Some(Key::KeyT)
        } else if str_eq(name, "KeyU") {
            Some(Key::KeyU)
        } else if str_eq(name, "KeyV") {
            Some(Key::KeyV)
        } else if str_eq(name, "KeyW") {
            Some(Key::KeyW)
        } else if str_eq(name, "KeyX") {
            Some(Key::KeyX)
        } else if str_eq(name, "KeyY") {
            Some(Key::KeyY)
        } else if str_eq(name, "KeyZ") {
            Some(Key::KeyZ)
        } else {
            None
        }
    }

    /// Looks a canonical name up among the digit keys, shown as the bare digit.
    fn from_name_digit(name: &str) -> (r: Option<Key>)
        ensures
            r == key_of_name_digit(name@),
    {
        if str_eq(name, "Digit0") {
            Some(Key::Digit0)
        } else if str_eq(name, "Digit1") {
            Some(Key::Digit1)
        } else if str_eq(name, "Digit2") {
            Some(Key::Digit2)
        } else if str_eq(name, "Digit3") {
            Some(Key::Digit3)
        } else if str_eq(name, "Digit4") {
            Some(Key::Digit4)
        } else if str_eq(name, "Digit5") {
            Some(Key::Digit5)
        } else if str_eq(name, "Digit6") {
            Some(Key::Digit6)
        } else if str_eq(name, "Digit7") {
            Some(Key::Digit7)
        } else if str_eq(name, "Digit8") {
            Some(Key::Digit8)
        } else if str_eq(name, "Digit9") {
            Some(Key::Digit9)
        } else {
            None
        }
    }

    /// Looks a canonical name up among the numeric-keypad digits.
    fn from_name_numpad_digit(name: &str) -> (r: Option<Key>)
        ensures
            r == key_of_name_numpad_digit(name@),
    {
        if str_eq(name, "Numpad0") {
            Some(Key::Numpad0)
        } else if str_eq(name, "Numpad1") {
            Some(Key::Numpad1)
        } else if str_eq(name, "Numpad2") {
            Some(Key::Numpad2)
        } else if str_eq(name, "Numpad3") {
            Some(Key::Numpad3)
        } else if str_eq(name, "Numpad4") {
            Some(Key::Numpad4)
        } else if str_eq(name, "Numpad5") {
            Some(Key::Numpad5)
        } else if str_eq(name, "Numpad6") {
            Some(Key::Numpad6)
        } else if str_eq(name, "Numpad7") {
            Some(Key::Numpad7)
        } else if str_eq(name, "Numpad8") {
            Some(Key::Numpad8)
        } else if str_eq(name, "Numpad9") {
            Some(Key::Numpad9)
        } else {
            None
        }
    }

    /// Looks a canonical name up among the numeric-keypad operators and editing keys.
    fn from_name_numpad_other(name: &str) -> (r: Option<Key>)
        ensures
            r == key_of_name_numpad_other(name@),
    {
        if str_eq(name, "NumpadAdd") {
            Some(Key::NumpadAdd)
        } else if str_eq(name, "NumpadSubtract") {
            Some(Key::NumpadSubtract)
        } else if str_eq(name, "NumpadMultiply") {
            Some(Key::NumpadMultiply)
        } else if str_eq(name, "NumpadDivide") {
            Some(Key::NumpadDivide)
        } else if str_eq(name, "NumpadDecimal") {
            Some(Key::NumpadDecimal)
        } else if str_eq(name, "NumpadEqual") {
            Some(Key::NumpadEqual)
        } else if str_eq(name, "NumpadEnter") {
            Some(Key::NumpadEnter)
        } else if str_eq(name, "NumpadComma") {
            Some(Key::NumpadComma)
        } else if str_eq(name, "NumpadBackspace") {
            Some(Key::NumpadBackspace)
        } else if str_eq(name, "NumpadClear") {
            Some(Key::NumpadClear)
        } else if str_eq(name, "NumpadClearEntry") {
            Some(Key::NumpadClearEntry)
        } else if str_eq(name, "NumpadHash") {
            Some(Key::NumpadHash)
        } else if str_eq(name, "NumpadParenLeft") {
            Some(Key::NumpadParenLeft)
        } else if str_eq(name, "NumpadParenRight") {
            Some(Key::NumpadParenRight)
        } else if str_eq(name, "NumpadStar") {
            Some(Key::NumpadStar)
        } else if str_eq(name, "NumpadMemoryAdd") {
            Some(Key::NumpadMemoryAdd)
        } else if str_eq(name, "NumpadMemoryClear") {
            Some(Key::NumpadMemoryClear)
        } else if str_eq(name, "NumpadMemoryRecall") {
            Some(Key::NumpadMemoryRecall)
        } else if str_eq(name, "NumpadMemoryStore") {
            Some(Key::NumpadMemoryStore)
        } else if str_eq(name, "NumpadMemorySubtract") {
            Some(Key::NumpadMemorySubtract)
        } else {
            None
        }
    }

    /// Looks a canonical name up among the function keys.
    fn from_name_function(name: &str) -> (r: Option<Key>)
        ensures
            r == key_of_name_function(name@),
    {
        if str_eq(name, "F1") {
            Some(Key::F1)
        } else if str_eq(name, "F2") {
            Some(Key::F2)
        } else if str_eq(name, "F3") {
            Some(Key::F3)
        } else if str_eq(name, "F4") {
            Some(Key::F4)
        } else if str_eq(name, "F5") {
            Some(Key::F5)
        } else if str_eq(name, "F6") {
            Some(Key::F6)
        } else if str_eq(name, "F7") {
            Some(Key::F7)
        } else if str_eq(name, "F8") {
            Some(Key::F8)
        } else if str_eq(name, "F9") {
            Some(Key::F9)
        } else if str_eq(name, "F10") {
            Some(Key::F10)
        } else if str_eq(name, "F11") {
            Some(Key::F11)
        } else if str_eq(name, "F12") {
            Some(Key::F12)
        } else if str_eq(name, "F13") {
            Some(Key::F13)
        } else if str_eq(name, "F14") {
            Some(Key::F14)
        } else if str_eq(name, "F15") {
            Some(Key::F15)
        } else if str_eq(name, "F16") {
            Some(Key::F16)
        } else if str_eq(name, "F17") {
            Some(Key::F17)
        } else if str_eq(name, "F18") {
            Some(Key::F18)
        } else if str_eq(name, "F19") {
            Some(Key::F19)
        } else if str_eq(name, "F20") {
            Some(Key::F20)
        } else if str_eq(name, "F21") {
            Some(Key::F21)
        } else if str_eq(name, "F22") {
            Some(Key::F22)
        } else if str_eq(name, "F23") {
            Some(Key::F23)
        } else if str_eq(name, "F24") {
            Some(Key::F24)
        } else if str_eq(name, "F25") {
            Some(Key::F25)
        } else if str_eq(name, "F26") {
            Some(Key::F26)
        } else if str_eq(name, "F27") {
            Some(Key::F27)
        } else if str_eq(name, "F28") {
            Some(Key::F28)
        } else if str_eq(name, "F29") {
            Some(Key::F29)
        } else if str_eq(name, "F30") {
            Some(Key::F30)
        } else if str_eq(name, "F31") {
            Some(Key::F31)
        } else if str_eq(name, "F32") {
            Some(Key::F32)
        } else if str_eq(name, "F33") {
            Some(Key::F33)
        } else if str_eq(name, "F34") {
            Some(Key::F34)
        } else if str_eq(name, "F35") {
            Some(Key::F35)
        } else {
            None
        }
    }

    /// Looks a canonical name up among the media keys.
    fn from_name_media(name: &str) -> (r: Option<Key>)
        ensures
            r == key_of_name_media(name@),
    {
        if str_eq(name, "MediaPlayPause") {
            Some(Key::MediaPlayPause)
        } else if str_eq(name, "MediaStop") {
            Some(Key::MediaStop)
        } else if str_eq(name, "MediaTrackNext") {
            Some(Key::MediaTrackNext)
        } else if str_eq(name, "MediaTrackPrevious") {
            Some(Key::MediaTrackPrevious)
        } else if str_eq(name, "MediaSelect") {
            Some(Key::MediaSelect)
        } else if str_eq(name, "AudioVolumeUp") {
            Some(Key::AudioVolumeUp)
        } else if str_eq(name, "AudioVolumeDown") {
            Some(Key::AudioVolumeDown)
        } else if str_eq(name, "AudioVolumeMute") {
            Some(Key::AudioVolumeMute)
        } else {
            None
        }
    }

    /// Looks a canonical name up among the browser keys.
    fn from_name_browser(name: &str) -> (r: Option<Key>)
        ensures
            r == key_of_name_browser(name@),
    {
        if str_eq(name, "BrowserBack") {
            Some(Key::BrowserBack)
        } else if str_eq(name, "BrowserForward") {
            Some(Key::BrowserForward)
        } else if str_eq(name, "BrowserRefresh") {
            Some(Key::BrowserRefresh)
        } else if str_eq(name, "BrowserStop") {
            Some(Key::BrowserStop)
        } else if str_eq(name, "BrowserSearch") {
            Some(Key::BrowserSearch)
        } else if str_eq(name, "BrowserFavorites") {
            Some(Key::BrowserFavorites)
        } else if str_eq(name, "BrowserHome") {
            Some(Key::BrowserHome)
        } else {
            None
        }
    }

    /// Looks a canonical name up among the application keys.
    fn from_name_application(name: &str) -> (r: Option<Key>)
        ensures
            r == key_of_name_application(name@),
    {
        if str_eq(name, "LaunchMail") {
            Some(Key::LaunchMail)
        } else if str_eq(name, "LaunchApp1") {
            Some(Key::LaunchApp1)
        } else if str_eq(name, "LaunchApp2") {
            Some(Key::LaunchApp2)
        } else if str_eq(name, "Copy") {
            Some(Key::Copy)
        } else if str_eq(name, "Cut") {
            Some(Key::Cut)
        } else if str_eq(name, "Paste") {
            Some(Key::Paste)
        } else if str_eq(name, "Undo") {
            Some(Key::Undo)
        } else if str_eq(name, "Find") {
            Some(Key::Find)
        } else if str_eq(name, "Open") {
            Some(Key::Open)
        } else if str_eq(name, "Select") {
            Some(Key::Select)
        } else {
            None
        }
    }

    /// Looks a canonical name up among the modifier keys, left/right pairs collapsed to one name.
    fn from_name_modifier(name: &str) -> (r: Option<Key>)
        ensures
            r == key_of_name_modifier(name@),
    {
        if str_eq(name, "ControlLeft") {
            Some(Key::ControlLeft)
        } else if str_eq(name, "ControlRight") {
            Some(Key::ControlRight)
        } else if str_eq(name, "AltLeft") {
            Some(Key::AltLeft)
        } else if str_eq(name, "AltRight") {
            Some(Key::AltRight)
        } else if str_eq(name, "ShiftLeft") {
            Some(Key::ShiftLeft)
        } else if str_eq(name, "ShiftRight") {
            Some(Key::ShiftRight)
        } else if str_eq(name, "SuperLeft") {
            Some(Key::SuperLeft)
        } else if str_eq(name, "SuperRight") {
            Some(Key::SuperRight)
        } else {
            None
        }
    }

    /// Looks a canonical name up among the international keys.
    fn from_name_international(name: &str) -> (r: Option<Key>)
        ensures
            r == key_of_name_international(name@),
    {
        if str_eq(name, "IntlBackslash") {
            Some(Key::IntlBackslash)
        } else if str_eq(name, "IntlRo") {
            Some(Key::IntlRo)
        } else if str_eq(name, "IntlYen") {
            Some(Key::IntlYen)
        } else {
            None
        }
    }

    /// Looks a canonical name up among the language keys.
    fn from_name_language(name: &str) -> (r: Option<Key>)
        ensures
            r == key_of_name_language(name@),
    {
        if str_eq(name, "Lang1") {
            Some(Key::Lang1)
        } else if str_eq(name, "Lang2") {
            Some(Key::Lang2)
        } else if str_eq(name, "Lang3") {
            Some(Key::Lang3)
        } else if str_eq(name, "Lang4") {
            Some(Key::Lang4)
        } else if str_eq(name, "Lang5") {
            Some(Key::Lang5)
        } else if str_eq(name, "KanaMode") {
            Some(Key::KanaMode)
        } else if str_eq(name, "Hiragana") {
            Some(Key::Hiragana)
        } else if str_eq(name, "Katakana") {
            Some(Key::Katakana)
        } else if str_eq(name, "Convert") {
            Some(Key::Convert)
        } else if str_eq(name, "NonConvert") {
            Some(Key::NonConvert)
        } else {
            None
        }
    }

    /// Looks a canonical name up among the remaining system, power and hardware keys.
    fn from_name_misc(name: &str) -> (r: Option<Key>)
        ensures
            r == key_of_name_misc(name@),
    {
        if str_eq(name, "Again") {
            Some(Key::Again)
        } else if str_eq(name, "Resume") {
            Some(Key::Resume)
        } else if str_eq(name, "Suspend") {
            Some(Key::Suspend)
        } else if str_eq(name, "Abort") {
            Some(Key::Abort)
        } else if str_eq(name, "Props") {
            Some(Key::Props)
        } else if str_eq(name, "Help") {
            Some(Key::Help)
        } else if str_eq(name, "Power") {
            Some(Key::Power)
        } else if str_eq(name, "Sleep") {
            Some(Key::Sleep)
        } else if str_eq(name, "WakeUp") {
            Some(Key::WakeUp)
        } else if str_eq(name, "Eject") {
            Some(Key::Eject)
        } else if str_eq(name, "Fn") {
            Some(Key::Fn)
        } else if str_eq(name, "FnLock") {
            Some(Key::FnLock)
        } else if str_eq(name, "Turbo") {
            Some(Key::Turbo)
        } else if str_eq(name, "Meta") {
            Some(Key::Meta)
        } else if str_eq(name, "Hyper") {
            Some(Key::Hyper)
        } else {
            None
        }
    }
}

/// The key, if any, among the punctuation and symbol keys, shown as their character whose canonical name is `s`.
pub open spec fn key_of_name_punctuation(s: Seq<char>) -> Option<Key> {
    if s == "Backquote"@ {
        Some(Key::Backquote)
    } else if s == "Backslash"@ {
        Some(Key::Backslash)
    } else if s == "BracketLeft"@ {
        Some(Key::BracketLeft)
    } else if s == "BracketRight"@ {
        Some(Key::BracketRight)
    } else if s == "Comma"@ {
        Some(Key::Comma)
    } else if s == "Equal"@ {
        Some(Key::Equal)
    } else if s == "Minus"@ {
        Some(Key::Minus)
    } else if s == "Period"@ {
        Some(Key::Period)
    } else if s == "Quote"@ {
        Some(Key::Quote)
    } else if s == "Semicolon"@ {
        Some(Key::Semicolon)
    } else if s == "Slash"@ {
        Some(Key::Slash)
    } else {
        None
    }
}

/// The key, if any, among the editing keys, shown as a symbol or short word whose canonical name is `s`.
pub open spec fn key_of_name_special(s: Seq<char>) -> Option<Key> {
    if s == "Backspace"@ {
        Some(Key::Backspace)
    } else if s == "Delete"@ {
        Some(Key::Delete)
    } else if s == "Enter"@ {
        Some(Key::Enter)
    } else if s == "Escape"@ {
        Some(Key::Escape)
    } else if s == "Tab"@ {
        Some(Key::Tab)
    } else if s == "Space"@ {
        Some(Key::Space)
    } else {
        None
    }
}

/// The key, if any, among the navigation keys whose canonical name is `s`.
pub open spec fn key_of_name_navigation(s: Seq<char>) -> Option<Key> {
    if s == "ArrowUp"@ {
        Some(Key::ArrowUp)
    } else if s == "ArrowDown"@ {
        Some(Key::ArrowDown)
    } else if s == "ArrowLeft"@ {
        Some(Key::ArrowLeft)
    } else if s == "ArrowRight"@ {
        Some(Key::ArrowRight)
    } else if s == "Home"@ {
        Some(Key::Home)
    } else if s == "End"@ {
        Some(Key::End)
    } else if s == "PageUp"@ {
        Some(Key::PageUp)
    } else if s == "PageDown"@ {
        Some(Key::PageDown)
    } else {
        None
    }
}

/// The key, if any, among the lock keys whose canonical name is `s`.
pub open spec fn key_of_name_lock(s: Seq<char>) -> Option<Key> {
    if s == "CapsLock"@ {
        Some(Key::CapsLock)
    } else if s == "NumLock"@ {
        Some(Key::NumLock)
    } else if s == "ScrollLock"@ {
        Some(Key::ScrollLock)
    } else {
        None
    }
}

/// The key, if any, among the system keys whose canonical name is `s`.
pub open spec fn key_of_name_system(s: Seq<char>) -> Option<Key> {
    if s == "PrintScreen"@ {
        Some(Key::PrintScreen)
    } else if s == "Pause"@ {
        Some(Key::Pause)
    } else if s == "ContextMenu"@ {
        Some(Key::ContextMenu)
    } else if s == "Insert"@ {
        Some(Key::Insert)
    } else {
        None
    }
}

/// The key, if any, among the letter keys, shown as the bare letter whose canonical name is `s`.
pub open spec fn key_of_name_letter(s: Seq<char>) -> Option<Key> {
    if s == "KeyA"@ {
        Some(Key::KeyA)
    } else if s == "KeyB"@ {
        Some(Key::KeyB)
    } else if s == "KeyC"@ {
        Some(Key::KeyC)
    } else if s == "KeyD"@ {
        Some(Key::KeyD)
    } else if s == "KeyE"@ {
        Some(Key::KeyE)
    } else if s == "KeyF"@ {
        Some(Key::KeyF)
    } else if s == "KeyG"@ {
        Some(Key::KeyG)
    } else if s == "KeyH"@ {
        Some(Key::KeyH)
    } else if s == "KeyI"@ {
        Some(Key::KeyI)
    } else if s == "KeyJ"@ {
        Some(Key::KeyJ)
    } else if s == "KeyK"@ {
        Some(Key::KeyK)
    } else if s == "KeyL"@ {
        Some(Key::KeyL)
    } else if s == "KeyM"@ {
        Some(Key::KeyM)
    } else if s == "KeyN"@ {
        Some(Key::KeyN)
    } else if s == "KeyO"@ {
        Some(Key::KeyO)
    } else if s == "KeyP"@ {
        Some(Key::KeyP)
    } else if s == "KeyQ"@ {
        Some(Key::KeyQ)
    } else if s == "KeyR"@ {
        Some(Key::KeyR)
    } else if s == "KeyS"@ {
        Some(Key::KeyS)
    } else if s == "KeyT"@ {
        Some(Key::KeyT)
    } else if s == "KeyU"@ {
        Some(Key::KeyU)
    } else if s == "KeyV"@ {
        Some(Key::KeyV)
    } else if s == "KeyW"@ {
        Some(Key::KeyW)
    } else if s == "KeyX"@ {
        Some(Key::KeyX)
    } else if s == "KeyY"@ {
        Some(Key::KeyY)
    } else if s == "KeyZ"@ {
        Some(Key::KeyZ)
    } else {
        None
    }
}

/// The key, if any, among the digit keys, shown as the bare digit whose canonical name is `s`.
pub open spec fn key_of_name_digit(s: Seq<char>) -> Option<Key> {
    if s == "Digit0"@ {
        Some(Key::Digit0)
    } else if s == "Digit1"@ {
        Some(Key::Digit1)
    } else if s == "Digit2"@ {
        Some(Key::Digit2)
    } else if s == "Digit3"@ {
        Some(Key::Digit3)
    } else if s == "Digit4"@ {
        Some(Key::Digit4)
    } else if s == "Digit5"@ {
        Some(Key::Digit5)
    } else if s == "Digit6"@ {
        Some(Key::Digit6)
    } else if s == "Digit7"@ {
        Some(Key::Digit7)
    } else if s == "Digit8"@ {
        Some(Key::Digit8)
    } else if s == "Digit9"@ {
        Some(Key::Digit9)
    } else {
        None
    }
}

/// The key, if any, among the numeric-keypad digits whose canonical name is `s`.
pub open spec fn key_of_name_numpad_digit(s: Seq<char>) -> Option<Key> {
    if s == "Numpad0"@ {
        Some(Key::Numpad0)
    } else if s == "Numpad1"@ {
        Some(Key::Numpad1)
    } else if s == "Numpad2"@ {
        Some(Key::Numpad2)
    } else if s == "Numpad3"@ {
        Some(Key::Numpad3)
    } else if s == "Numpad4"@ {
        Some(Key::Numpad4)
    } else if s == "Numpad5"@ {
        Some(Key::Numpad5)
    } else if s == "Numpad6"@ {
        Some(Key::Numpad6)
    } else if s == "Numpad7"@ {
        Some(Key::Numpad7)
    } else if s == "Numpad8"@ {
        Some(Key::Numpad8)
    } else if s == "Numpad9"@ {
        Some(Key::Numpad9)
    } else {
        None
    }
}

/// The key, if any, among the numeric-keypad operators and editing keys whose canonical name is `s`.
pub open spec fn key_of_name_numpad_other(s: Seq<char>) -> Option<Key> {
    if s == "NumpadAdd"@ {
        Some(Key::NumpadAdd)
    } else if s == "NumpadSubtract"@ {
        Some(Key::NumpadSubtract)
    } else if s == "NumpadMultiply"@ {
        Some(Key::NumpadMultiply)
    } else if s == "NumpadDivide"@ {
        Some(Key::NumpadDivide)
    } else if s == "NumpadDecimal"@ {
        Some(Key::NumpadDecimal)
    } else if s == "NumpadEqual"@ {
        Some(Key::NumpadEqual)
    } else if s == "NumpadEnter"@ {
        Some(Key::NumpadEnter)
    } else if s == "NumpadComma"@ {
        Some(Key::NumpadComma)
    } else if s == "NumpadBackspace"@ {
        Some(Key::NumpadBackspace)
    } else if s == "NumpadClear"@ {
        Some(Key::NumpadClear)
    } else if s == "NumpadClearEntry"@ {
        Some(Key::NumpadClearEntry)
    } else if s == "NumpadHash"@ {
        Some(Key::NumpadHash)
    } else if s == "NumpadParenLeft"@ {
        Some(Key::NumpadParenLeft)
    } else if s == "NumpadParenRight"@ {
        Some(Key::NumpadParenRight)
    } else if s == "NumpadStar"@ {
        Some(Key::NumpadStar)
    } else if s == "NumpadMemoryAdd"@ {
        Some(Key::NumpadMemoryAdd)
    } else if s == "NumpadMemoryClear"@ {
        Some(Key::NumpadMemoryClear)
    } else if s == "NumpadMemoryRecall"@ {
        Some(Key::NumpadMemoryRecall)
    } else if s == "NumpadMemoryStore"@ {
        Some(Key::NumpadMemoryStore)
    } else if s == "NumpadMemorySubtract"@ {
        Some(Key::NumpadMemorySubtract)
    } else {
        None
    }
}

/// The key, if any, among the function keys whose canonical name is `s`.
pub open spec fn key_of_name_function(s: Seq<char>) -> Option<Key> {
    if s == "F1"@ {
        Some(Key::F1)
    } else if s == "F2"@ {
        Some(Key::F2)
    } else if s == "F3"@ {
        Some(Key::F3)
    } else if s == "F4"@ {
        Some(Key::F4)
    } else if s == "F5"@ {
        Some(Key::F5)
    } else if s == "F6"@ {
        Some(Key::F6)
    } else if s == "F7"@ {
        Some(Key::F7)
    } else if s == "F8"@ {
        Some(Key::F8)
    } else if s == "F9"@ {
        Some(Key::F9)
    } else if s == "F10"@ {
        Some(Key::F10)
    } else if s == "F11"@ {
        Some(Key::F11)
    } else if s == "F12"@ {
        Some(Key::F12)
    } else if s == "F13"@ {
        Some(Key::F13)
    } else if s == "F14"@ {
        Some(Key::F14)
    } else if s == "F15"@ {
        Some(Key::F15)
    } else if s == "F16"@ {
        Some(Key::F16)
    } else if s == "F17"@ {
        Some(Key::F17)
    } else if s == "F18"@ {
        Some(Key::F18)
    } else if s == "F19"@ {
        Some(Key::F19)
    } else if s == "F20"@ {
        Some(Key::F20)
    } else if s == "F21"@ {
        Some(Key::F21)
    } else if s == "F22"@ {
        Some(Key::F22)
    } else if s == "F23"@ {
        Some(Key::F23)
    } else if s == "F24"@ {
        Some(Key::F24)
    } else if s == "F25"@ {
        Some(Key::F25)
    } else if s == "F26"@ {
        Some(Key::F26)
    } else if s == "F27"@ {
        Some(Key::F27)
    } else if s == "F28"@ {
        Some(Key::F28)
    } else if s == "F29"@ {
        Some(Key::F29)
    } else if s == "F30"@ {
        Some(Key::F30)
    } else if s == "F31"@ {
        Some(Key::F31)
    } else if s == "F32"@ {
        Some(Key::F32)
    } else if s == "F33"@ {
        Some(Key::F33)
    } else if s == "F34"@ {
        Some(Key::F34)
    } else if s == "F35"@ {
        Some(Key::F35)
    } else {
        None
    }
}

/// The key, if any, among the media keys whose canonical name is `s`.
pub open spec fn key_of_name_media(s: Seq<char>) -> Option<Key> {
    if s == "MediaPlayPause"@ {
        Some(Key::MediaPlayPause)
    } else if s == "MediaStop"@ {
        Some(Key::MediaStop)
    } else if s == "MediaTrackNext"@ {
        Some(Key::MediaTrackNext)
    } else if s == "MediaTrackPrevious"@ {
        Some(Key::MediaTrackPrevious)
    } else if s == "MediaSelect"@ {
        Some(Key::MediaSelect)
    } else if s == "AudioVolumeUp"@ {
        Some(Key::AudioVolumeUp)
    } else if s == "AudioVolumeDown"@ {
        Some(Key::AudioVolumeDown)
    } else if s == "AudioVolumeMute"@ {
        Some(Key::AudioVolumeMute)
    } else {
        None
    }
}

/// The key, if any, among the browser keys whose canonical name is `s`.
pub open spec fn key_of_name_browser(s: Seq<char>) -> Option<Key> {
    if s == "BrowserBack"@ {
        Some(Key::BrowserBack)
    } else if s == "BrowserForward"@ {
        Some(Key::BrowserForward)
    } else if s == "BrowserRefresh"@ {
        Some(Key::BrowserRefresh)
    } else if s == "BrowserStop"@ {
        Some(Key::BrowserStop)
    } else if s == "BrowserSearch"@ {
        Some(Key::BrowserSearch)
    } else if s == "BrowserFavorites"@ {
        Some(Key::BrowserFavorites)
    } else if s == "BrowserHome"@ {
        Some(Key::BrowserHome)
    } else {
        None
    }
}

/// The key, if any, among the application keys whose canonical name is `s`.
pub open spec fn key_of_name_application(s: Seq<char>) -> Option<Key> {
    if s == "LaunchMail"@ {
        Some(Key::LaunchMail)
    } else if s == "LaunchApp1"@ {
        Some(Key::LaunchApp1)
    } else if s == "LaunchApp2"@ {
        Some(Key::LaunchApp2)
    } else if s == "Copy"@ {
        Some(Key::Copy)
    } else if s == "Cut"@ {
        Some(Key::Cut)
    } else if s == "Paste"@ {
        Some(Key::Paste)
    } else if s == "Undo"@ {
        Some(Key::Undo)
    } else if s == "Find"@ {
        Some(Key::Find)
    } else if s == "Open"@ {
        Some(Key::Open)
    } else if s == "Select"@ {
        Some(Key::Select)
    } else {
        None
    }
}

/// The key, if any, among the modifier keys, left/right pairs collapsed to one name whose canonical name is `s`.
pub open spec fn key_of_name_modifier(s: Seq<char>) -> Option<Key> {
    if s == "ControlLeft"@ {
        Some(Key::ControlLeft)
    } else if s == "ControlRight"@ {
        Some(Key::ControlRight)
    } else if s == "AltLeft"@ {
        Some(Key::AltLeft)
    } else if s == "AltRight"@ {
        Some(Key::AltRight)
    } else if s == "ShiftLeft"@ {
        Some(Key::ShiftLeft)
    } else if s == "ShiftRight"@ {
        Some(Key::ShiftRight)
    } else if s == "SuperLeft"@ {
        Some(Key::SuperLeft)
    } else if s == "SuperRight"@ {
        Some(Key::SuperRight)
    } else {
        None
    }
}

/// The key, if any, among the international keys whose canonical name is `s`.
pub open spec fn key_of_name_international(s: Seq<char>) -> Option<Key> {
    if s == "IntlBackslash"@ {
        Some(Key::IntlBackslash)
    } else if s == "IntlRo"@ {
        Some(Key::IntlRo)
    } else if s == "IntlYen"@ {
        Some(Key::IntlYen)
    } else {
        None
    }
}

/// The key, if any, among the language keys whose canonical name is `s`.
pub open spec fn key_of_name_language(s: Seq<char>) -> Option<Key> {
    if s == "Lang1"@ {
        Some(Key::Lang1)
    } else if s == "Lang2"@ {
        Some(Key::Lang2)
    } else if s == "Lang3"@ {
        Some(Key::Lang3)
    } else if s == "Lang4"@ {
        Some(Key::Lang4)
    } else if s == "Lang5"@ {
        Some(Key::Lang5)
    } else if s == "KanaMode"@ {
        Some(Key::KanaMode)
    } else if s == "Hiragana"@ {
        Some(Key::Hiragana)
    } else if s == "Katakana"@ {
        Some(Key::Katakana)
    } else if s == "Convert"@ {
        Some(Key::Convert)
    } else if s == "NonConvert"@ {
        Some(Key::NonConvert)
    } else {
        None
    }
}

/// The key, if any, among the remaining system, power and hardware keys whose canonical name is `s`.
pub open spec fn key_of_name_misc(s: Seq<char>) -> Option<Key> {
    if s == "Again"@ {
        Some(Key::Again)
    } else if s == "Resume"@ {
        Some(Key::Resume)
    } else if s == "Suspend"@ {
        Some(Key::Suspend)
    } else if s == "Abort"@ {
        Some(Key::Abort)
    } else if s == "Props"@ {
        Some(Key::Props)
    } else if s == "Help"@ {
        Some(Key::Help)
    } else if s == "Power"@ {
        Some(Key::Power)
    } else if s == "Sleep"@ {
        Some(Key::Sleep)
    } else if s == "WakeUp"@ {
        Some(Key::WakeUp)
    } else if s == "Eject"@ {
        Some(Key::Eject)
    } else if s == "Fn"@ {
        Some(Key::Fn)
    } else if s == "FnLock"@ {
        Some(Key::FnLock)
    } else if s == "Turbo"@ {
        Some(Key::Turbo)
    } else if s == "Meta"@ {
        Some(Key::Meta)
    } else if s == "Hyper"@ {
        Some(Key::Hyper)
    } else {
        None
    }
}

/// The key whose canonical name is `s`, if the table knows the name.
pub open spec fn spec_key_of_name(s: Seq<char>) -> Option<Key> {
    if key_of_name_punctuation(s) is Some {
        key_of_name_punctuation(s)
    } else if key_of_name_special(s) is Some {
        key_of_name_special(s)
    } else if key_of_name_navigation(s) is Some {
        key_of_name_navigation(s)
    } else if key_of_name_lock(s) is Some {
        key_of_name_lock(s)
    } else if key_of_name_system(s) is Some {
        key_of_name_system(s)
    } else if key_of_name_letter(s) is Some {
        key_of_name_letter(s)
    } else if key_of_name_digit(s) is Some {
        key_of_name_digit(s)
    } else if key_of_name_numpad_digit(s) is Some {
        key_of_name_numpad_digit(s)
    } else if key_of_name_numpad_other(s) is Some {
        key_of_name_numpad_other(s)
    } else if key_of_name_function(s) is Some {
        key_of_name_function(s)
    } else if key_of_name_media(s) is Some {
        key_of_name_media(s)
    } else if key_of_name_browser(s) is Some {
        key_of_name_browser(s)
    } else if key_of_name_application(s) is Some {
        key_of_name_application(s)
    } else if key_of_name_modifier(s) is Some {
        key_of_name_modifier(s)
    } else if key_of_name_international(s) is Some {
        key_of_name_international(s)
    } else if key_of_name_language(s) is Some {
        key_of_name_language(s)
    } else if key_of_name_misc(s) is Some {
        key_of_name_misc(s)
    } else {
        None
    }
}

/// The display label for a canonical key name: the named key's label when
/// the table knows the name, and the name itself unchanged otherwise.
pub open spec fn spec_label_for(s: Seq<char>) -> Seq<char> {
    match spec_key_of_name(s) {
        Some(k) => k.spec_label(),
        None => s,
    }
}

/// Renders a canonical key name for display. The lookup is total: an
/// unknown name comes back unchanged.
pub fn label_for(name: &str) -> (r: String)
    ensures
        r@ == spec_label_for(name@),
{
    match Key::from_name(name) {
        Some(k) => k.label(),
        None => name.to_owned(),
    }
}

} // verus!
