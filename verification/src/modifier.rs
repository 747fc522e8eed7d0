//! Modifier requirements: per-channel constraints that gate a shortcut.

use crate::key::Key;
use crate::state::KeyboardState;
use crate::text::join_strs;
use crate::text::join_with;
use vstd::prelude::*;

verus! {

/// How one modifier channel must behave for a shortcut to match.
///
/// A channel with no requirement at all is represented by `None` at the use
/// site; this enum only covers the two explicit constraints.
#[derive(Clone, Copy, Debug, PartialEq, Eq, Structural)]
pub enum ModifierType {
    /// The modifier must be held down.
    RequirePressed,
    /// The modifier must not be held down.
    RequireNotPressed,
}

/// The four modifier channels a shortcut can constrain.
#[derive(Clone, Copy, Debug, PartialEq, Eq, Structural)]
pub enum ModChannel {
    Control,
    Alt,
    Shift,
    Super,
}

impl ModifierType {
    /// What `matches` returns: the requirement read as a predicate on the
    /// channel's live "down" state.
    pub open spec fn spec_matches(self, down: bool) -> bool {
        match self {
            ModifierType::RequirePressed => down,
            ModifierType::RequireNotPressed => !down,
        }
    }

    /// Checks whether the channel's live state satisfies this requirement.
    pub fn matches(&self, pressed: bool) -> (r: bool)
        ensures
            r == self.spec_matches(pressed),
    {
        match self {
            ModifierType::RequirePressed => pressed,
            ModifierType::RequireNotPressed => !pressed,
        }
    }
}

/// An absent requirement is always satisfied; a present one is read as a
/// predicate on the channel's live state.
pub open spec fn spec_requirement_matches(req: Option<ModifierType>, down: bool) -> bool {
    match req {
        None => true,
        Some(m) => m.spec_matches(down),
    }
}

/// Requirements for all four modifier channels of one shortcut.
///
/// `None` on a channel means the channel is ignored; the neutral value with
/// all four channels `None` matches every keyboard state.
#[derive(Clone, Copy, Debug)]
pub struct Modifiers {
    /// Control key requirement (`None` = ignore).
    pub control: Option<ModifierType>,
    /// Alt key requirement (`None` = ignore).
    pub alt: Option<ModifierType>,
    /// Shift key requirement (`None` = ignore).
    pub shift: Option<ModifierType>,
    /// Super key requirement (`None` = ignore).
    pub super_key: Option<ModifierType>,
}

impl Modifiers {
    /// The neutral value: every channel ignored.
    pub open spec fn spec_default() -> Modifiers {
        Modifiers { control: None, alt: None, shift: None, super_key: None }
    }

    /// True when no channel carries a requirement.
    pub open spec fn spec_none(self) -> bool {
        self.control is None && self.alt is None && self.shift is None && self.super_key is None
    }

    /// Returns `true` if no modifiers are explicitly set (all are `None`).
    pub fn none(&self) -> (r: bool)
        ensures
            r == self.spec_none(),
    {
        self.control.is_none() && self.alt.is_none() && self.shift.is_none()
            && self.super_key.is_none()
    }

    /// The requirement this value places on channel `c`.
    pub open spec fn channel_requirement(self, c: ModChannel) -> Option<ModifierType> {
        match c {
            ModChannel::Control => self.control,
            ModChannel::Alt => self.alt,
            ModChannel::Shift => self.shift,
            ModChannel::Super => self.super_key,
        }
    }

    /// This value with channel `c` replaced by `req`.
    pub open spec fn spec_set_channel(self, c: ModChannel, req: Option<ModifierType>) -> Modifiers {
        match c {
            ModChannel::Control => (Modifiers { control: req, ..self }),
            ModChannel::Alt => (Modifiers { alt: req, ..self }),
            ModChannel::Shift => (Modifiers { shift: req, ..self }),
            ModChannel::Super => (Modifiers { super_key: req, ..self }),
        }
    }

    /// Checks an optional modifier requirement against the channel's live
    /// state: an absent requirement always matches.
    pub fn matches_modifier(requirement: &Option<ModifierType>, pressed: bool) -> (r: bool)
        ensures
            r == spec_requirement_matches(*requirement, pressed),
    {
        match requirement {
            None => true,
            Some(modifier_type) => modifier_type.matches(pressed),
        }
    }
}

impl Default for Modifiers {
    /// The neutral requirements: all channels ignored.
    fn default() -> (r: Self)
        ensures
            r == Modifiers::spec_default(),
    {
        Modifiers { control: None, alt: None, shift: None, super_key: None }
    }
}

/// Whether channel `c` counts as down in `keys`: a channel is down when
/// either of its physical keys is, so the policy never distinguishes the
/// left from the right variant.
pub open spec fn channel_down(keys: KeyboardState, c: ModChannel) -> bool {
    match c {
        ModChannel::Control => keys.is_down(Key::ControlLeft) || keys.is_down(Key::ControlRight),
        ModChannel::Alt => keys.is_down(Key::AltLeft) || keys.is_down(Key::AltRight),
        ModChannel::Shift => keys.is_down(Key::ShiftLeft) || keys.is_down(Key::ShiftRight),
        ModChannel::Super => keys.is_down(Key::SuperLeft) || keys.is_down(Key::SuperRight),
    }
}

impl Modifiers {
    /// Whether channel `c`'s requirement, if any, is satisfied by `keys`.
    pub open spec fn channel_matches(self, keys: KeyboardState, c: ModChannel) -> bool {
        spec_requirement_matches(self.channel_requirement(c), channel_down(keys, c))
    }

    /// Whether `keys` satisfies every channel's requirement.
    pub open spec fn spec_holds(self, keys: KeyboardState) -> bool {
        &&& self.channel_matches(keys, ModChannel::Control)
        &&& self.channel_matches(keys, ModChannel::Alt)
        &&& self.channel_matches(keys, ModChannel::Shift)
        &&& self.channel_matches(keys, ModChannel::Super)
    }

    /// Checks whether the current keyboard state satisfies every modifier
    /// requirement of this value.
    pub fn pressed(&self, keys: &KeyboardState) -> (r: bool)
        ensures
            r == self.spec_holds(*keys),
    {
        let control_pressed = keys.pressed(Key::ControlLeft) || keys.pressed(Key::ControlRight);
        let alt_pressed = keys.pressed(Key::AltLeft) || keys.pressed(Key::AltRight);
        let shift_pressed = keys.pressed(Key::ShiftLeft) || keys.pressed(Key::ShiftRight);
        let super_pressed = keys.pressed(Key::SuperLeft) || keys.pressed(Key::SuperRight);
        Self::matches_modifier(&self.control, control_pressed) && Self::matches_modifier(
            &self.alt,
            alt_pressed,
        ) && Self::matches_modifier(&self.shift, shift_pressed) && Self::matches_modifier(
            &self.super_key,
            super_pressed,
        )
    }

    /// Whether channel `c` must be pressed for this value to hold.
    pub open spec fn spec_required(self, c: ModChannel) -> bool {
        self.channel_requirement(c) == Some(ModifierType::RequirePressed)
    }

    /// Whether any channel must be pressed. Only such channels appear in the
    /// rendered label.
    pub open spec fn spec_any_required(self) -> bool {
        ||| self.spec_required(ModChannel::Control)
        ||| self.spec_required(ModChannel::Alt)
        ||| self.spec_required(ModChannel::Shift)
        ||| self.spec_required(ModChannel::Super)
    }

    /// Returns whether any channel must be pressed.
    pub fn any_required(&self) -> (r: bool)
        ensures
            r == self.spec_any_required(),
    {
        matches!(self.control, Some(ModifierType::RequirePressed)) || matches!(
            self.alt,
            Some(ModifierType::RequirePressed),
        ) || matches!(self.shift, Some(ModifierType::RequirePressed)) || matches!(
            self.super_key,
            Some(ModifierType::RequirePressed),
        )
    }

    /// The names of the required channels, in the fixed rendering order:
    /// control, alt, shift, super.
    pub open spec fn spec_label_parts(self) -> Seq<Seq<char>> {
        (if self.spec_required(ModChannel::Control) {
            seq!["Ctrl"@]
        } else {
            Seq::<Seq<char>>::empty()
        }) + (if self.spec_required(ModChannel::Alt) {
            seq!["Alt"@]
        } else {
            Seq::<Seq<char>>::empty()
        }) + (if self.spec_required(ModChannel::Shift) {
            seq!["Shift"@]
        } else {
            Seq::<Seq<char>>::empty()
        }) + (if self.spec_required(ModChannel::Super) {
            seq!["Super"@]
        } else {
            Seq::<Seq<char>>::empty()
        })
    }

    /// The rendered modifier label: the required channels' names joined by
    /// `" + "`. Channels that must *not* be pressed are never shown.
    pub open spec fn spec_label(self) -> Seq<char> {
        join_with(self.spec_label_parts(), " + "@)
    }

    /// Renders the required channels' names, joined by `" + "`, always in
    /// the order control, alt, shift, super.
    pub fn label(&self) -> (r: String)
        ensures
            r@ == self.spec_label(),
    {
        let mut parts: Vec<String> = Vec::new();
        if matches!(self.control, Some(ModifierType::RequirePressed)) {
            parts.push(String::from_str("Ctrl"));
        }
        if matches!(self.alt, Some(ModifierType::RequirePressed)) {
            parts.push(String::from_str("Alt"));
        }
        if matches!(self.shift, Some(ModifierType::RequirePressed)) {
            parts.push(String::from_str("Shift"));
        }
        if matches!(self.super_key, Some(ModifierType::RequirePressed)) {
            parts.push(String::from_str("Super"));
        }
        proof {
            assert(parts.deep_view() =~= self.spec_label_parts());
        }
        join_strs(&parts, " + ")
    }
}

/// A policy holds exactly when each of the four channels' requirements is
/// satisfied; nothing else about the keyboard state matters.
pub proof fn lemma_holds_iff_all_channels(m: Modifiers, keys: KeyboardState)
    ensures
        m.spec_holds(keys) <==> (forall|c: ModChannel| m.channel_matches(keys, c)),
{
    if m.spec_holds(keys) {
        assert forall|c: ModChannel| m.channel_matches(keys, c) by {
            match c {
                ModChannel::Control => assert(m.channel_matches(keys, ModChannel::Control)),
                ModChannel::Alt => assert(m.channel_matches(keys, ModChannel::Alt)),
                ModChannel::Shift => assert(m.channel_matches(keys, ModChannel::Shift)),
                ModChannel::Super => assert(m.channel_matches(keys, ModChannel::Super)),
            }
        }
    }
}

/// On a state where channel `c`'s physical keys are both up, `c`'s
/// requirement is satisfied exactly when it is absent or `RequireNotPressed`;
/// `RequirePressed` on `c` then rules the whole policy out.
pub proof fn lemma_channel_released(m: Modifiers, keys: KeyboardState, c: ModChannel)
    requires
        !channel_down(keys, c),
    ensures
        m.channel_matches(keys, c) <==> (m.channel_requirement(c) is None
            || m.channel_requirement(c) == Some(ModifierType::RequireNotPressed)),
        m.channel_requirement(c) == Some(ModifierType::RequirePressed) ==> !m.spec_holds(keys),
{
}

/// The rendered modifier label depends only on which channels must be
/// pressed — never on how or in what order the value was built — and always
/// lists them as control, alt, shift, super.
pub proof fn lemma_label_from_required_channels(m1: Modifiers, m2: Modifiers)
    requires
        forall|c: ModChannel| m1.spec_required(c) == m2.spec_required(c),
    ensures
        m1.spec_label() == m2.spec_label(),
{
    assert(m1.spec_required(ModChannel::Control) == m2.spec_required(ModChannel::Control));
    assert(m1.spec_required(ModChannel::Alt) == m2.spec_required(ModChannel::Alt));
    assert(m1.spec_required(ModChannel::Shift) == m2.spec_required(ModChannel::Shift));
    assert(m1.spec_required(ModChannel::Super) == m2.spec_required(ModChannel::Super));
    assert(m1.spec_label_parts() == m2.spec_label_parts());
}

/// Replacing two distinct channels gives the same value in either order, so
/// builder calls that constrain different channels can be chained in any
/// order without changing the resulting shortcut.
pub proof fn lemma_set_channel_commutes(
    m: Modifiers,
    c1: ModChannel,
    r1: Option<ModifierType>,
    c2: ModChannel,
    r2: Option<ModifierType>,
)
    requires
        c1 != c2,
    ensures
        m.spec_set_channel(c1, r1).spec_set_channel(c2, r2) == m.spec_set_channel(
            c2,
            r2,
        ).spec_set_channel(c1, r1),
{
}

} // verus!
