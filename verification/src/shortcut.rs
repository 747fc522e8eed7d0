//! Single shortcuts and groups of alternative shortcuts.

use crate::key::Key;
use crate::modifier::ModChannel;
use crate::modifier::Modifiers;
use crate::modifier::ModifierType;
use crate::state::KeyboardState;
use crate::text::join_strs;
use crate::text::join_with;
use vstd::prelude::*;

verus! {

/// One keyboard shortcut: a primary key plus modifier requirements.
#[derive(Clone, Copy, Debug)]
pub struct Shortcut {
    /// The main key that must be pressed.
    pub key: Key,
    /// The modifier requirements that gate the key.
    pub modifiers: Modifiers,
}

impl Shortcut {
    /// Whether the shortcut is held: the primary key is down and every
    /// modifier requirement is satisfied.
    pub open spec fn spec_held(self, keys: KeyboardState) -> bool {
        keys.is_down(self.key) && self.modifiers.spec_holds(keys)
    }

    /// Whether the shortcut fired on this tick: the primary key transitioned
    /// down on this tick and every modifier requirement is satisfied.
    pub open spec fn spec_just_activated(self, keys: KeyboardState) -> bool {
        keys.is_just_down(self.key) && self.modifiers.spec_holds(keys)
    }

    /// Checks whether the shortcut is currently held down.
    pub fn pressed(&self, keys: &KeyboardState) -> (r: bool)
        ensures
            r == self.spec_held(*keys),
    {
        keys.pressed(self.key) && self.modifiers.pressed(keys)
    }

    /// Checks whether the shortcut was just pressed on this tick.
    pub fn just_pressed(&self, keys: &KeyboardState) -> (r: bool)
        ensures
            r == self.spec_just_activated(*keys),
    {
        keys.just_pressed(self.key) && self.modifiers.pressed(keys)
    }

    /// The rendered shortcut: the required modifiers, each followed by
    /// `" + "`, then the primary key's display label. Modifiers that must
    /// not be pressed are not shown.
    pub open spec fn spec_label(self) -> Seq<char> {
        if self.modifiers.spec_any_required() {
            self.modifiers.spec_label() + " + "@ + self.key.spec_label()
        } else {
            self.key.spec_label()
        }
    }

    /// Renders this shortcut as text, e.g. `Ctrl + S`.
    pub fn label(&self) -> (r: String)
        ensures
            r@ == self.spec_label(),
    {
        let key_label = self.key.label();
        if self.modifiers.any_required() {
            self.modifiers.label().concat(" + ").concat(key_label.as_str())
        } else {
            key_label
        }
    }
}

/// Alternative shortcuts that all trigger the same action, with a repeat
/// mode.
///
/// With `repeats` set, the group is active on every tick on which some
/// alternative is held; without it, only on the tick of an alternative's
/// down-transition. The empty group is never active.
#[derive(Debug)]
pub struct Shortcuts {
    /// The alternative shortcuts; any one of them activates the group.
    pub shortcuts: Vec<Shortcut>,
    /// If `true`, the group triggers continuously while held; if `false`,
    /// only once per press.
    pub repeats: bool,
}

impl Shortcuts {
    /// Whether the group is active against the given snapshot: some
    /// alternative is held (repeating) or just fired (single-press).
    pub open spec fn spec_active(self, keys: KeyboardState) -> bool {
        if self.repeats {
            exists|i: int| 0 <= i < self.shortcuts@.len() && self.shortcuts@[i].spec_held(keys)
        } else {
            exists|i: int|
                0 <= i < self.shortcuts@.len() && self.shortcuts@[i].spec_just_activated(keys)
        }
    }

    /// The alternatives for `keys`, none constrained by modifiers.
    fn from_keys(keys: &[Key], repeats: bool) -> (r: Self)
        ensures
            r.repeats == repeats,
            r.shortcuts@.len() == keys@.len(),
            forall|i: int|
                0 <= i < keys@.len() ==> r.shortcuts@[i] == (Shortcut {
                    key: keys@[i],
                    modifiers: Modifiers::spec_default(),
                }),
    {
        let mut shortcuts: Vec<Shortcut> = Vec::new();
        let mut i: usize = 0;
        while i < keys.len()
            invariant
                i <= keys@.len(),
                shortcuts@.len() == i,
                forall|j: int|
                    0 <= j < i ==> shortcuts@[j] == (Shortcut {
                        key: keys@[j],
                        modifiers: Modifiers::spec_default(),
                    }),
            decreases keys@.len() - i,
        {
            shortcuts.push(Shortcut { key: keys[i], modifiers: Modifiers::default() });
            i += 1;
        }
        Shortcuts { shortcuts, repeats }
    }

    /// Creates single-press shortcuts from a slice of keys (no modifiers):
    /// the group is active only on the tick a key transitions down.
    pub fn single_press(keys: &[Key]) -> (r: Self)
        ensures
            r.repeats == false,
            r.shortcuts@.len() == keys@.len(),
            forall|i: int|
                0 <= i < keys@.len() ==> r.shortcuts@[i] == (Shortcut {
                    key: keys@[i],
                    modifiers: Modifiers::spec_default(),
                }),
    {
        Self::from_keys(keys, false)
    }

    /// Creates repeating shortcuts from a slice of keys (no modifiers): the
    /// group stays active for as long as a key is held.
    pub fn repeating(keys: &[Key]) -> (r: Self)
        ensures
            r.repeats == true,
            r.shortcuts@.len() == keys@.len(),
            forall|i: int|
                0 <= i < keys@.len() ==> r.shortcuts@[i] == (Shortcut {
                    key: keys@[i],
                    modifiers: Modifiers::spec_default(),
                }),
    {
        Self::from_keys(keys, true)
    }

    /// Replaces channel `c` of the first alternative's modifiers with `req`.
    ///
    /// Setting a channel that already carries a requirement is a
    /// configuration error, ruled out by the precondition; on an empty group
    /// there is no first alternative and the call changes nothing.
    fn set_first_channel(self, c: ModChannel, req: ModifierType) -> (r: Self)
        requires
            self.shortcuts@.len() > 0 ==> self.shortcuts@[0].modifiers.channel_requirement(
                c,
            ) is None,
        ensures
            r.repeats == self.repeats,
            r.shortcuts@.len() == self.shortcuts@.len(),
            forall|i: int| 1 <= i < self.shortcuts@.len() ==> r.shortcuts@[i] == self.shortcuts@[i],
            self.shortcuts@.len() > 0 ==> r.shortcuts@[0].key == self.shortcuts@[0].key,
            self.shortcuts@.len() > 0 ==> r.shortcuts@[0].modifiers == self.shortcuts@[0]
                .modifiers.spec_set_channel(c, Some(req)),
            self.shortcuts@.len() == 0 ==> r.shortcuts@ == self.shortcuts@,
    {
        let mut this = self;
        if this.shortcuts.len() > 0 {
            let mut first = this.shortcuts[0];
            match c {
                ModChannel::Control => first.modifiers.control = Some(req),
                ModChannel::Alt => first.modifiers.alt = Some(req),
                ModChannel::Shift => first.modifiers.shift = Some(req),
                ModChannel::Super => first.modifiers.super_key = Some(req),
            }
            this.shortcuts[0] = first;
        }
        this
    }

    /// Requires Control to be pressed for the first alternative.
    ///
    /// The Control channel must not have been constrained before.
    pub fn with_ctrl(self) -> (r: Self)
        requires
            self.shortcuts@.len() > 0 ==> self.shortcuts@[0].modifiers.control is None,
        ensures
            r.repeats == self.repeats,
            r.shortcuts@.len() == self.shortcuts@.len(),
            forall|i: int| 1 <= i < self.shortcuts@.len() ==> r.shortcuts@[i] == self.shortcuts@[i],
            self.shortcuts@.len() > 0 ==> r.shortcuts@[0].key == self.shortcuts@[0].key,
            self.shortcuts@.len() > 0 ==> r.shortcuts@[0].modifiers == self.shortcuts@[0]
                .modifiers.spec_set_channel(ModChannel::Control, Some(ModifierType::RequirePressed)),
            self.shortcuts@.len() == 0 ==> r.shortcuts@ == self.shortcuts@,
    {
        self.set_first_channel(ModChannel::Control, ModifierType::RequirePressed)
    }

    /// Requires Alt to be pressed for the first alternative.
    ///
    /// The Alt channel must not have been constrained before.
    pub fn with_alt(self) -> (r: Self)
        requires
            self.shortcuts@.len() > 0 ==> self.shortcuts@[0].modifiers.alt is None,
        ensures
            r.repeats == self.repeats,
            r.shortcuts@.len() == self.shortcuts@.len(),
            forall|i: int| 1 <= i < self.shortcuts@.len() ==> r.shortcuts@[i] == self.shortcuts@[i],
            self.shortcuts@.len() > 0 ==> r.shortcuts@[0].key == self.shortcuts@[0].key,
            self.shortcuts@.len() > 0 ==> r.shortcuts@[0].modifiers == self.shortcuts@[0]
                .modifiers.spec_set_channel(ModChannel::Alt, Some(ModifierType::RequirePressed)),
            self.shortcuts@.len() == 0 ==> r.shortcuts@ == self.shortcuts@,
    {
        self.set_first_channel(ModChannel::Alt, ModifierType::RequirePressed)
    }

    /// Requires Shift to be pressed for the first alternative.
    ///
    /// The Shift channel must not have been constrained before.
    pub fn with_shift(self) -> (r: Self)
        requires
            self.shortcuts@.len() > 0 ==> self.shortcuts@[0].modifiers.shift is None,
        ensures
            r.repeats == self.repeats,
            r.shortcuts@.len() == self.shortcuts@.len(),
            forall|i: int| 1 <= i < self.shortcuts@.len() ==> r.shortcuts@[i] == self.shortcuts@[i],
            self.shortcuts@.len() > 0 ==> r.shortcuts@[0].key == self.shortcuts@[0].key,
            self.shortcuts@.len() > 0 ==> r.shortcuts@[0].modifiers == self.shortcuts@[0]
                .modifiers.spec_set_channel(ModChannel::Shift, Some(ModifierType::RequirePressed)),
            self.shortcuts@.len() == 0 ==> r.shortcuts@ == self.shortcuts@,
    {
        self.set_first_channel(ModChannel::Shift, ModifierType::RequirePressed)
    }

    /// Requires Super to be pressed for the first alternative.
    ///
    /// The Super channel must not have been constrained before.
    pub fn with_super(self) -> (r: Self)
        requires
            self.shortcuts@.len() > 0 ==> self.shortcuts@[0].modifiers.super_key is None,
        ensures
            r.repeats == self.repeats,
            r.shortcuts@.len() == self.shortcuts@.len(),
            forall|i: int| 1 <= i < self.shortcuts@.len() ==> r.shortcuts@[i] == self.shortcuts@[i],
            self.shortcuts@.len() > 0 ==> r.shortcuts@[0].key == self.shortcuts@[0].key,
            self.shortcuts@.len() > 0 ==> r.shortcuts@[0].modifiers == self.shortcuts@[0]
                .modifiers.spec_set_channel(ModChannel::Super, Some(ModifierType::RequirePressed)),
            self.shortcuts@.len() == 0 ==> r.shortcuts@ == self.shortcuts@,
    {
        self.set_first_channel(ModChannel::Super, ModifierType::RequirePressed)
    }

    /// Forbids Control for the first alternative: the group then matches
    /// only while Control is up.
    ///
    /// The Control channel must not have been constrained before.
    pub fn without_ctrl(self) -> (r: Self)
        requires
            self.shortcuts@.len() > 0 ==> self.shortcuts@[0].modifiers.control is None,
        ensures
            r.repeats == self.repeats,
            r.shortcuts@.len() == self.shortcuts@.len(),
            forall|i: int| 1 <= i < self.shortcuts@.len() ==> r.shortcuts@[i] == self.shortcuts@[i],
            self.shortcuts@.len() > 0 ==> r.shortcuts@[0].key == self.shortcuts@[0].key,
            self.shortcuts@.len() > 0 ==> r.shortcuts@[0].modifiers == self.shortcuts@[0]
                .modifiers.spec_set_channel(
                ModChannel::Control,
                Some(ModifierType::RequireNotPressed),
            ),
            self.shortcuts@.len() == 0 ==> r.shortcuts@ == self.shortcuts@,
    {
        self.set_first_channel(ModChannel::Control, ModifierType::RequireNotPressed)
    }

    /// Forbids Alt for the first alternative.
    ///
    /// The Alt channel must not have been constrained before.
    pub fn without_alt(self) -> (r: Self)
        requires
            self.shortcuts@.len() > 0 ==> self.shortcuts@[0].modifiers.alt is None,
        ensures
            r.repeats == self.repeats,
            r.shortcuts@.len() == self.shortcuts@.len(),
            forall|i: int| 1 <= i < self.shortcuts@.len() ==> r.shortcuts@[i] == self.shortcuts@[i],
            self.shortcuts@.len() > 0 ==> r.shortcuts@[0].key == self.shortcuts@[0].key,
            self.shortcuts@.len() > 0 ==> r.shortcuts@[0].modifiers == self.shortcuts@[0]
                .modifiers.spec_set_channel(ModChannel::Alt, Some(ModifierType::RequireNotPressed)),
            self.shortcuts@.len() == 0 ==> r.shortcuts@ == self.shortcuts@,
    {
        self.set_first_channel(ModChannel::Alt, ModifierType::RequireNotPressed)
    }

    /// Forbids Shift for the first alternative.
    ///
    /// The Shift channel must not have been constrained before.
    pub fn without_shift(self) -> (r: Self)
        requires
            self.shortcuts@.len() > 0 ==> self.shortcuts@[0].modifiers.shift is None,
        ensures
            r.repeats == self.repeats,
            r.shortcuts@.len() == self.shortcuts@.len(),
            forall|i: int| 1 <= i < self.shortcuts@.len() ==> r.shortcuts@[i] == self.shortcuts@[i],
            self.shortcuts@.len() > 0 ==> r.shortcuts@[0].key == self.shortcuts@[0].key,
            self.shortcuts@.len() > 0 ==> r.shortcuts@[0].modifiers == self.shortcuts@[0]
                .modifiers.spec_set_channel(
                ModChannel::Shift,
                Some(ModifierType::RequireNotPressed),
            ),
            self.shortcuts@.len() == 0 ==> r.shortcuts@ == self.shortcuts@,
    {
        self.set_first_channel(ModChannel::Shift, ModifierType::RequireNotPressed)
    }

    /// Forbids Super for the first alternative.
    ///
    /// The Super channel must not have been constrained before.
    pub fn without_super(self) -> (r: Self)
        requires
            self.shortcuts@.len() > 0 ==> self.shortcuts@[0].modifiers.super_key is None,
        ensures
            r.repeats == self.repeats,
            r.shortcuts@.len() == self.shortcuts@.len(),
            forall|i: int| 1 <= i < self.shortcuts@.len() ==> r.shortcuts@[i] == self.shortcuts@[i],
            self.shortcuts@.len() > 0 ==> r.shortcuts@[0].key == self.shortcuts@[0].key,
            self.shortcuts@.len() > 0 ==> r.shortcuts@[0].modifiers == self.shortcuts@[0]
                .modifiers.spec_set_channel(
                ModChannel::Super,
                Some(ModifierType::RequireNotPressed),
            ),
            self.shortcuts@.len() == 0 ==> r.shortcuts@ == self.shortcuts@,
    {
        self.set_first_channel(ModChannel::Super, ModifierType::RequireNotPressed)
    }

    /// Checks whether any alternative activates the group: held down for a
    /// repeating group, just pressed for a single-press group.
    pub fn pressed(&self, keys: &KeyboardState) -> (r: bool)
        ensures
            r == self.spec_active(*keys),
    {
        if self.repeats {
            let mut i: usize = 0;
            while i < self.shortcuts.len()
                invariant
                    self.repeats,
                    i <= self.shortcuts@.len(),
                    forall|j: int| 0 <= j < i ==> !self.shortcuts@[j].spec_held(*keys),
                decreases self.shortcuts@.len() - i,
            {
                if self.shortcuts[i].pressed(keys) {
                    return true;
                }
                i += 1;
            }
            false
        } else {
            let mut i: usize = 0;
            while i < self.shortcuts.len()
                invariant
                    !self.repeats,
                    i <= self.shortcuts@.len(),
                    forall|j: int| 0 <= j < i ==> !self.shortcuts@[j].spec_just_activated(*keys),
                decreases self.shortcuts@.len() - i,
            {
                if self.shortcuts[i].just_pressed(keys) {
                    return true;
                }
                i += 1;
            }
            false
        }
    }

    /// The rendered group: each alternative's label, joined by `", "` in
    /// the alternatives' order.
    pub open spec fn spec_label(self) -> Seq<char> {
        join_with(self.shortcuts@.map_values(|s: Shortcut| s.spec_label()), ", "@)
    }

    /// Renders the whole group as text, e.g. `A, ←`. The empty group
    /// renders as the empty string.
    pub fn label(&self) -> (r: String)
        ensures
            r@ == self.spec_label(),
    {
        let mut parts: Vec<String> = Vec::new();
        let mut i: usize = 0;
        while i < self.shortcuts.len()
            invariant
                i <= self.shortcuts@.len(),
                parts@.len() == i,
                forall|j: int| 0 <= j < i ==> parts@[j]@ == self.shortcuts@[j].spec_label(),
            decreases self.shortcuts@.len() - i,
        {
            parts.push(self.shortcuts[i].label());
            i += 1;
        }
        proof {
            let dv = parts.deep_view();
            let mapped = self.shortcuts@.map_values(|s: Shortcut| s.spec_label());
            assert forall|j: int| 0 <= j < dv.len() implies dv[j] == mapped[j] by {
                assert(dv[j] == parts@[j]@);
            }
            assert(dv =~= mapped);
        }
        join_strs(&parts, ", ")
    }
}

impl Default for Shortcuts {
    /// The empty group: no alternatives, single-press mode. It never
    /// matches any keyboard state.
    fn default() -> (r: Self)
        ensures
            r.shortcuts@.len() == 0,
            r.repeats == false,
    {
        Shortcuts { shortcuts: Vec::new(), repeats: false }
    }
}

/// Rendering is deterministic: `label` promises a view equal to
/// `spec_label`, a function of the group alone, so rendering the same
/// immutable group twice yields identical strings.
pub proof fn lemma_label_deterministic(g: Shortcuts, r1: Seq<char>, r2: Seq<char>)
    requires
        r1 == g.spec_label(),
        r2 == g.spec_label(),
    ensures
        r1 == r2,
{
}

/// A group without alternatives is never active, whatever the keyboard
/// state — in particular the default group matches nothing.
pub proof fn lemma_empty_group_never_active(g: Shortcuts, keys: KeyboardState)
    requires
        g.shortcuts@.len() == 0,
    ensures
        !g.spec_active(keys),
{
}

/// A repeating group reads only which keys are down: it stays active on
/// every consecutive tick the keys stay held, whether or not any transition
/// happened on that tick, and needs no re-arming.
pub proof fn lemma_repeating_level_triggered(g: Shortcuts, s1: KeyboardState, s2: KeyboardState)
    requires
        g.repeats,
        forall|k: Key| s1.is_down(k) == s2.is_down(k),
    ensures
        g.spec_active(s1) == g.spec_active(s2),
{
    assert forall|i: int| 0 <= i < g.shortcuts@.len() implies g.shortcuts@[i].spec_held(s1)
        == g.shortcuts@[i].spec_held(s2) by {
        assert(s1.is_down(g.shortcuts@[i].key) == s2.is_down(g.shortcuts@[i].key));
    }
}

/// A single-press group needs a down-transition: on a tick where none of
/// its keys just transitioned down — for instance every later tick of a
/// long hold — it is inactive, until the key is released and pressed again.
pub proof fn lemma_single_press_needs_edge(g: Shortcuts, keys: KeyboardState)
    requires
        !g.repeats,
        forall|i: int| 0 <= i < g.shortcuts@.len() ==> !keys.is_just_down(#[trigger] g.shortcuts@[i].key),
    ensures
        !g.spec_active(keys),
{
}

/// One matching alternative activates the group, whatever the state of the
/// other alternatives.
pub proof fn lemma_any_alternative_activates(g: Shortcuts, keys: KeyboardState, i: int)
    requires
        0 <= i < g.shortcuts@.len(),
        g.repeats ==> g.shortcuts@[i].spec_held(keys),
        !g.repeats ==> g.shortcuts@[i].spec_just_activated(keys),
    ensures
        g.spec_active(keys),
{
}

/// Conversely, an active group has a matching alternative.
pub proof fn lemma_active_has_witness(g: Shortcuts, keys: KeyboardState)
    requires
        g.spec_active(keys),
    ensures
        exists|i: int|
            0 <= i < g.shortcuts@.len() && (if g.repeats {
                g.shortcuts@[i].spec_held(keys)
            } else {
                g.shortcuts@[i].spec_just_activated(keys)
            }),
{
}

} // verus!
