//! Keyboard listening: the table of configured combinations and the tracker
//! that follows modifier keys and reports which layout action a key press
//! triggers.

use vstd::prelude::*;
use crate::config::settings::HotkeyConfig;
use crate::hotkey::binding::{parse_lowered, refusal_matches, HotkeyParseError};
use crate::hotkey::keys::{read_hotkey, HotkeyReading, KeyCode, ModifierSet};
use crate::layout::action::{all_actions, LayoutAction};
use crate::text::{lowercase_of, to_lowercase};

verus! {

/// A combination of modifier keys and a main key.
#[derive(Debug, Clone, Copy, PartialEq, Eq, Hash, Structural)]
pub struct HotkeyCombo {
    pub ctrl: bool,
    pub alt: bool,
    pub shift: bool,
    pub cmd: bool,
    pub key: KeyCode,
}

/// The combination that modifiers `m` and key `k` make.
pub open spec fn combo_of(m: ModifierSet, k: KeyCode) -> HotkeyCombo {
    HotkeyCombo { ctrl: m.ctrl, alt: m.alt, shift: m.shift, cmd: m.meta, key: k }
}

/// The combination a hotkey string reads as, if it is well formed.
pub open spec fn combo_reading(s: Seq<char>) -> Option<HotkeyCombo> {
    match read_hotkey(lowercase_of(s)) {
        HotkeyReading::Parsed(m, k) => Some(combo_of(m, k)),
        _ => None,
    }
}

/// Parse a hotkey string like `ctrl+alt+left` into a `HotkeyCombo`. Case
/// does not matter: the string is lower-cased (by Unicode case mapping) first.
pub fn parse_hotkey_combo(s: &str) -> (r: Result<HotkeyCombo, HotkeyParseError>)
    ensures
        match read_hotkey(lowercase_of(s@)) {
            HotkeyReading::Parsed(m, k) => r == Ok::<HotkeyCombo, HotkeyParseError>(combo_of(m, k)),
            reading => r matches Err(e) && refusal_matches(e, reading),
        },
{
    let lowered = to_lowercase(s);
    match parse_lowered(lowered.as_str()) {
        Ok((m, key)) => Ok(HotkeyCombo { ctrl: m.ctrl, alt: m.alt, shift: m.shift, cmd: m.meta, key }),
        Err(e) => Err(e),
    }
}

/// The map a list of (combination, action) pairs stands for, later pairs
/// taking precedence over earlier ones for the same combination.
pub open spec fn pairs_map(s: Seq<(HotkeyCombo, LayoutAction)>) -> Map<HotkeyCombo, LayoutAction>
    decreases s.len(),
{
    if s.len() == 0 {
        Map::empty()
    } else {
        pairs_map(s.drop_last()).insert(s.last().0, s.last().1)
    }
}

/// If no pair from `i` on has combination `k`, those pairs do not change
/// what `k` maps to.
pub proof fn lemma_pairs_map_suffix(s: Seq<(HotkeyCombo, LayoutAction)>, i: int, k: HotkeyCombo)
    requires
        0 <= i <= s.len(),
        forall|j: int| i <= j < s.len() ==> (#[trigger] s[j]).0 != k,
    ensures
        pairs_map(s).contains_key(k) == pairs_map(s.take(i)).contains_key(k),
        pairs_map(s).contains_key(k) ==> pairs_map(s)[k] == pairs_map(s.take(i))[k],
    decreases s.len() - i,
{
    if i < s.len() {
        assert(s.drop_last().take(i) =~= s.take(i));
        assert forall|j: int| i <= j < s.drop_last().len() implies (#[trigger] s.drop_last()[j]).0 != k by {
            assert(s.drop_last()[j] == s[j]);
        }
        lemma_pairs_map_suffix(s.drop_last(), i, k);
    } else {
        assert(s.take(i) =~= s);
    }
}

/// The configured combinations and the action each one triggers.
pub struct HotkeyBindings {
    pairs: Vec<(HotkeyCombo, LayoutAction)>,
}

impl View for HotkeyBindings {
    type V = Map<HotkeyCombo, LayoutAction>;

    closed spec fn view(&self) -> Map<HotkeyCombo, LayoutAction> {
        pairs_map(self.pairs@)
    }
}

impl HotkeyBindings {
    /// No bindings.
    pub fn new() -> (r: HotkeyBindings)
        ensures
            r@ == Map::<HotkeyCombo, LayoutAction>::empty(),
    {
        HotkeyBindings { pairs: Vec::new() }
    }

    /// Binds `combo` to `action`, replacing what it was bound to before.
    pub fn insert(&mut self, combo: HotkeyCombo, action: LayoutAction)
        ensures
            final(self)@ == old(self)@.insert(combo, action),
    {
        self.pairs.push((combo, action));
        proof {
            assert(self.pairs@.drop_last() =~= old(self).pairs@);
        }
    }

    /// The action `combo` is bound to, if any.
    pub fn get(&self, combo: &HotkeyCombo) -> (r: Option<LayoutAction>)
        ensures
            r == (if self@.contains_key(*combo) {
                Some(self@[*combo])
            } else {
                None
            }),
    {
        let mut i = self.pairs.len();
        while i > 0
            invariant
                i <= self.pairs.len(),
                forall|j: int| i <= j < self.pairs.len() ==> (#[trigger] self.pairs@[j]).0 != *combo,
            decreases i,
        {
            let pair = &self.pairs[i - 1];
            if pair.0 == *combo {
                proof {
                    lemma_pairs_map_suffix(self.pairs@, i as int, *combo);
                    assert(self.pairs@.take(i as int).drop_last() =~= self.pairs@.take(i - 1));
                }
                return Some(pair.1);
            }
            i = i - 1;
        }
        proof {
            lemma_pairs_map_suffix(self.pairs@, 0, *combo);
            assert(self.pairs@.take(0) =~= Seq::<(HotkeyCombo, LayoutAction)>::empty());
        }
        None
    }
}

/// The bindings a configuration makes from its first `n` actions (in
/// `all_actions()` order): each action whose binding string is well formed
/// binds its combination; a later action with the same combination wins.
pub open spec fn configured_bindings(config: HotkeyConfig, n: int) -> Map<HotkeyCombo, LayoutAction>
    decreases n,
{
    if n <= 0 {
        Map::empty()
    } else {
        let before = configured_bindings(config, n - 1);
        let a = all_actions()[n - 1];
        match config.binding_of(a) {
            Some(s) => match combo_reading(s@) {
                Some(c) => before.insert(c, a),
                None => before,
            },
            None => before,
        }
    }
}

/// The actions among the first `n` (in `all_actions()` order) whose binding
/// string is present but not well formed.
pub open spec fn refused_actions(config: HotkeyConfig, n: int) -> Seq<LayoutAction>
    decreases n,
{
    if n <= 0 {
        Seq::empty()
    } else {
        let before = refused_actions(config, n - 1);
        let a = all_actions()[n - 1];
        match config.binding_of(a) {
            Some(s) => match combo_reading(s@) {
                Some(_) => before,
                None => before.push(a),
            },
            None => before,
        }
    }
}

/// Manages keyboard listening and hotkey detection.
pub struct HotkeyManager;

impl HotkeyManager {
    /// The bindings of a hotkey configuration, with the actions whose binding
    /// string was refused and why, in `all_actions()` order.
    pub fn bindings(config: &HotkeyConfig) -> (r: (HotkeyBindings, Vec<(LayoutAction, HotkeyParseError)>))
        ensures
            r.0@ == configured_bindings(*config, 17),
            r.1@.map_values(|p: (LayoutAction, HotkeyParseError)| p.0) == refused_actions(*config, 17),
            forall|i: int| 0 <= i < r.1.len() ==> {
                let (a, e) = #[trigger] r.1@[i];
                config.binding_of(a) matches Some(s) && refusal_matches(e, read_hotkey(lowercase_of(s@)))
            },
    {
        let actions = LayoutAction::all();
        let mut bindings = HotkeyBindings::new();
        let mut refused: Vec<(LayoutAction, HotkeyParseError)> = Vec::new();
        let mut i: usize = 0;
        while i < actions.len()
            invariant
                actions@ == all_actions(),
                i <= actions.len(),
                bindings@ == configured_bindings(*config, i as int),
                refused@.map_values(|p: (LayoutAction, HotkeyParseError)| p.0) == refused_actions(
                    *config,
                    i as int,
                ),
                forall|j: int| 0 <= j < refused.len() ==> {
                    let (a, e) = #[trigger] refused@[j];
                    config.binding_of(a) matches Some(s) && refusal_matches(e, read_hotkey(lowercase_of(s@)))
                },
            decreases actions.len() - i,
        {
            let action = actions[i];
            match config.get(action) {
                Some(s) => match parse_hotkey_combo(s.as_str()) {
                    Ok(combo) => bindings.insert(combo, action),
                    Err(e) => {
                        let ghost before = refused@;
                        refused.push((action, e));
                        assert(refused@.map_values(|p: (LayoutAction, HotkeyParseError)| p.0)
                            =~= before.map_values(|p: (LayoutAction, HotkeyParseError)| p.0).push(
                            action,
                        ));
                    },
                },
                None => {},
            }
            i = i + 1;
        }
        (bindings, refused)
    }
}

/// A physical key as the keyboard listener reports it.
#[derive(Debug, Clone, Copy, PartialEq, Eq, Structural)]
pub enum InputKey {
    ControlLeft,
    ControlRight,
    Alt,
    AltGr,
    ShiftLeft,
    ShiftRight,
    MetaLeft,
    MetaRight,
    /// A key a binding can name.
    Named(KeyCode),
    /// Any other key.
    Other,
}

/// A keyboard event.
#[derive(Debug, Clone, Copy, PartialEq, Eq, Structural)]
pub enum KeyEvent {
    Press(InputKey),
    Release(InputKey),
    /// Mouse and wheel events, which change nothing.
    Other,
}

/// Which modifier keys are held down.
#[derive(Debug, Clone, Copy, PartialEq, Eq, Structural)]
pub struct KeyboardState {
    pub ctrl: bool,
    pub alt: bool,
    pub shift: bool,
    pub cmd: bool,
}

/// The state after `event`: pressing a modifier key sets its flag,
/// releasing it clears it, and nothing else changes the flags.
pub open spec fn next_state(s: KeyboardState, event: KeyEvent) -> KeyboardState {
    match event {
        KeyEvent::Press(k) => match k {
            InputKey::ControlLeft | InputKey::ControlRight => KeyboardState { ctrl: true, ..s },
            InputKey::Alt | InputKey::AltGr => KeyboardState { alt: true, ..s },
            InputKey::ShiftLeft | InputKey::ShiftRight => KeyboardState { shift: true, ..s },
            InputKey::MetaLeft | InputKey::MetaRight => KeyboardState { cmd: true, ..s },
            _ => s,
        },
        KeyEvent::Release(k) => match k {
            InputKey::ControlLeft | InputKey::ControlRight => KeyboardState { ctrl: false, ..s },
            InputKey::Alt | InputKey::AltGr => KeyboardState { alt: false, ..s },
            InputKey::ShiftLeft | InputKey::ShiftRight => KeyboardState { shift: false, ..s },
            InputKey::MetaLeft | InputKey::MetaRight => KeyboardState { cmd: false, ..s },
            _ => s,
        },
        KeyEvent::Other => s,
    }
}

/// The action `event` triggers in state `s`: pressing a non-modifier key
/// that, with the modifiers held exactly as in `s`, makes a bound
/// combination.
pub open spec fn triggered(
    s: KeyboardState,
    event: KeyEvent,
    bindings: Map<HotkeyCombo, LayoutAction>,
) -> Option<LayoutAction> {
    match event {
        KeyEvent::Press(InputKey::Named(k)) => {
            let c = HotkeyCombo { ctrl: s.ctrl, alt: s.alt, shift: s.shift, cmd: s.cmd, key: k };
            if bindings.contains_key(c) {
                Some(bindings[c])
            } else {
                None
            }
        },
        _ => None,
    }
}

impl KeyboardState {
    /// No modifier held.
    pub fn new() -> (r: KeyboardState)
        ensures
            r == (KeyboardState { ctrl: false, alt: false, shift: false, cmd: false }),
    {
        KeyboardState { ctrl: false, alt: false, shift: false, cmd: false }
    }

    /// Follows one keyboard event, and returns the action it triggers.
    pub fn handle(&mut self, event: KeyEvent, bindings: &HotkeyBindings) -> (r: Option<LayoutAction>)
        ensures
            *final(self) == next_state(*old(self), event),
            r == triggered(*old(self), event, bindings@),
    {
        match event {
            KeyEvent::Press(key) => match key {
                InputKey::ControlLeft | InputKey::ControlRight => {
                    self.ctrl = true;
                    None
                },
                InputKey::Alt | InputKey::AltGr => {
                    self.alt = true;
                    None
                },
                InputKey::ShiftLeft | InputKey::ShiftRight => {
                    self.shift = true;
                    None
                },
                InputKey::MetaLeft | InputKey::MetaRight => {
                    self.cmd = true;
                    None
                },
                InputKey::Named(k) => {
                    let combo = HotkeyCombo {
                        ctrl: self.ctrl,
                        alt: self.alt,
                        shift: self.shift,
                        cmd: self.cmd,
                        key: k,
                    };
                    bindings.get(&combo)
                },
                InputKey::Other => None,
            },
            KeyEvent::Release(key) => {
                match key {
                    InputKey::ControlLeft | InputKey::ControlRight => self.ctrl = false,
                    InputKey::Alt | InputKey::AltGr => self.alt = false,
                    InputKey::ShiftLeft | InputKey::ShiftRight => self.shift = false,
                    InputKey::MetaLeft | InputKey::MetaRight => self.cmd = false,
                    _ => {},
                }
                None
            },
            KeyEvent::Other => None,
        }
    }
}


/// Once action `a` has bound its combination `c`, no later action that
/// binds some other combination (or nothing) takes `c` away.
proof fn lemma_binding_survives(config: HotkeyConfig, a: LayoutAction, c: HotkeyCombo, n: int)
    requires
        crate::layout::action::action_index(a) < n <= 17,
        config.binding_of(a) matches Some(s) && combo_reading(s@) == Some(c),
        forall|j: int|
            crate::layout::action::action_index(a) < j < n ==> !(config.binding_of(
                #[trigger] all_actions()[j],
            ) matches Some(t) && combo_reading(t@) == Some(c)),
    ensures
        configured_bindings(config, n).contains_key(c),
        configured_bindings(config, n)[c] == a,
    decreases n,
{
    crate::layout::action::lemma_all_actions_enumerates(a);
    if n - 1 > crate::layout::action::action_index(a) {
        lemma_binding_survives(config, a, c, n - 1);
    }
}

/// A configured hotkey fires its action: when the binding string of action
/// `a` reads as the combination `c`, and no action listed after `a` is bound
/// to the same combination, then pressing `c`'s key while holding exactly
/// `c`'s modifiers triggers `a` and nothing else.
pub proof fn lemma_configured_hotkey_fires(config: HotkeyConfig, a: LayoutAction, c: HotkeyCombo)
    requires
        config.binding_of(a) matches Some(s) && combo_reading(s@) == Some(c),
        forall|b: LayoutAction|
            crate::layout::action::action_index(b) > crate::layout::action::action_index(a)
                ==> !(config.binding_of(b) matches Some(t) && combo_reading(t@) == Some(c)),
    ensures
        triggered(
            KeyboardState { ctrl: c.ctrl, alt: c.alt, shift: c.shift, cmd: c.cmd },
            KeyEvent::Press(InputKey::Named(c.key)),
            configured_bindings(config, 17),
        ) == Some(a),
{
    assert forall|j: int|
        crate::layout::action::action_index(a) < j < 17 implies !(config.binding_of(
            #[trigger] all_actions()[j],
        ) matches Some(t) && combo_reading(t@) == Some(c)) by {
        let b = all_actions()[j];
        crate::layout::action::lemma_all_actions_enumerates(b);
    }
    crate::layout::action::lemma_all_actions_enumerates(a);
    lemma_binding_survives(config, a, c, 17);
    let k = KeyboardState { ctrl: c.ctrl, alt: c.alt, shift: c.shift, cmd: c.cmd };
    assert(HotkeyCombo { ctrl: k.ctrl, alt: k.alt, shift: k.shift, cmd: k.cmd, key: c.key } == c);
}

/// Every bound combination comes from the configuration: the action it
/// triggers has a binding string that reads as that very combination.
pub proof fn lemma_bindings_come_from_config(config: HotkeyConfig, c: HotkeyCombo, n: int)
    requires
        0 <= n <= 17,
        configured_bindings(config, n).contains_key(c),
    ensures
        config.binding_of(configured_bindings(config, n)[c]) matches Some(s) && combo_reading(s@)
            == Some(c),
    decreases n,
{
    if n > 0 {
        let a = all_actions()[n - 1];
        let before = configured_bindings(config, n - 1);
        if config.binding_of(a) matches Some(s) && combo_reading(s@) == Some(c) {
        } else {
            lemma_bindings_come_from_config(config, c, n - 1);
        }
    }
}

/// The modifier flag that key `k` drives, if it is a modifier key.
pub open spec fn is_modifier_key(k: InputKey) -> bool {
    match k {
        InputKey::Named(_) | InputKey::Other => false,
        _ => true,
    }
}

/// Pressing and then releasing a modifier key that was not held leaves the
/// held modifiers as they were; neither event triggers anything.
pub proof fn lemma_modifier_press_release(
    s: KeyboardState,
    k: InputKey,
    bindings: Map<HotkeyCombo, LayoutAction>,
)
    requires
        is_modifier_key(k),
        next_state(s, KeyEvent::Press(k)) != s,
    ensures
        next_state(next_state(s, KeyEvent::Press(k)), KeyEvent::Release(k)) == s,
        triggered(s, KeyEvent::Press(k), bindings) is None,
        triggered(next_state(s, KeyEvent::Press(k)), KeyEvent::Release(k), bindings) is None,
{
}

/// Only pressing a key that bindings can name ever triggers an action, and
/// such a press leaves the held modifiers unchanged.
pub proof fn lemma_only_key_presses_trigger(
    s: KeyboardState,
    e: KeyEvent,
    bindings: Map<HotkeyCombo, LayoutAction>,
)
    ensures
        triggered(s, e, bindings) is Some ==> e matches KeyEvent::Press(InputKey::Named(_)),
        e matches KeyEvent::Press(InputKey::Named(_)) ==> next_state(s, e) == s,
{
}

/// Each modifier key drives its own flag and no other: a Control key sets
/// `ctrl`, Alt or AltGr `alt`, a Shift key `shift` and a Meta key `cmd` when
/// pressed, and clears it when released; the other three flags stay as they
/// were.
pub proof fn lemma_modifier_keys_drive_their_own_flag(s: KeyboardState)
    ensures
        next_state(s, KeyEvent::Press(InputKey::ControlLeft)) == (KeyboardState { ctrl: true, alt: s.alt, shift: s.shift, cmd: s.cmd }),
        next_state(s, KeyEvent::Release(InputKey::ControlLeft)) == (KeyboardState { ctrl: false, alt: s.alt, shift: s.shift, cmd: s.cmd }),
        next_state(s, KeyEvent::Press(InputKey::ControlRight)) == (KeyboardState { ctrl: true, alt: s.alt, shift: s.shift, cmd: s.cmd }),
        next_state(s, KeyEvent::Release(InputKey::ControlRight)) == (KeyboardState { ctrl: false, alt: s.alt, shift: s.shift, cmd: s.cmd }),
        next_state(s, KeyEvent::Press(InputKey::Alt)) == (KeyboardState { ctrl: s.ctrl, alt: true, shift: s.shift, cmd: s.cmd }),
        next_state(s, KeyEvent::Release(InputKey::Alt)) == (KeyboardState { ctrl: s.ctrl, alt: false, shift: s.shift, cmd: s.cmd }),
        next_state(s, KeyEvent::Press(InputKey::AltGr)) == (KeyboardState { ctrl: s.ctrl, alt: true, shift: s.shift, cmd: s.cmd }),
        next_state(s, KeyEvent::Release(InputKey::AltGr)) == (KeyboardState { ctrl: s.ctrl, alt: false, shift: s.shift, cmd: s.cmd }),
        next_state(s, KeyEvent::Press(InputKey::ShiftLeft)) == (KeyboardState { ctrl: s.ctrl, alt: s.alt, shift: true, cmd: s.cmd }),
        next_state(s, KeyEvent::Release(InputKey::ShiftLeft)) == (KeyboardState { ctrl: s.ctrl, alt: s.alt, shift: false, cmd: s.cmd }),
        next_state(s, KeyEvent::Press(InputKey::ShiftRight)) == (KeyboardState { ctrl: s.ctrl, alt: s.alt, shift: true, cmd: s.cmd }),
        next_state(s, KeyEvent::Release(InputKey::ShiftRight)) == (KeyboardState { ctrl: s.ctrl, alt: s.alt, shift: false, cmd: s.cmd }),
        next_state(s, KeyEvent::Press(InputKey::MetaLeft)) == (KeyboardState { ctrl: s.ctrl, alt: s.alt, shift: s.shift, cmd: true }),
        next_state(s, KeyEvent::Release(InputKey::MetaLeft)) == (KeyboardState { ctrl: s.ctrl, alt: s.alt, shift: s.shift, cmd: false }),
        next_state(s, KeyEvent::Press(InputKey::MetaRight)) == (KeyboardState { ctrl: s.ctrl, alt: s.alt, shift: s.shift, cmd: true }),
        next_state(s, KeyEvent::Release(InputKey::MetaRight)) == (KeyboardState { ctrl: s.ctrl, alt: s.alt, shift: s.shift, cmd: false }),
{
}

/// The state reached from `s` by pressing, in turn, the left Control, Alt,
/// left Shift and left Meta keys that combination `c` holds.
pub open spec fn after_pressing_modifiers(s: KeyboardState, c: HotkeyCombo) -> KeyboardState {
    let s1 = if c.ctrl {
        next_state(s, KeyEvent::Press(InputKey::ControlLeft))
    } else {
        s
    };
    let s2 = if c.alt {
        next_state(s1, KeyEvent::Press(InputKey::Alt))
    } else {
        s1
    };
    let s3 = if c.shift {
        next_state(s2, KeyEvent::Press(InputKey::ShiftLeft))
    } else {
        s2
    };
    if c.cmd {
        next_state(s3, KeyEvent::Press(InputKey::MetaLeft))
    } else {
        s3
    }
}

/// Pressing a combination fires what it is bound to: from no modifier held,
/// pressing the modifier keys of `c` holds exactly `c`'s modifiers, and then
/// pressing `c`'s key triggers the action `bindings` binds to `c`, or
/// nothing when `c` is unbound.
pub proof fn lemma_pressing_a_combination_fires_it(
    c: HotkeyCombo,
    bindings: Map<HotkeyCombo, LayoutAction>,
)
    ensures
        ({
            let s = after_pressing_modifiers(
                KeyboardState { ctrl: false, alt: false, shift: false, cmd: false },
                c,
            );
            &&& s.ctrl == c.ctrl && s.alt == c.alt && s.shift == c.shift && s.cmd == c.cmd
            &&& triggered(s, KeyEvent::Press(InputKey::Named(c.key)), bindings) == (if bindings.contains_key(c) {
                Some(bindings[c])
            } else {
                None
            })
        }),
{
    let s = after_pressing_modifiers(
        KeyboardState { ctrl: false, alt: false, shift: false, cmd: false },
        c,
    );
    assert(HotkeyCombo { ctrl: s.ctrl, alt: s.alt, shift: s.shift, cmd: s.cmd, key: c.key } == c);
}

} // verus!
