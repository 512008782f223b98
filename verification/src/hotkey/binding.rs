//! Hotkey bindings in the form the system hotkey registry takes them.

use vstd::prelude::*;
use crate::hotkey::keys::{
    key_from_name, key_from_str, modifier_from_str, read_hotkey, read_modifiers,
    lemma_read_modifiers_stops, HotkeyReading, KeyCode, ModifierSet,
};
use crate::layout::action::LayoutAction;
use crate::text::{lowercase_of, split_on, split_str, to_lowercase};

verus! {

/// Why a hotkey string was refused.
#[derive(Debug, Clone)]
pub enum HotkeyParseError {
    InvalidFormat(String),
    UnknownModifier(String),
    UnknownKey(String),
}

/// `e` is the refusal `reading` calls for.
pub open spec fn refusal_matches(e: HotkeyParseError, reading: HotkeyReading) -> bool {
    match reading {
        HotkeyReading::Parsed(_, _) => false,
        HotkeyReading::UnknownModifier(p) => e matches HotkeyParseError::UnknownModifier(s) && s@ == p,
        HotkeyReading::UnknownKey(p) => e matches HotkeyParseError::UnknownKey(s) && s@ == p,
    }
}

/// `r` is what `reading` calls for: the modifiers and key, or the refusal.
pub open spec fn reports(
    r: Result<(ModifierSet, KeyCode), HotkeyParseError>,
    reading: HotkeyReading,
) -> bool {
    match r {
        Ok((m, k)) => reading == HotkeyReading::Parsed(m, k),
        Err(e) => refusal_matches(e, reading),
    }
}

/// A key combination: modifiers and one main key.
#[derive(Debug, Clone, Copy, PartialEq, Eq, Hash, Structural)]
pub struct HotKey {
    pub mods: ModifierSet,
    pub key: KeyCode,
}

/// A binding between a hotkey string and a layout action.
#[derive(Debug, Clone, Copy, PartialEq, Eq, Structural)]
pub struct HotkeyBinding {
    pub hotkey: HotKey,
    pub action: LayoutAction,
}

/// The key a key name stands for, or `UnknownKey` with the name.
pub fn parse_key_code(key: &str) -> (r: Result<KeyCode, HotkeyParseError>)
    ensures
        match key_from_name(key@) {
            Some(k) => r == Ok::<KeyCode, HotkeyParseError>(k),
            None => r matches Err(HotkeyParseError::UnknownKey(s)) && s@ == key@,
        },
{
    match key_from_str(key) {
        Some(k) => Ok(k),
        None => Err(HotkeyParseError::UnknownKey(key.to_owned())),
    }
}

/// Reads a lower-case hotkey string: `Ok` with the modifiers and key, or
/// the piece that was not understood.
pub fn parse_lowered(lowered: &str) -> (r: Result<(ModifierSet, KeyCode), HotkeyParseError>)
    ensures
        reports(r, read_hotkey(lowered@)),
{
    let parts = split_str(lowered, '+');
    let ghost ps = parts.deep_view();
    let last = parts.len() - 1;
    let mut mods = ModifierSet::empty();
    let mut i: usize = 0;
    while i < last
        invariant
            ps == parts.deep_view(),
            ps == split_on(lowered@, '+'),
            last + 1 == parts.len(),
            i <= last,
            read_modifiers(ps.take(i as int)) == Ok::<ModifierSet, Seq<char>>(mods),
        decreases last - i,
    {
        let part = &parts[i];
        proof {
            assert(ps.take(i + 1).drop_last() =~= ps.take(i as int));
            assert(ps.take(i + 1).last() == part@);
        }
        match modifier_from_str(part.as_str()) {
            Some(m) => mods.add(m),
            None => {
                proof {
                    assert(ps.drop_last().take(i as int) =~= ps.take(i as int));
                    lemma_read_modifiers_stops(ps.drop_last(), i as int);
                }
                return Err(HotkeyParseError::UnknownModifier(part.clone()));
            },
        }
        i = i + 1;
    }
    assert(ps.take(last as int) =~= ps.drop_last());
    let key = &parts[last];
    match parse_key_code(key.as_str()) {
        Ok(k) => Ok((mods, k)),
        Err(e) => Err(e),
    }
}


/// Parse a hotkey string like `ctrl+alt+left` into a `HotKey`. Case does
/// not matter: the string is lower-cased (by Unicode case mapping) first.
pub fn parse_hotkey(s: &str) -> (r: Result<HotKey, HotkeyParseError>)
    ensures
        match read_hotkey(lowercase_of(s@)) {
            HotkeyReading::Parsed(m, k) => r == Ok::<HotKey, HotkeyParseError>(HotKey { mods: m, key: k }),
            reading => r matches Err(e) && refusal_matches(e, reading),
        },
{
    let lowered = to_lowercase(s);
    match parse_lowered(lowered.as_str()) {
        Ok((mods, key)) => Ok(HotKey { mods, key }),
        Err(e) => Err(e),
    }
}

impl HotkeyBinding {
    /// Create a new hotkey binding from a string and action.
    pub fn new(hotkey_str: &str, action: LayoutAction) -> (r: Result<Self, HotkeyParseError>)
        ensures
            match read_hotkey(lowercase_of(hotkey_str@)) {
                HotkeyReading::Parsed(m, k) => r == Ok::<HotkeyBinding, HotkeyParseError>(
                    HotkeyBinding { hotkey: HotKey { mods: m, key: k }, action },
                ),
                reading => r matches Err(e) && refusal_matches(e, reading),
            },
    {
        let hotkey = parse_hotkey(hotkey_str)?;
        Ok(HotkeyBinding { hotkey, action })
    }
}

} // verus!
