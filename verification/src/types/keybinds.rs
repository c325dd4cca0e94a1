//! Navigation key bindings.

use vstd::prelude::*;

verus! {

/// A navigation action that panels bind keys to.
#[derive(Debug, Clone, Copy, PartialEq, Eq, Hash, Structural)]
pub enum KeybindAction {
    Validate,
    Cancel,
    Left,
    Right,
    Up,
    Down,
    TabNext,
    TabPrevious,
}

impl KeybindAction {
    /// The variant a missing setting takes.
    pub open spec fn spec_default() -> KeybindAction {
        KeybindAction::Validate
    }
}

impl Default for KeybindAction {
    fn default() -> (r: Self)
        ensures
            r == KeybindAction::Validate,
    {
        KeybindAction::Validate
    }
}

/// A key symbol together with the modifiers held with it.
#[derive(Debug, Clone, Copy, PartialEq, Eq, Hash, Default, Structural)]
pub struct KeyChord {
    /// The XKB key symbol.
    pub sym: u32,
    /// The modifier mask.
    pub modifiers: u32,
}

/// XKB key symbols of the default bindings.
pub const XKB_KEY_RETURN: u32 = 0xff0d;
pub const XKB_KEY_KP_ENTER: u32 = 0xff8d;
pub const XKB_KEY_SPACE: u32 = 0x0020;
pub const XKB_KEY_ESCAPE: u32 = 0xff1b;
pub const XKB_KEY_LEFT: u32 = 0xff51;
pub const XKB_KEY_RIGHT: u32 = 0xff53;
pub const XKB_KEY_UP: u32 = 0xff52;
pub const XKB_KEY_DOWN: u32 = 0xff54;
pub const XKB_KEY_TAB: u32 = 0xff09;
pub const XKB_KEY_ISO_LEFT_TAB: u32 = 0xfe20;
/// The shift modifier bit.
pub const KEY_MOD_SHIFT: u32 = 1;

/// The default key chords of each action.
pub open spec fn spec_default_keybind_set(action: KeybindAction) -> Seq<KeyChord> {
    match action {
        KeybindAction::Validate => seq![KeyChord { sym: XKB_KEY_RETURN, modifiers: 0 }, KeyChord { sym: XKB_KEY_KP_ENTER, modifiers: 0 }, KeyChord { sym: XKB_KEY_SPACE, modifiers: 0 }],
        KeybindAction::Cancel => seq![KeyChord { sym: XKB_KEY_ESCAPE, modifiers: 0 }],
        KeybindAction::Left => seq![KeyChord { sym: XKB_KEY_LEFT, modifiers: 0 }],
        KeybindAction::Right => seq![KeyChord { sym: XKB_KEY_RIGHT, modifiers: 0 }],
        KeybindAction::Up => seq![KeyChord { sym: XKB_KEY_UP, modifiers: 0 }],
        KeybindAction::Down => seq![KeyChord { sym: XKB_KEY_DOWN, modifiers: 0 }],
        KeybindAction::TabNext => seq![KeyChord { sym: XKB_KEY_TAB, modifiers: 0 }],
        KeybindAction::TabPrevious => seq![KeyChord { sym: XKB_KEY_ISO_LEFT_TAB, modifiers: KEY_MOD_SHIFT }],
    }
}

/// The default key chords bound to `action`.
pub fn default_keybind_set(action: KeybindAction) -> (r: Vec<KeyChord>)
    ensures
        r@ == spec_default_keybind_set(action),
{
    let mut v: Vec<KeyChord> = Vec::new();
    match action {
        KeybindAction::Validate => {
            v.push(KeyChord { sym: XKB_KEY_RETURN, modifiers: 0 });
            v.push(KeyChord { sym: XKB_KEY_KP_ENTER, modifiers: 0 });
            v.push(KeyChord { sym: XKB_KEY_SPACE, modifiers: 0 });
        },
        KeybindAction::Cancel => {
            v.push(KeyChord { sym: XKB_KEY_ESCAPE, modifiers: 0 });
        },
        KeybindAction::Left => {
            v.push(KeyChord { sym: XKB_KEY_LEFT, modifiers: 0 });
        },
        KeybindAction::Right => {
            v.push(KeyChord { sym: XKB_KEY_RIGHT, modifiers: 0 });
        },
        KeybindAction::Up => {
            v.push(KeyChord { sym: XKB_KEY_UP, modifiers: 0 });
        },
        KeybindAction::Down => {
            v.push(KeyChord { sym: XKB_KEY_DOWN, modifiers: 0 });
        },
        KeybindAction::TabNext => {
            v.push(KeyChord { sym: XKB_KEY_TAB, modifiers: 0 });
        },
        KeybindAction::TabPrevious => {
            v.push(KeyChord { sym: XKB_KEY_ISO_LEFT_TAB, modifiers: KEY_MOD_SHIFT });
        },
    }
    proof {
        assert(v@ =~= spec_default_keybind_set(action));
    }
    v
}

/// The key chords bound to each navigation action.
#[derive(Debug, Clone, PartialEq, Eq)]
pub struct KeybindsConfig {
    pub validate: Vec<KeyChord>,
    pub cancel: Vec<KeyChord>,
    pub left: Vec<KeyChord>,
    pub right: Vec<KeyChord>,
    pub up: Vec<KeyChord>,
    pub down: Vec<KeyChord>,
    pub tab_next: Vec<KeyChord>,
    pub tab_previous: Vec<KeyChord>,
}

impl Default for KeybindsConfig {
    fn default() -> (r: Self)
        ensures
            r.validate@ == spec_default_keybind_set(KeybindAction::Validate),
            r.cancel@ == spec_default_keybind_set(KeybindAction::Cancel),
            r.left@ == spec_default_keybind_set(KeybindAction::Left),
            r.right@ == spec_default_keybind_set(KeybindAction::Right),
            r.up@ == spec_default_keybind_set(KeybindAction::Up),
            r.down@ == spec_default_keybind_set(KeybindAction::Down),
            r.tab_next@ == spec_default_keybind_set(KeybindAction::TabNext),
            r.tab_previous@ == spec_default_keybind_set(KeybindAction::TabPrevious),
    {
        KeybindsConfig {
            validate: default_keybind_set(KeybindAction::Validate),
            cancel: default_keybind_set(KeybindAction::Cancel),
            left: default_keybind_set(KeybindAction::Left),
            right: default_keybind_set(KeybindAction::Right),
            up: default_keybind_set(KeybindAction::Up),
            down: default_keybind_set(KeybindAction::Down),
            tab_next: default_keybind_set(KeybindAction::TabNext),
            tab_previous: default_keybind_set(KeybindAction::TabPrevious),
        }
    }
}

} // verus!
