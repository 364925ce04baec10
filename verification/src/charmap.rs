//! Keyboard character mapping state: the modifier keys a UK English keyboard
//! decoder tracks, and the rules for shift and caps lock. The scan-code
//! tables themselves belong to the surrounding application, which feeds
//! modifier changes in through this type.

use vstd::prelude::*;

verus! {

/// A key with no printable value of its own.
#[derive(Clone, Copy, PartialEq, Eq, Structural, Debug)]
pub enum SpecialKey {
    /// The Down cursor key
    ArrowDown,
    /// The Left cursor key
    ArrowLeft,
    /// The Right cursor key
    ArrowRight,
    /// The Up cursor key
    ArrowUp,
    /// The `Delete` (`Del`) key
    Delete,
    /// The `End` key
    End,
    /// The `F1` key
    F1,
    /// The `F2` key
    F2,
    /// The `F3` key
    F3,
    /// The `F4` key
    F4,
    /// The `F5` key
    F5,
    /// The `F6` key
    F6,
    /// The `F7` key
    F7,
    /// The `F8` key
    F8,
    /// The `F9` key
    F9,
    /// The `F10` key
    F10,
    /// The `F11` key
    F11,
    /// The `F12` key
    F12,
    /// The `Home` key
    Home,
    /// The `Insert` key
    Insert,
    /// The `Right-click Menu` key
    Menus,
    /// The `Num Lock` key on the Numeric Keypad
    NumpadLock,
    /// The `Page Down` key
    PageDown,
    /// The `Page Up` key
    PageUp,
    /// The `Pause/Break` key
    PauseBreak,
    /// The `Print Screen` (`PrtScr`) key
    PrintScreen,
    /// The `Scroll Lock` key
    ScrollLock,
    /// Media transport: previous track
    PrevTrack,
    /// Media transport: next track
    NextTrack,
    /// Media transport: mute audio
    Mute,
    /// Application key: open calculator
    Calculator,
    /// Media transport: play audio
    Play,
    /// Media transport: stop audio
    Stop,
    /// Media transport: turn volume down
    VolumeDown,
    /// Media transport: turn volume up
    VolumeUp,
    /// Media transport: open browser to homepage
    WWWHome,
    /// Keyboard power-on test passed; expect this once on start-up.
    PowerOnTestOk,
}

/// Represents a single keypress: a Unicode character, or a special key.
#[derive(Clone, Copy, PartialEq, Eq, Structural, Debug)]
pub enum Keypress {
    /// Got a new Unicode character from the keyboard
    Unicode(char),
    /// Got some special keypress (e.g. an arrow key)
    Special(SpecialKey),
}

/// One of the modifier keys the decoder keeps state for.
#[derive(Clone, Copy, PartialEq, Eq, Structural, Debug)]
pub enum ModifierKey {
    AltLeft,
    AltRight,
    CapsLock,
    ControlLeft,
    ControlRight,
    ShiftLeft,
    ShiftRight,
    WindowsLeft,
    WindowsRight,
}

/// Decodes a 104/105-key UK English keyboard: the modifier state.
#[derive(Clone, Copy, PartialEq, Eq, Structural, Debug)]
pub struct UKEnglish {
    pub left_shift: bool,
    pub right_shift: bool,
    pub left_alt: bool,
    pub right_alt: bool,
    pub left_ctrl: bool,
    pub right_ctrl: bool,
    pub left_win: bool,
    pub right_win: bool,
    pub caps_lock: bool,
}

impl UKEnglish {
    /// A decoder with no modifier held and caps lock off.
    pub fn new() -> (r: UKEnglish)
        ensures
            !r.left_shift,
            !r.right_shift,
            !r.left_alt,
            !r.right_alt,
            !r.left_ctrl,
            !r.right_ctrl,
            !r.left_win,
            !r.right_win,
            !r.caps_lock,
    {
        UKEnglish {
            left_shift: false,
            right_shift: false,
            left_alt: false,
            right_alt: false,
            left_ctrl: false,
            right_ctrl: false,
            left_win: false,
            right_win: false,
            caps_lock: false,
        }
    }

    /// Is either shift key held?
    pub fn shift_pressed(&self) -> (r: bool)
        ensures
            r == (self.left_shift || self.right_shift),
    {
        self.left_shift || self.right_shift
    }

    /// Should letters come out as capitals? Caps lock and shift each flip it.
    pub fn want_capitals(&self) -> (r: bool)
        ensures
            r == (self.caps_lock != (self.left_shift || self.right_shift)),
    {
        let shifted = self.shift_pressed();
        if self.caps_lock {
            !shifted
        } else {
            shifted
        }
    }

    /// A modifier key went down: hold keys become held; caps lock toggles.
    pub fn modifier_pressed(&mut self, key: ModifierKey)
        ensures
            *final(self) == match key {
                ModifierKey::AltLeft => UKEnglish { left_alt: true, ..*old(self) },
                ModifierKey::AltRight => UKEnglish { right_alt: true, ..*old(self) },
                ModifierKey::CapsLock => UKEnglish {
                    caps_lock: !old(self).caps_lock,
                    ..*old(self)
                },
                ModifierKey::ControlLeft => UKEnglish { left_ctrl: true, ..*old(self) },
                ModifierKey::ControlRight => UKEnglish { right_ctrl: true, ..*old(self) },
                ModifierKey::ShiftLeft => UKEnglish { left_shift: true, ..*old(self) },
                ModifierKey::ShiftRight => UKEnglish { right_shift: true, ..*old(self) },
                ModifierKey::WindowsLeft => UKEnglish { left_win: true, ..*old(self) },
                ModifierKey::WindowsRight => UKEnglish { right_win: true, ..*old(self) },
            },
    {
        match key {
            ModifierKey::AltLeft => self.left_alt = true,
            ModifierKey::AltRight => self.right_alt = true,
            ModifierKey::CapsLock => self.caps_lock = !self.caps_lock,
            ModifierKey::ControlLeft => self.left_ctrl = true,
            ModifierKey::ControlRight => self.right_ctrl = true,
            ModifierKey::ShiftLeft => self.left_shift = true,
            ModifierKey::ShiftRight => self.right_shift = true,
            ModifierKey::WindowsLeft => self.left_win = true,
            ModifierKey::WindowsRight => self.right_win = true,
        }
    }

    /// A modifier key came up: hold keys are released; caps lock stays as the
    /// press left it.
    pub fn modifier_released(&mut self, key: ModifierKey)
        ensures
            *final(self) == match key {
                ModifierKey::AltLeft => UKEnglish { left_alt: false, ..*old(self) },
                ModifierKey::AltRight => UKEnglish { right_alt: false, ..*old(self) },
                ModifierKey::CapsLock => *old(self),
                ModifierKey::ControlLeft => UKEnglish { left_ctrl: false, ..*old(self) },
                ModifierKey::ControlRight => UKEnglish { right_ctrl: false, ..*old(self) },
                ModifierKey::ShiftLeft => UKEnglish { left_shift: false, ..*old(self) },
                ModifierKey::ShiftRight => UKEnglish { right_shift: false, ..*old(self) },
                ModifierKey::WindowsLeft => UKEnglish { left_win: false, ..*old(self) },
                ModifierKey::WindowsRight => UKEnglish { right_win: false, ..*old(self) },
            },
    {
        match key {
            ModifierKey::AltLeft => self.left_alt = false,
            ModifierKey::AltRight => self.right_alt = false,
            ModifierKey::CapsLock => {},
            ModifierKey::ControlLeft => self.left_ctrl = false,
            ModifierKey::ControlRight => self.right_ctrl = false,
            ModifierKey::ShiftLeft => self.left_shift = false,
            ModifierKey::ShiftRight => self.right_shift = false,
            ModifierKey::WindowsLeft => self.left_win = false,
            ModifierKey::WindowsRight => self.right_win = false,
        }
    }
}

impl Default for UKEnglish {
    /// Same as [`UKEnglish::new`]: nothing held, caps lock off.
    fn default() -> (r: UKEnglish)
        ensures
            r == (UKEnglish {
                left_shift: false,
                right_shift: false,
                left_alt: false,
                right_alt: false,
                left_ctrl: false,
                right_ctrl: false,
                left_win: false,
                right_win: false,
                caps_lock: false,
            }),
    {
        UKEnglish::new()
    }
}

} // verus!
