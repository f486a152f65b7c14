//! The engine's own names for the keys of a keyboard, and the record of
//! which of them are held down.

use vstd::prelude::*;

verus! {

/// A physical key, whatever the keyboard layout prints on it.
#[derive(Debug, Clone, Copy, PartialEq, Eq, Hash, Structural)]
pub enum ScanCode {
    A,
    B,
    C,
    D,
    E,
    F,
    G,
    H,
    I,
    J,
    K,
    L,
    M,
    N,
    O,
    P,
    Q,
    R,
    S,
    T,
    U,
    V,
    W,
    X,
    Y,
    Z,
    Key1,
    Key2,
    Key3,
    Key4,
    Key5,
    Key6,
    Key7,
    Key8,
    Key9,
    Key0,
    Return,
    Escape,
    Backspace,
    Tab,
    Space,
    Minus,
    Equals,
    LBracket,
    RBracket,
    Backslash,
    NonUsHash,
    Semicolon,
    Apostrophe,
    Grave,
    Comma,
    Period,
    Slash,
    Capslock,
    F1,
    F2,
    F3,
    F4,
    F5,
    F6,
    F7,
    F8,
    F9,
    F10,
    F11,
    F12,
    Sysrq,
    Scrolllock,
    Pause,
    Insert,
    Home,
    PageUp,
    Delete,
    End,
    PageDown,
    Right,
    Left,
    Down,
    Up,
    Numlock,
    NumpadDivide,
    NumpadMultiply,
    NumpadSubtract,
    NumpadAdd,
    NumpadEnter,
    Numpad1,
    Numpad2,
    Numpad3,
    Numpad4,
    Numpad5,
    Numpad6,
    Numpad7,
    Numpad8,
    Numpad9,
    Numpad0,
    NonUsBackslash,
    Apps,
    Power,
    NumpadEquals,
    F13,
    F14,
    F15,
    F16,
    F17,
    F18,
    F19,
    F20,
    F21,
    F22,
    F23,
    F24,
    Stop,
    Cut,
    Copy,
    Paste,
    Mute,
    VolumeUp,
    VolumeDown,
    NumpadComma,
    LControl,
    LShift,
    LAlt,
    LWin,
    RControl,
    RShift,
    RAlt,
    RWin,
    NextTrack,
    PrevTrack,
    MediaStop,
    PlayPause,
    MediaSelect,
    Mail,
    Calculator,
    Sleep,
}

impl ScanCode {
    /// The number under which the platform reports this key: its usage
    /// number in the USB keyboard page, or the platform's own number for the
    /// media keys beyond that page.
    pub open spec fn platform_code(self) -> int {
        match self {
            ScanCode::A => 4,
            ScanCode::B => 5,
            ScanCode::C => 6,
            ScanCode::D => 7,
            ScanCode::E => 8,
            ScanCode::F => 9,
            ScanCode::G => 10,
            ScanCode::H => 11,
            ScanCode::I => 12,
            ScanCode::J => 13,
            ScanCode::K => 14,
            ScanCode::L => 15,
            ScanCode::M => 16,
            ScanCode::N => 17,
            ScanCode::O => 18,
            ScanCode::P => 19,
            ScanCode::Q => 20,
            ScanCode::R => 21,
            ScanCode::S => 22,
            ScanCode::T => 23,
            ScanCode::U => 24,
            ScanCode::V => 25,
            ScanCode::W => 26,
            ScanCode::X => 27,
            ScanCode::Y => 28,
            ScanCode::Z => 29,
            ScanCode::Key1 => 30,
            ScanCode::Key2 => 31,
            ScanCode::Key3 => 32,
            ScanCode::Key4 => 33,
            ScanCode::Key5 => 34,
            ScanCode::Key6 => 35,
            ScanCode::Key7 => 36,
            ScanCode::Key8 => 37,
            ScanCode::Key9 => 38,
            ScanCode::Key0 => 39,
            ScanCode::Return => 40,
            ScanCode::Escape => 41,
            ScanCode::Backspace => 42,
            ScanCode::Tab => 43,
            ScanCode::Space => 44,
            ScanCode::Minus => 45,
            ScanCode::Equals => 46,
            ScanCode::LBracket => 47,
            ScanCode::RBracket => 48,
            ScanCode::Backslash => 49,
            ScanCode::NonUsHash => 50,
            ScanCode::Semicolon => 51,
            ScanCode::Apostrophe => 52,
            ScanCode::Grave => 53,
            ScanCode::Comma => 54,
            ScanCode::Period => 55,
            ScanCode::Slash => 56,
            ScanCode::Capslock => 57,
            ScanCode::F1 => 58,
            ScanCode::F2 => 59,
            ScanCode::F3 => 60,
            ScanCode::F4 => 61,
            ScanCode::F5 => 62,
            ScanCode::F6 => 63,
            ScanCode::F7 => 64,
            ScanCode::F8 => 65,
            ScanCode::F9 => 66,
            ScanCode::F10 => 67,
            ScanCode::F11 => 68,
            ScanCode::F12 => 69,
            ScanCode::Sysrq => 70,
            ScanCode::Scrolllock => 71,
            ScanCode::Pause => 72,
            ScanCode::Insert => 73,
            ScanCode::Home => 74,
            ScanCode::PageUp => 75,
            ScanCode::Delete => 76,
            ScanCode::End => 77,
            ScanCode::PageDown => 78,
            ScanCode::Right => 79,
            ScanCode::Left => 80,
            ScanCode::Down => 81,
            ScanCode::Up => 82,
            ScanCode::Numlock => 83,
            ScanCode::NumpadDivide => 84,
            ScanCode::NumpadMultiply => 85,
            ScanCode::NumpadSubtract => 86,
            ScanCode::NumpadAdd => 87,
            ScanCode::NumpadEnter => 88,
            ScanCode::Numpad1 => 89,
            ScanCode::Numpad2 => 90,
            ScanCode::Numpad3 => 91,
            ScanCode::Numpad4 => 92,
            ScanCode::Numpad5 => 93,
            ScanCode::Numpad6 => 94,
            ScanCode::Numpad7 => 95,
            ScanCode::Numpad8 => 96,
            ScanCode::Numpad9 => 97,
            ScanCode::Numpad0 => 98,
            ScanCode::NonUsBackslash => 100,
            ScanCode::Apps => 101,
            ScanCode::Power => 102,
            ScanCode::NumpadEquals => 103,
            ScanCode::F13 => 104,
            ScanCode::F14 => 105,
            ScanCode::F15 => 106,
            ScanCode::F16 => 107,
            ScanCode::F17 => 108,
            ScanCode::F18 => 109,
            ScanCode::F19 => 110,
            ScanCode::F20 => 111,
            ScanCode::F21 => 112,
            ScanCode::F22 => 113,
            ScanCode::F23 => 114,
            ScanCode::F24 => 115,
            ScanCode::Stop => 120,
            ScanCode::Cut => 123,
            ScanCode::Copy => 124,
            ScanCode::Paste => 125,
            ScanCode::Mute => 127,
            ScanCode::VolumeUp => 128,
            ScanCode::VolumeDown => 129,
            ScanCode::NumpadComma => 133,
            ScanCode::LControl => 224,
            ScanCode::LShift => 225,
            ScanCode::LAlt => 226,
            ScanCode::LWin => 227,
            ScanCode::RControl => 228,
            ScanCode::RShift => 229,
            ScanCode::RAlt => 230,
            ScanCode::RWin => 231,
            ScanCode::NextTrack => 258,
            ScanCode::PrevTrack => 259,
            ScanCode::MediaStop => 260,
            ScanCode::PlayPause => 261,
            ScanCode::MediaSelect => 263,
            ScanCode::Mail => 265,
            ScanCode::Calculator => 266,
            ScanCode::Sleep => 282,
        }
    }
}

/// Which keys are held down.
#[derive(Debug, Clone)]
pub struct KeyboardContext {
    pressed: Vec<ScanCode>,
}

impl View for KeyboardContext {
    type V = Set<ScanCode>;

    closed spec fn view(&self) -> Set<ScanCode> {
        self.pressed@.to_set()
    }
}

/// The keys of `keys` other than `key`, in their order.
spec fn without(keys: Seq<ScanCode>, key: ScanCode) -> Seq<ScanCode>
    decreases keys.len(),
{
    if keys.len() == 0 {
        keys
    } else if keys.last() != key {
        without(keys.drop_last(), key).push(keys.last())
    } else {
        without(keys.drop_last(), key)
    }
}

proof fn lemma_without_contains(keys: Seq<ScanCode>, key: ScanCode, k: ScanCode)
    ensures
        without(keys, key).contains(k) <==> keys.contains(k) && k != key,
    decreases keys.len(),
{
    if keys.len() > 0 {
        let front = keys.drop_last();
        let kept = without(front, key);
        lemma_without_contains(front, key, k);
        if keys.contains(k) && k != key {
            let i = choose|i: int| 0 <= i < keys.len() && keys[i] == k;
            if i < front.len() {
                assert(front[i] == k);
                let j = choose|j: int| 0 <= j < kept.len() && kept[j] == k;
                assert(without(keys, key)[j] == k);
            } else {
                assert(without(keys, key)[kept.len() as int] == k);
            }
        }
        if without(keys, key).contains(k) {
            let j = choose|j: int| 0 <= j < without(keys, key).len() && without(keys, key)[j] == k;
            if j < kept.len() {
                assert(kept[j] == k);
                let i = choose|i: int| 0 <= i < front.len() && front[i] == k;
                assert(keys[i] == k);
            } else {
                assert(keys[keys.len() - 1] == k);
            }
        }
    }
}

proof fn lemma_without_to_set(keys: Seq<ScanCode>, key: ScanCode)
    ensures
        without(keys, key).to_set() == keys.to_set().remove(key),
{
    assert forall|k: ScanCode|
        without(keys, key).to_set().contains(k) <==> keys.to_set().remove(key).contains(k) by {
        lemma_without_contains(keys, key, k);
    }
    assert(without(keys, key).to_set() =~= keys.to_set().remove(key));
}

impl KeyboardContext {
    /// No key is held down.
    pub fn new() -> (keyboard: KeyboardContext)
        ensures
            keyboard@ == Set::<ScanCode>::empty(),
    {
        let keyboard = KeyboardContext { pressed: Vec::new() };
        assert(keyboard.pressed@.to_set() =~= Set::<ScanCode>::empty());
        keyboard
    }

    /// Whether `key` is held down.
    pub fn is_key_pressed(&self, key: ScanCode) -> (pressed: bool)
        ensures
            pressed == self@.contains(key),
    {
        let mut i: usize = 0;
        while i < self.pressed.len()
            invariant
                i <= self.pressed.len(),
                forall|j: int| 0 <= j < i ==> self.pressed[j] != key,
            decreases self.pressed.len() - i,
        {
            if self.pressed[i] == key {
                assert(self.pressed@.contains(key));
                return true;
            }
            i += 1;
        }
        false
    }

    /// Records that `key` went down (`pressed`) or came up.
    pub fn set_key(&mut self, key: ScanCode, pressed: bool)
        ensures
            final(self)@ == if pressed {
                old(self)@.insert(key)
            } else {
                old(self)@.remove(key)
            },
    {
        if pressed {
            if !self.is_key_pressed(key) {
                self.pressed.push(key);
                proof {
                    let before = old(self).pressed@;
                    let after = self.pressed@;
                    assert forall|k: ScanCode| after.contains(k) <==> before.contains(k) || k
                        == key by {
                        if before.contains(k) {
                            let i = choose|i: int| 0 <= i < before.len() && before[i] == k;
                            assert(after[i] == k);
                        }
                        if k == key {
                            assert(after[before.len() as int] == k);
                        }
                    }
                    assert(after.to_set() =~= before.to_set().insert(key));
                }
            } else {
                assert(self@.insert(key) =~= self@);
            }
        } else {
            let mut kept: Vec<ScanCode> = Vec::new();
            let mut i: usize = 0;
            while i < self.pressed.len()
                invariant
                    i <= self.pressed.len(),
                    kept@ == without(self.pressed@.take(i as int), key),
                decreases self.pressed.len() - i,
            {
                assert(self.pressed@.take(i + 1).drop_last() =~= self.pressed@.take(i as int));
                if self.pressed[i] != key {
                    kept.push(self.pressed[i]);
                }
                i += 1;
            }
            proof {
                assert(self.pressed@.take(i as int) =~= self.pressed@);
                lemma_without_to_set(self.pressed@, key);
            }
            self.pressed = kept;
        }
    }
}

} // verus!
