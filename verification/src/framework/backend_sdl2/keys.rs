//! Translation of the platform's scancodes to the engine's keys.

use vstd::prelude::*;

use crate::framework::keyboard::ScanCode;

verus! {

/// The key that a platform scancode names a second time, if it is one of
/// the three such codes: the system request key, the second return key and
/// the audio mute key.
pub open spec fn alias_key(code: int) -> Option<ScanCode> {
    if code == 154 {
        Some(ScanCode::Sysrq)
    } else if code == 158 {
        Some(ScanCode::NumpadEnter)
    } else if code == 262 {
        Some(ScanCode::Mute)
    } else {
        None
    }
}

/// Whether the platform reports `key` as `code`.
pub open spec fn names_key(code: int, key: ScanCode) -> bool {
    code == key.platform_code() || alias_key(code) == Some(key)
}

/// The engine's key for a platform scancode, where it has one.
pub closed spec fn engine_key(code: int) -> Option<ScanCode> {
    if exists|key: ScanCode| names_key(code, key) {
        Some(choose|key: ScanCode| names_key(code, key))
    } else {
        None
    }
}

/// No two keys have the same platform code.
pub proof fn lemma_platform_code_injective(a: ScanCode, b: ScanCode)
    requires
        a.platform_code() == b.platform_code(),
    ensures
        a == b,
{
}

/// A platform scancode names at most one key.
pub proof fn lemma_names_one_key(code: int, a: ScanCode, b: ScanCode)
    requires
        names_key(code, a),
        names_key(code, b),
    ensures
        a == b,
{
    lemma_platform_code_injective(a, b);
}

/// `engine_key` gives exactly the key that the code names.
pub proof fn lemma_engine_key(code: int, key: ScanCode)
    ensures
        engine_key(code) == Some(key) <==> names_key(code, key),
{
    if names_key(code, key) {
        let chosen = choose|k: ScanCode| names_key(code, k);
        lemma_names_one_key(code, chosen, key);
    }
}

/// `engine_key` gives nothing exactly where the code names no key.
pub proof fn lemma_engine_key_none(code: int)
    ensures
        engine_key(code) is None <==> forall|key: ScanCode| !names_key(code, key),
{
}

/// Translates a platform scancode to the engine's key. A code without
/// meaning to the engine gives `None`.
pub fn conv_scancode(code: i32) -> (key: Option<ScanCode>)
    ensures
        key == engine_key(code as int),
{
    let key = match code {
        4 => Some(ScanCode::A),
        5 => Some(ScanCode::B),
        6 => Some(ScanCode::C),
        7 => Some(ScanCode::D),
        8 => Some(ScanCode::E),
        9 => Some(ScanCode::F),
        10 => Some(ScanCode::G),
        11 => Some(ScanCode::H),
        12 => Some(ScanCode::I),
        13 => Some(ScanCode::J),
        14 => Some(ScanCode::K),
        15 => Some(ScanCode::L),
        16 => Some(ScanCode::M),
        17 => Some(ScanCode::N),
        18 => Some(ScanCode::O),
        19 => Some(ScanCode::P),
        20 => Some(ScanCode::Q),
        21 => Some(ScanCode::R),
        22 => Some(ScanCode::S),
        23 => Some(ScanCode::T),
        24 => Some(ScanCode::U),
        25 => Some(ScanCode::V),
        26 => Some(ScanCode::W),
        27 => Some(ScanCode::X),
        28 => Some(ScanCode::Y),
        29 => Some(ScanCode::Z),
        30 => Some(ScanCode::Key1),
        31 => Some(ScanCode::Key2),
        32 => Some(ScanCode::Key3),
        33 => Some(ScanCode::Key4),
        34 => Some(ScanCode::Key5),
        35 => Some(ScanCode::Key6),
        36 => Some(ScanCode::Key7),
        37 => Some(ScanCode::Key8),
        38 => Some(ScanCode::Key9),
        39 => Some(ScanCode::Key0),
        40 => Some(ScanCode::Return),
        41 => Some(ScanCode::Escape),
        42 => Some(ScanCode::Backspace),
        43 => Some(ScanCode::Tab),
        44 => Some(ScanCode::Space),
        45 => Some(ScanCode::Minus),
        46 => Some(ScanCode::Equals),
        47 => Some(ScanCode::LBracket),
        48 => Some(ScanCode::RBracket),
        49 => Some(ScanCode::Backslash),
        50 => Some(ScanCode::NonUsHash),
        51 => Some(ScanCode::Semicolon),
        52 => Some(ScanCode::Apostrophe),
        53 => Some(ScanCode::Grave),
        54 => Some(ScanCode::Comma),
        55 => Some(ScanCode::Period),
        56 => Some(ScanCode::Slash),
        57 => Some(ScanCode::Capslock),
        58 => Some(ScanCode::F1),
        59 => Some(ScanCode::F2),
        60 => Some(ScanCode::F3),
        61 => Some(ScanCode::F4),
        62 => Some(ScanCode::F5),
        63 => Some(ScanCode::F6),
        64 => Some(ScanCode::F7),
        65 => Some(ScanCode::F8),
        66 => Some(ScanCode::F9),
        67 => Some(ScanCode::F10),
        68 => Some(ScanCode::F11),
        69 => Some(ScanCode::F12),
        70 => Some(ScanCode::Sysrq),
        71 => Some(ScanCode::Scrolllock),
        72 => Some(ScanCode::Pause),
        73 => Some(ScanCode::Insert),
        74 => Some(ScanCode::Home),
        75 => Some(ScanCode::PageUp),
        76 => Some(ScanCode::Delete),
        77 => Some(ScanCode::End),
        78 => Some(ScanCode::PageDown),
        79 => Some(ScanCode::Right),
        80 => Some(ScanCode::Left),
        81 => Some(ScanCode::Down),
        82 => Some(ScanCode::Up),
        83 => Some(ScanCode::Numlock),
        84 => Some(ScanCode::NumpadDivide),
        85 => Some(ScanCode::NumpadMultiply),
        86 => Some(ScanCode::NumpadSubtract),
        87 => Some(ScanCode::NumpadAdd),
        88 => Some(ScanCode::NumpadEnter),
        89 => Some(ScanCode::Numpad1),
        90 => Some(ScanCode::Numpad2),
        91 => Some(ScanCode::Numpad3),
        92 => Some(ScanCode::Numpad4),
        93 => Some(ScanCode::Numpad5),
        94 => Some(ScanCode::Numpad6),
        95 => Some(ScanCode::Numpad7),
        96 => Some(ScanCode::Numpad8),
        97 => Some(ScanCode::Numpad9),
        98 => Some(ScanCode::Numpad0),
        100 => Some(ScanCode::NonUsBackslash),
        101 => Some(ScanCode::Apps),
        102 => Some(ScanCode::Power),
        103 => Some(ScanCode::NumpadEquals),
        104 => Some(ScanCode::F13),
        105 => Some(ScanCode::F14),
        106 => Some(ScanCode::F15),
        107 => Some(ScanCode::F16),
        108 => Some(ScanCode::F17),
        109 => Some(ScanCode::F18),
        110 => Some(ScanCode::F19),
        111 => Some(ScanCode::F20),
        112 => Some(ScanCode::F21),
        113 => Some(ScanCode::F22),
        114 => Some(ScanCode::F23),
        115 => Some(ScanCode::F24),
        120 => Some(ScanCode::Stop),
        123 => Some(ScanCode::Cut),
        124 => Some(ScanCode::Copy),
        125 => Some(ScanCode::Paste),
        127 => Some(ScanCode::Mute),
        128 => Some(ScanCode::VolumeUp),
        129 => Some(ScanCode::VolumeDown),
        133 => Some(ScanCode::NumpadComma),
        154 => Some(ScanCode::Sysrq),
        158 => Some(ScanCode::NumpadEnter),
        224 => Some(ScanCode::LControl),
        225 => Some(ScanCode::LShift),
        226 => Some(ScanCode::LAlt),
        227 => Some(ScanCode::LWin),
        228 => Some(ScanCode::RControl),
        229 => Some(ScanCode::RShift),
        230 => Some(ScanCode::RAlt),
        231 => Some(ScanCode::RWin),
        258 => Some(ScanCode::NextTrack),
        259 => Some(ScanCode::PrevTrack),
        260 => Some(ScanCode::MediaStop),
        261 => Some(ScanCode::PlayPause),
        262 => Some(ScanCode::Mute),
        263 => Some(ScanCode::MediaSelect),
        265 => Some(ScanCode::Mail),
        266 => Some(ScanCode::Calculator),
        282 => Some(ScanCode::Sleep),
        _ => None,
    };
    proof {
        match key {
            Some(k) => {
                assert(names_key(code as int, k));
                lemma_engine_key(code as int, k);
            },
            None => {
                lemma_engine_key_none(code as int);
            },
        }
    }
    key
}

/// Whether `first` and `second` are the two codes of one key: `second` is an
/// alias, and `first` is the code proper of the key it names.
pub open spec fn two_codes_of_one_key(first: int, second: int) -> bool {
    match alias_key(second) {
        Some(key) => first == key.platform_code(),
        None => false,
    }
}

/// Two distinct platform scancodes give distinct keys, unless they are the
/// two codes of one of the three keys that have an alias.
pub proof fn lemma_key_translation_injective(a: int, b: int)
    requires
        a != b,
        engine_key(a) is Some,
        engine_key(b) is Some,
        !two_codes_of_one_key(a, b),
        !two_codes_of_one_key(b, a),
    ensures
        engine_key(a) != engine_key(b),
{
    let ka = engine_key(a).unwrap();
    let kb = engine_key(b).unwrap();
    lemma_engine_key(a, ka);
    lemma_engine_key(b, kb);
}

} // verus!
