//! Mapping of native (GDK) input onto the engine's input vocabulary.
use vstd::prelude::*;

verus! {

/// Native button code of the primary (left) mouse button.
pub const BUTTON_PRIMARY: u32 = 1;
/// Native button code of the middle mouse button.
pub const BUTTON_MIDDLE: u32 = 2;
/// Native button code of the secondary (right) mouse button.
pub const BUTTON_SECONDARY: u32 = 3;

/// Native modifier bit for Shift.
pub const SHIFT_MASK: u32 = 0x1;
/// Native modifier bit for Control.
pub const CONTROL_MASK: u32 = 0x4;
/// Native modifier bit for Super.
pub const SUPER_MASK: u32 = 0x400_0000;
/// Native modifier bit for Meta, which the engine sees as Alt.
pub const META_MASK: u32 = 0x1000_0000;

/// Mouse buttons that the engine understands.
#[derive(Clone, Copy, Debug, PartialEq, Eq, Structural)]
pub enum MouseButton {
    Left,
    Middle,
    Right,
}

/// The engine button for a native button code, if there is one.
pub open spec fn button_of_code(code: u32) -> Option<MouseButton> {
    if code == BUTTON_PRIMARY {
        Some(MouseButton::Left)
    } else if code == BUTTON_SECONDARY {
        Some(MouseButton::Right)
    } else if code == BUTTON_MIDDLE {
        Some(MouseButton::Middle)
    } else {
        None
    }
}

/// Maps a native button code to the engine's button; an unknown button is
/// ignored (`None`) rather than treated as fatal.
pub fn to_mouse_button(code: u32) -> (r: Option<MouseButton>)
    ensures
        r == button_of_code(code),
{
    match code {
        BUTTON_PRIMARY => Some(MouseButton::Left),
        BUTTON_SECONDARY => Some(MouseButton::Right),
        BUTTON_MIDDLE => Some(MouseButton::Middle),
        _ => None,
    }
}

/// One keyboard modifier of the engine.
#[derive(Clone, Copy, Debug, PartialEq, Eq, Structural)]
pub enum Modifier {
    Alt,
    Super,
    Control,
    Shift,
}

/// The native bit that stands for a modifier.
pub open spec fn native_bit(m: Modifier) -> u32 {
    match m {
        Modifier::Alt => META_MASK,
        Modifier::Super => SUPER_MASK,
        Modifier::Control => CONTROL_MASK,
        Modifier::Shift => SHIFT_MASK,
    }
}

/// The modifiers whose native bit is set in `mask`.
pub open spec fn modifiers_of_mask(mask: u32) -> Set<Modifier> {
    Set::new(|m: Modifier| mask & native_bit(m) != 0)
}

/// A set of keyboard modifiers.
#[derive(Clone, Copy, Debug, PartialEq, Eq, Structural)]
pub struct KeyModifiers {
    pub alt: bool,
    pub super_key: bool,
    pub control: bool,
    pub shift: bool,
}

impl KeyModifiers {
    /// The modifiers held in this value.
    pub open spec fn view(&self) -> Set<Modifier> {
        Set::new(
            |m: Modifier|
                match m {
                    Modifier::Alt => self.alt,
                    Modifier::Super => self.super_key,
                    Modifier::Control => self.control,
                    Modifier::Shift => self.shift,
                },
        )
    }

    /// The empty set of modifiers.
    pub fn empty() -> (r: KeyModifiers)
        ensures
            r@ == Set::<Modifier>::empty(),
    {
        let r = KeyModifiers { alt: false, super_key: false, control: false, shift: false };
        assert(r@ =~= Set::<Modifier>::empty());
        r
    }

    /// Whether no modifier is held.
    pub fn is_empty(&self) -> (r: bool)
        ensures
            r == (self@ == Set::<Modifier>::empty()),
    {
        let r = !self.alt && !self.super_key && !self.control && !self.shift;
        if !r {
            if self.alt {
                assert(self@.contains(Modifier::Alt));
            } else if self.super_key {
                assert(self@.contains(Modifier::Super));
            } else if self.control {
                assert(self@.contains(Modifier::Control));
            } else {
                assert(self@.contains(Modifier::Shift));
            }
        } else {
            assert(self@ =~= Set::<Modifier>::empty());
        }
        r
    }

    /// Adds one modifier.
    pub fn insert(&mut self, m: Modifier)
        ensures
            final(self)@ == old(self)@.insert(m),
    {
        match m {
            Modifier::Alt => self.alt = true,
            Modifier::Super => self.super_key = true,
            Modifier::Control => self.control = true,
            Modifier::Shift => self.shift = true,
        }
        assert(final(self)@ =~= old(self)@.insert(m));
    }
}

/// Maps a native modifier mask: each native bit is tested on its own and
/// the modifiers found are combined by union.
pub fn to_modifier(mask: u32) -> (r: KeyModifiers)
    ensures
        r@ == modifiers_of_mask(mask),
{
    let mut mods = KeyModifiers::empty();
    if mask & META_MASK != 0 {
        mods.insert(Modifier::Alt);
    }
    if mask & SUPER_MASK != 0 {
        mods.insert(Modifier::Super);
    }
    if mask & CONTROL_MASK != 0 {
        mods.insert(Modifier::Control);
    }
    if mask & SHIFT_MASK != 0 {
        mods.insert(Modifier::Shift);
    }
    assert(mods@ =~= modifiers_of_mask(mask));
    mods
}

/// The modifiers of a combined mask are the union of the modifiers of its
/// parts; so the mapping is order-independent and idempotent.
pub proof fn lemma_modifiers_of_union(a: u32, b: u32)
    ensures
        modifiers_of_mask(a | b) == modifiers_of_mask(a) + modifiers_of_mask(b),
        modifiers_of_mask(a | b) == modifiers_of_mask(b | a),
        modifiers_of_mask(a | a) == modifiers_of_mask(a),
{
    assert forall|m: Modifier|
        modifiers_of_mask(a | b).contains(m) == (modifiers_of_mask(a) + modifiers_of_mask(b)).contains(m)
    by {
        let bit = native_bit(m);
        assert((a | b) & bit != 0 <==> (a & bit != 0 || b & bit != 0)) by (bit_vector);
    }
    assert(modifiers_of_mask(a | b) =~= modifiers_of_mask(a) + modifiers_of_mask(b));
    assert((a | b) == (b | a)) by (bit_vector);
    assert((a | a) == a) by (bit_vector);
}

/// Whether a character is a control character (Unicode general category Cc:
/// U+0000..U+001F and U+007F..U+009F).
pub open spec fn is_control_char(c: char) -> bool {
    (c as u32) <= 0x1f || (0x7f <= (c as u32) && (c as u32) <= 0x9f)
}

/// Decides whether `c` is a control character.
pub fn is_control(c: char) -> (r: bool)
    ensures
        r == is_control_char(c),
{
    let v = c as u32;
    v <= 0x1f || (0x7f <= v && v <= 0x9f)
}

/// The character a key event carries: the native character unless it is a
/// control character.
pub open spec fn printable(unicode: Option<char>) -> Option<char> {
    match unicode {
        Some(c) => if is_control_char(c) { None } else { Some(c) },
        None => None,
    }
}

/// Keys of the engine's keyboard vocabulary.
#[derive(Clone, Copy, Debug, PartialEq, Eq, Structural)]
pub enum Key {
    Space,
    Apostrophe,
    Comma,
    Minus,
    Period,
    Slash,
    Num0,
    Num1,
    Num2,
    Num3,
    Num4,
    Num5,
    Num6,
    Num7,
    Num8,
    Num9,
    Semicolon,
    Equal,
    A,
    B,
    C,
    D,
    E,
    F,
    G,
    H,
    I,
    J,
    K,
    L,
    M,
    N,
    O,
    P,
    Q,
    R,
    S,
    T,
    U,
    V,
    W,
    X,
    Y,
    Z,
    LeftBracket,
    Backslash,
    RightBracket,
    GraveAccent,
    Escape,
    Enter,
    Tab,
    Backspace,
    Insert,
    Delete,
    Right,
    Left,
    Down,
    Up,
    PageUp,
    PageDown,
    Home,
    End,
    CapsLock,
    ScrollLock,
    NumLock,
    PrintScreen,
    Pause,
    F1,
    F2,
    F3,
    F4,
    F5,
    F6,
    F7,
    F8,
    F9,
    F10,
    F11,
    F12,
    F13,
    F14,
    F15,
    F16,
    F17,
    F18,
    F19,
    F20,
    F21,
    F22,
    F23,
    F24,
    F25,
    Kp0,
    Kp1,
    Kp2,
    Kp3,
    Kp4,
    Kp5,
    Kp6,
    Kp7,
    Kp8,
    Kp9,
    KpDecimal,
    KpDivide,
    KpMultiply,
    KpSubtract,
    KpAdd,
    KpEnter,
    KpEqual,
    LeftShift,
    LeftControl,
    LeftAlt,
    LeftSuper,
    RightShift,
    RightControl,
    RightAlt,
    RightSuper,
    Menu,
}

impl Key {
    /// The native key code (X keysym) of this key; for a letter, the code of
    /// its upper-case form.
    pub open spec fn code(self) -> u32 {
        match self {
            Key::Space => 32,
            Key::Apostrophe => 39,
            Key::Comma => 44,
            Key::Minus => 45,
            Key::Period => 46,
            Key::Slash => 47,
            Key::Num0 => 48,
            Key::Num1 => 49,
            Key::Num2 => 50,
            Key::Num3 => 51,
            Key::Num4 => 52,
            Key::Num5 => 53,
            Key::Num6 => 54,
            Key::Num7 => 55,
            Key::Num8 => 56,
            Key::Num9 => 57,
            Key::Semicolon => 59,
            Key::Equal => 61,
            Key::A => 65,
            Key::B => 66,
            Key::C => 67,
            Key::D => 68,
            Key::E => 69,
            Key::F => 70,
            Key::G => 71,
            Key::H => 72,
            Key::I => 73,
            Key::J => 74,
            Key::K => 75,
            Key::L => 76,
            Key::M => 77,
            Key::N => 78,
            Key::O => 79,
            Key::P => 80,
            Key::Q => 81,
            Key::R => 82,
            Key::S => 83,
            Key::T => 84,
            Key::U => 85,
            Key::V => 86,
            Key::W => 87,
            Key::X => 88,
            Key::Y => 89,
            Key::Z => 90,
            Key::LeftBracket => 91,
            Key::Backslash => 92,
            Key::RightBracket => 93,
            Key::GraveAccent => 65104,
            Key::Escape => 65307,
            Key::Enter => 65293,
            Key::Tab => 65289,
            Key::Backspace => 65288,
            Key::Insert => 65379,
            Key::Delete => 65535,
            Key::Right => 65363,
            Key::Left => 65361,
            Key::Down => 65364,
            Key::Up => 65362,
            Key::PageUp => 65365,
            Key::PageDown => 65366,
            Key::Home => 65360,
            Key::End => 65367,
            Key::CapsLock => 65509,
            Key::ScrollLock => 65300,
            Key::NumLock => 65407,
            Key::PrintScreen => 64797,
            Key::Pause => 65299,
            Key::F1 => 65470,
            Key::F2 => 65471,
            Key::F3 => 65472,
            Key::F4 => 65473,
            Key::F5 => 65474,
            Key::F6 => 65475,
            Key::F7 => 65476,
            Key::F8 => 65477,
            Key::F9 => 65478,
            Key::F10 => 65479,
            Key::F11 => 65480,
            Key::F12 => 65481,
            Key::F13 => 65482,
            Key::F14 => 65483,
            Key::F15 => 65484,
            Key::F16 => 65485,
            Key::F17 => 65486,
            Key::F18 => 65487,
            Key::F19 => 65488,
            Key::F20 => 65489,
            Key::F21 => 65490,
            Key::F22 => 65491,
            Key::F23 => 65492,
            Key::F24 => 65493,
            Key::F25 => 65494,
            Key::Kp0 => 65456,
            Key::Kp1 => 65457,
            Key::Kp2 => 65458,
            Key::Kp3 => 65459,
            Key::Kp4 => 65460,
            Key::Kp5 => 65461,
            Key::Kp6 => 65462,
            Key::Kp7 => 65463,
            Key::Kp8 => 65464,
            Key::Kp9 => 65465,
            Key::KpDecimal => 65454,
            Key::KpDivide => 65455,
            Key::KpMultiply => 65450,
            Key::KpSubtract => 65453,
            Key::KpAdd => 65451,
            Key::KpEnter => 65421,
            Key::KpEqual => 65469,
            Key::LeftShift => 65505,
            Key::LeftControl => 65507,
            Key::LeftAlt => 65513,
            Key::LeftSuper => 65515,
            Key::RightShift => 65506,
            Key::RightControl => 65508,
            Key::RightAlt => 65514,
            Key::RightSuper => 65516,
            Key::Menu => 65383,
        }
    }

    /// Whether this key is a letter, which also answers to its lower-case code.
    pub open spec fn is_letter(self) -> bool {
        0x41 <= self.code() && self.code() <= 0x5a
    }

    /// Whether the native key code `code` names this key.
    pub open spec fn has_code(self, code: u32) -> bool {
        code == self.code() || (self.is_letter() && code == self.code() + 0x20)
    }
}

/// Maps a native key code, with the character that the native layer
/// reports for it, into the character and key of an engine key event. A code
/// that names no key gives `(None, None)`; the character is kept only when it
/// is not a control character.
#[verifier::rlimit(100)]
pub fn to_key(code: u32, unicode: Option<char>) -> (r: (Option<char>, Option<Key>))
    ensures
        forall|k: Key| #[trigger] k.has_code(code) <==> r.1 == Some(k),
        match r.1 {
            Some(k) => k.has_code(code),
            None => true,
        },
        r.0 == (if r.1 is Some { printable(unicode) } else { None }),
{
    let key = match code {
        32 => Key::Space,
        39 => Key::Apostrophe,
        44 => Key::Comma,
        45 => Key::Minus,
        46 => Key::Period,
        47 => Key::Slash,
        48 => Key::Num0,
        49 => Key::Num1,
        50 => Key::Num2,
        51 => Key::Num3,
        52 => Key::Num4,
        53 => Key::Num5,
        54 => Key::Num6,
        55 => Key::Num7,
        56 => Key::Num8,
        57 => Key::Num9,
        59 => Key::Semicolon,
        61 => Key::Equal,
        65 | 97 => Key::A,
        66 | 98 => Key::B,
        67 | 99 => Key::C,
        68 | 100 => Key::D,
        69 | 101 => Key::E,
        70 | 102 => Key::F,
        71 | 103 => Key::G,
        72 | 104 => Key::H,
        73 | 105 => Key::I,
        74 | 106 => Key::J,
        75 | 107 => Key::K,
        76 | 108 => Key::L,
        77 | 109 => Key::M,
        78 | 110 => Key::N,
        79 | 111 => Key::O,
        80 | 112 => Key::P,
        81 | 113 => Key::Q,
        82 | 114 => Key::R,
        83 | 115 => Key::S,
        84 | 116 => Key::T,
        85 | 117 => Key::U,
        86 | 118 => Key::V,
        87 | 119 => Key::W,
        88 | 120 => Key::X,
        89 | 121 => Key::Y,
        90 | 122 => Key::Z,
        91 => Key::LeftBracket,
        92 => Key::Backslash,
        93 => Key::RightBracket,
        65104 => Key::GraveAccent,
        65307 => Key::Escape,
        65293 => Key::Enter,
        65289 => Key::Tab,
        65288 => Key::Backspace,
        65379 => Key::Insert,
        65535 => Key::Delete,
        65363 => Key::Right,
        65361 => Key::Left,
        65364 => Key::Down,
        65362 => Key::Up,
        65365 => Key::PageUp,
        65366 => Key::PageDown,
        65360 => Key::Home,
        65367 => Key::End,
        65509 => Key::CapsLock,
        65300 => Key::ScrollLock,
        65407 => Key::NumLock,
        64797 => Key::PrintScreen,
        65299 => Key::Pause,
        65470 => Key::F1,
        65471 => Key::F2,
        65472 => Key::F3,
        65473 => Key::F4,
        65474 => Key::F5,
        65475 => Key::F6,
        65476 => Key::F7,
        65477 => Key::F8,
        65478 => Key::F9,
        65479 => Key::F10,
        65480 => Key::F11,
        65481 => Key::F12,
        65482 => Key::F13,
        65483 => Key::F14,
        65484 => Key::F15,
        65485 => Key::F16,
        65486 => Key::F17,
        65487 => Key::F18,
        65488 => Key::F19,
        65489 => Key::F20,
        65490 => Key::F21,
        65491 => Key::F22,
        65492 => Key::F23,
        65493 => Key::F24,
        65494 => Key::F25,
        65456 => Key::Kp0,
        65457 => Key::Kp1,
        65458 => Key::Kp2,
        65459 => Key::Kp3,
        65460 => Key::Kp4,
        65461 => Key::Kp5,
        65462 => Key::Kp6,
        65463 => Key::Kp7,
        65464 => Key::Kp8,
        65465 => Key::Kp9,
        65454 => Key::KpDecimal,
        65455 => Key::KpDivide,
        65450 => Key::KpMultiply,
        65453 => Key::KpSubtract,
        65451 => Key::KpAdd,
        65421 => Key::KpEnter,
        65469 => Key::KpEqual,
        65505 => Key::LeftShift,
        65507 => Key::LeftControl,
        65513 => Key::LeftAlt,
        65515 => Key::LeftSuper,
        65506 => Key::RightShift,
        65508 => Key::RightControl,
        65514 => Key::RightAlt,
        65516 => Key::RightSuper,
        65383 => Key::Menu,
        _ => {
            return (None, None);
        },
    };
    let ch = match unicode {
        Some(c) => if is_control(c) { None } else { Some(c) },
        None => None,
    };
    (ch, Some(key))
}

/// The key table is a function: a native key code names at most one key, so
/// mapping a code always gives the same, fully determined pair.
#[verifier::rlimit(100)]
pub proof fn lemma_key_code_names_one_key(code: u32, k1: Key, k2: Key)
    requires
        k1.has_code(code),
        k2.has_code(code),
    ensures
        k1 == k2,
{
}

/// Height in pixels of one line of scrolling.
pub const LINE_HEIGHT: i32 = 38;

/// Direction of a native scroll event.
#[derive(Clone, Copy, Debug, PartialEq, Eq, Structural)]
pub enum ScrollDirection {
    Up,
    Down,
    Left,
    Right,
    Smooth,
}

/// Phase of a scroll gesture as the engine sees it.
#[derive(Clone, Copy, Debug, PartialEq, Eq, Structural)]
pub enum TouchEventType {
    Down,
    Up,
    Cancel,
}

/// A scroll request for the engine: a pixel delta and the pointer position
/// it applies at.
#[derive(Clone, Copy, Debug, PartialEq, Eq, Structural)]
pub struct ScrollEvent {
    pub delta_x: i32,
    pub delta_y: i32,
    pub origin_x: i32,
    pub origin_y: i32,
    pub phase: TouchEventType,
}

/// The engine scroll event for a native wheel event, or `None` when Control is
/// held. Vertical notches move one line; horizontal and smooth scrolling map to
/// a cancelled gesture with no movement.
pub open spec fn wheel_scroll(mask: u32, dir: ScrollDirection, x: i32, y: i32) -> Option<ScrollEvent> {
    if mask & CONTROL_MASK != 0 {
        None
    } else {
        let (phase, dy) = match dir {
            ScrollDirection::Down => (TouchEventType::Down, (-LINE_HEIGHT) as i32),
            ScrollDirection::Up => (TouchEventType::Up, LINE_HEIGHT),
            _ => (TouchEventType::Cancel, 0i32),
        };
        Some(ScrollEvent { delta_x: 0, delta_y: dy, origin_x: x, origin_y: y, phase })
    }
}

/// Maps a native wheel event at pointer position `(x, y)`.
pub fn to_scroll(mask: u32, dir: ScrollDirection, x: i32, y: i32) -> (r: Option<ScrollEvent>)
    ensures
        r == wheel_scroll(mask, dir, x, y),
{
    if mask & CONTROL_MASK != 0 {
        return None;
    }
    let phase = match dir {
        ScrollDirection::Down => TouchEventType::Down,
        ScrollDirection::Up => TouchEventType::Up,
        ScrollDirection::Left => TouchEventType::Cancel,
        ScrollDirection::Right => TouchEventType::Cancel,
        ScrollDirection::Smooth => TouchEventType::Cancel,
    };
    let dy: i32 = match phase {
        TouchEventType::Down => -LINE_HEIGHT,
        TouchEventType::Up => LINE_HEIGHT,
        TouchEventType::Cancel => 0,
    };
    Some(ScrollEvent { delta_x: 0, delta_y: dy, origin_x: x, origin_y: y, phase })
}

/// The scroll that a key press asks for: the bare Down and Up arrows scroll two
/// lines at the pointer position `(x, y)`; every other key asks for none.
pub open spec fn key_scroll(
    ch: Option<char>,
    key: Key,
    mods: KeyModifiers,
    x: i32,
    y: i32,
) -> Option<ScrollEvent> {
    if ch is None && mods@ == Set::<Modifier>::empty() && key == Key::Down {
        Some(ScrollEvent { delta_x: 0, delta_y: (-2 * LINE_HEIGHT) as i32, origin_x: x, origin_y: y, phase: TouchEventType::Down })
    } else if ch is None && mods@ == Set::<Modifier>::empty() && key == Key::Up {
        Some(ScrollEvent { delta_x: 0, delta_y: (2 * LINE_HEIGHT) as i32, origin_x: x, origin_y: y, phase: TouchEventType::Up })
    } else {
        None
    }
}

/// Decides which scroll, if any, a key press asks for.
pub fn to_key_scroll(ch: Option<char>, key: Key, mods: KeyModifiers, x: i32, y: i32) -> (r: Option<ScrollEvent>)
    ensures
        r == key_scroll(ch, key, mods, x, y),
{
    if ch.is_some() || !mods.is_empty() {
        return None;
    }
    match key {
        Key::Down => Some(ScrollEvent { delta_x: 0, delta_y: -2 * LINE_HEIGHT, origin_x: x, origin_y: y, phase: TouchEventType::Down }),
        Key::Up => Some(ScrollEvent { delta_x: 0, delta_y: 2 * LINE_HEIGHT, origin_x: x, origin_y: y, phase: TouchEventType::Up }),
        _ => None,
    }
}

} // verus!
