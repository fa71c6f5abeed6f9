use vstd::prelude::*;

verus! {

/// Flag of an input record: the scan code belongs to the extended key set.
pub const KEYEVENTF_EXTENDEDKEY: u32 = 0x0001;

/// Flag of an input record: the key goes up. Without it the key goes down.
pub const KEYEVENTF_KEYUP: u32 = 0x0002;

/// Flag of an input record: the key is named by its scan code, not by a
/// virtual-key code.
pub const KEYEVENTF_SCANCODE: u32 = 0x0008;

/// The largest scan code that belongs to the plain (one byte) key set.
pub const PLAIN_CODE_MAX: u32 = 0xFF;

/// One physical key of the keyboard.
///
/// A key stands for its hardware scan code, see [`Key::code`]. No two keys
/// share a code, see [`lemma_codes_distinct`].
#[derive(Clone, Copy, Debug, PartialEq, Eq, Structural, Hash)]
pub enum Key {
    Esc,
    // Function keys
    F1,
    F2,
    F3,
    F4,
    F5,
    F6,
    F7,
    F8,
    F9,
    F10,
    F11,
    F12,
    F13,
    F14,
    F15,
    F16,
    F17,
    F18,
    F19,
    F20,
    F21,
    F22,
    F23,
    F24,
    // Number row
    Backquote,
    Num1,
    Num2,
    Num3,
    Num4,
    Num5,
    Num6,
    Num7,
    Num8,
    Num9,
    Num0,
    Minus,
    Equals,
    Backspace,
    Tab,
    CapsLock,
    // Letters
    A,
    B,
    C,
    D,
    E,
    F,
    G,
    H,
    I,
    J,
    K,
    L,
    M,
    N,
    O,
    P,
    Q,
    R,
    S,
    T,
    U,
    V,
    W,
    X,
    Y,
    Z,
    // Symbols
    BracketLeft,
    BracketRight,
    BackSlash,
    SemiColon,
    Quote,
    Enter,
    Comma,
    Period,
    Slash,
    Space,
    // Cursor keys
    Up,
    Left,
    Right,
    Down,
    // Edit keys
    PrintScreen,
    ScrollLock,
    Pause,
    Insert,
    Delete,
    Home,
    End,
    PageUp,
    PageDown,
    // Numpad
    NumLock,
    NumpadDivide,
    NumpadMultiply,
    NumpadMinus,
    NumpadEquals,
    NumpadPlus,
    NumpadEnter,
    NumpadDot,
    Numpad1,
    Numpad2,
    Numpad3,
    Numpad4,
    Numpad5,
    Numpad6,
    Numpad7,
    Numpad8,
    Numpad9,
    Numpad0,
    NumpadEnd,
    NumpadDown,
    NumpadPageDown,
    NumpadLeft,
    NumpadClear,
    NumpadRight,
    NumpadHome,
    NumpadUp,
    NumpadPageUp,
    NumpadInsert,
    NumpadDelete,
    // Modifier keys
    Shift,
    ShiftRight,
    Control,
    ControlRight,
    Alt,
    AltGr,
    Meta,
    MetaRight,
    Menu,
    // Media and application keys
    Power,
    Sleep,
    Wake,
    MediaPlay,
    MediaStop,
    MediaPrev,
    MediaNext,
    MediaSelect,
    MediaEject,
    VolMute,
    VolUp,
    VolDown,
    AppMail,
    AppCalc,
    AppMusic,
    AppPhotos,
    BrowserSearch,
    BrowserHome,
    BrowserBack,
    BrowserForward,
    BrowserStop,
    BrowserRefresh,
    BrowserBookmarks,
}

impl Key {
    /// The hardware scan code of the key. Codes above [`PLAIN_CODE_MAX`]
    /// belong to the extended key set.
    pub open spec fn code(self) -> u32 {
        match self {
            Key::Esc => 0x01,
            // Function keys
            Key::F1 => 0x3B,
            Key::F2 => 0x3C,
            Key::F3 => 0x3D,
            Key::F4 => 0x3E,
            Key::F5 => 0x3F,
            Key::F6 => 0x40,
            Key::F7 => 0x41,
            Key::F8 => 0x42,
            Key::F9 => 0x43,
            Key::F10 => 0x44,
            Key::F11 => 0x57,
            Key::F12 => 0x58,
            Key::F13 => 0x5B,
            Key::F14 => 0x5C,
            Key::F15 => 0x5D,
            Key::F16 => 0x63,
            Key::F17 => 0x64,
            Key::F18 => 0x65,
            Key::F19 => 0x66,
            Key::F20 => 0x67,
            Key::F21 => 0x68,
            Key::F22 => 0x69,
            Key::F23 => 0x6A,
            Key::F24 => 0x6B,
            // Number row
            Key::Backquote => 0x29,
            Key::Num1 => 0x02,
            Key::Num2 => 0x03,
            Key::Num3 => 0x04,
            Key::Num4 => 0x05,
            Key::Num5 => 0x06,
            Key::Num6 => 0x07,
            Key::Num7 => 0x08,
            Key::Num8 => 0x09,
            Key::Num9 => 0x0A,
            Key::Num0 => 0x0B,
            Key::Minus => 0x0C,
            Key::Equals => 0x0D,
            Key::Backspace => 0x0E,
            Key::Tab => 0x0F,
            Key::CapsLock => 0x3A,
            // Letters
            Key::A => 0x1E,
            Key::B => 0x30,
            Key::C => 0x2E,
            Key::D => 0x20,
            Key::E => 0x12,
            Key::F => 0x21,
            Key::G => 0x22,
            Key::H => 0x23,
            Key::I => 0x17,
            Key::J => 0x24,
            Key::K => 0x25,
            Key::L => 0x26,
            Key::M => 0x32,
            Key::N => 0x31,
            Key::O => 0x18,
            Key::P => 0x19,
            Key::Q => 0x10,
            Key::R => 0x13,
            Key::S => 0x1F,
            Key::T => 0x14,
            Key::U => 0x16,
            Key::V => 0x2F,
            Key::W => 0x11,
            Key::X => 0x2D,
            Key::Y => 0x15,
            Key::Z => 0x2C,
            // Symbols
            Key::BracketLeft => 0x1A,
            Key::BracketRight => 0x1B,
            Key::BackSlash => 0x2B,
            Key::SemiColon => 0x27,
            Key::Quote => 0x28,
            Key::Enter => 0x1C,
            Key::Comma => 0x33,
            Key::Period => 0x34,
            Key::Slash => 0x35,
            Key::Space => 0x39,
            // Cursor keys
            Key::Up => 0xE048,
            Key::Left => 0xE04B,
            Key::Right => 0xE04D,
            Key::Down => 0xE050,
            // Edit keys
            Key::PrintScreen => 0x0E37,
            Key::ScrollLock => 0x46,
            Key::Pause => 0x0E45,
            Key::Insert => 0x0E52,
            Key::Delete => 0x0E53,
            Key::Home => 0x0E47,
            Key::End => 0x0E4F,
            Key::PageUp => 0x0E49,
            Key::PageDown => 0x0E51,
            // Numpad
            Key::NumLock => 0x45,
            Key::NumpadDivide => 0x0E35,
            Key::NumpadMultiply => 0x37,
            Key::NumpadMinus => 0x4A,
            Key::NumpadEquals => 0x0E0D,
            Key::NumpadPlus => 0x4E,
            Key::NumpadEnter => 0x0E1C,
            Key::NumpadDot => 0x53,
            Key::Numpad1 => 0x4F,
            Key::Numpad2 => 0x50,
            Key::Numpad3 => 0x51,
            Key::Numpad4 => 0x4B,
            Key::Numpad5 => 0x4C,
            Key::Numpad6 => 0x4D,
            Key::Numpad7 => 0x47,
            Key::Numpad8 => 0x48,
            Key::Numpad9 => 0x49,
            Key::Numpad0 => 0x52,
            Key::NumpadEnd => 0xEE4F,
            Key::NumpadDown => 0xEE50,
            Key::NumpadPageDown => 0xEE51,
            Key::NumpadLeft => 0xEE4B,
            Key::NumpadClear => 0xEE4C,
            Key::NumpadRight => 0xEE4D,
            Key::NumpadHome => 0xEE47,
            Key::NumpadUp => 0xEE48,
            Key::NumpadPageUp => 0xEE49,
            Key::NumpadInsert => 0xEE52,
            Key::NumpadDelete => 0xEE53,
            // Modifier keys
            Key::Shift => 0x2A,
            Key::ShiftRight => 0x36,
            Key::Control => 0x1D,
            Key::ControlRight => 0x0E1D,
            Key::Alt => 0x38,
            Key::AltGr => 0x0E38,
            Key::Meta => 0x0E5B,
            Key::MetaRight => 0x0E5C,
            Key::Menu => 0x0E5D,
            // Media and application keys
            Key::Power => 0xE05E,
            Key::Sleep => 0xE05F,
            Key::Wake => 0xE063,
            Key::MediaPlay => 0xE022,
            Key::MediaStop => 0xE024,
            Key::MediaPrev => 0xE010,
            Key::MediaNext => 0xE019,
            Key::MediaSelect => 0xE06D,
            Key::MediaEject => 0xE02C,
            Key::VolMute => 0xE020,
            Key::VolUp => 0xE030,
            Key::VolDown => 0xE02E,
            Key::AppMail => 0xE06C,
            Key::AppCalc => 0xE021,
            Key::AppMusic => 0xE03C,
            Key::AppPhotos => 0xE064,
            Key::BrowserSearch => 0xE065,
            Key::BrowserHome => 0xE032,
            Key::BrowserBack => 0xE06A,
            Key::BrowserForward => 0xE069,
            Key::BrowserStop => 0xE068,
            Key::BrowserRefresh => 0xE067,
            Key::BrowserBookmarks => 0xE066,
        }
    }

    /// Whether the key belongs to the extended key set.
    pub open spec fn is_extended(self) -> bool {
        self.code() > PLAIN_CODE_MAX
    }

    /// The hardware scan code of the key.
    pub fn scan_code(self) -> (c: u32)
        ensures
            c == self.code(),
    {
        match self {
            Key::Esc => 0x01,
            // Function keys
            Key::F1 => 0x3B,
            Key::F2 => 0x3C,
            Key::F3 => 0x3D,
            Key::F4 => 0x3E,
            Key::F5 => 0x3F,
            Key::F6 => 0x40,
            Key::F7 => 0x41,
            Key::F8 => 0x42,
            Key::F9 => 0x43,
            Key::F10 => 0x44,
            Key::F11 => 0x57,
            Key::F12 => 0x58,
            Key::F13 => 0x5B,
            Key::F14 => 0x5C,
            Key::F15 => 0x5D,
            Key::F16 => 0x63,
            Key::F17 => 0x64,
            Key::F18 => 0x65,
            Key::F19 => 0x66,
            Key::F20 => 0x67,
            Key::F21 => 0x68,
            Key::F22 => 0x69,
            Key::F23 => 0x6A,
            Key::F24 => 0x6B,
            // Number row
            Key::Backquote => 0x29,
            Key::Num1 => 0x02,
            Key::Num2 => 0x03,
            Key::Num3 => 0x04,
            Key::Num4 => 0x05,
            Key::Num5 => 0x06,
            Key::Num6 => 0x07,
            Key::Num7 => 0x08,
            Key::Num8 => 0x09,
            Key::Num9 => 0x0A,
            Key::Num0 => 0x0B,
            Key::Minus => 0x0C,
            Key::Equals => 0x0D,
            Key::Backspace => 0x0E,
            Key::Tab => 0x0F,
            Key::CapsLock => 0x3A,
            // Letters
            Key::A => 0x1E,
            Key::B => 0x30,
            Key::C => 0x2E,
            Key::D => 0x20,
            Key::E => 0x12,
            Key::F => 0x21,
            Key::G => 0x22,
            Key::H => 0x23,
            Key::I => 0x17,
            Key::J => 0x24,
            Key::K => 0x25,
            Key::L => 0x26,
            Key::M => 0x32,
            Key::N => 0x31,
            Key::O => 0x18,
            Key::P => 0x19,
            Key::Q => 0x10,
            Key::R => 0x13,
            Key::S => 0x1F,
            Key::T => 0x14,
            Key::U => 0x16,
            Key::V => 0x2F,
            Key::W => 0x11,
            Key::X => 0x2D,
            Key::Y => 0x15,
            Key::Z => 0x2C,
            // Symbols
            Key::BracketLeft => 0x1A,
            Key::BracketRight => 0x1B,
            Key::BackSlash => 0x2B,
            Key::SemiColon => 0x27,
            Key::Quote => 0x28,
            Key::Enter => 0x1C,
            Key::Comma => 0x33,
            Key::Period => 0x34,
            Key::Slash => 0x35,
            Key::Space => 0x39,
            // Cursor keys
            Key::Up => 0xE048,
            Key::Left => 0xE04B,
            Key::Right => 0xE04D,
            Key::Down => 0xE050,
            // Edit keys
            Key::PrintScreen => 0x0E37,
            Key::ScrollLock => 0x46,
            Key::Pause => 0x0E45,
            Key::Insert => 0x0E52,
            Key::Delete => 0x0E53,
            Key::Home => 0x0E47,
            Key::End => 0x0E4F,
            Key::PageUp => 0x0E49,
            Key::PageDown => 0x0E51,
            // Numpad
            Key::NumLock => 0x45,
            Key::NumpadDivide => 0x0E35,
            Key::NumpadMultiply => 0x37,
            Key::NumpadMinus => 0x4A,
            Key::NumpadEquals => 0x0E0D,
            Key::NumpadPlus => 0x4E,
            Key::NumpadEnter => 0x0E1C,
            Key::NumpadDot => 0x53,
            Key::Numpad1 => 0x4F,
            Key::Numpad2 => 0x50,
            Key::Numpad3 => 0x51,
            Key::Numpad4 => 0x4B,
            Key::Numpad5 => 0x4C,
            Key::Numpad6 => 0x4D,
            Key::Numpad7 => 0x47,
            Key::Numpad8 => 0x48,
            Key::Numpad9 => 0x49,
            Key::Numpad0 => 0x52,
            Key::NumpadEnd => 0xEE4F,
            Key::NumpadDown => 0xEE50,
            Key::NumpadPageDown => 0xEE51,
            Key::NumpadLeft => 0xEE4B,
            Key::NumpadClear => 0xEE4C,
            Key::NumpadRight => 0xEE4D,
            Key::NumpadHome => 0xEE47,
            Key::NumpadUp => 0xEE48,
            Key::NumpadPageUp => 0xEE49,
            Key::NumpadInsert => 0xEE52,
            Key::NumpadDelete => 0xEE53,
            // Modifier keys
            Key::Shift => 0x2A,
            Key::ShiftRight => 0x36,
            Key::Control => 0x1D,
            Key::ControlRight => 0x0E1D,
            Key::Alt => 0x38,
            Key::AltGr => 0x0E38,
            Key::Meta => 0x0E5B,
            Key::MetaRight => 0x0E5C,
            Key::Menu => 0x0E5D,
            // Media and application keys
            Key::Power => 0xE05E,
            Key::Sleep => 0xE05F,
            Key::Wake => 0xE063,
            Key::MediaPlay => 0xE022,
            Key::MediaStop => 0xE024,
            Key::MediaPrev => 0xE010,
            Key::MediaNext => 0xE019,
            Key::MediaSelect => 0xE06D,
            Key::MediaEject => 0xE02C,
            Key::VolMute => 0xE020,
            Key::VolUp => 0xE030,
            Key::VolDown => 0xE02E,
            Key::AppMail => 0xE06C,
            Key::AppCalc => 0xE021,
            Key::AppMusic => 0xE03C,
            Key::AppPhotos => 0xE064,
            Key::BrowserSearch => 0xE065,
            Key::BrowserHome => 0xE032,
            Key::BrowserBack => 0xE06A,
            Key::BrowserForward => 0xE069,
            Key::BrowserStop => 0xE068,
            Key::BrowserRefresh => 0xE067,
            Key::BrowserBookmarks => 0xE066,
        }
    }
}

/// The keyboard input record that the host hands to the operating system to
/// make it believe that a key went down or up.
#[derive(Clone, Copy, Debug, PartialEq, Eq, Structural)]
pub struct KeyboardInput {
    /// Virtual-key code. Always 0: the key is named by `scan`.
    pub virtual_key: u16,
    /// Hardware scan code of the key, in 16 bits.
    pub scan: u16,
    /// The `KEYEVENTF_*` flags that apply.
    pub flags: u32,
    /// Time stamp of the event. Always 0: the system provides its own.
    pub time: u32,
    /// Extra value that travels with the event. Always 0.
    pub extra_info: usize,
}

/// The flags of an event on a key: always `KEYEVENTF_SCANCODE`, with
/// `KEYEVENTF_KEYUP` when the key goes up and `KEYEVENTF_EXTENDEDKEY` when
/// the key belongs to the extended set.
pub open spec fn event_flags(down: bool, extended: bool) -> u32 {
    let direction = if down {
        KEYEVENTF_SCANCODE
    } else {
        KEYEVENTF_KEYUP | KEYEVENTF_SCANCODE
    };
    if extended {
        direction | KEYEVENTF_EXTENDEDKEY
    } else {
        direction
    }
}

/// The input record for `key` going down (`down`) or up.
pub open spec fn key_input(key: Key, down: bool) -> KeyboardInput {
    KeyboardInput {
        virtual_key: 0,
        scan: key.code() as u16,
        flags: event_flags(down, key.is_extended()),
        time: 0,
        extra_info: 0,
    }
}

/// Every scan code is positive and fits the 16 bits of an input record, so
/// the record's `scan` is the key's code, unchanged.
pub proof fn lemma_code_is_word(key: Key)
    ensures
        0 < key.code() <= 0xFFFF,
        key_input(key, true).scan == key.code(),
        key_input(key, false).scan == key.code(),
{
}

/// No two keys share a scan code: a code names one key.
pub proof fn lemma_codes_distinct(a: Key, b: Key)
    requires
        a.code() == b.code(),
    ensures
        a == b,
{
}

/// The scan codes order the keys totally: of two keys either one has the
/// smaller code, or they are the same key.
pub proof fn lemma_keys_totally_ordered(a: Key, b: Key)
    ensures
        a.code() < b.code() || a == b || b.code() < a.code(),
        a == b <==> a.code() == b.code(),
{
}

/// The flags of an event as numbers, and bit by bit: the key-up bit is set
/// exactly when the key goes up, the extended bit exactly when the key is
/// extended, the scan-code bit always, and no other bit.
pub proof fn lemma_event_flags(down: bool, extended: bool)
    ensures
        event_flags(true, false) == 0x8,
        event_flags(true, true) == 0x9,
        event_flags(false, false) == 0xA,
        event_flags(false, true) == 0xB,
        event_flags(down, extended) & KEYEVENTF_SCANCODE == KEYEVENTF_SCANCODE,
        (event_flags(down, extended) & KEYEVENTF_KEYUP == KEYEVENTF_KEYUP) <==> !down,
        (event_flags(down, extended) & KEYEVENTF_EXTENDEDKEY == KEYEVENTF_EXTENDEDKEY)
            <==> extended,
        event_flags(down, extended) & !(KEYEVENTF_SCANCODE | KEYEVENTF_KEYUP
            | KEYEVENTF_EXTENDEDKEY) == 0,
{
    assert(0x8u32 | 0x1u32 == 0x9u32) by (bit_vector);
    assert(0x2u32 | 0x8u32 == 0xAu32) by (bit_vector);
    assert(0xAu32 | 0x1u32 == 0xBu32) by (bit_vector);
    assert(0x8u32 & 0x8u32 == 0x8u32 && 0x9u32 & 0x8u32 == 0x8u32 && 0xAu32 & 0x8u32 == 0x8u32
        && 0xBu32 & 0x8u32 == 0x8u32) by (bit_vector);
    assert(0x8u32 & 0x2u32 == 0u32 && 0x9u32 & 0x2u32 == 0u32 && 0xAu32 & 0x2u32 == 0x2u32
        && 0xBu32 & 0x2u32 == 0x2u32) by (bit_vector);
    assert(0x8u32 & 0x1u32 == 0u32 && 0x9u32 & 0x1u32 == 0x1u32 && 0xAu32 & 0x1u32 == 0u32
        && 0xBu32 & 0x1u32 == 0x1u32) by (bit_vector);
    assert(0x8u32 | 0x2u32 | 0x1u32 == 0xBu32) by (bit_vector);
    assert(0x8u32 & !0xBu32 == 0u32 && 0x9u32 & !0xBu32 == 0u32 && 0xAu32 & !0xBu32 == 0u32
        && 0xBu32 & !0xBu32 == 0u32) by (bit_vector);
}

/// Builds the input record for `key` going down (`down`) or up. The host
/// sends the record to the operating system as it is.
pub fn send_key(key: Key, down: bool) -> (input: KeyboardInput)
    ensures
        input == key_input(key, down),
        input.scan == key.code(),
{
    let code: u32 = key.scan_code();
    let direction: u32 = if down {
        KEYEVENTF_SCANCODE
    } else {
        KEYEVENTF_KEYUP | KEYEVENTF_SCANCODE
    };
    let flags: u32 = if code > PLAIN_CODE_MAX {
        direction | KEYEVENTF_EXTENDEDKEY
    } else {
        direction
    };
    proof {
        lemma_code_is_word(key);
    }
    KeyboardInput { virtual_key: 0, scan: code as u16, flags, time: 0, extra_info: 0 }
}

/// The input record that presses `key`.
pub fn press(key: Key) -> (input: KeyboardInput)
    ensures
        input == key_input(key, true),
        input.scan == key.code(),
{
    send_key(key, true)
}

/// The input record that releases `key`.
pub fn release(key: Key) -> (input: KeyboardInput)
    ensures
        input == key_input(key, false),
        input.scan == key.code(),
{
    send_key(key, false)
}

} // verus!
