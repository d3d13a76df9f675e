use vstd::prelude::*;

verus! {

/// Whether `v` is a Unicode scalar value, that is a code point that is not a surrogate.
pub open spec fn is_scalar_value(v: u32) -> bool {
    v < 0xD800 || (0xE000 <= v && v <= 0x10FFFF)
}

/// Relies on `char::from_u32`: it returns a character exactly for the Unicode scalar
/// values, and that character has the given code point.
pub assume_specification[ char::from_u32 ](i: u32) -> (r: Option<char>)
    ensures
        r is Some <==> is_scalar_value(i),
        r matches Some(c) ==> c as u32 == i,
;

/// A keyboard key, named by the key code that the native library reports for it.
#[derive(Debug, Clone, Copy, PartialEq, Eq, Hash, PartialOrd, Ord, Structural)]
#[non_exhaustive]
pub enum Key {
    Back,
    VolumeUp,
    VolumeDown,
    Space,
    Apostrophe,
    Comma,
    Minus,
    Period,
    Slash,
    Zero,
    One,
    Two,
    Three,
    Four,
    Five,
    Six,
    Seven,
    Eight,
    Nine,
    Semicolon,
    Equal,
    A,
    B,
    C,
    D,
    E,
    F,
    G,
    H,
    I,
    J,
    K,
    L,
    M,
    N,
    O,
    P,
    Q,
    R,
    S,
    T,
    U,
    V,
    W,
    X,
    Y,
    Z,
    LeftBracket,
    Backslash,
    RightBracket,
    Grave,
    Escape,
    Enter,
    Tab,
    Backspace,
    Insert,
    Delete,
    Right,
    Left,
    Down,
    Up,
    PageUp,
    PageDown,
    Home,
    End,
    CapsLock,
    ScrollLock,
    NumLock,
    PrintScreen,
    Pause,
    F1,
    F2,
    F3,
    F4,
    F5,
    F6,
    F7,
    F8,
    F9,
    F10,
    F11,
    F12,
    Kp0,
    Kp1,
    Kp2,
    Kp3,
    Kp4,
    Kp5,
    Kp6,
    Kp7,
    Kp8,
    Kp9,
    KpDecimal,
    KpDivide,
    KpMultiply,
    KpSubtract,
    KpAdd,
    KpEnter,
    KpEqual,
    LeftShift,
    LeftControl,
    LeftAlt,
    LeftSuper,
    RightShift,
    RightControl,
    RightAlt,
    RightSuper,
    KbMenu,
}

impl Key {
    /// The native key code of this key.
    pub open spec fn spec_code(self) -> u32 {
        match self {
            Key::Back => 4,
            Key::VolumeUp => 24,
            Key::VolumeDown => 25,
            Key::Space => 32,
            Key::Apostrophe => 39,
            Key::Comma => 44,
            Key::Minus => 45,
            Key::Period => 46,
            Key::Slash => 47,
            Key::Zero => 48,
            Key::One => 49,
            Key::Two => 50,
            Key::Three => 51,
            Key::Four => 52,
            Key::Five => 53,
            Key::Six => 54,
            Key::Seven => 55,
            Key::Eight => 56,
            Key::Nine => 57,
            Key::Semicolon => 59,
            Key::Equal => 60,
            Key::A => 65,
            Key::B => 66,
            Key::C => 67,
            Key::D => 68,
            Key::E => 69,
            Key::F => 70,
            Key::G => 71,
            Key::H => 72,
            Key::I => 73,
            Key::J => 74,
            Key::K => 75,
            Key::L => 76,
            Key::M => 77,
            Key::N => 78,
            Key::O => 79,
            Key::P => 80,
            Key::Q => 81,
            Key::R => 82,
            Key::S => 83,
            Key::T => 84,
            Key::U => 85,
            Key::V => 86,
            Key::W => 87,
            Key::X => 88,
            Key::Y => 89,
            Key::Z => 90,
            Key::LeftBracket => 91,
            Key::Backslash => 92,
            Key::RightBracket => 93,
            Key::Grave => 96,
            Key::Escape => 256,
            Key::Enter => 257,
            Key::Tab => 258,
            Key::Backspace => 259,
            Key::Insert => 260,
            Key::Delete => 261,
            Key::Right => 262,
            Key::Left => 263,
            Key::Down => 264,
            Key::Up => 265,
            Key::PageUp => 266,
            Key::PageDown => 267,
            Key::Home => 268,
            Key::End => 269,
            Key::CapsLock => 280,
            Key::ScrollLock => 281,
            Key::NumLock => 282,
            Key::PrintScreen => 283,
            Key::Pause => 284,
            Key::F1 => 290,
            Key::F2 => 291,
            Key::F3 => 292,
            Key::F4 => 293,
            Key::F5 => 294,
            Key::F6 => 295,
            Key::F7 => 296,
            Key::F8 => 297,
            Key::F9 => 298,
            Key::F10 => 299,
            Key::F11 => 300,
            Key::F12 => 301,
            Key::Kp0 => 320,
            Key::Kp1 => 321,
            Key::Kp2 => 322,
            Key::Kp3 => 323,
            Key::Kp4 => 324,
            Key::Kp5 => 325,
            Key::Kp6 => 326,
            Key::Kp7 => 327,
            Key::Kp8 => 328,
            Key::Kp9 => 329,
            Key::KpDecimal => 330,
            Key::KpDivide => 331,
            Key::KpMultiply => 332,
            Key::KpSubtract => 333,
            Key::KpAdd => 334,
            Key::KpEnter => 335,
            Key::KpEqual => 336,
            Key::LeftShift => 340,
            Key::LeftControl => 341,
            Key::LeftAlt => 342,
            Key::LeftSuper => 343,
            Key::RightShift => 344,
            Key::RightControl => 345,
            Key::RightAlt => 346,
            Key::RightSuper => 347,
            Key::KbMenu => 348,
        }
    }

    /// The native key code of this key.
    #[verifier::when_used_as_spec(spec_code)]
    pub fn code(self) -> (r: u32)
        ensures
            r == self.spec_code(),
    {
        match self {
            Key::Back => 4,
            Key::VolumeUp => 24,
            Key::VolumeDown => 25,
            Key::Space => 32,
            Key::Apostrophe => 39,
            Key::Comma => 44,
            Key::Minus => 45,
            Key::Period => 46,
            Key::Slash => 47,
            Key::Zero => 48,
            Key::One => 49,
            Key::Two => 50,
            Key::Three => 51,
            Key::Four => 52,
            Key::Five => 53,
            Key::Six => 54,
            Key::Seven => 55,
            Key::Eight => 56,
            Key::Nine => 57,
            Key::Semicolon => 59,
            Key::Equal => 60,
            Key::A => 65,
            Key::B => 66,
            Key::C => 67,
            Key::D => 68,
            Key::E => 69,
            Key::F => 70,
            Key::G => 71,
            Key::H => 72,
            Key::I => 73,
            Key::J => 74,
            Key::K => 75,
            Key::L => 76,
            Key::M => 77,
            Key::N => 78,
            Key::O => 79,
            Key::P => 80,
            Key::Q => 81,
            Key::R => 82,
            Key::S => 83,
            Key::T => 84,
            Key::U => 85,
            Key::V => 86,
            Key::W => 87,
            Key::X => 88,
            Key::Y => 89,
            Key::Z => 90,
            Key::LeftBracket => 91,
            Key::Backslash => 92,
            Key::RightBracket => 93,
            Key::Grave => 96,
            Key::Escape => 256,
            Key::Enter => 257,
            Key::Tab => 258,
            Key::Backspace => 259,
            Key::Insert => 260,
            Key::Delete => 261,
            Key::Right => 262,
            Key::Left => 263,
            Key::Down => 264,
            Key::Up => 265,
            Key::PageUp => 266,
            Key::PageDown => 267,
            Key::Home => 268,
            Key::End => 269,
            Key::CapsLock => 280,
            Key::ScrollLock => 281,
            Key::NumLock => 282,
            Key::PrintScreen => 283,
            Key::Pause => 284,
            Key::F1 => 290,
            Key::F2 => 291,
            Key::F3 => 292,
            Key::F4 => 293,
            Key::F5 => 294,
            Key::F6 => 295,
            Key::F7 => 296,
            Key::F8 => 297,
            Key::F9 => 298,
            Key::F10 => 299,
            Key::F11 => 300,
            Key::F12 => 301,
            Key::Kp0 => 320,
            Key::Kp1 => 321,
            Key::Kp2 => 322,
            Key::Kp3 => 323,
            Key::Kp4 => 324,
            Key::Kp5 => 325,
            Key::Kp6 => 326,
            Key::Kp7 => 327,
            Key::Kp8 => 328,
            Key::Kp9 => 329,
            Key::KpDecimal => 330,
            Key::KpDivide => 331,
            Key::KpMultiply => 332,
            Key::KpSubtract => 333,
            Key::KpAdd => 334,
            Key::KpEnter => 335,
            Key::KpEqual => 336,
            Key::LeftShift => 340,
            Key::LeftControl => 341,
            Key::LeftAlt => 342,
            Key::LeftSuper => 343,
            Key::RightShift => 344,
            Key::RightControl => 345,
            Key::RightAlt => 346,
            Key::RightSuper => 347,
            Key::KbMenu => 348,
        }
    }

    /// The key whose native code is `v`, or `None` where no key has that code.
    pub fn from_u32(v: u32) -> (r: Option<Key>)
        ensures
            forall|k: Key| r == Some(k) <==> k.code() == v,
            r == key_for_code(v),
    {
        let r = match v {
            4 => Some(Key::Back),
            24 => Some(Key::VolumeUp),
            25 => Some(Key::VolumeDown),
            32 => Some(Key::Space),
            39 => Some(Key::Apostrophe),
            44 => Some(Key::Comma),
            45 => Some(Key::Minus),
            46 => Some(Key::Period),
            47 => Some(Key::Slash),
            48 => Some(Key::Zero),
            49 => Some(Key::One),
            50 => Some(Key::Two),
            51 => Some(Key::Three),
            52 => Some(Key::Four),
            53 => Some(Key::Five),
            54 => Some(Key::Six),
            55 => Some(Key::Seven),
            56 => Some(Key::Eight),
            57 => Some(Key::Nine),
            59 => Some(Key::Semicolon),
            60 => Some(Key::Equal),
            65 => Some(Key::A),
            66 => Some(Key::B),
            67 => Some(Key::C),
            68 => Some(Key::D),
            69 => Some(Key::E),
            70 => Some(Key::F),
            71 => Some(Key::G),
            72 => Some(Key::H),
            73 => Some(Key::I),
            74 => Some(Key::J),
            75 => Some(Key::K),
            76 => Some(Key::L),
            77 => Some(Key::M),
            78 => Some(Key::N),
            79 => Some(Key::O),
            80 => Some(Key::P),
            81 => Some(Key::Q),
            82 => Some(Key::R),
            83 => Some(Key::S),
            84 => Some(Key::T),
            85 => Some(Key::U),
            86 => Some(Key::V),
            87 => Some(Key::W),
            88 => Some(Key::X),
            89 => Some(Key::Y),
            90 => Some(Key::Z),
            91 => Some(Key::LeftBracket),
            92 => Some(Key::Backslash),
            93 => Some(Key::RightBracket),
            96 => Some(Key::Grave),
            256 => Some(Key::Escape),
            257 => Some(Key::Enter),
            258 => Some(Key::Tab),
            259 => Some(Key::Backspace),
            260 => Some(Key::Insert),
            261 => Some(Key::Delete),
            262 => Some(Key::Right),
            263 => Some(Key::Left),
            264 => Some(Key::Down),
            265 => Some(Key::Up),
            266 => Some(Key::PageUp),
            267 => Some(Key::PageDown),
            268 => Some(Key::Home),
            269 => Some(Key::End),
            280 => Some(Key::CapsLock),
            281 => Some(Key::ScrollLock),
            282 => Some(Key::NumLock),
            283 => Some(Key::PrintScreen),
            284 => Some(Key::Pause),
            290 => Some(Key::F1),
            291 => Some(Key::F2),
            292 => Some(Key::F3),
            293 => Some(Key::F4),
            294 => Some(Key::F5),
            295 => Some(Key::F6),
            296 => Some(Key::F7),
            297 => Some(Key::F8),
            298 => Some(Key::F9),
            299 => Some(Key::F10),
            300 => Some(Key::F11),
            301 => Some(Key::F12),
            320 => Some(Key::Kp0),
            321 => Some(Key::Kp1),
            322 => Some(Key::Kp2),
            323 => Some(Key::Kp3),
            324 => Some(Key::Kp4),
            325 => Some(Key::Kp5),
            326 => Some(Key::Kp6),
            327 => Some(Key::Kp7),
            328 => Some(Key::Kp8),
            329 => Some(Key::Kp9),
            330 => Some(Key::KpDecimal),
            331 => Some(Key::KpDivide),
            332 => Some(Key::KpMultiply),
            333 => Some(Key::KpSubtract),
            334 => Some(Key::KpAdd),
            335 => Some(Key::KpEnter),
            336 => Some(Key::KpEqual),
            340 => Some(Key::LeftShift),
            341 => Some(Key::LeftControl),
            342 => Some(Key::LeftAlt),
            343 => Some(Key::LeftSuper),
            344 => Some(Key::RightShift),
            345 => Some(Key::RightControl),
            346 => Some(Key::RightAlt),
            347 => Some(Key::RightSuper),
            348 => Some(Key::KbMenu),
            _ => None,
        };
        proof {
            assert(forall|k: Key| r == Some(k) <==> k.code() == v);
            if exists|j: Key| j.code() == v {
                let c = choose|j: Key| j.code() == v;
                assert(r == Some(c));
            } else {
                if r is Some {
                    assert(r->0.code() == v);
                }
            }
        }
        r
    }
}

/// The key that has the native code `v`, if there is one.
pub open spec fn key_for_code(v: u32) -> Option<Key> {
    if exists|k: Key| k.code() == v {
        Some(choose|k: Key| k.code() == v)
    } else {
        None
    }
}

/// The character that a code read from the native character queue stands for, if it is
/// one: codes that are not Unicode scalar values are dropped.
pub open spec fn char_event(code: i32) -> Seq<char> {
    if code > 0 && is_scalar_value(code as u32) {
        seq![(code as u32) as char]
    } else {
        seq![]
    }
}

/// The key that a code read from the native key queue stands for, if it is one: codes
/// that name no key are dropped.
pub open spec fn key_event(code: i32) -> Seq<Key> {
    if code > 0 {
        match key_for_code(code as u32) {
            Some(k) => seq![k],
            None => seq![],
        }
    } else {
        seq![]
    }
}

/// The keyboard: the characters and keys that were queued this frame and not yet taken.
///
/// A code of zero marks the end of a native queue. Each queued event is handed out once:
/// taking the queue empties it.
#[derive(Debug)]
pub struct Keyboard {
    pending_chars: Vec<char>,
    pending_keys: Vec<Key>,
}

impl Keyboard {
    /// The characters queued and not yet taken.
    pub closed spec fn chars(&self) -> Seq<char> {
        self.pending_chars@
    }

    /// The keys queued and not yet taken.
    pub closed spec fn keys(&self) -> Seq<Key> {
        self.pending_keys@
    }

    /// A keyboard with nothing queued.
    pub fn new() -> (r: Keyboard)
        ensures
            r.chars() == Seq::<char>::empty(),
            r.keys() == Seq::<Key>::empty(),
    {
        Keyboard { pending_chars: Vec::new(), pending_keys: Vec::new() }
    }

    /// Records one code read from the native character queue. Returns whether the queue
    /// may hold more, that is whether `code` was not the end marker.
    pub fn record_char_code(&mut self, code: i32) -> (more: bool)
        ensures
            more == (code != 0),
            final(self).keys() == old(self).keys(),
            final(self).chars() == if code == 0 {
                old(self).chars()
            } else {
                old(self).chars() + char_event(code)
            },
    {
        if code == 0 {
            return false;
        }
        if code < 0 {
            return true;
        }
        match char::from_u32(code as u32) {
            Some(c) => {
                self.pending_chars.push(c);
                proof {
                    vstd::utf8::char_u32_cast(c, code as u32);
                }
                assert(char_event(code) =~= seq![c]);
            },
            None => {
                assert(char_event(code) =~= Seq::<char>::empty());
            },
        }
        true
    }

    /// Records one code read from the native key queue. Returns whether the queue may hold
    /// more, that is whether `code` was not the end marker.
    pub fn record_key_code(&mut self, code: i32) -> (more: bool)
        ensures
            more == (code != 0),
            final(self).chars() == old(self).chars(),
            final(self).keys() == if code == 0 {
                old(self).keys()
            } else {
                old(self).keys() + key_event(code)
            },
    {
        if code == 0 {
            return false;
        }
        if code < 0 {
            return true;
        }
        match Key::from_u32(code as u32) {
            Some(k) => {
                self.pending_keys.push(k);
                assert(key_event(code) =~= seq![k]);
            },
            None => {
                assert(key_event(code) =~= Seq::<Key>::empty());
            },
        }
        true
    }

    /// Takes the queued characters, in the order they were typed; none is handed out again.
    pub fn take_pressed_chars(&mut self) -> (r: PressedChars)
        ensures
            drains_chars(*old(self), r@, *final(self)),
    {
        let mut items = Vec::new();
        std::mem::swap(&mut items, &mut self.pending_chars);
        let r = PressedChars { items, next: 0 };
        assert(r@ =~= old(self).chars());
        r
    }

    /// Takes the queued keys, in the order they were pressed; none is handed out again.
    pub fn take_pressed_keys(&mut self) -> (r: PressedKeys)
        ensures
            drains_keys(*old(self), r@, *final(self)),
    {
        let mut items = Vec::new();
        std::mem::swap(&mut items, &mut self.pending_keys);
        let r = PressedKeys { items, next: 0 };
        assert(r@ =~= old(self).keys());
        r
    }
}

/// Characters taken from the keyboard, handed out one by one.
#[derive(Debug)]
pub struct PressedChars {
    items: Vec<char>,
    next: usize,
}

impl View for PressedChars {
    type V = Seq<char>;

    /// The characters not handed out yet.
    closed spec fn view(&self) -> Seq<char> {
        if self.next <= self.items.len() {
            self.items@.skip(self.next as int)
        } else {
            Seq::empty()
        }
    }
}

impl PressedChars {
    /// The next character, or `None` once all have been handed out.
    pub fn next(&mut self) -> (r: Option<char>)
        ensures
            old(self)@.len() == 0 ==> r is None && final(self)@ == old(self)@,
            old(self)@.len() > 0 ==> r == Some(old(self)@[0]) && final(self)@
                == old(self)@.drop_first(),
    {
        if self.next >= self.items.len() {
            return None;
        }
        let c = self.items[self.next];
        self.next = self.next + 1;
        assert(self.items@.skip(self.next as int) =~= old(self)@.drop_first());
        Some(c)
    }
}

/// Keys taken from the keyboard, handed out one by one.
#[derive(Debug)]
pub struct PressedKeys {
    items: Vec<Key>,
    next: usize,
}

impl View for PressedKeys {
    type V = Seq<Key>;

    /// The keys not handed out yet.
    closed spec fn view(&self) -> Seq<Key> {
        if self.next <= self.items.len() {
            self.items@.skip(self.next as int)
        } else {
            Seq::empty()
        }
    }
}

impl PressedKeys {
    /// The next key, or `None` once all have been handed out.
    pub fn next(&mut self) -> (r: Option<Key>)
        ensures
            old(self)@.len() == 0 ==> r is None && final(self)@ == old(self)@,
            old(self)@.len() > 0 ==> r == Some(old(self)@[0]) && final(self)@
                == old(self)@.drop_first(),
    {
        if self.next >= self.items.len() {
            return None;
        }
        let k = self.items[self.next];
        self.next = self.next + 1;
        assert(self.items@.skip(self.next as int) =~= old(self)@.drop_first());
        Some(k)
    }
}

/// `handed` is what one drain of the character queue of `before` hands out, leaving `after`.
pub open spec fn drains_chars(before: Keyboard, handed: Seq<char>, after: Keyboard) -> bool {
    &&& handed == before.chars()
    &&& after.chars() == Seq::<char>::empty()
    &&& after.keys() == before.keys()
}

/// `handed` is what one drain of the key queue of `before` hands out, leaving `after`.
pub open spec fn drains_keys(before: Keyboard, handed: Seq<Key>, after: Keyboard) -> bool {
    &&& handed == before.keys()
    &&& after.keys() == Seq::<Key>::empty()
    &&& after.chars() == before.chars()
}

/// Each queued character is handed out once: draining the queue a second time, with no
/// code recorded in between, hands out nothing.
pub proof fn lemma_chars_drained_once(
    before: Keyboard,
    first: Seq<char>,
    middle: Keyboard,
    second: Seq<char>,
    after: Keyboard,
)
    requires
        drains_chars(before, first, middle),
        drains_chars(middle, second, after),
    ensures
        first == before.chars(),
        second == Seq::<char>::empty(),
        after.chars() == Seq::<char>::empty(),
        after.keys() == before.keys(),
{
}

/// Each queued key is handed out once: draining the queue a second time, with no code
/// recorded in between, hands out nothing.
pub proof fn lemma_keys_drained_once(
    before: Keyboard,
    first: Seq<Key>,
    middle: Keyboard,
    second: Seq<Key>,
    after: Keyboard,
)
    requires
        drains_keys(before, first, middle),
        drains_keys(middle, second, after),
    ensures
        first == before.keys(),
        second == Seq::<Key>::empty(),
        after.keys() == Seq::<Key>::empty(),
        after.chars() == before.chars(),
{
}

} // verus!
