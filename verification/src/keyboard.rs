//! The 16-key input device: a flat table of key states, driven
//! externally by host key events.

use vstd::prelude::*;

verus! {

/// Identifier of one of the 16 keys (hexadecimal keypad `0`–`F`).
#[derive(Debug, Clone, Copy, PartialEq, Eq, Structural)]
pub enum Key {
    Num0,
    Num1,
    Num2,
    Num3,
    Num4,
    Num5,
    Num6,
    Num7,
    Num8,
    Num9,
    A,
    B,
    C,
    D,
    E,
    F,
}

impl Key {
    /// The numeric key code (0–15) this key carries.
    pub open spec fn idx(self) -> int {
        match self {
            Key::Num0 => 0,
            Key::Num1 => 1,
            Key::Num2 => 2,
            Key::Num3 => 3,
            Key::Num4 => 4,
            Key::Num5 => 5,
            Key::Num6 => 6,
            Key::Num7 => 7,
            Key::Num8 => 8,
            Key::Num9 => 9,
            Key::A => 10,
            Key::B => 11,
            Key::C => 12,
            Key::D => 13,
            Key::E => 14,
            Key::F => 15,
        }
    }

    /// The key with the given code, if it is one of the 16 legal values.
    pub open spec fn spec_from_code(value: u8) -> Key
        recommends
            value < 16,
    {
        match value {
            0 => Key::Num0,
            1 => Key::Num1,
            2 => Key::Num2,
            3 => Key::Num3,
            4 => Key::Num4,
            5 => Key::Num5,
            6 => Key::Num6,
            7 => Key::Num7,
            8 => Key::Num8,
            9 => Key::Num9,
            10 => Key::A,
            11 => Key::B,
            12 => Key::C,
            13 => Key::D,
            14 => Key::E,
            _ => Key::F,
        }
    }

    /// Validating constructor: accepts exactly the key codes 0–15,
    /// handing back the rejected value otherwise.
    pub fn try_from_u8(value: u8) -> (r: Result<Key, u8>)
        ensures
            match r {
                Ok(k) => value < 16 && k == Key::spec_from_code(value) && k.idx() == value as int,
                Err(e) => value >= 16 && e == value,
            },
    {
        match value {
            0 => Ok(Key::Num0),
            1 => Ok(Key::Num1),
            2 => Ok(Key::Num2),
            3 => Ok(Key::Num3),
            4 => Ok(Key::Num4),
            5 => Ok(Key::Num5),
            6 => Ok(Key::Num6),
            7 => Ok(Key::Num7),
            8 => Ok(Key::Num8),
            9 => Ok(Key::Num9),
            10 => Ok(Key::A),
            11 => Ok(Key::B),
            12 => Ok(Key::C),
            13 => Ok(Key::D),
            14 => Ok(Key::E),
            15 => Ok(Key::F),
            _ => Err(value),
        }
    }

    /// The key a host keyboard character names: the hexadecimal digits,
    /// either case; anything else is rejected.
    pub open spec fn spec_from_char(value: char) -> Option<Key> {
        match value {
            '0' => Some(Key::Num0),
            '1' => Some(Key::Num1),
            '2' => Some(Key::Num2),
            '3' => Some(Key::Num3),
            '4' => Some(Key::Num4),
            '5' => Some(Key::Num5),
            '6' => Some(Key::Num6),
            '7' => Some(Key::Num7),
            '8' => Some(Key::Num8),
            '9' => Some(Key::Num9),
            'a' | 'A' => Some(Key::A),
            'b' | 'B' => Some(Key::B),
            'c' | 'C' => Some(Key::C),
            'd' | 'D' => Some(Key::D),
            'e' | 'E' => Some(Key::E),
            'f' | 'F' => Some(Key::F),
            _ => None,
        }
    }

    /// Map a host keyboard character to a key, accepting the
    /// hexadecimal digits in either case.
    pub fn try_from_char(value: char) -> (r: Result<Key, ()>)
        ensures
            match r {
                Ok(k) => Key::spec_from_char(value) == Some(k),
                Err(()) => Key::spec_from_char(value) is None,
            },
    {
        match value {
            '0' => Ok(Key::Num0),
            '1' => Ok(Key::Num1),
            '2' => Ok(Key::Num2),
            '3' => Ok(Key::Num3),
            '4' => Ok(Key::Num4),
            '5' => Ok(Key::Num5),
            '6' => Ok(Key::Num6),
            '7' => Ok(Key::Num7),
            '8' => Ok(Key::Num8),
            '9' => Ok(Key::Num9),
            'a' | 'A' => Ok(Key::A),
            'b' | 'B' => Ok(Key::B),
            'c' | 'C' => Ok(Key::C),
            'd' | 'D' => Ok(Key::D),
            'e' | 'E' => Ok(Key::E),
            'f' | 'F' => Ok(Key::F),
            _ => Err(()),
        }
    }

    /// The numeric key code as a byte.
    pub fn as_u8(self) -> (r: u8)
        ensures
            r as int == self.idx(),
            r < 16,
    {
        match self {
            Key::Num0 => 0,
            Key::Num1 => 1,
            Key::Num2 => 2,
            Key::Num3 => 3,
            Key::Num4 => 4,
            Key::Num5 => 5,
            Key::Num6 => 6,
            Key::Num7 => 7,
            Key::Num8 => 8,
            Key::Num9 => 9,
            Key::A => 10,
            Key::B => 11,
            Key::C => 12,
            Key::D => 13,
            Key::E => 14,
            Key::F => 15,
        }
    }
}

/// Whether a key is currently held down.
#[derive(Debug, Clone, Copy, PartialEq, Eq, Structural)]
pub enum KeyState {
    Pressed,
    Released,
}

/// The key state table, one entry per [`Key`].
pub struct Keyboard {
    pub raw: Vec<KeyState>,
}

impl View for Keyboard {
    type V = Seq<KeyState>;

    open spec fn view(&self) -> Seq<KeyState> {
        self.raw@
    }
}

impl Keyboard {
    /// There is a state for each of the 16 keys.
    pub open spec fn wf(&self) -> bool {
        self@.len() == 16
    }

    /// A fresh keyboard, every key released.
    pub fn new() -> (r: Keyboard)
        ensures
            r.wf(),
            r@ == Seq::new(16, |i: int| KeyState::Released),
    {
        let r = Keyboard { raw: vec![KeyState::Released; 16] };
        proof {
            assert(r@ =~= Seq::new(16, |i: int| KeyState::Released));
        }
        r
    }

    /// Record that `key` is now held down.
    pub fn key_down(&mut self, key: Key)
        requires
            old(self).wf(),
        ensures
            final (self).wf(),
            final (self)@ == old(self)@.update(key.idx(), KeyState::Pressed),
    {
        let i = key.as_u8() as usize;
        self.raw[i] = KeyState::Pressed;
    }

    /// Record that `key` is now released.
    pub fn key_up(&mut self, key: Key)
        requires
            old(self).wf(),
        ensures
            final (self).wf(),
            final (self)@ == old(self)@.update(key.idx(), KeyState::Released),
    {
        let i = key.as_u8() as usize;
        self.raw[i] = KeyState::Released;
    }

    /// The current state of `key`.
    pub fn get_key_state(&self, key: Key) -> (r: KeyState)
        requires
            self.wf(),
        ensures
            r == self@[key.idx()],
    {
        self.raw[key.as_u8() as usize]
    }
}

} // verus!
