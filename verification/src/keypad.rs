use vstd::prelude::*;
use vstd::string::StringExecFns;

verus! {

/// The sixteen keys of the keypad, named by their hexadecimal digit.
#[derive(Copy, Clone, Hash, PartialEq, Eq, Structural)]
pub enum Keypad {
    Key0,
    Key1,
    Key2,
    Key3,
    Key4,
    Key5,
    Key6,
    Key7,
    Key8,
    Key9,
    KeyA,
    KeyB,
    KeyC,
    KeyD,
    KeyE,
    KeyF,
}

/// The buttons of a gamepad that the keypad knows; every other button is
/// `Other`.
#[derive(Copy, Clone, Hash, PartialEq, Eq, Structural)]
pub enum GamepadButton {
    DPadUp,
    DPadDown,
    DPadLeft,
    DPadRight,
    South,
    Other,
}

impl Keypad {
    /// The key that the keyboard key printing `c` stands for: the four by
    /// four block from `1` to `v` of a keyboard laid out `azerty`, row by row
    /// `1 2 3 C`, `4 5 6 D`, `7 8 9 E`, `A 0 B F`. Other characters stand for
    /// no key.
    pub open spec fn spec_from_char(c: char) -> Option<Keypad> {
        if c == '1' {
            Some(Keypad::Key1)
        } else if c == '2' {
            Some(Keypad::Key2)
        } else if c == '3' {
            Some(Keypad::Key3)
        } else if c == '4' {
            Some(Keypad::KeyC)
        } else if c == 'a' {
            Some(Keypad::Key4)
        } else if c == 'z' {
            Some(Keypad::Key5)
        } else if c == 'e' {
            Some(Keypad::Key6)
        } else if c == 'r' {
            Some(Keypad::KeyD)
        } else if c == 'q' {
            Some(Keypad::Key7)
        } else if c == 's' {
            Some(Keypad::Key8)
        } else if c == 'd' {
            Some(Keypad::Key9)
        } else if c == 'f' {
            Some(Keypad::KeyE)
        } else if c == 'w' {
            Some(Keypad::KeyA)
        } else if c == 'x' {
            Some(Keypad::Key0)
        } else if c == 'c' {
            Some(Keypad::KeyB)
        } else if c == 'v' {
            Some(Keypad::KeyF)
        } else {
            None
        }
    }

    /// The key that the keyboard key printing `c` stands for, if any.
    #[verifier::when_used_as_spec(spec_from_char)]
    pub fn from_char(c: char) -> (key: Option<Keypad>)
        ensures
            key == Keypad::spec_from_char(c),
    {
        if c == '1' {
            Some(Keypad::Key1)
        } else if c == '2' {
            Some(Keypad::Key2)
        } else if c == '3' {
            Some(Keypad::Key3)
        } else if c == '4' {
            Some(Keypad::KeyC)
        } else if c == 'a' {
            Some(Keypad::Key4)
        } else if c == 'z' {
            Some(Keypad::Key5)
        } else if c == 'e' {
            Some(Keypad::Key6)
        } else if c == 'r' {
            Some(Keypad::KeyD)
        } else if c == 'q' {
            Some(Keypad::Key7)
        } else if c == 's' {
            Some(Keypad::Key8)
        } else if c == 'd' {
            Some(Keypad::Key9)
        } else if c == 'f' {
            Some(Keypad::KeyE)
        } else if c == 'w' {
            Some(Keypad::KeyA)
        } else if c == 'x' {
            Some(Keypad::Key0)
        } else if c == 'c' {
            Some(Keypad::KeyB)
        } else if c == 'v' {
            Some(Keypad::KeyF)
        } else {
            None
        }
    }

    /// The key that the hardware key code `code` of a keyboard stands for:
    /// the codes 10 to 13, 24 to 27, 38 to 41 and 52 to 55 are the four rows
    /// `1 2 3 C`, `4 5 6 D`, `7 8 9 E`, `A 0 B F`. Other codes stand for no
    /// key.
    pub open spec fn spec_from_keycode(code: u16) -> Option<Keypad> {
        match code {
            10 => Some(Keypad::Key1),
            11 => Some(Keypad::Key2),
            12 => Some(Keypad::Key3),
            13 => Some(Keypad::KeyC),
            24 => Some(Keypad::Key4),
            25 => Some(Keypad::Key5),
            26 => Some(Keypad::Key6),
            27 => Some(Keypad::KeyD),
            38 => Some(Keypad::Key7),
            39 => Some(Keypad::Key8),
            40 => Some(Keypad::Key9),
            41 => Some(Keypad::KeyE),
            52 => Some(Keypad::KeyA),
            53 => Some(Keypad::Key0),
            54 => Some(Keypad::KeyB),
            55 => Some(Keypad::KeyF),
            _ => None,
        }
    }

    /// The key that the hardware key code `code` stands for, if any.
    #[verifier::when_used_as_spec(spec_from_keycode)]
    pub fn from_keycode(code: u16) -> (key: Option<Keypad>)
        ensures
            key == Keypad::spec_from_keycode(code),
    {
        match code {
            10 => Some(Keypad::Key1),
            11 => Some(Keypad::Key2),
            12 => Some(Keypad::Key3),
            13 => Some(Keypad::KeyC),
            24 => Some(Keypad::Key4),
            25 => Some(Keypad::Key5),
            26 => Some(Keypad::Key6),
            27 => Some(Keypad::KeyD),
            38 => Some(Keypad::Key7),
            39 => Some(Keypad::Key8),
            40 => Some(Keypad::Key9),
            41 => Some(Keypad::KeyE),
            52 => Some(Keypad::KeyA),
            53 => Some(Keypad::Key0),
            54 => Some(Keypad::KeyB),
            55 => Some(Keypad::KeyF),
            _ => None,
        }
    }

    /// The key that a gamepad button stands for: the directions are the keys
    /// 5, 8, 7 and 9, the south button is key 6.
    pub open spec fn spec_from_button(button: GamepadButton) -> Option<Keypad> {
        match button {
            GamepadButton::DPadUp => Some(Keypad::Key5),
            GamepadButton::DPadDown => Some(Keypad::Key8),
            GamepadButton::DPadLeft => Some(Keypad::Key7),
            GamepadButton::DPadRight => Some(Keypad::Key9),
            GamepadButton::South => Some(Keypad::Key6),
            GamepadButton::Other => None,
        }
    }

    /// The key that a gamepad button stands for, if any.
    #[verifier::when_used_as_spec(spec_from_button)]
    pub fn from_button(button: GamepadButton) -> (key: Option<Keypad>)
        ensures
            key == Keypad::spec_from_button(button),
    {
        match button {
            GamepadButton::DPadUp => Some(Keypad::Key5),
            GamepadButton::DPadDown => Some(Keypad::Key8),
            GamepadButton::DPadLeft => Some(Keypad::Key7),
            GamepadButton::DPadRight => Some(Keypad::Key9),
            GamepadButton::South => Some(Keypad::Key6),
            GamepadButton::Other => None,
        }
    }

    /// The number of the key, which is its place on the keypad.
    pub open spec fn spec_index(self) -> u8 {
        match self {
            Keypad::Key0 => 0x0,
            Keypad::Key1 => 0x1,
            Keypad::Key2 => 0x2,
            Keypad::Key3 => 0x3,
            Keypad::Key4 => 0x4,
            Keypad::Key5 => 0x5,
            Keypad::Key6 => 0x6,
            Keypad::Key7 => 0x7,
            Keypad::Key8 => 0x8,
            Keypad::Key9 => 0x9,
            Keypad::KeyA => 0xA,
            Keypad::KeyB => 0xB,
            Keypad::KeyC => 0xC,
            Keypad::KeyD => 0xD,
            Keypad::KeyE => 0xE,
            Keypad::KeyF => 0xF,
        }
    }

    /// The number of the key, which is its place on the keypad.
    #[verifier::when_used_as_spec(spec_index)]
    pub fn index(self) -> (k: u8)
        ensures
            k == self.spec_index(),
            k < 16,
    {
        match self {
            Keypad::Key0 => 0x0,
            Keypad::Key1 => 0x1,
            Keypad::Key2 => 0x2,
            Keypad::Key3 => 0x3,
            Keypad::Key4 => 0x4,
            Keypad::Key5 => 0x5,
            Keypad::Key6 => 0x6,
            Keypad::Key7 => 0x7,
            Keypad::Key8 => 0x8,
            Keypad::Key9 => 0x9,
            Keypad::KeyA => 0xA,
            Keypad::KeyB => 0xB,
            Keypad::KeyC => 0xC,
            Keypad::KeyD => 0xD,
            Keypad::KeyE => 0xE,
            Keypad::KeyF => 0xF,
        }
    }

    /// The hexadecimal digit on the key.
    pub open spec fn digit(self) -> Seq<char> {
        match self {
            Keypad::Key0 => "0"@,
            Keypad::Key1 => "1"@,
            Keypad::Key2 => "2"@,
            Keypad::Key3 => "3"@,
            Keypad::Key4 => "4"@,
            Keypad::Key5 => "5"@,
            Keypad::Key6 => "6"@,
            Keypad::Key7 => "7"@,
            Keypad::Key8 => "8"@,
            Keypad::Key9 => "9"@,
            Keypad::KeyA => "A"@,
            Keypad::KeyB => "B"@,
            Keypad::KeyC => "C"@,
            Keypad::KeyD => "D"@,
            Keypad::KeyE => "E"@,
            Keypad::KeyF => "F"@,
        }
    }

    /// The key in words: `Keypad { key=` and the key's digit, closed by ` }`.
    pub fn to_string(&self) -> (text: String)
        ensures
            text@ == "Keypad { key="@ + self.digit() + " }"@,
    {
        let mut text = String::from_str("Keypad { key=");
        text.append(
            match self {
                Keypad::Key0 => "0",
                Keypad::Key1 => "1",
                Keypad::Key2 => "2",
                Keypad::Key3 => "3",
                Keypad::Key4 => "4",
                Keypad::Key5 => "5",
                Keypad::Key6 => "6",
                Keypad::Key7 => "7",
                Keypad::Key8 => "8",
                Keypad::Key9 => "9",
                Keypad::KeyA => "A",
                Keypad::KeyB => "B",
                Keypad::KeyC => "C",
                Keypad::KeyD => "D",
                Keypad::KeyE => "E",
                Keypad::KeyF => "F",
            },
        );
        text.append(" }");
        text
    }
}

} // verus!
