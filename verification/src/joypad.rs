//! Button input port.
//!
//! Eight button booleans are kept pressed/released by the host; the `P1`
//! register exposes them as a 4-bit matrix selected by two active-low select
//! lines (bit 4 directions, bit 5 buttons).  Any press requests the joypad
//! interrupt.

use vstd::prelude::*;

verus! {

#[derive(Clone, Copy, Debug, PartialEq, Eq, Structural)]
pub enum Button {
    Right,
    Left,
    Up,
    Down,
    A,
    B,
    Select,
    Start,
}

#[derive(Clone, Copy, Debug)]
pub struct Joypad {
    pub right: bool,
    pub left: bool,
    pub up: bool,
    pub down: bool,
    pub a: bool,
    pub b: bool,
    pub select: bool,
    pub start: bool,
    /// Button-select line (`P1` bit 5), active low.
    pub p15: bool,
    /// Direction-select line (`P1` bit 4), active low.
    pub p14: bool,
    pub int_flag: bool,
}

impl Joypad {
    /// One active-low matrix nibble: bit `k` is 0 exactly when the
    /// corresponding button is held.
    pub open spec fn spec_nibble(b3: bool, b2: bool, b1: bool, b0: bool) -> u8 {
        ((if b3 { 0int } else { 8 }) + (if b2 { 0int } else { 4 })
            + (if b1 { 0int } else { 2 }) + (if b0 { 0int } else { 1 })) as u8
    }

    /// What a `P1` read returns: 0xFF with both select lines high, otherwise
    /// the selected active-low nibble below the select bits.
    pub open spec fn spec_read(self) -> u8 {
        if self.p15 && self.p14 {
            0xFF
        } else if !self.p15 {
            (0xD0 + Self::spec_nibble(self.start, self.select, self.b, self.a)) as u8
        } else {
            (0xE0 + Self::spec_nibble(self.down, self.up, self.left, self.right)) as u8
        }
    }

    /// The state after a `P1` write: only the two select lines (bits 4 and
    /// 5) are latched.
    pub open spec fn spec_write(self, data: u8) -> Joypad {
        Joypad { p15: data as int / 32 % 2 == 1, p14: data as int / 16 % 2 == 1, ..self }
    }

    /// A `P1` write latches only the two select lines (bits 4 and 5).
    pub fn write(&mut self, data: u8)
        ensures
            *final(self) == old(self).spec_write(data),
    {
        self.p15 = data / 32 % 2 == 1;
        self.p14 = data / 16 % 2 == 1;
    }

    /// Read `P1`: the selected button group as an active-low nibble; 0xFF
    /// when neither group is selected.
    pub fn read(&self) -> (r: u8)
        ensures
            r == self.spec_read(),
    {
        if self.p15 && self.p14 {
            return 0xFF;
        }

        if !self.p15 {
            let nibble = (if self.start { 0u8 } else { 8u8 })
                + (if self.select { 0 } else { 4 })
                + (if self.b { 0 } else { 2 })
                + (if self.a { 0 } else { 1 });
            return 0xD0 + nibble;
        }

        let nibble = (if self.down { 0u8 } else { 8u8 })
            + (if self.up { 0 } else { 4 })
            + (if self.left { 0 } else { 2 })
            + (if self.right { 0 } else { 1 });
        0xE0 + nibble
    }

    /// The joypad state with one button forced to `held`.
    pub open spec fn spec_with_button(self, button: Button, held: bool) -> Joypad {
        match button {
            Button::Right => Joypad { right: held, ..self },
            Button::Left => Joypad { left: held, ..self },
            Button::Up => Joypad { up: held, ..self },
            Button::Down => Joypad { down: held, ..self },
            Button::A => Joypad { a: held, ..self },
            Button::B => Joypad { b: held, ..self },
            Button::Select => Joypad { select: held, ..self },
            Button::Start => Joypad { start: held, ..self },
        }
    }

    /// Pressing any button also requests the joypad interrupt.
    pub fn press(&mut self, button: Button)
        ensures
            *final(self) == (Joypad {
                int_flag: true,
                ..old(self).spec_with_button(button, true)
            }),
    {
        self.int_flag = true;
        match button {
            Button::Right => self.right = true,
            Button::Left => self.left = true,
            Button::Up => self.up = true,
            Button::Down => self.down = true,
            Button::A => self.a = true,
            Button::B => self.b = true,
            Button::Select => self.select = true,
            Button::Start => self.start = true,
        }
    }

    pub fn release(&mut self, button: Button)
        ensures
            *final(self) == old(self).spec_with_button(button, false),
    {
        match button {
            Button::Right => self.right = false,
            Button::Left => self.left = false,
            Button::Up => self.up = false,
            Button::Down => self.down = false,
            Button::A => self.a = false,
            Button::B => self.b = false,
            Button::Select => self.select = false,
            Button::Start => self.start = false,
        }
    }

    /// All buttons released, both select lines high, no interrupt pending.
    pub fn new() -> (r: Joypad)
        ensures
            r == (Joypad {
                right: false,
                left: false,
                up: false,
                down: false,
                a: false,
                b: false,
                select: false,
                start: false,
                p15: true,
                p14: true,
                int_flag: false,
            }),
    {
        Joypad {
            right: false,
            left: false,
            up: false,
            down: false,
            a: false,
            b: false,
            select: false,
            start: false,
            p15: true,
            p14: true,
            int_flag: false,
        }
    }
}

} // verus!
