use vstd::prelude::*;

verus! {

/// One of the eight controller buttons.
#[allow(non_camel_case_types)]
#[derive(Debug, PartialEq, Eq, Structural, Clone, Copy)]
pub enum JoypadButton {
    RIGHT,
    LEFT,
    DOWN,
    UP,
    START,
    SELECT,
    BUTTON_B,
    BUTTON_A,
}

impl JoypadButton {
    /// The button's position in the latched byte; button A sits at bit 0 and
    /// the shift-out order A, B, Select, Start, Up, Down, Left, Right climbs
    /// from there.
    pub open spec fn spec_mask(self) -> u8 {
        match self {
            JoypadButton::RIGHT => 0x80u8,
            JoypadButton::LEFT => 0x40u8,
            JoypadButton::DOWN => 0x20u8,
            JoypadButton::UP => 0x10u8,
            JoypadButton::START => 0x08u8,
            JoypadButton::SELECT => 0x04u8,
            JoypadButton::BUTTON_B => 0x02u8,
            JoypadButton::BUTTON_A => 0x01u8,
        }
    }

    pub fn mask(&self) -> (r: u8)
        ensures
            r == self.spec_mask(),
    {
        match self {
            JoypadButton::RIGHT => 0x80,
            JoypadButton::LEFT => 0x40,
            JoypadButton::DOWN => 0x20,
            JoypadButton::UP => 0x10,
            JoypadButton::START => 0x08,
            JoypadButton::SELECT => 0x04,
            JoypadButton::BUTTON_B => 0x02,
            JoypadButton::BUTTON_A => 0x01,
        }
    }
}

/// The controller port: a latched byte of button states, the index of the
/// next bit to shift out, and the strobe line.
pub struct Joypad {
    pub strobe_status: bool,
    pub button_index: u8,
    pub button_status: u8,
}

impl Joypad {
    /// The bit a port read returns: the button at the current index, or 1
    /// once all eight buttons have been shifted out.
    pub open spec fn spec_read_value(self) -> u8 {
        if self.button_index > 7 {
            1u8
        } else {
            (self.button_status & (1u8 << self.button_index)) >> self.button_index
        }
    }

    /// The port after a read: with the strobe low the index steps to the next
    /// button; with it high every read keeps returning button A.
    pub open spec fn spec_read_step(self) -> Joypad {
        if self.button_index > 7 {
            self
        } else if !self.strobe_status {
            Joypad { button_index: (self.button_index + 1) as u8, ..self }
        } else {
            self
        }
    }

    pub fn new() -> (r: Self)
        ensures
            r.strobe_status == false,
            r.button_index == 0,
            r.button_status == 0,
    {
        Joypad { strobe_status: false, button_index: 0, button_status: 0 }
    }

    /// A write to the port: bit 0 drives the strobe line, and raising it
    /// latches the read index back to button A.
    pub fn write(&mut self, data: u8)
        ensures
            data & 1 == 1 ==> *final(self) == (Joypad {
                strobe_status: true,
                button_index: 0,
                button_status: old(self).button_status,
            }),
            data & 1 != 1 ==> *final(self) == (Joypad {
                strobe_status: false,
                button_index: old(self).button_index,
                button_status: old(self).button_status,
            }),
    {
        if (data & 1) == 1 {
            self.strobe_status = true;
            self.button_index = 0;
        } else {
            self.strobe_status = false;
        }
    }

    /// A read from the port.
    pub fn read(&mut self) -> (r: u8)
        ensures
            r == old(self).spec_read_value(),
            *final(self) == old(self).spec_read_step(),
    {
        if self.button_index > 7 {
            return 1;
        }
        let response = (self.button_status & (1u8 << self.button_index)) >> self.button_index;

        // The read always reports button A while the strobe is high; only a
        // low strobe lets the index walk down the row of buttons.
        if !self.strobe_status && self.button_index <= 7 {
            self.button_index += 1;
        }
        response
    }

    /// The value a read would return, with no side effect.
    pub fn peek(&self) -> (r: u8)
        ensures
            r == self.spec_read_value(),
    {
        if self.button_index > 7 {
            return 1;
        }
        (self.button_status & (1u8 << self.button_index)) >> self.button_index
    }

    /// Latches or releases one button in the snapshot the reads shift out.
    pub fn set_button_pressed_status(&mut self, button: JoypadButton, status: bool)
        ensures
            status ==> final(self).button_status == old(self).button_status
                | button.spec_mask(),
            !status ==> final(self).button_status == old(self).button_status & !button.spec_mask(),
            final(self).strobe_status == old(self).strobe_status,
            final(self).button_index == old(self).button_index,
    {
        if status {
            self.button_status = self.button_status | button.mask();
        } else {
            self.button_status = self.button_status & !button.mask();
        }
    }
}

} // verus!
