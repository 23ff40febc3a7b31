//! The joypad: eight buttons in two rows behind one register.
use vstd::prelude::*;

verus! {

/// The line that the joypad raises in the interrupt flags.
pub const JOYPAD_INTERRUPT: u8 = 0x10;

/// Index of the A button in `JoypadState::buttons`.
pub const A_IDX: usize = 0;

/// Index of the B button.
pub const B_IDX: usize = 1;

/// Index of the Select button.
pub const SELECT_IDX: usize = 2;

/// Index of the Start button.
pub const START_IDX: usize = 3;

/// Index of the Right button.
pub const RIGHT_IDX: usize = 4;

/// Index of the Left button.
pub const LEFT_IDX: usize = 5;

/// Index of the Up button.
pub const UP_IDX: usize = 6;

/// Index of the Down button.
pub const DOWN_IDX: usize = 7;

/// The row of buttons that the register shows.
#[derive(Clone, Copy, Debug, PartialEq, Eq, Structural)]
pub enum ButtonSelection {
    Action,
    Direction,
}

impl Default for ButtonSelection {
    fn default() -> (selection: ButtonSelection)
        ensures
            selection == ButtonSelection::Action,
    {
        ButtonSelection::Action
    }
}

pub struct JoypadState {
    /// `true` for a button that is held down, in the order A, B, Select,
    /// Start, Right, Left, Up, Down.
    pub buttons: [bool; 8],
    /// Pending interrupt lines.
    pub inter: u8,
    pub button_selection: ButtonSelection,
}

/// The bit of weight `weight` that a button shows: 0 when pressed.
pub open spec fn line(pressed: bool, weight: int) -> int {
    if pressed {
        0
    } else {
        weight
    }
}

impl Default for JoypadState {
    fn default() -> (joypad: JoypadState)
        ensures
            joypad == JoypadState::reset(),
    {
        JoypadState { buttons: [false; 8], inter: 0, button_selection: ButtonSelection::Action }
    }
}

impl JoypadState {
    /// The joypad at power-on: every button up, the action row selected.
    pub open spec fn reset() -> JoypadState {
        JoypadState {
            buttons: vstd::array::spec_array_fill_for_copy_type::<bool, 8>(false),
            inter: 0,
            button_selection: ButtonSelection::Action,
        }
    }

    /// The row selected by a write: Action when bit 5 is clear, else
    /// Direction when bit 4 is clear, else the row that was selected.
    pub open spec fn after_write(self, val: u8) -> JoypadState {
        if (val / 0x20) % 2 == 0 {
            JoypadState { button_selection: ButtonSelection::Action, ..self }
        } else if (val / 0x10) % 2 == 0 {
            JoypadState { button_selection: ButtonSelection::Direction, ..self }
        } else {
            self
        }
    }

    /// What the register reads as. The four low bits show the selected row, 0 for
    /// a pressed button; of bits 4 and 5 the one of the row that is not
    /// selected is set; bits 6 and 7 are set.
    pub open spec fn matrix_byte(self) -> u8 {
        match self.button_selection {
            ButtonSelection::Action => (0xC0 + 0x10 + line(self.buttons[0], 1) + line(
                self.buttons[1],
                2,
            ) + line(self.buttons[2], 4) + line(self.buttons[3], 8)) as u8,
            ButtonSelection::Direction => (0xC0 + 0x20 + line(self.buttons[4], 1) + line(
                self.buttons[5],
                2,
            ) + line(self.buttons[6], 4) + line(self.buttons[7], 8)) as u8,
        }
    }

    /// A button going down raises the joypad line if it was up before.
    pub open spec fn after_press(self, button: int) -> JoypadState {
        JoypadState {
            buttons: vstd::array::spec_array_update(self.buttons, button, true),
            inter: if self.buttons[button] {
                self.inter
            } else {
                JOYPAD_INTERRUPT
            },
            ..self
        }
    }

    /// A button let go; no line is raised.
    pub open spec fn after_release(self, button: int) -> JoypadState {
        JoypadState {
            buttons: vstd::array::spec_array_update(self.buttons, button, false),
            ..self
        }
    }

    /// Selects the row of buttons that the register shows.
    pub fn write(&mut self, val: u8)
        ensures
            *final(self) == old(self).after_write(val),
    {
        if (val / 0x20) % 2 == 0 {
            self.button_selection = ButtonSelection::Action;
        } else if (val / 0x10) % 2 == 0 {
            self.button_selection = ButtonSelection::Direction;
        }
    }

    /// Reads the register: the selected row, 0 for a pressed button.
    pub fn read(&self) -> (value: u8)
        ensures
            value == self.matrix_byte(),
    {
        match self.button_selection {
            ButtonSelection::Action => {
                0xC0 + 0x10 + self.bit_a() + self.bit_b() + self.bit_sel() + self.bit_sta()
            },
            ButtonSelection::Direction => {
                0xC0 + 0x20 + self.bit_r() + self.bit_l() + self.bit_u() + self.bit_d()
            },
        }
    }

    /// The interrupt lines that the joypad has raised and nobody has taken.
    pub fn interrupt(&self) -> (lines: u8)
        ensures
            lines == self.inter,
    {
        self.inter
    }

    /// Takes the pending lines away.
    pub fn ack(&mut self)
        ensures
            *final(self) == (JoypadState { inter: 0, ..*old(self) }),
    {
        self.inter = 0;
    }

    /// Holds a button down.
    pub fn press(&mut self, button: usize)
        requires
            button < 8,
        ensures
            *final(self) == old(self).after_press(button as int),
    {
        if !self.buttons[button] {
            self.inter = JOYPAD_INTERRUPT;
        }
        self.buttons[button] = true;
    }

    /// Lets a button go.
    pub fn release(&mut self, button: usize)
        requires
            button < 8,
        ensures
            *final(self) == old(self).after_release(button as int),
    {
        self.buttons[button] = false;
    }

    fn bit_a(&self) -> (bit: u8)
        ensures
            bit == line(self.buttons[0], 1),
    {
        if self.buttons[A_IDX] {
            0
        } else {
            1
        }
    }

    fn bit_b(&self) -> (bit: u8)
        ensures
            bit == line(self.buttons[1], 2),
    {
        if self.buttons[B_IDX] {
            0
        } else {
            0b10
        }
    }

    fn bit_sel(&self) -> (bit: u8)
        ensures
            bit == line(self.buttons[2], 4),
    {
        if self.buttons[SELECT_IDX] {
            0
        } else {
            0b100
        }
    }

    fn bit_sta(&self) -> (bit: u8)
        ensures
            bit == line(self.buttons[3], 8),
    {
        if self.buttons[START_IDX] {
            0
        } else {
            0b1000
        }
    }

    fn bit_r(&self) -> (bit: u8)
        ensures
            bit == line(self.buttons[4], 1),
    {
        if self.buttons[RIGHT_IDX] {
            0
        } else {
            1
        }
    }

    fn bit_l(&self) -> (bit: u8)
        ensures
            bit == line(self.buttons[5], 2),
    {
        if self.buttons[LEFT_IDX] {
            0
        } else {
            0b10
        }
    }

    fn bit_u(&self) -> (bit: u8)
        ensures
            bit == line(self.buttons[6], 4),
    {
        if self.buttons[UP_IDX] {
            0
        } else {
            0b100
        }
    }

    fn bit_d(&self) -> (bit: u8)
        ensures
            bit == line(self.buttons[7], 8),
    {
        if self.buttons[DOWN_IDX] {
            0
        } else {
            0b1000
        }
    }
}

} // verus!

verus! {

/// At power-on no button is held down.
pub proof fn reset_has_no_button_down(i: int)
    requires
        0 <= i < 8,
    ensures
        !JoypadState::reset().buttons[i],
        JoypadState::reset().matrix_byte() == 0xDF,
{
    broadcast use vstd::array::axiom_spec_array_fill_for_copy_type;
}

} // verus!
