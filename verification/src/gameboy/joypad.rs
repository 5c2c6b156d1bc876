use vstd::prelude::*;

use super::interrupt::{spec_bit, Interrupt, Kind, Line};

verus! {

/// The eight buttons of the Game Boy.
#[derive(Debug, Clone, Copy, PartialEq, Eq, PartialOrd, Ord, Hash, Structural)]
pub enum Button {
    A,
    B,
    Select,
    Start,
    Up,
    Right,
    Down,
    Left,
}

/// Whether a button is pressed.
#[derive(Debug, Clone, Copy, PartialEq, Eq, PartialOrd, Ord, Hash, Structural)]
pub enum ButtonState {
    Down,
    Up,
}

/// The joypad and its register P1: bits 4 and 5 select the direction and the action
/// buttons (0 selects), bits 0 to 3 read the selected buttons (0 when pressed).
#[derive(Debug)]
pub struct Joypad {
    buttons_state: [ButtonState; 8],
    data: u8,
    last_data: u8,
}

/// The slot of a button in the state table.
pub open spec fn button_index(button: Button) -> int {
    match button {
        Button::A => 0,
        Button::B => 1,
        Button::Select => 2,
        Button::Start => 3,
        Button::Up => 4,
        Button::Right => 5,
        Button::Down => 6,
        Button::Left => 7,
    }
}

/// The bit `value` when the button in slot `i` is released, else 0.
pub open spec fn released_bit(buttons: Seq<ButtonState>, i: int, value: u8) -> u8 {
    if buttons[i] == ButtonState::Up { value } else { 0 }
}

/// The low nibble of P1 for the direction buttons: Right, Left, Up, Down from bit 0.
pub open spec fn direction_nibble(buttons: Seq<ButtonState>) -> u8 {
    released_bit(buttons, 5, 1) | released_bit(buttons, 7, 2) | released_bit(buttons, 4, 4) | released_bit(buttons, 6, 8)
}

/// The low nibble of P1 for the action buttons: A, B, Select, Start from bit 0.
pub open spec fn action_nibble(buttons: Seq<ButtonState>) -> u8 {
    released_bit(buttons, 0, 1) | released_bit(buttons, 1, 2) | released_bit(buttons, 2, 4) | released_bit(buttons, 3, 8)
}

/// P1 once its low nibble is read from the buttons: the action buttons when selected, else
/// the direction buttons when selected, else all released.
pub open spec fn spec_p1(data: u8, buttons: Seq<ButtonState>) -> u8 {
    let low: u8 = if (data >> 5u8) & 1 == 0 {
        action_nibble(buttons)
    } else if (data >> 4u8) & 1 == 0 {
        direction_nibble(buttons)
    } else {
        0xF
    };
    (data & 0xF0) | low
}

impl Joypad {
    /// The state of each button, in the order of `button_index`.
    pub closed spec fn buttons(&self) -> Seq<ButtonState> {
        self.buttons_state@
    }

    /// P1.
    pub closed spec fn spec_data(&self) -> u8 {
        self.data
    }

    /// P1 at the previous tick.
    pub closed spec fn spec_last_data(&self) -> u8 {
        self.last_data
    }

    /// All buttons released, nothing selected.
    pub fn new() -> (r: Self)
        ensures
            r.buttons() == Seq::new(8, |i: int| ButtonState::Up),
            r.spec_data() == 0xFF,
            r.spec_last_data() == 0xFF,
    {
        let r = Self { buttons_state: [ButtonState::Up; 8], data: 0xFF, last_data: 0xFF };
        assert(r.buttons() =~= Seq::new(8, |i: int| ButtonState::Up));
        r
    }

    fn button_to_idx(button: Button) -> (r: usize)
        ensures
            r == button_index(button),
    {
        match button {
            Button::A => 0,
            Button::B => 1,
            Button::Select => 2,
            Button::Start => 3,
            Button::Up => 4,
            Button::Right => 5,
            Button::Down => 6,
            Button::Left => 7,
        }
    }

    fn released(&self, i: usize, value: u8) -> (r: u8)
        requires
            i < 8,
        ensures
            r == released_bit(self.buttons(), i as int, value),
    {
        match self.buttons_state[i] {
            ButtonState::Up => value,
            ButtonState::Down => 0,
        }
    }

    fn update_inputs(&mut self)
        ensures
            final(self).spec_data() == spec_p1(old(self).spec_data(), old(self).buttons()),
            final(self).buttons() == old(self).buttons(),
            final(self).spec_last_data() == old(self).spec_last_data(),
    {
        let data: u8 = self.data;
        let action: u8 = self.released(0, 1) | self.released(1, 2) | self.released(2, 4) | self.released(3, 8);
        let direction: u8 = self.released(5, 1) | self.released(7, 2) | self.released(4, 4) | self.released(6, 8);
        let low: u8 = if (data >> 5u8) & 1 == 0 {
            action
        } else if (data >> 4u8) & 1 == 0 {
            direction
        } else {
            0xF
        };
        self.data = (data & 0xF0) | low;
    }

    /// Requests the joypad interrupt when a selected button line went from 1 to 0 since the
    /// previous tick.
    pub fn tick(&mut self, interrupt_line: &mut Interrupt)
        ensures
            final(self).spec_last_data() == old(self).spec_data(),
            final(self).spec_data() == old(self).spec_data(),
            final(self).buttons() == old(self).buttons(),
            final(interrupt_line).spec_enable() == old(interrupt_line).spec_enable(),
            final(interrupt_line).spec_flags() == if (!old(self).spec_data() & old(self).spec_last_data() & 0xF) != 0 {
                old(interrupt_line).spec_flags() | spec_bit(Kind::Joypad)
            } else {
                old(interrupt_line).spec_flags()
            },
    {
        if (!self.data & self.last_data & 0xF) != 0 {
            interrupt_line.request(Kind::Joypad);
        }
        self.last_data = self.data;
    }

    /// Presses a button.
    pub fn keydown(&mut self, button: Button)
        ensures
            final(self).buttons() == old(self).buttons().update(button_index(button), ButtonState::Down),
            final(self).spec_data() == spec_p1(old(self).spec_data(), final(self).buttons()),
            final(self).spec_last_data() == old(self).spec_last_data(),
    {
        let idx: usize = Joypad::button_to_idx(button);
        self.buttons_state.set(idx, ButtonState::Down);
        self.update_inputs();
    }

    /// Releases a button.
    pub fn keyup(&mut self, button: Button)
        ensures
            final(self).buttons() == old(self).buttons().update(button_index(button), ButtonState::Up),
            final(self).spec_data() == spec_p1(old(self).spec_data(), final(self).buttons()),
            final(self).spec_last_data() == old(self).spec_last_data(),
    {
        let idx: usize = Joypad::button_to_idx(button);
        self.buttons_state.set(idx, ButtonState::Up);
        self.update_inputs();
    }

    /// Reads P1.
    pub fn read_p1(&self) -> (r: u8)
        ensures
            r == self.spec_data(),
    {
        self.data
    }

    /// Writes P1: only the two select bits can be written, then the buttons are read.
    pub fn write_p1(&mut self, value: u8)
        ensures
            final(self).spec_data() == spec_p1((old(self).spec_data() & 0b1100_1111) | (value & 0b0011_0000), old(self).buttons()),
            final(self).buttons() == old(self).buttons(),
            final(self).spec_last_data() == old(self).spec_last_data(),
    {
        self.data = (self.data & 0b11001111) | (value & 0b00110000);
        self.update_inputs();
    }
}

/// Reading the buttons again only depends on the select bits: pressing then releasing a
/// released button gives back the same buttons and the same P1.
pub proof fn lemma_press_release(data: u8, buttons: Seq<ButtonState>, button: Button)
    requires
        buttons.len() == 8,
        buttons[button_index(button)] == ButtonState::Up,
    ensures
        buttons.update(button_index(button), ButtonState::Down).update(button_index(button), ButtonState::Up) == buttons,
        spec_p1(spec_p1(data, buttons.update(button_index(button), ButtonState::Down)), buttons) == spec_p1(data, buttons),
{
    let i = button_index(button);
    assert(buttons.update(i, ButtonState::Down).update(i, ButtonState::Up) =~= buttons);
    let pressed = buttons.update(i, ButtonState::Down);
    let d1 = spec_p1(data, pressed);
    let low1: u8 = if (data >> 5u8) & 1 == 0 { action_nibble(pressed) } else if (data >> 4u8) & 1 == 0 { direction_nibble(pressed) } else { 0xF };
    assert(d1 == (data & 0xF0) | low1);
    assert(low1 <= 0xF) by {
        assert(forall|j: int, v: u8| 0 <= j < 8 ==> released_bit(pressed, j, v) == v || released_bit(pressed, j, v) == 0);
        let a0 = released_bit(pressed, 0, 1);
        let a1 = released_bit(pressed, 1, 2);
        let a2 = released_bit(pressed, 2, 4);
        let a3 = released_bit(pressed, 3, 8);
        let r0 = released_bit(pressed, 5, 1);
        let r1 = released_bit(pressed, 7, 2);
        let r2 = released_bit(pressed, 4, 4);
        let r3 = released_bit(pressed, 6, 8);
        assert((a0 | a1 | a2 | a3) <= 0xF) by (bit_vector)
            requires a0 == 0 || a0 == 1, a1 == 0 || a1 == 2, a2 == 0 || a2 == 4, a3 == 0 || a3 == 8;
        assert((r0 | r1 | r2 | r3) <= 0xF) by (bit_vector)
            requires r0 == 0 || r0 == 1, r1 == 0 || r1 == 2, r2 == 0 || r2 == 4, r3 == 0 || r3 == 8;
    }
    assert(d1 & 0xF0 == data & 0xF0 && (d1 >> 5u8) & 1 == (data >> 5u8) & 1 && (d1 >> 4u8) & 1 == (data >> 4u8) & 1) by (bit_vector)
        requires d1 == (data & 0xF0) | low1, low1 <= 0xF;
}

} // verus!
