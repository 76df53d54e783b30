use vstd::prelude::*;

verus! {

// Controller button bits, bit 0 first in the shift order:
// A, B, Select, Start, Up, Down, Left, Right.

/// One button of the standard controller.
#[derive(Debug, Clone, Copy, PartialEq, Eq, Structural)]
#[allow(non_camel_case_types)]
pub enum JoypadButton {
    BUTTON_A,
    BUTTON_B,
    SELECT,
    START,
    UP,
    DOWN,
    LEFT,
    RIGHT,
}

/// The position of a button in the shift register.
pub open spec fn button_index(button: JoypadButton) -> u8 {
    match button {
        JoypadButton::BUTTON_A => 0,
        JoypadButton::BUTTON_B => 1,
        JoypadButton::SELECT => 2,
        JoypadButton::START => 3,
        JoypadButton::UP => 4,
        JoypadButton::DOWN => 5,
        JoypadButton::LEFT => 6,
        JoypadButton::RIGHT => 7,
    }
}

/// Bit `index` of `status`, as 0 or 1.
pub open spec fn bit_of(status: u8, index: u8) -> u8 {
    (status >> index) & 1
}

impl JoypadButton {
    /// The button's bit in the status byte.
    pub fn bits(self) -> (b: u8)
        ensures
            b == 1u8 << button_index(self),
    {
        let index: u8 = match self {
            JoypadButton::BUTTON_A => 0,
            JoypadButton::BUTTON_B => 1,
            JoypadButton::SELECT => 2,
            JoypadButton::START => 3,
            JoypadButton::UP => 4,
            JoypadButton::DOWN => 5,
            JoypadButton::LEFT => 6,
            JoypadButton::RIGHT => 7,
        };
        1u8 << index
    }
}

pub const BUTTON_COUNT: u8 = 8;

/// The controller port at 0x4016: a latch (strobe) and an 8-bit shift register.
pub struct Joypad {
    strobe: bool,
    button_index: u8,
    button_status: u8,
}

/// What a reader sees of the controller.
pub struct JoypadView {
    pub strobe: bool,
    pub button_index: u8,
    pub button_status: u8,
}

impl JoypadView {
    /// A write of the port: bit 0 is the strobe; while it is on, the shift
    /// register stays at the first button.
    pub open spec fn port_write(self, data: u8) -> JoypadView {
        let strobe = data & 1 == 1;
        JoypadView {
            strobe,
            button_index: if strobe {
                0
            } else {
                self.button_index
            },
            ..self
        }
    }

    /// A read of the port: the current button's bit while fewer than eight
    /// have been read, else 1; the register moves on only while the strobe
    /// is off.
    pub open spec fn port_read(self) -> (JoypadView, u8) {
        if self.button_index >= BUTTON_COUNT {
            (self, 1)
        } else {
            (
                JoypadView {
                    button_index: if self.strobe {
                        self.button_index
                    } else {
                        (self.button_index + 1) as u8
                    },
                    ..self
                },
                bit_of(self.button_status, self.button_index),
            )
        }
    }

    /// The bits of `buttons` set (pressed) or cleared (released).
    pub open spec fn with_buttons(self, buttons: u8, pressed: bool) -> JoypadView {
        JoypadView {
            button_status: if pressed {
                self.button_status | buttons
            } else {
                self.button_status & !buttons
            },
            ..self
        }
    }

    /// The button's bit set (pressed) or cleared (released).
    pub open spec fn with_button(self, button: JoypadButton, pressed: bool) -> JoypadView {
        let mask = 1u8 << button_index(button);
        JoypadView {
            button_status: if pressed {
                self.button_status | mask
            } else {
                self.button_status & !mask
            },
            ..self
        }
    }
}

impl Joypad {
    pub closed spec fn view(self) -> JoypadView {
        JoypadView {
            strobe: self.strobe,
            button_index: self.button_index,
            button_status: self.button_status,
        }
    }

    /// While the strobe is on the shift register stays at the first button.
    pub closed spec fn write_post(self, data: u8) -> Self {
        let strobe = data & 1 == 1;
        Joypad {
            strobe,
            button_index: if strobe {
                0
            } else {
                self.button_index
            },
            ..self
        }
    }

    /// The state after a read, and the byte read: the current button's bit
    /// while fewer than eight have been read, else 1.  The register advances
    /// only while the strobe is off.
    pub closed spec fn read_post(self) -> (Self, u8) {
        if self.button_index >= BUTTON_COUNT {
            (self, 1)
        } else {
            (
                Joypad {
                    button_index: if self.strobe {
                        self.button_index
                    } else {
                        (self.button_index + 1) as u8
                    },
                    ..self
                },
                bit_of(self.button_status, self.button_index),
            )
        }
    }

    pub closed spec fn with_button(self, button: JoypadButton, pressed: bool) -> Self {
        let mask = 1u8 << button_index(button);
        Joypad {
            button_status: if pressed {
                self.button_status | mask
            } else {
                self.button_status & !mask
            },
            ..self
        }
    }

    pub fn new() -> (joypad: Self)
        ensures
            joypad.view() == (JoypadView { strobe: false, button_index: 0, button_status: 0 }),
    {
        Joypad { strobe: false, button_index: 0, button_status: 0 }
    }

    /// A CPU write to 0x4016; bit 0 is the strobe.
    pub fn write(&mut self, data: u8)
        ensures
            *final(self) == old(self).write_post(data),
            final(self).view() == old(self).view().port_write(data),
    {
        self.strobe = data & 1 == 1;
        if self.strobe {
            self.button_index = 0;
        }
    }

    /// A CPU read of 0x4016.
    pub fn read(&mut self) -> (response: u8)
        ensures
            (*final(self), response) == old(self).read_post(),
            (final(self).view(), response) == old(self).view().port_read(),
    {
        if self.button_index >= BUTTON_COUNT {
            return 1;
        }
        let index = self.button_index;
        let status = self.button_status;
        let response = (status & (1u8 << index)) >> index;
        assert(response == bit_of(status, index)) by (bit_vector)
            requires
                index < 8,
                response == (status & (1u8 << index)) >> index,
        ;
        if !self.strobe {
            self.button_index = self.button_index + 1;
        }
        response
    }

    /// Presses or releases several buttons at once: every button whose bit
    /// (`JoypadButton::bits`) is set in `buttons`.
    pub fn set_buttons_pressed_status(&mut self, buttons: u8, pressed: bool)
        ensures
            final(self).view() == old(self).view().with_buttons(buttons, pressed),
    {
        if pressed {
            self.button_status = self.button_status | buttons;
        } else {
            self.button_status = self.button_status & !buttons;
        }
    }

    pub fn set_button_pressed_status(&mut self, button: JoypadButton, pressed: bool)
        ensures
            *final(self) == old(self).with_button(button, pressed),
            final(self).view() == old(self).view().with_button(button, pressed),
    {
        let mask = button.bits();
        if pressed {
            self.button_status = self.button_status | mask;
        } else {
            self.button_status = self.button_status & !mask;
        }
    }
}

impl Joypad {
    /// Reads and writes of the port, seen through the view, are
    /// `JoypadView::port_read` and `JoypadView::port_write`.
    pub proof fn lemma_port_view(self, data: u8)
        ensures
            self.read_post().0.view() == self.view().port_read().0,
            self.read_post().1 == self.view().port_read().1,
            self.write_post(data).view() == self.view().port_write(data),
    {
    }
}

/// The bytes that `count` successive reads of the port return.
pub open spec fn read_sequence(joypad: Joypad, count: nat) -> Seq<u8>
    decreases count,
{
    if count == 0 {
        Seq::empty()
    } else {
        let (next, value) = joypad.read_post();
        seq![value] + read_sequence(next, (count - 1) as nat)
    }
}

proof fn lemma_read_sequence_len(joypad: Joypad, count: nat)
    ensures
        read_sequence(joypad, count).len() == count,
    decreases count,
{
    if count > 0 {
        lemma_read_sequence_len(joypad.read_post().0, (count - 1) as nat);
    }
}

proof fn lemma_shift_reads(joypad: Joypad, count: nat, k: int)
    requires
        !joypad.view().strobe,
        joypad.view().button_index <= BUTTON_COUNT,
        0 <= k < count,
    ensures
        read_sequence(joypad, count)[k] == if joypad.view().button_index + k < BUTTON_COUNT {
            bit_of(joypad.view().button_status, (joypad.view().button_index + k) as u8)
        } else {
            1
        },
    decreases count,
{
    let (next, value) = joypad.read_post();
    lemma_read_sequence_len(next, (count - 1) as nat);
    if k > 0 {
        lemma_shift_reads(next, (count - 1) as nat, k - 1);
    }
}

proof fn lemma_strobe_reads(joypad: Joypad, count: nat, k: int)
    requires
        joypad.view().strobe,
        joypad.view().button_index == 0,
        0 <= k < count,
    ensures
        read_sequence(joypad, count)[k] == bit_of(joypad.view().button_status, 0),
    decreases count,
{
    let (next, value) = joypad.read_post();
    lemma_read_sequence_len(next, (count - 1) as nat);
    if k > 0 {
        lemma_strobe_reads(next, (count - 1) as nat, k - 1);
    }
}

/// After a latch (strobe 1 then 0) the port reports the eight buttons one
/// read at a time, A, B, Select, Start, Up, Down, Left, Right, and 1 from
/// the ninth read on.
pub proof fn law_latched_reads(joypad: Joypad, count: nat, k: int)
    requires
        0 <= k < count,
    ensures
        read_sequence(joypad.write_post(1).write_post(0), count)[k] == if k < 8 {
            bit_of(joypad.view().button_status, k as u8)
        } else {
            1
        },
{
    crate::cpu::flags::lemma_byte_facts(1u8);
    crate::cpu::flags::lemma_byte_facts(0u8);
    lemma_shift_reads(joypad.write_post(1).write_post(0), count, k);
}

/// While the strobe is on, every read reports button A.
pub proof fn law_strobe_reads(joypad: Joypad, count: nat, k: int)
    requires
        0 <= k < count,
    ensures
        read_sequence(joypad.write_post(1), count)[k] == bit_of(joypad.view().button_status, 0),
{
    crate::cpu::flags::lemma_byte_facts(1u8);
    lemma_strobe_reads(joypad.write_post(1), count, k);
}

/// Pressing or releasing a button sets its bit and leaves the others.
pub proof fn law_button_status(joypad: Joypad, button: JoypadButton, pressed: bool, other: u8)
    requires
        other < 8,
    ensures
        bit_of(joypad.with_button(button, pressed).view().button_status, button_index(button))
            == if pressed {
            1u8
        } else {
            0u8
        },
        other != button_index(button) ==> bit_of(
            joypad.with_button(button, pressed).view().button_status,
            other,
        ) == bit_of(joypad.view().button_status, other),
{
    let s = joypad.view().button_status;
    let i = button_index(button);
    assert(i < 8);
    assert(((s | (1u8 << i)) >> i) & 1 == 1 && ((s & !(1u8 << i)) >> i) & 1 == 0 && (other != i
        ==> ((s | (1u8 << i)) >> other) & 1 == (s >> other) & 1 && ((s & !(1u8 << i)) >> other) & 1
        == (s >> other) & 1)) by (bit_vector)
        requires
            i < 8,
            other < 8,
    ;
}

} // verus!
