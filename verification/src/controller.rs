//! NES controller button state and the serial shift register through
//! which the CPU reads it.
//!
//! Bit order matches the hardware shift register read sequence:
//! A, B, Select, Start, Up, Down, Left, Right.

use vstd::prelude::*;
use crate::bits::lemma_u8_masks;

verus! {

/// Bit of the A button.
pub const BUTTON_A: u8 = 0x01;
/// Bit of the B button.
pub const BUTTON_B: u8 = 0x02;
/// Bit of the Select button.
pub const BUTTON_SELECT: u8 = 0x04;
/// Bit of the Start button.
pub const BUTTON_START: u8 = 0x08;
/// Bit of D-pad up.
pub const BUTTON_UP: u8 = 0x10;
/// Bit of D-pad down.
pub const BUTTON_DOWN: u8 = 0x20;
/// Bit of D-pad left.
pub const BUTTON_LEFT: u8 = 0x40;
/// Bit of D-pad right.
pub const BUTTON_RIGHT: u8 = 0x80;

/// Button state for one NES controller: one bit per button, in the
/// order the CPU reads them from the controller's shift register.
#[derive(Debug, Clone, Copy, PartialEq, Eq, Structural)]
pub struct Buttons {
    pub bits: u8,
}

impl Buttons {
    /// No button pressed.
    pub fn empty() -> (b: Buttons)
        ensures
            b.bits == 0,
    {
        Buttons { bits: 0 }
    }

    /// Button state from its raw bits.
    pub fn from_bits(bits: u8) -> (b: Buttons)
        ensures
            b.bits == bits,
    {
        Buttons { bits }
    }

    /// The raw bits.
    pub fn bits(self) -> (r: u8)
        ensures
            r == self.bits,
    {
        self.bits
    }

    /// The buttons pressed in either state.
    pub fn union(self, other: Buttons) -> (b: Buttons)
        ensures
            b.bits == self.bits | other.bits,
    {
        Buttons { bits: self.bits | other.bits }
    }

    /// Whether every button of `other` is pressed in `self`.
    pub fn contains(self, other: Buttons) -> (r: bool)
        ensures
            r == (self.bits & other.bits == other.bits),
    {
        self.bits & other.bits == other.bits
    }
}

/// State of one NES controller port, including the shift register
/// used by the CPU to read buttons serially.
#[derive(Debug, Clone, Copy, PartialEq, Eq, Structural)]
pub struct Controller {
    /// Current button state (updated by the frontend each frame).
    pub buttons: Buttons,
    /// Latched copy of buttons (captured on strobe).
    pub latch: u8,
    /// Current bit position in the shift register.
    pub shift_index: u8,
    /// Whether strobe mode is active (continuously re-latching).
    pub strobe: bool,
}

impl Controller {
    /// The power-on state: nothing pressed, nothing latched.
    pub open spec fn initial() -> Controller {
        Controller { buttons: Buttons { bits: 0 }, latch: 0, shift_index: 0, strobe: false }
    }

    /// Creates a controller in its power-on state.
    pub fn new() -> (c: Controller)
        ensures
            c == Controller::initial(),
    {
        Controller { buttons: Buttons { bits: 0 }, latch: 0, shift_index: 0, strobe: false }
    }

    /// State after the frontend sets the pressed buttons.
    pub open spec fn after_set_buttons(self, buttons: Buttons) -> Controller {
        if self.strobe {
            Controller { buttons, latch: buttons.bits, shift_index: 0, ..self }
        } else {
            Controller { buttons, ..self }
        }
    }

    /// Updates the pressed buttons (called by the frontend).
    pub fn set_buttons(&mut self, buttons: Buttons)
        ensures
            *final(self) == old(self).after_set_buttons(buttons),
    {
        self.buttons = buttons;
        if self.strobe {
            self.latch = self.buttons.bits;
            self.shift_index = 0;
        }
    }

    /// State after a CPU write to the controller port ($4016).
    pub open spec fn after_write(self, val: u8) -> Controller {
        if val & 1 != 0 {
            Controller { strobe: true, latch: self.buttons.bits, shift_index: 0, ..self }
        } else {
            Controller { strobe: false, ..self }
        }
    }

    /// Handles a CPU write to the controller port ($4016).
    ///
    /// Writing 1 enables strobe (continuously re-latches).
    /// Writing 0 disables strobe and freezes the latch.
    pub fn write(&mut self, val: u8)
        ensures
            *final(self) == old(self).after_write(val),
    {
        self.strobe = val & 1 != 0;
        if self.strobe {
            self.latch = self.buttons.bits;
            self.shift_index = 0;
        }
    }

    /// The bit a CPU read of the port returns.
    pub open spec fn read_value(self) -> u8 {
        if self.strobe {
            self.buttons.bits & 1
        } else if self.shift_index < 8 {
            (self.latch >> self.shift_index) & 1
        } else {
            1
        }
    }

    /// State after a CPU read of the port.
    pub open spec fn after_read(self) -> Controller {
        if self.strobe {
            self
        } else {
            Controller {
                shift_index: if self.shift_index == 255 { 255 } else { (self.shift_index + 1) as u8 },
                ..self
            }
        }
    }

    /// Handles a CPU read from the controller port ($4016/$4017).
    ///
    /// Returns the next button bit (LSB), then shifts. After all
    /// 8 bits are read, subsequent reads return 1.
    pub fn read(&mut self) -> (bit: u8)
        ensures
            bit == old(self).read_value(),
            *final(self) == old(self).after_read(),
            bit <= 1,
    {
        if self.strobe {
            proof { lemma_u8_masks(); }
            return self.buttons.bits & 1;
        }
        let bit = if self.shift_index < 8 {
            proof { lemma_u8_masks(); }
            (self.latch >> self.shift_index) & 1
        } else {
            1
        };
        self.shift_index = self.shift_index.saturating_add(1);
        bit
    }
}

/// Reading the port `k` times after a strobe (write 1 then write 0)
/// yields the bits of the buttons in hardware order, then 1s.
pub open spec fn read_sequence(c: Controller, k: nat) -> Seq<u8>
    decreases k,
{
    if k == 0 {
        Seq::empty()
    } else {
        seq![c.read_value()] + read_sequence(c.after_read(), (k - 1) as nat)
    }
}

/// After a strobe sequence (write 1, then write 0), read number `i`
/// (counting from 0) returns bit `i` of the pressed buttons for the
/// first eight reads, and 1 for every later read.
pub proof fn lemma_strobe_then_reads(c: Controller, i: nat)
    requires
        i < 256,
    ensures
        ({
            let s = c.after_write(1).after_write(0);
            let r = read_sequence(s, i + 1)[i as int];
            &&& i < 8 ==> r == (c.buttons.bits >> (i as u8)) & 1
            &&& i >= 8 ==> r == 1
        }),
{
    lemma_u8_masks();
    let s = c.after_write(1).after_write(0);
    assert(s.latch == c.buttons.bits);
    assert(s.shift_index == 0);
    assert(!s.strobe);
    lemma_read_sequence_at(s, i);
}

/// Read number `i` of a non-strobing controller sees shift index
/// `shift_index + i` (saturating at 255).
proof fn lemma_read_sequence_at(s: Controller, i: nat)
    requires
        !s.strobe,
        s.shift_index as int + i < 256,
    ensures
        read_sequence(s, i + 1).len() == i + 1,
        read_sequence(s, i + 1)[i as int] == (Controller {
            shift_index: (s.shift_index + i) as u8,
            ..s
        }).read_value(),
    decreases i,
{
    lemma_read_sequence_len(s, i + 1);
    if i == 0 {
        assert(read_sequence(s, 1) =~= seq![s.read_value()]);
        assert((Controller { shift_index: (s.shift_index + 0) as u8, ..s }) == s);
    } else {
        let s2 = s.after_read();
        assert(s2.shift_index == s.shift_index + 1);
        lemma_read_sequence_at(s2, (i - 1) as nat);
        assert(read_sequence(s, i + 1) == seq![s.read_value()] + read_sequence(s2, i));
        assert(read_sequence(s, i + 1)[i as int] == read_sequence(s2, i)[(i - 1) as int]);
        assert((Controller { shift_index: (s2.shift_index + (i - 1)) as u8, ..s2 }) == (
        Controller { shift_index: (s.shift_index + i) as u8, ..s }));
    }
}

proof fn lemma_read_sequence_len(s: Controller, k: nat)
    ensures
        read_sequence(s, k).len() == k,
    decreases k,
{
    if k > 0 {
        lemma_read_sequence_len(s.after_read(), (k - 1) as nat);
    }
}

} // verus!
