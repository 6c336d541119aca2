//! Controller and accessory interface: the packed controller state words
//! with their exact bit layout, the port numbers, and the codes of the
//! accessory, EEPROM, serial error, D-pad and mempak result enumerations.
use vstd::prelude::*;

verus! {

pub const CONTROLLER_1_INSERTED: u64 = 0xF000;
pub const CONTROLLER_2_INSERTED: u64 = 0x0F00;
pub const CONTROLLER_3_INSERTED: u64 = 0x00F0;
pub const CONTROLLER_4_INSERTED: u64 = 0x000F;

/// State of one N64 controller, packed into one 64-bit word exactly as the
/// native library lays it out: read error flags in bits 47..46 and the
/// button-and-stick word in bits 31..0.
#[derive(Clone, Copy, PartialEq, Eq, Structural, Debug)]
pub struct N64Controller(pub u64);

impl N64Controller {
    /// Bits 47..46 of the packed word: error flags of the serial interface read.
    pub fn err(&self) -> (r: u64)
        ensures
            r == (self.0 >> 46u64) & 0x3u64,
    {
        (self.0 >> 46u64) & 0x3u64
    }

    /// Write bits 47..46 of the packed word from the low 2 bits of
    /// `value`, leaving every other bit unchanged.
    pub fn set_err(&mut self, value: u64)
        ensures
            final(self).0 == (old(self).0 & !0xc000_0000_0000u64) | ((value & 0x3u64) << 46u64),
    {
        self.0 = (self.0 & !0xc000_0000_0000u64) | ((value & 0x3u64) << 46u64);
    }

    /// Bits 31..0 of the packed word: the whole button-and-stick word.
    pub fn data(&self) -> (r: u64)
        ensures
            r == self.0 & 0xffff_ffffu64,
    {
        self.0 & 0xffff_ffffu64
    }

    /// Write bits 31..0 of the packed word from the low 32 bits of
    /// `value`, leaving every other bit unchanged.
    pub fn set_data(&mut self, value: u64)
        ensures
            final(self).0 == (old(self).0 & !0xffff_ffffu64) | (value & 0xffff_ffffu64),
    {
        self.0 = (self.0 & !0xffff_ffffu64) | (value & 0xffff_ffffu64);
    }

    /// Bit 31 of the packed word: A button.
    pub fn A(&self) -> (r: bool)
        ensures
            r == ((self.0 >> 31u64) & 1 == 1),
    {
        (self.0 >> 31u64) & 1 == 1
    }

    /// Set bit 31 of the packed word, leaving every other bit unchanged.
    pub fn set_A(&mut self, value: bool)
        ensures
            final(self).0 == (if value { old(self).0 | 0x8000_0000u64 } else { old(self).0 & !0x8000_0000u64 }),
    {
        if value {
            self.0 = self.0 | 0x8000_0000u64;
        } else {
            self.0 = self.0 & !0x8000_0000u64;
        }
    }

    /// Bit 30 of the packed word: B button.
    pub fn B(&self) -> (r: bool)
        ensures
            r == ((self.0 >> 30u64) & 1 == 1),
    {
        (self.0 >> 30u64) & 1 == 1
    }

    /// Set bit 30 of the packed word, leaving every other bit unchanged.
    pub fn set_B(&mut self, value: bool)
        ensures
            final(self).0 == (if value { old(self).0 | 0x4000_0000u64 } else { old(self).0 & !0x4000_0000u64 }),
    {
        if value {
            self.0 = self.0 | 0x4000_0000u64;
        } else {
            self.0 = self.0 & !0x4000_0000u64;
        }
    }

    /// Bit 29 of the packed word: Z trigger.
    pub fn Z(&self) -> (r: bool)
        ensures
            r == ((self.0 >> 29u64) & 1 == 1),
    {
        (self.0 >> 29u64) & 1 == 1
    }

    /// Set bit 29 of the packed word, leaving every other bit unchanged.
    pub fn set_Z(&mut self, value: bool)
        ensures
            final(self).0 == (if value { old(self).0 | 0x2000_0000u64 } else { old(self).0 & !0x2000_0000u64 }),
    {
        if value {
            self.0 = self.0 | 0x2000_0000u64;
        } else {
            self.0 = self.0 & !0x2000_0000u64;
        }
    }

    /// Bit 28 of the packed word: start button.
    pub fn start(&self) -> (r: bool)
        ensures
            r == ((self.0 >> 28u64) & 1 == 1),
    {
        (self.0 >> 28u64) & 1 == 1
    }

    /// Set bit 28 of the packed word, leaving every other bit unchanged.
    pub fn set_start(&mut self, value: bool)
        ensures
            final(self).0 == (if value { old(self).0 | 0x1000_0000u64 } else { old(self).0 & !0x1000_0000u64 }),
    {
        if value {
            self.0 = self.0 | 0x1000_0000u64;
        } else {
            self.0 = self.0 & !0x1000_0000u64;
        }
    }

    /// Bit 27 of the packed word: D-pad up.
    pub fn up(&self) -> (r: bool)
        ensures
            r == ((self.0 >> 27u64) & 1 == 1),
    {
        (self.0 >> 27u64) & 1 == 1
    }

    /// Set bit 27 of the packed word, leaving every other bit unchanged.
    pub fn set_up(&mut self, value: bool)
        ensures
            final(self).0 == (if value { old(self).0 | 0x800_0000u64 } else { old(self).0 & !0x800_0000u64 }),
    {
        if value {
            self.0 = self.0 | 0x800_0000u64;
        } else {
            self.0 = self.0 & !0x800_0000u64;
        }
    }

    /// Bit 26 of the packed word: D-pad down.
    pub fn down(&self) -> (r: bool)
        ensures
            r == ((self.0 >> 26u64) & 1 == 1),
    {
        (self.0 >> 26u64) & 1 == 1
    }

    /// Set bit 26 of the packed word, leaving every other bit unchanged.
    pub fn set_down(&mut self, value: bool)
        ensures
            final(self).0 == (if value { old(self).0 | 0x400_0000u64 } else { old(self).0 & !0x400_0000u64 }),
    {
        if value {
            self.0 = self.0 | 0x400_0000u64;
        } else {
            self.0 = self.0 & !0x400_0000u64;
        }
    }

    /// Bit 25 of the packed word: D-pad left.
    pub fn left(&self) -> (r: bool)
        ensures
            r == ((self.0 >> 25u64) & 1 == 1),
    {
        (self.0 >> 25u64) & 1 == 1
    }

    /// Set bit 25 of the packed word, leaving every other bit unchanged.
    pub fn set_left(&mut self, value: bool)
        ensures
            final(self).0 == (if value { old(self).0 | 0x200_0000u64 } else { old(self).0 & !0x200_0000u64 }),
    {
        if value {
            self.0 = self.0 | 0x200_0000u64;
        } else {
            self.0 = self.0 & !0x200_0000u64;
        }
    }

    /// Bit 24 of the packed word: D-pad right.
    pub fn right(&self) -> (r: bool)
        ensures
            r == ((self.0 >> 24u64) & 1 == 1),
    {
        (self.0 >> 24u64) & 1 == 1
    }

    /// Set bit 24 of the packed word, leaving every other bit unchanged.
    pub fn set_right(&mut self, value: bool)
        ensures
            final(self).0 == (if value { old(self).0 | 0x100_0000u64 } else { old(self).0 & !0x100_0000u64 }),
    {
        if value {
            self.0 = self.0 | 0x100_0000u64;
        } else {
            self.0 = self.0 & !0x100_0000u64;
        }
    }

    /// Bit 21 of the packed word: L shoulder button.
    pub fn L(&self) -> (r: bool)
        ensures
            r == ((self.0 >> 21u64) & 1 == 1),
    {
        (self.0 >> 21u64) & 1 == 1
    }

    /// Set bit 21 of the packed word, leaving every other bit unchanged.
    pub fn set_L(&mut self, value: bool)
        ensures
            final(self).0 == (if value { old(self).0 | 0x20_0000u64 } else { old(self).0 & !0x20_0000u64 }),
    {
        if value {
            self.0 = self.0 | 0x20_0000u64;
        } else {
            self.0 = self.0 & !0x20_0000u64;
        }
    }

    /// Bit 20 of the packed word: R shoulder button.
    pub fn R(&self) -> (r: bool)
        ensures
            r == ((self.0 >> 20u64) & 1 == 1),
    {
        (self.0 >> 20u64) & 1 == 1
    }

    /// Set bit 20 of the packed word, leaving every other bit unchanged.
    pub fn set_R(&mut self, value: bool)
        ensures
            final(self).0 == (if value { old(self).0 | 0x10_0000u64 } else { old(self).0 & !0x10_0000u64 }),
    {
        if value {
            self.0 = self.0 | 0x10_0000u64;
        } else {
            self.0 = self.0 & !0x10_0000u64;
        }
    }

    /// Bit 19 of the packed word: C-up button.
    pub fn C_up(&self) -> (r: bool)
        ensures
            r == ((self.0 >> 19u64) & 1 == 1),
    {
        (self.0 >> 19u64) & 1 == 1
    }

    /// Set bit 19 of the packed word, leaving every other bit unchanged.
    pub fn set_C_up(&mut self, value: bool)
        ensures
            final(self).0 == (if value { old(self).0 | 0x8_0000u64 } else { old(self).0 & !0x8_0000u64 }),
    {
        if value {
            self.0 = self.0 | 0x8_0000u64;
        } else {
            self.0 = self.0 & !0x8_0000u64;
        }
    }

    /// Bit 18 of the packed word: C-down button.
    pub fn C_down(&self) -> (r: bool)
        ensures
            r == ((self.0 >> 18u64) & 1 == 1),
    {
        (self.0 >> 18u64) & 1 == 1
    }

    /// Set bit 18 of the packed word, leaving every other bit unchanged.
    pub fn set_C_down(&mut self, value: bool)
        ensures
            final(self).0 == (if value { old(self).0 | 0x4_0000u64 } else { old(self).0 & !0x4_0000u64 }),
    {
        if value {
            self.0 = self.0 | 0x4_0000u64;
        } else {
            self.0 = self.0 & !0x4_0000u64;
        }
    }

    /// Bit 17 of the packed word: C-left button.
    pub fn C_left(&self) -> (r: bool)
        ensures
            r == ((self.0 >> 17u64) & 1 == 1),
    {
        (self.0 >> 17u64) & 1 == 1
    }

    /// Set bit 17 of the packed word, leaving every other bit unchanged.
    pub fn set_C_left(&mut self, value: bool)
        ensures
            final(self).0 == (if value { old(self).0 | 0x2_0000u64 } else { old(self).0 & !0x2_0000u64 }),
    {
        if value {
            self.0 = self.0 | 0x2_0000u64;
        } else {
            self.0 = self.0 & !0x2_0000u64;
        }
    }

    /// Bit 16 of the packed word: C-right button.
    pub fn C_right(&self) -> (r: bool)
        ensures
            r == ((self.0 >> 16u64) & 1 == 1),
    {
        (self.0 >> 16u64) & 1 == 1
    }

    /// Set bit 16 of the packed word, leaving every other bit unchanged.
    pub fn set_C_right(&mut self, value: bool)
        ensures
            final(self).0 == (if value { old(self).0 | 0x1_0000u64 } else { old(self).0 & !0x1_0000u64 }),
    {
        if value {
            self.0 = self.0 | 0x1_0000u64;
        } else {
            self.0 = self.0 & !0x1_0000u64;
        }
    }

    /// Bits 15..8 of the packed word: analog stick X position.
    pub fn x(&self) -> (r: u64)
        ensures
            r == (self.0 >> 8u64) & 0xffu64,
    {
        (self.0 >> 8u64) & 0xffu64
    }

    /// Write bits 15..8 of the packed word from the low 8 bits of
    /// `value`, leaving every other bit unchanged.
    pub fn set_x(&mut self, value: u64)
        ensures
            final(self).0 == (old(self).0 & !0xff00u64) | ((value & 0xffu64) << 8u64),
    {
        self.0 = (self.0 & !0xff00u64) | ((value & 0xffu64) << 8u64);
    }

    /// Bits 7..0 of the packed word: analog stick Y position.
    pub fn y(&self) -> (r: u64)
        ensures
            r == self.0 & 0xffu64,
    {
        self.0 & 0xffu64
    }

    /// Write bits 7..0 of the packed word from the low 8 bits of
    /// `value`, leaving every other bit unchanged.
    pub fn set_y(&mut self, value: u64)
        ensures
            final(self).0 == (old(self).0 & !0xffu64) | (value & 0xffu64),
    {
        self.0 = (self.0 & !0xffu64) | (value & 0xffu64);
    }

}

/// State of one GameCube controller, packed into one 64-bit word exactly
/// as the native library lays it out: read error flags in the top two bits,
/// buttons in bits 61..48, sticks and analog triggers below.
#[derive(Clone, Copy, PartialEq, Eq, Structural, Debug)]
pub struct GCController(pub u64);

impl GCController {
    /// Bits 63..0 of the packed word: the whole button-and-stick word.
    pub fn data(&self) -> (r: u64)
        ensures
            r == self.0,
    {
        self.0
    }

    /// Write bits 63..0 of the packed word from the low 64 bits of
    /// `value`, leaving every other bit unchanged.
    pub fn set_data(&mut self, value: u64)
        ensures
            final(self).0 == value,
    {
        self.0 = value;
    }

    /// Bits 63..62 of the packed word: error flags of the serial interface read.
    pub fn err(&self) -> (r: u64)
        ensures
            r == (self.0 >> 62u64) & 0x3u64,
    {
        (self.0 >> 62u64) & 0x3u64
    }

    /// Write bits 63..62 of the packed word from the low 2 bits of
    /// `value`, leaving every other bit unchanged.
    pub fn set_err(&mut self, value: u64)
        ensures
            final(self).0 == (old(self).0 & !0xc000_0000_0000_0000u64) | ((value & 0x3u64) << 62u64),
    {
        self.0 = (self.0 & !0xc000_0000_0000_0000u64) | ((value & 0x3u64) << 62u64);
    }

    /// Bit 61 of the packed word: origin not yet checked.
    pub fn origin_unchecked(&self) -> (r: bool)
        ensures
            r == ((self.0 >> 61u64) & 1 == 1),
    {
        (self.0 >> 61u64) & 1 == 1
    }

    /// Set bit 61 of the packed word, leaving every other bit unchanged.
    pub fn set_origin_unchecked(&mut self, value: bool)
        ensures
            final(self).0 == (if value { old(self).0 | 0x2000_0000_0000_0000u64 } else { old(self).0 & !0x2000_0000_0000_0000u64 }),
    {
        if value {
            self.0 = self.0 | 0x2000_0000_0000_0000u64;
        } else {
            self.0 = self.0 & !0x2000_0000_0000_0000u64;
        }
    }

    /// Bit 60 of the packed word: start button.
    pub fn start(&self) -> (r: bool)
        ensures
            r == ((self.0 >> 60u64) & 1 == 1),
    {
        (self.0 >> 60u64) & 1 == 1
    }

    /// Set bit 60 of the packed word, leaving every other bit unchanged.
    pub fn set_start(&mut self, value: bool)
        ensures
            final(self).0 == (if value { old(self).0 | 0x1000_0000_0000_0000u64 } else { old(self).0 & !0x1000_0000_0000_0000u64 }),
    {
        if value {
            self.0 = self.0 | 0x1000_0000_0000_0000u64;
        } else {
            self.0 = self.0 & !0x1000_0000_0000_0000u64;
        }
    }

    /// Bit 59 of the packed word: Y button.
    pub fn y(&self) -> (r: bool)
        ensures
            r == ((self.0 >> 59u64) & 1 == 1),
    {
        (self.0 >> 59u64) & 1 == 1
    }

    /// Set bit 59 of the packed word, leaving every other bit unchanged.
    pub fn set_y(&mut self, value: bool)
        ensures
            final(self).0 == (if value { old(self).0 | 0x800_0000_0000_0000u64 } else { old(self).0 & !0x800_0000_0000_0000u64 }),
    {
        if value {
            self.0 = self.0 | 0x800_0000_0000_0000u64;
        } else {
            self.0 = self.0 & !0x800_0000_0000_0000u64;
        }
    }

    /// Bit 58 of the packed word: X button.
    pub fn x(&self) -> (r: bool)
        ensures
            r == ((self.0 >> 58u64) & 1 == 1),
    {
        (self.0 >> 58u64) & 1 == 1
    }

    /// Set bit 58 of the packed word, leaving every other bit unchanged.
    pub fn set_x(&mut self, value: bool)
        ensures
            final(self).0 == (if value { old(self).0 | 0x400_0000_0000_0000u64 } else { old(self).0 & !0x400_0000_0000_0000u64 }),
    {
        if value {
            self.0 = self.0 | 0x400_0000_0000_0000u64;
        } else {
            self.0 = self.0 & !0x400_0000_0000_0000u64;
        }
    }

    /// Bit 57 of the packed word: B button.
    pub fn b(&self) -> (r: bool)
        ensures
            r == ((self.0 >> 57u64) & 1 == 1),
    {
        (self.0 >> 57u64) & 1 == 1
    }

    /// Set bit 57 of the packed word, leaving every other bit unchanged.
    pub fn set_b(&mut self, value: bool)
        ensures
            final(self).0 == (if value { old(self).0 | 0x200_0000_0000_0000u64 } else { old(self).0 & !0x200_0000_0000_0000u64 }),
    {
        if value {
            self.0 = self.0 | 0x200_0000_0000_0000u64;
        } else {
            self.0 = self.0 & !0x200_0000_0000_0000u64;
        }
    }

    /// Bit 56 of the packed word: A button.
    pub fn a(&self) -> (r: bool)
        ensures
            r == ((self.0 >> 56u64) & 1 == 1),
    {
        (self.0 >> 56u64) & 1 == 1
    }

    /// Set bit 56 of the packed word, leaving every other bit unchanged.
    pub fn set_a(&mut self, value: bool)
        ensures
            final(self).0 == (if value { old(self).0 | 0x100_0000_0000_0000u64 } else { old(self).0 & !0x100_0000_0000_0000u64 }),
    {
        if value {
            self.0 = self.0 | 0x100_0000_0000_0000u64;
        } else {
            self.0 = self.0 & !0x100_0000_0000_0000u64;
        }
    }

    /// Bit 54 of the packed word: L trigger pressed.
    pub fn l(&self) -> (r: bool)
        ensures
            r == ((self.0 >> 54u64) & 1 == 1),
    {
        (self.0 >> 54u64) & 1 == 1
    }

    /// Set bit 54 of the packed word, leaving every other bit unchanged.
    pub fn set_l(&mut self, value: bool)
        ensures
            final(self).0 == (if value { old(self).0 | 0x40_0000_0000_0000u64 } else { old(self).0 & !0x40_0000_0000_0000u64 }),
    {
        if value {
            self.0 = self.0 | 0x40_0000_0000_0000u64;
        } else {
            self.0 = self.0 & !0x40_0000_0000_0000u64;
        }
    }

    /// Bit 53 of the packed word: R trigger pressed.
    pub fn r(&self) -> (r: bool)
        ensures
            r == ((self.0 >> 53u64) & 1 == 1),
    {
        (self.0 >> 53u64) & 1 == 1
    }

    /// Set bit 53 of the packed word, leaving every other bit unchanged.
    pub fn set_r(&mut self, value: bool)
        ensures
            final(self).0 == (if value { old(self).0 | 0x20_0000_0000_0000u64 } else { old(self).0 & !0x20_0000_0000_0000u64 }),
    {
        if value {
            self.0 = self.0 | 0x20_0000_0000_0000u64;
        } else {
            self.0 = self.0 & !0x20_0000_0000_0000u64;
        }
    }

    /// Bit 52 of the packed word: Z button.
    pub fn z(&self) -> (r: bool)
        ensures
            r == ((self.0 >> 52u64) & 1 == 1),
    {
        (self.0 >> 52u64) & 1 == 1
    }

    /// Set bit 52 of the packed word, leaving every other bit unchanged.
    pub fn set_z(&mut self, value: bool)
        ensures
            final(self).0 == (if value { old(self).0 | 0x10_0000_0000_0000u64 } else { old(self).0 & !0x10_0000_0000_0000u64 }),
    {
        if value {
            self.0 = self.0 | 0x10_0000_0000_0000u64;
        } else {
            self.0 = self.0 & !0x10_0000_0000_0000u64;
        }
    }

    /// Bit 51 of the packed word: D-pad up.
    pub fn up(&self) -> (r: bool)
        ensures
            r == ((self.0 >> 51u64) & 1 == 1),
    {
        (self.0 >> 51u64) & 1 == 1
    }

    /// Set bit 51 of the packed word, leaving every other bit unchanged.
    pub fn set_up(&mut self, value: bool)
        ensures
            final(self).0 == (if value { old(self).0 | 0x8_0000_0000_0000u64 } else { old(self).0 & !0x8_0000_0000_0000u64 }),
    {
        if value {
            self.0 = self.0 | 0x8_0000_0000_0000u64;
        } else {
            self.0 = self.0 & !0x8_0000_0000_0000u64;
        }
    }

    /// Bit 50 of the packed word: D-pad down.
    pub fn down(&self) -> (r: bool)
        ensures
            r == ((self.0 >> 50u64) & 1 == 1),
    {
        (self.0 >> 50u64) & 1 == 1
    }

    /// Set bit 50 of the packed word, leaving every other bit unchanged.
    pub fn set_down(&mut self, value: bool)
        ensures
            final(self).0 == (if value { old(self).0 | 0x4_0000_0000_0000u64 } else { old(self).0 & !0x4_0000_0000_0000u64 }),
    {
        if value {
            self.0 = self.0 | 0x4_0000_0000_0000u64;
        } else {
            self.0 = self.0 & !0x4_0000_0000_0000u64;
        }
    }

    /// Bit 49 of the packed word: D-pad right.
    pub fn right(&self) -> (r: bool)
        ensures
            r == ((self.0 >> 49u64) & 1 == 1),
    {
        (self.0 >> 49u64) & 1 == 1
    }

    /// Set bit 49 of the packed word, leaving every other bit unchanged.
    pub fn set_right(&mut self, value: bool)
        ensures
            final(self).0 == (if value { old(self).0 | 0x2_0000_0000_0000u64 } else { old(self).0 & !0x2_0000_0000_0000u64 }),
    {
        if value {
            self.0 = self.0 | 0x2_0000_0000_0000u64;
        } else {
            self.0 = self.0 & !0x2_0000_0000_0000u64;
        }
    }

    /// Bit 48 of the packed word: D-pad left.
    pub fn left(&self) -> (r: bool)
        ensures
            r == ((self.0 >> 48u64) & 1 == 1),
    {
        (self.0 >> 48u64) & 1 == 1
    }

    /// Set bit 48 of the packed word, leaving every other bit unchanged.
    pub fn set_left(&mut self, value: bool)
        ensures
            final(self).0 == (if value { old(self).0 | 0x1_0000_0000_0000u64 } else { old(self).0 & !0x1_0000_0000_0000u64 }),
    {
        if value {
            self.0 = self.0 | 0x1_0000_0000_0000u64;
        } else {
            self.0 = self.0 & !0x1_0000_0000_0000u64;
        }
    }

    /// Bits 47..40 of the packed word: analog stick X position.
    pub fn stick_x(&self) -> (r: u64)
        ensures
            r == (self.0 >> 40u64) & 0xffu64,
    {
        (self.0 >> 40u64) & 0xffu64
    }

    /// Write bits 47..40 of the packed word from the low 8 bits of
    /// `value`, leaving every other bit unchanged.
    pub fn set_stick_x(&mut self, value: u64)
        ensures
            final(self).0 == (old(self).0 & !0xff00_0000_0000u64) | ((value & 0xffu64) << 40u64),
    {
        self.0 = (self.0 & !0xff00_0000_0000u64) | ((value & 0xffu64) << 40u64);
    }

    /// Bits 39..32 of the packed word: analog stick Y position.
    pub fn stick_y(&self) -> (r: u64)
        ensures
            r == (self.0 >> 32u64) & 0xffu64,
    {
        (self.0 >> 32u64) & 0xffu64
    }

    /// Write bits 39..32 of the packed word from the low 8 bits of
    /// `value`, leaving every other bit unchanged.
    pub fn set_stick_y(&mut self, value: u64)
        ensures
            final(self).0 == (old(self).0 & !0xff_0000_0000u64) | ((value & 0xffu64) << 32u64),
    {
        self.0 = (self.0 & !0xff_0000_0000u64) | ((value & 0xffu64) << 32u64);
    }

    /// Bits 31..24 of the packed word: C-stick X position.
    pub fn cstick_x(&self) -> (r: u64)
        ensures
            r == (self.0 >> 24u64) & 0xffu64,
    {
        (self.0 >> 24u64) & 0xffu64
    }

    /// Write bits 31..24 of the packed word from the low 8 bits of
    /// `value`, leaving every other bit unchanged.
    pub fn set_cstick_x(&mut self, value: u64)
        ensures
            final(self).0 == (old(self).0 & !0xff00_0000u64) | ((value & 0xffu64) << 24u64),
    {
        self.0 = (self.0 & !0xff00_0000u64) | ((value & 0xffu64) << 24u64);
    }

    /// Bits 23..16 of the packed word: C-stick Y position.
    pub fn cstick_y(&self) -> (r: u64)
        ensures
            r == (self.0 >> 16u64) & 0xffu64,
    {
        (self.0 >> 16u64) & 0xffu64
    }

    /// Write bits 23..16 of the packed word from the low 8 bits of
    /// `value`, leaving every other bit unchanged.
    pub fn set_cstick_y(&mut self, value: u64)
        ensures
            final(self).0 == (old(self).0 & !0xff_0000u64) | ((value & 0xffu64) << 16u64),
    {
        self.0 = (self.0 & !0xff_0000u64) | ((value & 0xffu64) << 16u64);
    }

    /// Bits 15..8 of the packed word: analog L trigger position.
    pub fn analog_l(&self) -> (r: u64)
        ensures
            r == (self.0 >> 8u64) & 0xffu64,
    {
        (self.0 >> 8u64) & 0xffu64
    }

    /// Write bits 15..8 of the packed word from the low 8 bits of
    /// `value`, leaving every other bit unchanged.
    pub fn set_analog_l(&mut self, value: u64)
        ensures
            final(self).0 == (old(self).0 & !0xff00u64) | ((value & 0xffu64) << 8u64),
    {
        self.0 = (self.0 & !0xff00u64) | ((value & 0xffu64) << 8u64);
    }

    /// Bits 7..0 of the packed word: analog R trigger position.
    pub fn analog_r(&self) -> (r: u64)
        ensures
            r == self.0 & 0xffu64,
    {
        self.0 & 0xffu64
    }

    /// Write bits 7..0 of the packed word from the low 8 bits of
    /// `value`, leaving every other bit unchanged.
    pub fn set_analog_r(&mut self, value: u64)
        ensures
            final(self).0 == (old(self).0 & !0xffu64) | (value & 0xffu64),
    {
        self.0 = (self.0 & !0xffu64) | (value & 0xffu64);
    }

}

/// Accessory recognized in a controller's expansion slot.
#[derive(Clone, Copy, PartialEq, Eq, Structural, Debug)]
pub enum AccessoryType {
    /// No accessory present.
    NoAccessory,
    MemPak,
    RumblePak,
    VRU,
}

impl AccessoryType {
    /// The native code that stands for this variant.
    pub open spec fn spec_code(self) -> i32 {
        match self {
            AccessoryType::NoAccessory => 0i32,
            AccessoryType::MemPak => 1i32,
            AccessoryType::RumblePak => 2i32,
            AccessoryType::VRU => 3i32,
        }
    }

    /// The variant that a native code stands for, if any.
    pub open spec fn spec_from_code(c: i32) -> Option<AccessoryType> {
        if c == 0i32 {
            Some(AccessoryType::NoAccessory)
        } else if c == 1i32 {
            Some(AccessoryType::MemPak)
        } else if c == 2i32 {
            Some(AccessoryType::RumblePak)
        } else if c == 3i32 {
            Some(AccessoryType::VRU)
        } else {
            None
        }
    }

    /// The native code of this variant, as the wrapped library defines it.
    pub fn code(self) -> (c: i32)
        ensures
            c == self.spec_code(),
    {
        match self {
            AccessoryType::NoAccessory => 0i32,
            AccessoryType::MemPak => 1i32,
            AccessoryType::RumblePak => 2i32,
            AccessoryType::VRU => 3i32,
        }
    }

    /// Decode a native code; `None` on a code outside the documented range.
    pub fn from_code(c: i32) -> (r: Option<AccessoryType>)
        ensures
            r == Self::spec_from_code(c),
            r is Some <==> (c == 0i32 || c == 1i32 || c == 2i32 || c == 3i32),
    {
        if c == 0i32 {
            Some(AccessoryType::NoAccessory)
        } else if c == 1i32 {
            Some(AccessoryType::MemPak)
        } else if c == 2i32 {
            Some(AccessoryType::RumblePak)
        } else if c == 3i32 {
            Some(AccessoryType::VRU)
        } else {
            None
        }
    }

    /// Decoding the code of a variant yields that variant back.
    pub proof fn lemma_code_roundtrip(self)
        ensures
            Self::spec_from_code(self.spec_code()) == Some(self),
    {
    }

    /// A decoded variant carries exactly the code it was decoded from.
    pub proof fn lemma_from_code_exact(c: i32)
        ensures
            (match Self::spec_from_code(c) {
                Some(r) => r.spec_code() == c,
                None => true,
            }),
    {
    }
}

/// EEPROM size reported for the inserted cartridge.
#[derive(Clone, Copy, PartialEq, Eq, Structural, Debug)]
pub enum EEPROMType {
    NoEEPROM,
    _4K,
    _16K,
}

impl EEPROMType {
    /// The native code that stands for this variant.
    pub open spec fn spec_code(self) -> i32 {
        match self {
            EEPROMType::NoEEPROM => 0i32,
            EEPROMType::_4K => 1i32,
            EEPROMType::_16K => 2i32,
        }
    }

    /// The variant that a native code stands for, if any.
    pub open spec fn spec_from_code(c: i32) -> Option<EEPROMType> {
        if c == 0i32 {
            Some(EEPROMType::NoEEPROM)
        } else if c == 1i32 {
            Some(EEPROMType::_4K)
        } else if c == 2i32 {
            Some(EEPROMType::_16K)
        } else {
            None
        }
    }

    /// The native code of this variant, as the wrapped library defines it.
    pub fn code(self) -> (c: i32)
        ensures
            c == self.spec_code(),
    {
        match self {
            EEPROMType::NoEEPROM => 0i32,
            EEPROMType::_4K => 1i32,
            EEPROMType::_16K => 2i32,
        }
    }

    /// Decode a native code; `None` on a code outside the documented range.
    pub fn from_code(c: i32) -> (r: Option<EEPROMType>)
        ensures
            r == Self::spec_from_code(c),
            r is Some <==> (c == 0i32 || c == 1i32 || c == 2i32),
    {
        if c == 0i32 {
            Some(EEPROMType::NoEEPROM)
        } else if c == 1i32 {
            Some(EEPROMType::_4K)
        } else if c == 2i32 {
            Some(EEPROMType::_16K)
        } else {
            None
        }
    }

    /// Decoding the code of a variant yields that variant back.
    pub proof fn lemma_code_roundtrip(self)
        ensures
            Self::spec_from_code(self.spec_code()) == Some(self),
    {
    }

    /// A decoded variant carries exactly the code it was decoded from.
    pub proof fn lemma_from_code_exact(c: i32)
        ensures
            (match Self::spec_from_code(c) {
                Some(r) => r.spec_code() == c,
                None => true,
            }),
    {
    }
}

/// Serial interface error, as carried in a controller word's error field.
#[derive(Clone, Copy, PartialEq, Eq, Structural, Debug)]
pub enum SIError {
    /// No error occurred.
    NoError,
    /// Command not recognized or malformed.
    BadCommand,
    /// Controller not present.
    NotPresent,
}

impl SIError {
    /// The native code that stands for this variant.
    pub open spec fn spec_code(self) -> i32 {
        match self {
            SIError::NoError => 0x0i32,
            SIError::BadCommand => 0x1i32,
            SIError::NotPresent => 0x2i32,
        }
    }

    /// The variant that a native code stands for, if any.
    pub open spec fn spec_from_code(c: i32) -> Option<SIError> {
        if c == 0x0i32 {
            Some(SIError::NoError)
        } else if c == 0x1i32 {
            Some(SIError::BadCommand)
        } else if c == 0x2i32 {
            Some(SIError::NotPresent)
        } else {
            None
        }
    }

    /// The native code of this variant, as the wrapped library defines it.
    pub fn code(self) -> (c: i32)
        ensures
            c == self.spec_code(),
    {
        match self {
            SIError::NoError => 0x0i32,
            SIError::BadCommand => 0x1i32,
            SIError::NotPresent => 0x2i32,
        }
    }

    /// Decode a native code; `None` on a code outside the documented range.
    pub fn from_code(c: i32) -> (r: Option<SIError>)
        ensures
            r == Self::spec_from_code(c),
            r is Some <==> (c == 0x0i32 || c == 0x1i32 || c == 0x2i32),
    {
        if c == 0x0i32 {
            Some(SIError::NoError)
        } else if c == 0x1i32 {
            Some(SIError::BadCommand)
        } else if c == 0x2i32 {
            Some(SIError::NotPresent)
        } else {
            None
        }
    }

    /// Decoding the code of a variant yields that variant back.
    pub proof fn lemma_code_roundtrip(self)
        ensures
            Self::spec_from_code(self.spec_code()) == Some(self),
    {
    }

    /// A decoded variant carries exactly the code it was decoded from.
    pub proof fn lemma_from_code_exact(c: i32)
        ensures
            (match Self::spec_from_code(c) {
                Some(r) => r.spec_code() == c,
                None => true,
            }),
    {
    }
}

/// Direction of the D-pad, in eighths of a turn counterclockwise from
/// right, following standard polar coordinates.
#[derive(Clone, Copy, PartialEq, Eq, Structural, Debug)]
pub enum DPadDirection {
    R,
    UR,
    U,
    UL,
    L,
    DL,
    D,
    DR,
}

impl DPadDirection {
    /// The native code that stands for this variant.
    pub open spec fn spec_code(self) -> i32 {
        match self {
            DPadDirection::R => 0i32,
            DPadDirection::UR => 1i32,
            DPadDirection::U => 2i32,
            DPadDirection::UL => 3i32,
            DPadDirection::L => 4i32,
            DPadDirection::DL => 5i32,
            DPadDirection::D => 6i32,
            DPadDirection::DR => 7i32,
        }
    }

    /// The variant that a native code stands for, if any.
    pub open spec fn spec_from_code(c: i32) -> Option<DPadDirection> {
        if c == 0i32 {
            Some(DPadDirection::R)
        } else if c == 1i32 {
            Some(DPadDirection::UR)
        } else if c == 2i32 {
            Some(DPadDirection::U)
        } else if c == 3i32 {
            Some(DPadDirection::UL)
        } else if c == 4i32 {
            Some(DPadDirection::L)
        } else if c == 5i32 {
            Some(DPadDirection::DL)
        } else if c == 6i32 {
            Some(DPadDirection::D)
        } else if c == 7i32 {
            Some(DPadDirection::DR)
        } else {
            None
        }
    }

    /// The native code of this variant, as the wrapped library defines it.
    pub fn code(self) -> (c: i32)
        ensures
            c == self.spec_code(),
    {
        match self {
            DPadDirection::R => 0i32,
            DPadDirection::UR => 1i32,
            DPadDirection::U => 2i32,
            DPadDirection::UL => 3i32,
            DPadDirection::L => 4i32,
            DPadDirection::DL => 5i32,
            DPadDirection::D => 6i32,
            DPadDirection::DR => 7i32,
        }
    }

    /// Decode a native code; `None` on a code outside the documented range.
    pub fn from_code(c: i32) -> (r: Option<DPadDirection>)
        ensures
            r == Self::spec_from_code(c),
            r is Some <==> (c == 0i32 || c == 1i32 || c == 2i32 || c == 3i32 || c == 4i32 || c == 5i32 || c == 6i32 || c == 7i32),
    {
        if c == 0i32 {
            Some(DPadDirection::R)
        } else if c == 1i32 {
            Some(DPadDirection::UR)
        } else if c == 2i32 {
            Some(DPadDirection::U)
        } else if c == 3i32 {
            Some(DPadDirection::UL)
        } else if c == 4i32 {
            Some(DPadDirection::L)
        } else if c == 5i32 {
            Some(DPadDirection::DL)
        } else if c == 6i32 {
            Some(DPadDirection::D)
        } else if c == 7i32 {
            Some(DPadDirection::DR)
        } else {
            None
        }
    }

    /// Decoding the code of a variant yields that variant back.
    pub proof fn lemma_code_roundtrip(self)
        ensures
            Self::spec_from_code(self.spec_code()) == Some(self),
    {
    }

    /// A decoded variant carries exactly the code it was decoded from.
    pub proof fn lemma_from_code_exact(c: i32)
        ensures
            (match Self::spec_from_code(c) {
                Some(r) => r.spec_code() == c,
                None => true,
            }),
    {
    }
}

/// What a D-pad poll returned: the direction pressed, or no press at all.
/// The native call reports minus one when the D-pad is not pressed.
#[derive(Clone, Copy, PartialEq, Eq, Structural, Debug)]
pub enum DPadResult {
    /// The direction the D-pad is pressed in.
    Direction(DPadDirection),
    /// The D-pad is not pressed.
    NotPressed,
}

impl DPadResult {
    /// The decoded meaning of a native D-pad code, if it is in the
    /// documented range: zero through seven is a direction, minus one means
    /// the D-pad is not pressed.
    pub open spec fn spec_from_code(c: i32) -> Option<DPadResult> {
        if c == -1i32 {
            Some(DPadResult::NotPressed)
        } else {
            match DPadDirection::spec_from_code(c) {
                Some(d) => Some(DPadResult::Direction(d)),
                None => None,
            }
        }
    }

    /// Decode a native D-pad code; `None` on a code outside the documented
    /// range.
    pub fn from_code(c: i32) -> (r: Option<DPadResult>)
        ensures
            r == Self::spec_from_code(c),
            r is Some <==> (-1 <= c <= 7),
            (match r {
                Some(DPadResult::Direction(d)) => d.spec_code() == c && 0 <= c <= 7,
                Some(DPadResult::NotPressed) => c == -1,
                None => true,
            }),
    {
        if c == -1i32 {
            Some(DPadResult::NotPressed)
        } else {
            match DPadDirection::from_code(c) {
                Some(d) => Some(DPadResult::Direction(d)),
                None => None,
            }
        }
    }
}

/// Outcome of a raw mempak address read or write.
#[derive(Clone, Copy, PartialEq, Eq, Structural, Debug)]
pub enum MemPakResult {
    Success,
    OutOfRange,
    NoMemPak,
    InvalidMemPakData,
}

impl MemPakResult {
    /// The native code that stands for this variant.
    pub open spec fn spec_code(self) -> i32 {
        match self {
            MemPakResult::Success => 0i32,
            MemPakResult::OutOfRange => -1i32,
            MemPakResult::NoMemPak => -2i32,
            MemPakResult::InvalidMemPakData => -3i32,
        }
    }

    /// The variant that a native code stands for, if any.
    pub open spec fn spec_from_code(c: i32) -> Option<MemPakResult> {
        if c == 0i32 {
            Some(MemPakResult::Success)
        } else if c == -1i32 {
            Some(MemPakResult::OutOfRange)
        } else if c == -2i32 {
            Some(MemPakResult::NoMemPak)
        } else if c == -3i32 {
            Some(MemPakResult::InvalidMemPakData)
        } else {
            None
        }
    }

    /// The native code of this variant, as the wrapped library defines it.
    pub fn code(self) -> (c: i32)
        ensures
            c == self.spec_code(),
    {
        match self {
            MemPakResult::Success => 0i32,
            MemPakResult::OutOfRange => -1i32,
            MemPakResult::NoMemPak => -2i32,
            MemPakResult::InvalidMemPakData => -3i32,
        }
    }

    /// Decode a native code; `None` on a code outside the documented range.
    pub fn from_code(c: i32) -> (r: Option<MemPakResult>)
        ensures
            r == Self::spec_from_code(c),
            r is Some <==> (c == 0i32 || c == -1i32 || c == -2i32 || c == -3i32),
    {
        if c == 0i32 {
            Some(MemPakResult::Success)
        } else if c == -1i32 {
            Some(MemPakResult::OutOfRange)
        } else if c == -2i32 {
            Some(MemPakResult::NoMemPak)
        } else if c == -3i32 {
            Some(MemPakResult::InvalidMemPakData)
        } else {
            None
        }
    }

    /// Decoding the code of a variant yields that variant back.
    pub proof fn lemma_code_roundtrip(self)
        ensures
            Self::spec_from_code(self.spec_code()) == Some(self),
    {
    }

    /// A decoded variant carries exactly the code it was decoded from.
    pub proof fn lemma_from_code_exact(c: i32)
        ensures
            (match Self::spec_from_code(c) {
                Some(r) => r.spec_code() == c,
                None => true,
            }),
    {
    }
}

/// One of the four controller ports.
#[derive(Clone, Copy, PartialEq, Eq, Structural, Debug)]
pub enum ControllerNum {
    Controller1,
    Controller2,
    Controller3,
    Controller4,
}

impl ControllerNum {
    /// The native code that stands for this variant.
    pub open spec fn spec_code(self) -> i32 {
        match self {
            ControllerNum::Controller1 => 0i32,
            ControllerNum::Controller2 => 1i32,
            ControllerNum::Controller3 => 2i32,
            ControllerNum::Controller4 => 3i32,
        }
    }

    /// The variant that a native code stands for, if any.
    pub open spec fn spec_from_code(c: i32) -> Option<ControllerNum> {
        if c == 0i32 {
            Some(ControllerNum::Controller1)
        } else if c == 1i32 {
            Some(ControllerNum::Controller2)
        } else if c == 2i32 {
            Some(ControllerNum::Controller3)
        } else if c == 3i32 {
            Some(ControllerNum::Controller4)
        } else {
            None
        }
    }

    /// The native code of this variant, as the wrapped library defines it.
    pub fn code(self) -> (c: i32)
        ensures
            c == self.spec_code(),
    {
        match self {
            ControllerNum::Controller1 => 0i32,
            ControllerNum::Controller2 => 1i32,
            ControllerNum::Controller3 => 2i32,
            ControllerNum::Controller4 => 3i32,
        }
    }

    /// Decode a native code; `None` on a code outside the documented range.
    pub fn from_code(c: i32) -> (r: Option<ControllerNum>)
        ensures
            r == Self::spec_from_code(c),
            r is Some <==> (c == 0i32 || c == 1i32 || c == 2i32 || c == 3i32),
    {
        if c == 0i32 {
            Some(ControllerNum::Controller1)
        } else if c == 1i32 {
            Some(ControllerNum::Controller2)
        } else if c == 2i32 {
            Some(ControllerNum::Controller3)
        } else if c == 3i32 {
            Some(ControllerNum::Controller4)
        } else {
            None
        }
    }

    /// Decoding the code of a variant yields that variant back.
    pub proof fn lemma_code_roundtrip(self)
        ensures
            Self::spec_from_code(self.spec_code()) == Some(self),
    {
    }

    /// A decoded variant carries exactly the code it was decoded from.
    pub proof fn lemma_from_code_exact(c: i32)
        ensures
            (match Self::spec_from_code(c) {
                Some(r) => r.spec_code() == c,
                None => true,
            }),
    {
    }
}

/// Law: writing a packed field then reading the same field yields the value
/// written, masked to the field's width. `lo` is the field's low bit and `m`
/// the mask of its width.
pub proof fn lemma_field_write_then_read(w: u64, v: u64, lo: u64, m: u64)
    requires
        lo < 64,
        (m << lo) >> lo == m,
    ensures
        (((w & !(m << lo)) | ((v & m) << lo)) >> lo) & m == v & m,
{
    assert((((w & !(m << lo)) | ((v & m) << lo)) >> lo) & m == v & m) by (bit_vector)
        requires
            lo < 64,
            (m << lo) >> lo == m,
    ;
}

/// Law: writing a packed field leaves every field with a disjoint mask
/// unchanged.
#[verifier::rlimit(60)]
pub proof fn lemma_field_write_preserves_disjoint(w: u64, v: u64, lo: u64, m: u64, lo2: u64, m2: u64)
    requires
        (m << lo) & (m2 << lo2) == 0,
    ensures
        ((((w & !(m << lo)) | ((v & m) << lo)) >> lo2) & m2 == (w >> lo2) & m2),
{
    assert((((w & !(m << lo)) | ((v & m) << lo)) >> lo2) & m2 == (w >> lo2) & m2) by (bit_vector)
        requires
            (m << lo) & (m2 << lo2) == 0,
    ;
}

/// Law: writing a single flag bit then reading the same bit yields the flag
/// written.
pub proof fn lemma_bit_write_then_read(w: u64, b: u64, v: bool)
    requires
        b < 64,
    ensures
        (((if v { w | (1u64 << b) } else { w & !(1u64 << b) }) >> b) & 1 == 1) == v,
{
    assert((((if v { w | (1u64 << b) } else { w & !(1u64 << b) }) >> b) & 1 == 1) == v) by (bit_vector)
        requires
            b < 64,
    ;
}

/// Law: writing a single flag bit leaves every field with a disjoint mask
/// unchanged.
pub proof fn lemma_bit_write_preserves_disjoint(w: u64, b: u64, v: bool, lo2: u64, m2: u64)
    requires
        b < 64,
        (1u64 << b) & (m2 << lo2) == 0,
    ensures
        ((if v { w | (1u64 << b) } else { w & !(1u64 << b) }) >> lo2) & m2 == (w >> lo2) & m2,
{
    assert(((if v { w | (1u64 << b) } else { w & !(1u64 << b) }) >> lo2) & m2 == (w >> lo2) & m2) by (bit_vector)
        requires
            b < 64,
            (1u64 << b) & (m2 << lo2) == 0,
    ;
}

} // verus!
