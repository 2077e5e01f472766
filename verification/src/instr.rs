use vstd::prelude::*;

verus! {

/// First nibble (bits 12..16) of an instruction word.
pub open spec fn nib_a(w: u16) -> int {
    w as int / 4096
}

/// Second nibble (bits 8..12): the X register operand.
pub open spec fn nib_x(w: u16) -> int {
    (w as int / 256) % 16
}

/// Third nibble (bits 4..8): the Y register operand.
pub open spec fn nib_y(w: u16) -> int {
    (w as int / 16) % 16
}

/// Fourth nibble (bits 0..4): the N operand.
pub open spec fn nib_n(w: u16) -> int {
    w as int % 16
}

/// Low byte: the NN operand.
pub open spec fn low_nn(w: u16) -> int {
    w as int % 256
}

/// Low twelve bits: the NNN address operand.
pub open spec fn low_nnn(w: u16) -> int {
    w as int % 4096
}

/// One big-endian CHIP-8 instruction word.
#[derive(Clone, Copy, Debug)]
pub struct Chip8Instr {
    pub bits: u16,
}

impl Chip8Instr {
    /// The opcode class (most significant nibble).
    pub fn first(&self) -> (r: u8)
        ensures
            r == nib_a(self.bits),
    {
        let b = self.bits;
        assert((b >> 12u16) & 0xFu16 == b / 4096) by (bit_vector);
        ((b >> 12) & 0xF) as u8
    }

    /// The second nibble.
    pub fn second(&self) -> (r: u8)
        ensures
            r == nib_x(self.bits),
    {
        let b = self.bits;
        assert((b >> 8u16) & 0xFu16 == (b / 256) % 16) by (bit_vector);
        ((b >> 8) & 0xF) as u8
    }

    /// The third nibble.
    pub fn third(&self) -> (r: u8)
        ensures
            r == nib_y(self.bits),
    {
        let b = self.bits;
        assert((b >> 4u16) & 0xFu16 == (b / 16) % 16) by (bit_vector);
        ((b >> 4) & 0xF) as u8
    }

    /// The fourth nibble.
    pub fn fourth(&self) -> (r: u8)
        ensures
            r == nib_n(self.bits),
    {
        let b = self.bits;
        assert(b & 0xFu16 == b % 16) by (bit_vector);
        (b & 0xF) as u8
    }

    /// Index of register X.
    pub fn reg_x(&self) -> (r: usize)
        ensures
            r == nib_x(self.bits),
            r < 16,
    {
        self.second() as usize
    }

    /// Index of register Y.
    pub fn reg_y(&self) -> (r: usize)
        ensures
            r == nib_y(self.bits),
            r < 16,
    {
        self.third() as usize
    }

    /// The 4-bit immediate N.
    pub fn n(&self) -> (r: u8)
        ensures
            r == nib_n(self.bits),
    {
        self.fourth()
    }

    /// The 8-bit immediate NN.
    pub fn nn(&self) -> (r: u8)
        ensures
            r == low_nn(self.bits),
    {
        let b = self.bits;
        assert(b & 0xFFu16 == b % 256) by (bit_vector);
        (b & 0xFF) as u8
    }

    /// The 12-bit address NNN.
    pub fn nnn(&self) -> (r: u16)
        ensures
            r == low_nnn(self.bits),
    {
        let b = self.bits;
        assert(b & 0xFFFu16 == b % 4096) by (bit_vector);
        b & 0xFFF
    }
}

} // verus!
