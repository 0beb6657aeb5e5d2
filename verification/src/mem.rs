//! The addressable byte store and the raw instruction word.
//!
//! Memory is 4096 bytes: the sixteen built-in glyph sprites sit in bytes
//! [0, 80), the loaded program in [0x200, 0x200 + len), and everything else
//! starts out zero.

use vstd::prelude::*;

verus! {

/// The sixteen built-in 5-byte glyph sprites for the hex digits 0 through F,
/// as they sit in the first 80 bytes of memory.
pub open spec fn glyphs() -> Seq<u8> {
    seq![
        0xF0u8, 0x90, 0x90, 0x90, 0xF0, // 0
        0x20, 0x60, 0x20, 0x20, 0x70, // 1
        0xF0, 0x10, 0xF0, 0x80, 0xF0, // 2
        0xF0, 0x10, 0xF0, 0x10, 0xF0, // 3
        0x90, 0x90, 0xF0, 0x10, 0x10, // 4
        0xF0, 0x80, 0xF0, 0x10, 0xF0, // 5
        0xF0, 0x80, 0xF0, 0x90, 0xF0, // 6
        0xF0, 0x10, 0x20, 0x40, 0x40, // 7
        0xF0, 0x90, 0xF0, 0x90, 0xF0, // 8
        0xF0, 0x90, 0xF0, 0x10, 0xF0, // 9
        0xF0, 0x90, 0xF0, 0x90, 0x90, // A
        0xE0, 0x90, 0xE0, 0x90, 0xE0, // B
        0xF0, 0x80, 0x80, 0x80, 0xF0, // C
        0xE0, 0x90, 0x90, 0x90, 0xE0, // D
        0xF0, 0x80, 0xF0, 0x80, 0xF0, // E
        0xF0, 0x80, 0xF0, 0x80, 0x80, // F
    ]
}

/// Top nibble of an instruction word: selects the opcode family.
pub open spec fn mode_of(w: u16) -> u8 {
    (w >> 12) as u8
}

/// Second nibble: the first register operand.
pub open spec fn x_of(w: u16) -> u8 {
    ((w >> 8) & 0xF) as u8
}

/// Third nibble: the second register operand.
pub open spec fn y_of(w: u16) -> u8 {
    ((w >> 4) & 0xF) as u8
}

/// Bottom nibble: the subfamily key or sprite length.
pub open spec fn z_of(w: u16) -> u8 {
    (w & 0xF) as u8
}

/// Bottom byte: an immediate operand.
pub open spec fn num_of(w: u16) -> u8 {
    (w & 0xFF) as u8
}

/// Bottom 12 bits: an address operand.
pub open spec fn addr_of(w: u16) -> u16 {
    w & 0xFFF
}

/// The nibble fields of a word are nibbles, and the address field is an
/// address: the bounds every register index drawn from a word enjoys.
pub proof fn lemma_fields_bounded(w: u16)
    by (bit_vector)
    ensures
        mode_of(w) < 16,
        x_of(w) < 16,
        y_of(w) < 16,
        z_of(w) < 16,
        addr_of(w) < 4096,
{
}

/// The big-endian 16-bit word formed by two consecutive memory bytes.
pub open spec fn word_at(m: Seq<u8>, a: int) -> u16
    recommends
        0 <= a,
        a + 1 < m.len(),
{
    ((m[a] as u16) << 8) | (m[a + 1] as u16)
}

/// One fetched 16-bit instruction word, exposing its decoded fields.
#[derive(Copy, Clone, Eq, PartialEq, Debug)]
pub struct Opcode(pub u16);

impl Opcode {
    /// Top nibble: the opcode family.
    #[inline]
    pub fn mode(&self) -> (r: u8)
        ensures
            r == mode_of(self.0),
    {
        (self.0 >> 12) as u8
    }

    /// Bottom byte: an immediate operand.
    #[inline]
    pub fn num(&self) -> (r: u8)
        ensures
            r == num_of(self.0),
    {
        (self.0 & 0xFF) as u8
    }

    /// Second nibble: the first register operand.
    #[inline]
    pub fn x(&self) -> (r: u8)
        ensures
            r == x_of(self.0),
    {
        ((self.0 >> 8) & 0xF) as u8
    }

    /// Third nibble: the second register operand.
    #[inline]
    pub fn y(&self) -> (r: u8)
        ensures
            r == y_of(self.0),
    {
        ((self.0 >> 4) & 0xF) as u8
    }

    /// Bottom nibble: the subfamily key or sprite length.
    #[inline]
    pub fn z(&self) -> (r: u8)
        ensures
            r == z_of(self.0),
    {
        (self.0 & 0xF) as u8
    }

    /// Bottom 12 bits: an address operand.
    #[inline]
    pub fn addr(&self) -> (r: u16)
        ensures
            r == addr_of(self.0),
    {
        self.0 & 0xFFF
    }
}

/// Load-time failure: the ROM does not fit in the 3584 bytes of program
/// space, so execution never starts.
#[derive(Copy, Clone, Debug, PartialEq, Eq)]
pub enum LoadError {
    TooLarge,
}

/// 4096 addressable bytes: glyph sprites at the bottom, the program image
/// from 0x200 up.
#[derive(Debug)]
pub struct RAM(pub [u8; 4096]);

impl RAM {
    /// A fresh memory image: the glyph table in bytes [0, 80), zero
    /// everywhere else.
    pub fn new() -> (r: Self)
        ensures
            r.0@.subrange(0, 80) == glyphs(),
            forall|i: int| 80 <= i < 4096 ==> r.0@[i] == 0u8,
    {
        let mut m: [u8; 4096] = [0; 4096];
        let table: [u8; 80] = [
            0xF0, 0x90, 0x90, 0x90, 0xF0, // 0
            0x20, 0x60, 0x20, 0x20, 0x70, // 1
            0xF0, 0x10, 0xF0, 0x80, 0xF0, // 2
            0xF0, 0x10, 0xF0, 0x10, 0xF0, // 3
            0x90, 0x90, 0xF0, 0x10, 0x10, // 4
            0xF0, 0x80, 0xF0, 0x10, 0xF0, // 5
            0xF0, 0x80, 0xF0, 0x90, 0xF0, // 6
            0xF0, 0x10, 0x20, 0x40, 0x40, // 7
            0xF0, 0x90, 0xF0, 0x90, 0xF0, // 8
            0xF0, 0x90, 0xF0, 0x10, 0xF0, // 9
            0xF0, 0x90, 0xF0, 0x90, 0x90, // A
            0xE0, 0x90, 0xE0, 0x90, 0xE0, // B
            0xF0, 0x80, 0x80, 0x80, 0xF0, // C
            0xE0, 0x90, 0x90, 0x90, 0xE0, // D
            0xF0, 0x80, 0xF0, 0x80, 0xF0, // E
            0xF0, 0x80, 0xF0, 0x80, 0x80, // F
        ];
        proof {
            assert(table@ =~= glyphs());
        }
        let mut i: usize = 0;
        while i < 80
            invariant
                i <= 80,
                forall|j: int| 0 <= j < i ==> m@[j] == table@[j],
                forall|j: int| i <= j < 4096 ==> m@[j] == 0u8,
            decreases 80 - i,
        {
            m[i] = table[i];
            i += 1;
        }
        proof {
            assert(m@.subrange(0, 80) =~= glyphs());
        }
        RAM(m)
    }

    /// Copies the ROM into memory starting at 0x200, leaving the glyph
    /// region and the gap below 0x200 untouched; rejects a ROM longer than
    /// the 3584 bytes of program space before writing anything.
    pub fn fill(&mut self, rom: &Vec<u8>) -> (r: Result<(), LoadError>)
        ensures
            match r {
                Ok(()) => {
                    &&& rom@.len() <= 3584
                    &&& forall|j: int|
                        0 <= j < 4096 ==> final(self).0@[j] == (if 512 <= j < 512 + rom@.len() {
                            rom@[j - 512]
                        } else {
                            old(self).0@[j]
                        })
                },
                Err(LoadError::TooLarge) => {
                    &&& rom@.len() > 3584
                    &&& final(self).0@ == old(self).0@
                },
            },
    {
        if rom.len() > 3584 {
            return Err(LoadError::TooLarge);
        }
        let mut i: usize = 0;
        while i < rom.len()
            invariant
                rom@.len() <= 3584,
                i <= rom@.len(),
                forall|j: int|
                    0 <= j < 4096 ==> self.0@[j] == (if 512 <= j < 512 + i {
                        rom@[j - 512]
                    } else {
                        old(self).0@[j]
                    }),
            decreases rom@.len() - i,
        {
            self.0[512 + i] = rom[i];
            i += 1;
        }
        Ok(())
    }

    /// Fetches the big-endian instruction word at `addr`, `addr + 1`.
    pub fn opcode(&self, addr: u16) -> (op: Opcode)
        requires
            addr + 1 < 4096,
        ensures
            op.0 == word_at(self.0@, addr as int),
    {
        let h = self.0[addr as usize] as u16;
        let l = self.0[addr as usize + 1] as u16;
        Opcode(h << 8 | l)
    }

    /// Reads `size` consecutive sprite bytes starting at `addr`.
    pub fn sprite(&self, addr: u16, size: u8) -> (s: Vec<u8>)
        requires
            addr as int + size as int <= 4096,
        ensures
            s@ == self.0@.subrange(addr as int, addr as int + size as int),
    {
        let mut s: Vec<u8> = Vec::new();
        let mut i: usize = 0;
        while i < size as usize
            invariant
                addr as int + size as int <= 4096,
                i <= size as int,
                s@ == self.0@.subrange(addr as int, addr as int + i as int),
            decreases size as int - i,
        {
            s.push(self.0[addr as usize + i]);
            proof {
                assert(s@ =~= self.0@.subrange(addr as int, addr as int + i as int + 1));
            }
            i += 1;
        }
        s
    }

    /// Raw byte store, used by the digit-store and register-dump
    /// instructions.
    pub fn set(&mut self, addr: u16, val: u8)
        requires
            addr < 4096,
        ensures
            final(self).0@ == old(self).0@.update(addr as int, val),
    {
        self.0[addr as usize] = val;
        proof {
            assert(self.0@ =~= old(self).0@.update(addr as int, val));
        }
    }

    /// Raw byte load, used by the register-load instruction.
    pub fn get(&self, addr: u16) -> (b: u8)
        requires
            addr < 4096,
        ensures
            b == self.0@[addr as int],
    {
        self.0[addr as usize]
    }
}

} // verus!
