//! The flat 64 KiB address space shared by the CPU, the ROM loader and the blitter.
use vstd::prelude::*;
use byteorder::{ByteOrder, LittleEndian};

verus! {

/// Size of the address space in bytes.
pub const MEMORY_SIZE: usize = 65536;

/// Size of the ROM header that precedes the image.
pub const ROM_HEADER_SIZE: usize = 16;

/// Why a ROM image was refused.
#[derive(Debug, Clone, Copy, PartialEq, Eq, Structural)]
pub enum MemoryError {
    /// Shorter than the header, or without the `CH16` magic.
    RomInvalid,
    /// The image after the header does not fit in the address space.
    RomTooLarge,
}

/// The 16-bit little-endian value of two bytes.
pub open spec fn le16(lo: u8, hi: u8) -> u16 {
    (lo + 256 * hi) as u16
}

/// The little-endian word at `addr`.
pub open spec fn word_at(m: Seq<u8>, addr: int) -> u16 {
    le16(m[addr], m[addr + 1])
}

/// `m` with the little-endian word `v` written at `addr`.
pub open spec fn put_word(m: Seq<u8>, addr: int, v: u16) -> Seq<u8> {
    m.update(addr, (v % 256) as u8).update(addr + 1, (v / 256) as u8)
}

/// A ROM file starts with a full header whose first four bytes are `CH16`.
pub open spec fn rom_valid(rom: Seq<u8>) -> bool {
    &&& rom.len() >= ROM_HEADER_SIZE
    &&& rom[0] == 0x43u8
    &&& rom[1] == 0x48u8
    &&& rom[2] == 0x31u8
    &&& rom[3] == 0x36u8
}

/// The address space after the image `rom[16..]` is copied to address 0; the bytes
/// past the image keep their value.
pub open spec fn loaded(m: Seq<u8>, rom: Seq<u8>) -> Seq<u8> {
    let image = rom.subrange(ROM_HEADER_SIZE as int, rom.len() as int);
    image + m.subrange(image.len() as int, m.len() as int)
}

/// Relies on byteorder's `LittleEndian::read_u16`: the first two bytes of `buf`, least
/// significant first (it panics on fewer than two).
#[verifier::external_body]
fn read_u16_le(buf: &[u8]) -> (r: u16)
    requires
        buf@.len() >= 2,
    ensures
        r == le16(buf@[0], buf@[1]),
{
    LittleEndian::read_u16(buf)
}

/// Program, stack, sprite data and the last ROM header seen.
pub struct Memory {
    mem: [u8; MEMORY_SIZE],
    rom_header: [u8; ROM_HEADER_SIZE],
}

impl View for Memory {
    type V = Seq<u8>;

    closed spec fn view(&self) -> Seq<u8> {
        self.mem@
    }
}

impl Memory {
    /// The header of the last ROM loaded (all zero before the first).
    pub closed spec fn header(&self) -> Seq<u8> {
        self.rom_header@
    }

    /// The address space always spans the full 64 KiB, and the header 16 bytes.
    pub broadcast proof fn lemma_len(m: &Memory)
        ensures
            #[trigger] m@.len() == MEMORY_SIZE,
            m.header().len() == ROM_HEADER_SIZE,
    {
    }

    /// Zeroed memory and header.
    pub fn new() -> (r: Memory)
        ensures
            r@ == Seq::new(MEMORY_SIZE as nat, |i: int| 0u8),
            r.header() == Seq::new(ROM_HEADER_SIZE as nat, |i: int| 0u8),
    {
        let r = Memory { mem: [0u8; MEMORY_SIZE], rom_header: [0u8; ROM_HEADER_SIZE] };
        assert(r@ =~= Seq::new(MEMORY_SIZE as nat, |i: int| 0u8));
        assert(r.header() =~= Seq::new(ROM_HEADER_SIZE as nat, |i: int| 0u8));
        r
    }

    /// The byte at `addr`.
    pub fn read(&self, addr: usize) -> (r: u8)
        requires
            addr < MEMORY_SIZE,
        ensures
            r == self@[addr as int],
    {
        self.mem[addr]
    }

    /// Stores `v` at `addr`.
    pub fn write(&mut self, addr: usize, v: u8)
        requires
            addr < MEMORY_SIZE,
        ensures
            final(self)@ == old(self)@.update(addr as int, v),
            final(self).header() == old(self).header(),
    {
        self.mem[addr] = v;
    }

    /// The little-endian word at `addr`.
    pub fn read_word(&self, addr: usize) -> (r: u16)
        requires
            addr + 1 < MEMORY_SIZE,
        ensures
            r == word_at(self@, addr as int),
    {
        let lo = self.mem[addr];
        let hi = self.mem[addr + 1];
        lo as u16 + (hi as u16) * 256
    }

    /// Stores the little-endian word `v` at `addr`.
    pub fn write_word(&mut self, addr: usize, v: u16)
        requires
            addr + 1 < MEMORY_SIZE,
        ensures
            final(self)@ == put_word(old(self)@, addr as int, v),
            final(self).header() == old(self).header(),
    {
        self.mem[addr] = (v % 256) as u8;
        self.mem[addr + 1] = (v / 256) as u8;
    }

    /// Loads a ROM file: checks the header, keeps it, and copies the image after it
    /// to address 0. On an error nothing changes.
    pub fn load_rom(&mut self, rom: &[u8]) -> (r: Result<(), MemoryError>)
        ensures
            !rom_valid(rom@) ==> r == Err::<(), MemoryError>(MemoryError::RomInvalid)
                && *final(self) == *old(self),
            rom_valid(rom@) && rom@.len() - ROM_HEADER_SIZE > MEMORY_SIZE ==> r == Err::<
                (),
                MemoryError,
            >(MemoryError::RomTooLarge) && *final(self) == *old(self),
            rom_valid(rom@) && rom@.len() - ROM_HEADER_SIZE <= MEMORY_SIZE ==> r is Ok
                && final(self)@ == loaded(old(self)@, rom@) && final(self).header() == rom@.subrange(
                0,
                ROM_HEADER_SIZE as int,
            ),
    {
        if rom.len() < ROM_HEADER_SIZE || rom[0] != 0x43u8 || rom[1] != 0x48u8 || rom[2] != 0x31u8
            || rom[3] != 0x36u8 {
            return Err(MemoryError::RomInvalid);
        }
        let n = rom.len() - ROM_HEADER_SIZE;
        if n > MEMORY_SIZE {
            return Err(MemoryError::RomTooLarge);
        }
        let mut i: usize = 0;
        while i < n
            invariant
                n == rom@.len() - ROM_HEADER_SIZE,
                n <= MEMORY_SIZE,
                0 <= i <= n,
                forall|k: int| 0 <= k < i ==> self.mem@[k] == rom@[k + ROM_HEADER_SIZE],
                forall|k: int| i <= k < MEMORY_SIZE ==> self.mem@[k] == old(self).mem@[k],
                self.rom_header == old(self).rom_header,
            decreases n - i,
        {
            self.mem[i] = rom[i + ROM_HEADER_SIZE];
            i += 1;
        }
        assert(self.mem@ =~= loaded(old(self)@, rom@));
        let mut j: usize = 0;
        while j < ROM_HEADER_SIZE
            invariant
                self.mem@ == loaded(old(self)@, rom@),
                0 <= j <= ROM_HEADER_SIZE,
                rom@.len() >= ROM_HEADER_SIZE,
                forall|k: int| 0 <= k < j ==> self.rom_header@[k] == rom@[k],
            decreases ROM_HEADER_SIZE - j,
        {
            self.rom_header[j] = rom[j];
            j += 1;
        }
        assert(self.header() =~= rom@.subrange(0, ROM_HEADER_SIZE as int));
        Ok(())
    }

    /// The program counter the ROM asks to start at: header bytes 10 and 11, little-endian.
    pub fn initial_pc(&self) -> (r: u16)
        ensures
            r == le16(self.header()[10], self.header()[11]),
    {
        let pair: [u8; 2] = [self.rom_header[10], self.rom_header[11]];
        read_u16_le(&pair)
    }
}

impl Default for Memory {
    fn default() -> (r: Memory)
        ensures
            r@ == Seq::new(MEMORY_SIZE as nat, |i: int| 0u8),
            r.header() == Seq::new(ROM_HEADER_SIZE as nat, |i: int| 0u8),
    {
        Memory::new()
    }
}

} // verus!
