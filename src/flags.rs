//! The 8-bit status register of the CPU.
use vstd::prelude::*;

verus! {

/// Carry / borrow.
pub const FLAG_C: u8 = 0x02;

/// Zero.
pub const FLAG_Z: u8 = 0x04;

/// Signed overflow.
pub const FLAG_O: u8 = 0x40;

/// Negative.
pub const FLAG_N: u8 = 0x80;

/// `f` with the bits of `mask` set (`on`) or cleared.
pub open spec fn put(f: u8, mask: u8, on: bool) -> u8 {
    if on {
        f | mask
    } else {
        f & !mask
    }
}

/// Whether any bit of `mask` is set in `f`.
pub open spec fn has(f: u8, mask: u8) -> bool {
    f & mask != 0
}

/// Setting or clearing one flag decides that flag and leaves the others as they were.
pub proof fn lemma_put(f: u8, mask: u8, probe: u8, on: bool)
    by (bit_vector)
    requires
        mask == 2 || mask == 4 || mask == 64 || mask == 128,
        probe == 2 || probe == 4 || probe == 64 || probe == 128,
    ensures
        has(put(f, mask, on), probe) == (if mask == probe {
            on
        } else {
            has(f, probe)
        }),
{
}

/// N and Z after an update of both.
pub proof fn lemma_nz(f: u8, n: bool, z: bool)
    by (bit_vector)
    ensures
        has(put(put(f, 128, n), 4, z), 128) == n,
        has(put(put(f, 128, n), 4, z), 4) == z,
        has(put(put(f, 128, n), 4, z), 2) == has(f, 2),
        has(put(put(f, 128, n), 4, z), 64) == has(f, 64),
{
}

/// N, Z and C after an update of the three.
pub proof fn lemma_nzc(f: u8, n: bool, z: bool, c: bool)
    by (bit_vector)
    ensures
        has(put(put(put(f, 128, n), 4, z), 2, c), 128) == n,
        has(put(put(put(f, 128, n), 4, z), 2, c), 4) == z,
        has(put(put(put(f, 128, n), 4, z), 2, c), 2) == c,
        has(put(put(put(f, 128, n), 4, z), 2, c), 64) == has(f, 64),
{
}

/// N, Z, C and O after an update of all four.
pub proof fn lemma_nzco(f: u8, n: bool, z: bool, c: bool, o: bool)
    by (bit_vector)
    ensures
        has(put(put(put(put(f, 128, n), 4, z), 2, c), 64, o), 128) == n,
        has(put(put(put(put(f, 128, n), 4, z), 2, c), 64, o), 4) == z,
        has(put(put(put(put(f, 128, n), 4, z), 2, c), 64, o), 2) == c,
        has(put(put(put(put(f, 128, n), 4, z), 2, c), 64, o), 64) == o,
{
}

/// The status register: bit 7 N, bit 6 O, bit 2 Z, bit 1 C, the others reserved.
#[derive(Debug, Clone, Copy, PartialEq, Eq, Structural)]
pub struct CpuFlags(pub u8);

impl Default for CpuFlags {
    fn default() -> (r: CpuFlags)
        ensures
            r.0 == 0,
    {
        CpuFlags(0)
    }
}

impl CpuFlags {
    pub fn set_c(&mut self)
        ensures
            final(self).0 == put(old(self).0, FLAG_C, true),
    {
        self.0 = self.0 | FLAG_C;
    }

    pub fn clear_c(&mut self)
        ensures
            final(self).0 == put(old(self).0, FLAG_C, false),
    {
        self.0 = self.0 & !FLAG_C;
    }

    pub fn c(&self) -> (r: bool)
        ensures
            r == has(self.0, FLAG_C),
    {
        self.0 & FLAG_C != 0
    }

    pub fn set_z(&mut self)
        ensures
            final(self).0 == put(old(self).0, FLAG_Z, true),
    {
        self.0 = self.0 | FLAG_Z;
    }

    pub fn clear_z(&mut self)
        ensures
            final(self).0 == put(old(self).0, FLAG_Z, false),
    {
        self.0 = self.0 & !FLAG_Z;
    }

    pub fn z(&self) -> (r: bool)
        ensures
            r == has(self.0, FLAG_Z),
    {
        self.0 & FLAG_Z != 0
    }

    pub fn set_o(&mut self)
        ensures
            final(self).0 == put(old(self).0, FLAG_O, true),
    {
        self.0 = self.0 | FLAG_O;
    }

    pub fn clear_o(&mut self)
        ensures
            final(self).0 == put(old(self).0, FLAG_O, false),
    {
        self.0 = self.0 & !FLAG_O;
    }

    pub fn o(&self) -> (r: bool)
        ensures
            r == has(self.0, FLAG_O),
    {
        self.0 & FLAG_O != 0
    }

    pub fn set_n(&mut self)
        ensures
            final(self).0 == put(old(self).0, FLAG_N, true),
    {
        self.0 = self.0 | FLAG_N;
    }

    pub fn clear_n(&mut self)
        ensures
            final(self).0 == put(old(self).0, FLAG_N, false),
    {
        self.0 = self.0 & !FLAG_N;
    }

    pub fn n(&self) -> (r: bool)
        ensures
            r == has(self.0, FLAG_N),
    {
        self.0 & FLAG_N != 0
    }

    /// Sets or clears C.
    pub fn put_c(&mut self, on: bool)
        ensures
            final(self).0 == put(old(self).0, FLAG_C, on),
    {
        if on {
            self.set_c();
        } else {
            self.clear_c();
        }
    }

    /// Sets or clears O.
    pub fn put_o(&mut self, on: bool)
        ensures
            final(self).0 == put(old(self).0, FLAG_O, on),
    {
        if on {
            self.set_o();
        } else {
            self.clear_o();
        }
    }

    /// N follows the sign of `val`.
    pub fn check_n(&mut self, val: i16)
        ensures
            final(self).0 == put(old(self).0, FLAG_N, val < 0),
            has(final(self).0, FLAG_N) == (val < 0),
    {
        proof {
            lemma_put(self.0, FLAG_N, FLAG_N, val < 0);
        }
        if val < 0 {
            self.set_n();
        } else {
            self.clear_n();
        }
    }

    /// Z follows whether `val` is zero.
    pub fn check_z(&mut self, val: i16)
        ensures
            final(self).0 == put(old(self).0, FLAG_Z, val == 0),
            has(final(self).0, FLAG_Z) == (val == 0),
    {
        proof {
            lemma_put(self.0, FLAG_Z, FLAG_Z, val == 0);
        }
        if val == 0 {
            self.set_z();
        } else {
            self.clear_z();
        }
    }
}

} // verus!
