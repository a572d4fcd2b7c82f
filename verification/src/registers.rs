//! The register file: eight 8-bit cells, the stack pointer and the program
//! counter. Register pairs are views over two cells, high byte first.

use vstd::prelude::*;

verus! {

/// Bit of `F` that holds the zero flag.
pub const FLAG_Z: u8 = 0x80;

/// Bit of `F` that holds the subtract flag.
pub const FLAG_N: u8 = 0x40;

/// Bit of `F` that holds the half-carry flag.
pub const FLAG_H: u8 = 0x20;

/// Bit of `F` that holds the carry flag.
pub const FLAG_C: u8 = 0x10;

/// The 16-bit word whose high byte is `hi` and whose low byte is `lo`.
pub open spec fn pack(hi: u8, lo: u8) -> u16 {
    (hi as int * 256 + lo as int) as u16
}

/// The high byte of a word.
pub open spec fn high_byte(w: u16) -> u8 {
    (w as int / 256) as u8
}

/// The low byte of a word.
pub open spec fn low_byte(w: u16) -> u8 {
    (w as int % 256) as u8
}

/// Whether the bits of `mask` that are set are set in `f`.
pub open spec fn flag_set(f: u8, mask: u8) -> bool {
    f & mask != 0
}

/// `f` with the bits of `mask` set or cleared.
pub open spec fn with_flag(f: u8, mask: u8, on: bool) -> u8 {
    if on {
        f | mask
    } else {
        f & !mask
    }
}

/// Shifting and or-ing two bytes together is packing them.
pub proof fn lemma_pack_bits(hi: u8, lo: u8)
    by (bit_vector)
    ensures
        ((hi as u16) << 8) | (lo as u16) == (hi as u16) * 256 + (lo as u16),
        (hi as u16) * 256 + (lo as u16) < 0x1_0000,
{
}

/// Shifting and masking a word gives its halves.
pub proof fn lemma_split_bits(w: u16)
    by (bit_vector)
    ensures
        (w >> 8) == w / 256,
        (w >> 8) < 256,
        (w & 0xFF) == w % 256,
        (w & 0xF0) == (w % 256) & 0xF0,
        (w & 0xF0) < 256,
{
}

/// Splitting a packed word gives the two bytes back, and packing the two
/// halves of a word gives the word back.
pub proof fn lemma_pack_split(hi: u8, lo: u8, w: u16)
    ensures
        high_byte(pack(hi, lo)) == hi,
        low_byte(pack(hi, lo)) == lo,
        pack(high_byte(w), low_byte(w)) == w,
{
}

/// Joins two bytes into a word, high byte first.
pub fn join(hi: u8, lo: u8) -> (w: u16)
    ensures
        w == pack(hi, lo),
{
    proof {
        lemma_pack_bits(hi, lo);
    }
    ((hi as u16) << 8) | (lo as u16)
}

/// The high byte of a word.
pub fn hi(w: u16) -> (b: u8)
    ensures
        b == high_byte(w),
{
    proof {
        lemma_split_bits(w);
    }
    (w >> 8) as u8
}

/// The low byte of a word.
pub fn lo(w: u16) -> (b: u8)
    ensures
        b == low_byte(w),
{
    proof {
        lemma_split_bits(w);
    }
    (w & 0xFF) as u8
}

/// The register file.
#[derive(Clone, Copy, Debug, PartialEq, Eq, Structural)]
pub struct Registers {
    pub a: u8,
    pub b: u8,
    pub c: u8,
    pub d: u8,
    pub e: u8,
    pub f: u8,
    pub h: u8,
    pub l: u8,
    pub pc: u16,
    pub sp: u16,
}

impl Default for Registers {
    fn default() -> (r: Self)
        ensures
            r == Registers::zeroed(),
    {
        Registers { a: 0, b: 0, c: 0, d: 0, e: 0, f: 0, h: 0, l: 0, pc: 0, sp: 0 }
    }
}

impl Registers {
    /// The register file with every cell zero.
    pub open spec fn zeroed() -> Registers {
        Registers { a: 0, b: 0, c: 0, d: 0, e: 0, f: 0, h: 0, l: 0, pc: 0, sp: 0 }
    }

    /// The low four bits of `F` are zero.
    pub open spec fn wf(self) -> bool {
        self.f & 0x0F == 0
    }

    /// The pair `AF`.
    pub open spec fn spec_af(&self) -> u16 {
        pack(self.a, self.f)
    }

    /// The pair `BC`.
    pub open spec fn spec_bc(&self) -> u16 {
        pack(self.b, self.c)
    }

    /// The pair `DE`.
    pub open spec fn spec_de(&self) -> u16 {
        pack(self.d, self.e)
    }

    /// The pair `HL`.
    pub open spec fn spec_hl(&self) -> u16 {
        pack(self.h, self.l)
    }

    /// The register file after `AF` is written: `A` takes the high byte, `F`
    /// the low byte with its low four bits cleared.
    pub open spec fn with_af(self, val: u16) -> Registers {
        Registers { a: high_byte(val), f: low_byte(val) & 0xF0, ..self }
    }

    /// The register file after `BC` is written.
    pub open spec fn with_bc(self, val: u16) -> Registers {
        Registers { b: high_byte(val), c: low_byte(val), ..self }
    }

    /// The register file after `DE` is written.
    pub open spec fn with_de(self, val: u16) -> Registers {
        Registers { d: high_byte(val), e: low_byte(val), ..self }
    }

    /// The register file after `HL` is written.
    pub open spec fn with_hl(self, val: u16) -> Registers {
        Registers { h: high_byte(val), l: low_byte(val), ..self }
    }

    /// The zero flag.
    pub open spec fn spec_zf(&self) -> bool {
        flag_set(self.f, FLAG_Z)
    }

    /// The subtract flag.
    pub open spec fn spec_nf(&self) -> bool {
        flag_set(self.f, FLAG_N)
    }

    /// The half-carry flag.
    pub open spec fn spec_hf(&self) -> bool {
        flag_set(self.f, FLAG_H)
    }

    /// The carry flag.
    pub open spec fn spec_cf(&self) -> bool {
        flag_set(self.f, FLAG_C)
    }

    /// The register file with the four flags set as given and nothing else
    /// changed.
    pub open spec fn with_flags(self, z: bool, n: bool, h: bool, c: bool) -> Registers {
        Registers {
            f: with_flag(with_flag(with_flag(with_flag(self.f, FLAG_Z, z), FLAG_N, n), FLAG_H, h), FLAG_C, c),
            ..self
        }
    }

    /// The register file with the zero, subtract and half-carry flags set
    /// as given and nothing else changed.
    pub open spec fn with_znh(self, z: bool, n: bool, h: bool) -> Registers {
        Registers { f: with_flag(with_flag(with_flag(self.f, FLAG_Z, z), FLAG_N, n), FLAG_H, h), ..self }
    }

    /// The pair `AF`, `A` in the high byte.
    #[verifier::when_used_as_spec(spec_af)]
    pub fn af(&self) -> (w: u16)
        ensures
            w == pack(self.a, self.f),
    {
        join(self.a, self.f)
    }

    /// The pair `BC`, `B` in the high byte.
    #[verifier::when_used_as_spec(spec_bc)]
    pub fn bc(&self) -> (w: u16)
        ensures
            w == pack(self.b, self.c),
    {
        join(self.b, self.c)
    }

    /// The pair `DE`, `D` in the high byte.
    #[verifier::when_used_as_spec(spec_de)]
    pub fn de(&self) -> (w: u16)
        ensures
            w == pack(self.d, self.e),
    {
        join(self.d, self.e)
    }

    /// The pair `HL`, `H` in the high byte.
    #[verifier::when_used_as_spec(spec_hl)]
    pub fn hl(&self) -> (w: u16)
        ensures
            w == pack(self.h, self.l),
    {
        join(self.h, self.l)
    }

    /// Writes the pair `AF`. The low four bits of `F` stay zero whatever
    /// `val` holds.
    pub fn write_af(&mut self, val: u16)
        ensures
            *final(self) == old(self).with_af(val),
            final(self).af() == pack(high_byte(val), low_byte(val) & 0xF0),
            final(self).wf(),
    {
        proof {
            lemma_split_bits(val);
            lemma_flag_bits(low_byte(val));
        }
        self.a = (val >> 8) as u8;
        self.f = (val & 0xF0) as u8;
    }

    /// Writes the pair `BC`.
    pub fn write_bc(&mut self, val: u16)
        ensures
            *final(self) == old(self).with_bc(val),
            final(self).bc() == val,
    {
        proof {
            lemma_split_bits(val);
        }
        self.b = (val >> 8) as u8;
        self.c = (val & 0xFF) as u8;
    }

    /// Writes the pair `DE`.
    pub fn write_de(&mut self, val: u16)
        ensures
            *final(self) == old(self).with_de(val),
            final(self).de() == val,
    {
        proof {
            lemma_split_bits(val);
        }
        self.d = (val >> 8) as u8;
        self.e = (val & 0xFF) as u8;
    }

    /// Writes the pair `HL`.
    pub fn write_hl(&mut self, val: u16)
        ensures
            *final(self) == old(self).with_hl(val),
            final(self).hl() == val,
    {
        proof {
            lemma_split_bits(val);
        }
        self.h = (val >> 8) as u8;
        self.l = (val & 0xFF) as u8;
    }

    /// The zero flag, bit 7 of `F`.
    #[verifier::when_used_as_spec(spec_zf)]
    pub fn zf(&self) -> (b: bool)
        ensures
            b == flag_set(self.f, FLAG_Z),
    {
        (self.f & 0x80) > 0
    }

    /// The subtract flag, bit 6 of `F`.
    #[verifier::when_used_as_spec(spec_nf)]
    pub fn nf(&self) -> (b: bool)
        ensures
            b == flag_set(self.f, FLAG_N),
    {
        (self.f & 0x40) > 0
    }

    /// The half-carry flag, bit 5 of `F`.
    #[verifier::when_used_as_spec(spec_hf)]
    pub fn hf(&self) -> (b: bool)
        ensures
            b == flag_set(self.f, FLAG_H),
    {
        (self.f & 0x20) > 0
    }

    /// The carry flag, bit 4 of `F`.
    #[verifier::when_used_as_spec(spec_cf)]
    pub fn cf(&self) -> (b: bool)
        ensures
            b == flag_set(self.f, FLAG_C),
    {
        (self.f & 0x10) > 0
    }

    /// Sets or clears the zero flag and leaves every other bit as it was.
    pub fn set_zf(&mut self, zf: bool)
        ensures
            *final(self) == (Registers { f: with_flag(old(self).f, FLAG_Z, zf), ..*old(self) }),
            final(self).zf() == zf,
            final(self).nf() == old(self).nf(),
            final(self).hf() == old(self).hf(),
            final(self).cf() == old(self).cf(),
            final(self).f & 0x0F == old(self).f & 0x0F,
    {
        proof {
            lemma_flag_bits(self.f);
        }
        if zf {
            self.f = self.f | 0x80;
        } else {
            self.f = self.f & 0x7F;
        }
    }

    /// Sets or clears the subtract flag and leaves every other bit as it was.
    pub fn set_nf(&mut self, nf: bool)
        ensures
            *final(self) == (Registers { f: with_flag(old(self).f, FLAG_N, nf), ..*old(self) }),
            final(self).nf() == nf,
            final(self).zf() == old(self).zf(),
            final(self).hf() == old(self).hf(),
            final(self).cf() == old(self).cf(),
            final(self).f & 0x0F == old(self).f & 0x0F,
    {
        proof {
            lemma_flag_bits(self.f);
        }
        if nf {
            self.f = self.f | 0x40;
        } else {
            self.f = self.f & 0xBF;
        }
    }

    /// Sets or clears the half-carry flag and leaves every other bit as it
    /// was.
    pub fn set_hf(&mut self, hf: bool)
        ensures
            *final(self) == (Registers { f: with_flag(old(self).f, FLAG_H, hf), ..*old(self) }),
            final(self).hf() == hf,
            final(self).zf() == old(self).zf(),
            final(self).nf() == old(self).nf(),
            final(self).cf() == old(self).cf(),
            final(self).f & 0x0F == old(self).f & 0x0F,
    {
        proof {
            lemma_flag_bits(self.f);
        }
        if hf {
            self.f = self.f | 0x20;
        } else {
            self.f = self.f & 0xDF;
        }
    }

    /// Sets or clears the carry flag and leaves every other bit as it was.
    pub fn set_cf(&mut self, cf: bool)
        ensures
            *final(self) == (Registers { f: with_flag(old(self).f, FLAG_C, cf), ..*old(self) }),
            final(self).cf() == cf,
            final(self).zf() == old(self).zf(),
            final(self).nf() == old(self).nf(),
            final(self).hf() == old(self).hf(),
            final(self).f & 0x0F == old(self).f & 0x0F,
    {
        proof {
            lemma_flag_bits(self.f);
        }
        if cf {
            self.f = self.f | 0x10;
        } else {
            self.f = self.f & 0xEF;
        }
    }

    /// Sets the zero, subtract and half-carry flags and leaves the carry
    /// flag as it was.
    pub fn set_znh(&mut self, z: bool, n: bool, h: bool)
        ensures
            *final(self) == old(self).with_znh(z, n, h),
            final(self).zf() == z,
            final(self).nf() == n,
            final(self).hf() == h,
            final(self).cf() == old(self).cf(),
            final(self).f & 0x0F == old(self).f & 0x0F,
    {
        self.set_zf(z);
        self.set_nf(n);
        self.set_hf(h);
    }

    /// Sets the four flags at once.
    pub fn set_flags(&mut self, z: bool, n: bool, h: bool, c: bool)
        ensures
            *final(self) == old(self).with_flags(z, n, h, c),
            final(self).zf() == z,
            final(self).nf() == n,
            final(self).hf() == h,
            final(self).cf() == c,
            final(self).f & 0x0F == old(self).f & 0x0F,
    {
        self.set_zf(z);
        self.set_nf(n);
        self.set_hf(h);
        self.set_cf(c);
    }
}

/// What setting or clearing one flag bit does to each flag and to the low
/// four bits.
pub proof fn lemma_flag_bits(f: u8)
    by (bit_vector)
    ensures
        !0x80u8 == 0x7Fu8,
        !0x40u8 == 0xBFu8,
        !0x20u8 == 0xDFu8,
        !0x10u8 == 0xEFu8,
        (f & 0xF0) & 0x0F == 0,
        (f | 0x80) & 0x80 != 0,
        (f & 0x7F) & 0x80 == 0,
        (f | 0x80) & 0x40 == f & 0x40,
        (f & 0x7F) & 0x40 == f & 0x40,
        (f | 0x80) & 0x20 == f & 0x20,
        (f & 0x7F) & 0x20 == f & 0x20,
        (f | 0x80) & 0x10 == f & 0x10,
        (f & 0x7F) & 0x10 == f & 0x10,
        (f | 0x80) & 0x0F == f & 0x0F,
        (f & 0x7F) & 0x0F == f & 0x0F,
        (f | 0x40) & 0x40 != 0,
        (f & 0xBF) & 0x40 == 0,
        (f | 0x40) & 0x80 == f & 0x80,
        (f & 0xBF) & 0x80 == f & 0x80,
        (f | 0x40) & 0x20 == f & 0x20,
        (f & 0xBF) & 0x20 == f & 0x20,
        (f | 0x40) & 0x10 == f & 0x10,
        (f & 0xBF) & 0x10 == f & 0x10,
        (f | 0x40) & 0x0F == f & 0x0F,
        (f & 0xBF) & 0x0F == f & 0x0F,
        (f | 0x20) & 0x20 != 0,
        (f & 0xDF) & 0x20 == 0,
        (f | 0x20) & 0x80 == f & 0x80,
        (f & 0xDF) & 0x80 == f & 0x80,
        (f | 0x20) & 0x40 == f & 0x40,
        (f & 0xDF) & 0x40 == f & 0x40,
        (f | 0x20) & 0x10 == f & 0x10,
        (f & 0xDF) & 0x10 == f & 0x10,
        (f | 0x20) & 0x0F == f & 0x0F,
        (f & 0xDF) & 0x0F == f & 0x0F,
        (f | 0x10) & 0x10 != 0,
        (f & 0xEF) & 0x10 == 0,
        (f | 0x10) & 0x80 == f & 0x80,
        (f & 0xEF) & 0x80 == f & 0x80,
        (f | 0x10) & 0x40 == f & 0x40,
        (f & 0xEF) & 0x40 == f & 0x40,
        (f | 0x10) & 0x20 == f & 0x20,
        (f & 0xEF) & 0x20 == f & 0x20,
        (f | 0x10) & 0x0F == f & 0x0F,
        (f & 0xEF) & 0x0F == f & 0x0F,
{
}

/// Writing a pair and reading it back gives the value written, but for `AF`,
/// where the low four bits of `F` read back as zero.
pub proof fn lemma_pair_round_trip(r: Registers, val: u16)
    ensures
        r.with_af(val).af() == pack(high_byte(val), low_byte(val) & 0xF0),
        r.with_af(val).wf(),
        r.with_bc(val).bc() == val,
        r.with_de(val).de() == val,
        r.with_hl(val).hl() == val,
        r.wf() ==> r.with_af(r.af()) == r,
        r.with_bc(r.bc()) == r,
        r.with_de(r.de()) == r,
        r.with_hl(r.hl()) == r,
{
    lemma_flag_bits(low_byte(val));
    lemma_pack_split(r.a, r.f, val);
    lemma_pack_split(r.b, r.c, val);
    lemma_pack_split(r.d, r.e, val);
    lemma_pack_split(r.h, r.l, val);
    assert(r.wf() ==> r.f & 0xF0 == r.f) by {
        lemma_low_nibble(r.f);
    }
}

/// A byte whose low four bits are zero is unchanged by masking them off.
pub proof fn lemma_low_nibble(f: u8)
    by (bit_vector)
    ensures
        f & 0x0F == 0 ==> f & 0xF0 == f,
{
}

/// For every `a` and `f`, writing the pair made of them to `AF` and reading
/// `AF` back gives `a` with `f` masked to its high four bits.
pub proof fn law_af_masks_low_nibble(r: Registers, a: u8, f: u8)
    ensures
        r.with_af(pack(a, f)).af() == pack(a, f & 0xF0),
        r.with_af(pack(a, f)).wf(),
{
    lemma_pack_split(a, f, 0);
    lemma_flag_bits(f);
}

} // verus!
