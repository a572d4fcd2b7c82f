//! The fixed block of 128 bytes of RAM at the top of the address space.

use vstd::prelude::*;

verus! {

/// Number of bytes in the block.
pub const HRAM_SIZE: usize = 0x80;

/// The offset in the block that an address selects: its low seven bits.
pub open spec fn hram_offset(addr: u16) -> int {
    addr as int % 0x80
}

/// The block. Its view is the sequence of its 128 bytes.
pub struct HRam {
    hram: Vec<u8>,
}

impl View for HRam {
    type V = Seq<u8>;

    closed spec fn view(&self) -> Seq<u8> {
        self.hram@
    }
}

impl HRam {
    /// The invariant of the type: the block holds 128 bytes.
    #[verifier::type_invariant]
    pub closed spec fn inv(self) -> bool {
        self.hram@.len() == HRAM_SIZE
    }

    /// What the invariant says of the view.
    pub proof fn lemma_inv(self)
        requires
            self.inv(),
        ensures
            self@.len() == HRAM_SIZE,
    {
    }

    /// A block whose bytes are all zero.
    pub fn new() -> (r: Self)
        ensures
            r@ == Seq::new(HRAM_SIZE as nat, |i: int| 0u8),
    {
        let hram: Vec<u8> = vec![0u8; HRAM_SIZE];
        assert(hram@ =~= Seq::new(HRAM_SIZE as nat, |i: int| 0u8));
        HRam { hram }
    }

    /// The byte that `addr` selects.
    pub fn read(&self, addr: u16) -> (v: u8)
        ensures
            v == self@[hram_offset(addr)],
            self@.len() == HRAM_SIZE,
    {
        proof {
            use_type_invariant(self);
            lemma_offset_bits(addr);
        }
        self.hram[(addr & 0x7F) as usize]
    }

    /// Stores `val` in the byte that `addr` selects.
    pub fn write(&mut self, addr: u16, val: u8)
        ensures
            final(self)@ == old(self)@.update(hram_offset(addr), val),
            final(self)@.len() == HRAM_SIZE,
    {
        proof {
            use_type_invariant(&*self);
            lemma_offset_bits(addr);
        }
        self.hram[(addr & 0x7F) as usize] = val;
    }
}

/// Masking an address to seven bits is reducing it modulo 128.
pub proof fn lemma_offset_bits(addr: u16)
    by (bit_vector)
    ensures
        addr & 0x7F == addr % 0x80,
        addr & 0x7F < 0x80,
{
}

/// A byte written is read back at every address that selects the same
/// offset, and no other byte changes.
pub proof fn law_hram_read_after_write(mem: Seq<u8>, addr: u16, val: u8, other: u16)
    requires
        mem.len() == HRAM_SIZE,
    ensures
        mem.update(hram_offset(addr), val)[hram_offset(addr)] == val,
        hram_offset(other) != hram_offset(addr) ==> mem.update(hram_offset(addr), val)[hram_offset(
            other,
        )] == mem[hram_offset(other)],
        mem.update(hram_offset(addr), val).len() == HRAM_SIZE,
{
}

} // verus!
