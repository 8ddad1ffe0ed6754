//! The register file: eight 8-bit general registers, the program counter,
//! the stack pointer, and the four flag bits kept in the high nibble of F.

use vstd::prelude::*;

verus! {

/// A 16-bit register pair: the first-named register is the high byte.
pub open spec fn pair16(hi: u8, lo: u8) -> u16 {
    ((hi as u16) << 8) | (lo as u16)
}

/// High byte of a 16-bit value.
pub open spec fn hi8(v: u16) -> u8 {
    (v >> 8) as u8
}

/// Low byte of a 16-bit value.
pub open spec fn lo8(v: u16) -> u8 {
    (v & 0xff) as u8
}

/// The zero flag: bit 7 of F.
pub open spec fn zf_of(f: u8) -> bool {
    f & 0x80 != 0
}

/// The subtract flag: bit 6 of F.
pub open spec fn nf_of(f: u8) -> bool {
    f & 0x40 != 0
}

/// The half-carry flag: bit 5 of F.
pub open spec fn hf_of(f: u8) -> bool {
    f & 0x20 != 0
}

/// The carry flag: bit 4 of F.
pub open spec fn cf_of(f: u8) -> bool {
    f & 0x10 != 0
}

/// F with the single flag bit selected by `mask` forced to `on`,
/// all other bits untouched.
pub open spec fn set_flag(f: u8, mask: u8, on: bool) -> u8 {
    if on {
        f | mask
    } else {
        f & !mask
    }
}

/// Setting one flag bit leaves every other bit of F as it was.
pub proof fn lemma_set_flag_props(f: u8, on: bool)
    by (bit_vector)
    ensures
        (set_flag(f, 0x80, on) & 0x80u8 != 0) == on,
        set_flag(f, 0x80, on) & 0x40u8 == f & 0x40u8,
        set_flag(f, 0x80, on) & 0x20u8 == f & 0x20u8,
        set_flag(f, 0x80, on) & 0x10u8 == f & 0x10u8,
        set_flag(f, 0x80, on) & 0x0fu8 == f & 0x0fu8,
        (set_flag(f, 0x40, on) & 0x40u8 != 0) == on,
        set_flag(f, 0x40, on) & 0x80u8 == f & 0x80u8,
        set_flag(f, 0x40, on) & 0x20u8 == f & 0x20u8,
        set_flag(f, 0x40, on) & 0x10u8 == f & 0x10u8,
        set_flag(f, 0x40, on) & 0x0fu8 == f & 0x0fu8,
        (set_flag(f, 0x20, on) & 0x20u8 != 0) == on,
        set_flag(f, 0x20, on) & 0x80u8 == f & 0x80u8,
        set_flag(f, 0x20, on) & 0x40u8 == f & 0x40u8,
        set_flag(f, 0x20, on) & 0x10u8 == f & 0x10u8,
        set_flag(f, 0x20, on) & 0x0fu8 == f & 0x0fu8,
        (set_flag(f, 0x10, on) & 0x10u8 != 0) == on,
        set_flag(f, 0x10, on) & 0x80u8 == f & 0x80u8,
        set_flag(f, 0x10, on) & 0x40u8 == f & 0x40u8,
        set_flag(f, 0x10, on) & 0x20u8 == f & 0x20u8,
        set_flag(f, 0x10, on) & 0x0fu8 == f & 0x0fu8,
{
}

/// Splitting a 16-bit value into bytes and pairing them back is the identity,
/// and pairing two bytes and taking the halves returns the bytes.
pub proof fn lemma_pair16_split(v: u16, hi: u8, lo: u8)
    by (bit_vector)
    ensures
        pair16(hi8(v), lo8(v)) == v,
        hi8(pair16(hi, lo)) == hi,
        lo8(pair16(hi, lo)) == lo,
{
}

/// Under the invariant the paired AF view carries a zero low nibble, and
/// any value stored through the AF setter re-establishes the invariant.
pub proof fn lemma_wf_af(r: Registers, val: u16)
    requires
        r.wf(),
    ensures
        pair16(r.a, r.f) & 0x000f == 0,
        ((val & 0xf0) as u8) & 0x0f == 0,
{
    let a = r.a;
    let f = r.f;
    assert(f & 0x0fu8 == 0 ==> pair16(a, f) & 0x000fu16 == 0) by (bit_vector);
    assert(((val & 0xf0) as u8) & 0x0fu8 == 0) by (bit_vector);
}

#[derive(Clone, Copy, Debug)]
pub struct Registers {
    pub pc: u16,
    pub sp: u16,
    pub a: u8,
    pub b: u8,
    pub c: u8,
    pub d: u8,
    pub e: u8,
    pub f: u8,
    pub h: u8,
    pub l: u8,
}

impl Default for Registers {
    fn default() -> (r: Self)
        ensures
            r == (Registers { pc: 0, sp: 0, a: 0, b: 0, c: 0, d: 0, e: 0, f: 0, h: 0, l: 0 }),
            r.wf(),
    {
        proof {
            assert(0u8 & 0x0fu8 == 0) by (bit_vector);
        }
        Registers { pc: 0, sp: 0, a: 0, b: 0, c: 0, d: 0, e: 0, f: 0, h: 0, l: 0 }
    }
}

impl Registers {
    /// The register-file invariant: only the four flag bits of F are
    /// meaningful, so its low nibble is always zero.  The AF setter and
    /// every flag setter keep it.
    pub open spec fn wf(self) -> bool {
        self.f & 0x0f == 0
    }

    pub fn af(&self) -> (r: u16)
        ensures
            r == pair16(self.a, self.f),
    {
        ((self.a as u16) << 8) | (self.f as u16)
    }

    pub fn bc(&self) -> (r: u16)
        ensures
            r == pair16(self.b, self.c),
    {
        ((self.b as u16) << 8) | (self.c as u16)
    }

    pub fn de(&self) -> (r: u16)
        ensures
            r == pair16(self.d, self.e),
    {
        ((self.d as u16) << 8) | (self.e as u16)
    }

    pub fn hl(&self) -> (r: u16)
        ensures
            r == pair16(self.h, self.l),
    {
        ((self.h as u16) << 8) | (self.l as u16)
    }

    /// The AF setter masks the low nibble of F to zero: only the four flag
    /// bits of F are ever meaningful.
    pub fn write_af(&mut self, val: u16)
        ensures
            *final(self) == (Registers { a: hi8(val), f: (val & 0xf0) as u8, ..*old(self) }),
            final(self).wf(),
    {
        proof {
            assert(((val & 0xf0) as u8) & 0x0fu8 == 0) by (bit_vector);
        }
        self.a = (val >> 8) as u8;
        self.f = (val & 0xf0) as u8;
    }

    pub fn write_bc(&mut self, val: u16)
        ensures
            *final(self) == (Registers { b: hi8(val), c: lo8(val), ..*old(self) }),
    {
        self.b = (val >> 8) as u8;
        self.c = (val & 0xff) as u8;
    }

    pub fn write_de(&mut self, val: u16)
        ensures
            *final(self) == (Registers { d: hi8(val), e: lo8(val), ..*old(self) }),
    {
        self.d = (val >> 8) as u8;
        self.e = (val & 0xff) as u8;
    }

    pub fn write_hl(&mut self, val: u16)
        ensures
            *final(self) == (Registers { h: hi8(val), l: lo8(val), ..*old(self) }),
    {
        self.h = (val >> 8) as u8;
        self.l = (val & 0xff) as u8;
    }

    pub fn zf(&self) -> (r: bool)
        ensures
            r == zf_of(self.f),
    {
        (self.f & 0x80) > 0
    }

    pub fn nf(&self) -> (r: bool)
        ensures
            r == nf_of(self.f),
    {
        (self.f & 0x40) > 0
    }

    pub fn hf(&self) -> (r: bool)
        ensures
            r == hf_of(self.f),
    {
        (self.f & 0x20) > 0
    }

    pub fn cf(&self) -> (r: bool)
        ensures
            r == cf_of(self.f),
    {
        (self.f & 0x10) > 0
    }

    pub fn set_zf(&mut self, zf: bool)
        ensures
            *final(self) == (Registers { f: set_flag(old(self).f, 0x80, zf), ..*old(self) }),
            zf_of(final(self).f) == zf,
            old(self).wf() ==> final(self).wf(),
            nf_of(final(self).f) == nf_of(old(self).f),
            hf_of(final(self).f) == hf_of(old(self).f),
            cf_of(final(self).f) == cf_of(old(self).f),
    {
        proof {
            lemma_set_flag_props(self.f, zf);
        }
        if zf {
            self.f = self.f | 0x80;
        } else {
            self.f = self.f & !0x80;
        }
    }

    pub fn set_nf(&mut self, nf: bool)
        ensures
            *final(self) == (Registers { f: set_flag(old(self).f, 0x40, nf), ..*old(self) }),
            nf_of(final(self).f) == nf,
            old(self).wf() ==> final(self).wf(),
            zf_of(final(self).f) == zf_of(old(self).f),
            hf_of(final(self).f) == hf_of(old(self).f),
            cf_of(final(self).f) == cf_of(old(self).f),
    {
        proof {
            lemma_set_flag_props(self.f, nf);
        }
        if nf {
            self.f = self.f | 0x40;
        } else {
            self.f = self.f & !0x40;
        }
    }

    pub fn set_hf(&mut self, hf: bool)
        ensures
            *final(self) == (Registers { f: set_flag(old(self).f, 0x20, hf), ..*old(self) }),
            hf_of(final(self).f) == hf,
            old(self).wf() ==> final(self).wf(),
            zf_of(final(self).f) == zf_of(old(self).f),
            nf_of(final(self).f) == nf_of(old(self).f),
            cf_of(final(self).f) == cf_of(old(self).f),
    {
        proof {
            lemma_set_flag_props(self.f, hf);
        }
        if hf {
            self.f = self.f | 0x20;
        } else {
            self.f = self.f & !0x20;
        }
    }

    pub fn set_cf(&mut self, cf: bool)
        ensures
            *final(self) == (Registers { f: set_flag(old(self).f, 0x10, cf), ..*old(self) }),
            cf_of(final(self).f) == cf,
            old(self).wf() ==> final(self).wf(),
            zf_of(final(self).f) == zf_of(old(self).f),
            nf_of(final(self).f) == nf_of(old(self).f),
            hf_of(final(self).f) == hf_of(old(self).f),
    {
        proof {
            lemma_set_flag_props(self.f, cf);
        }
        if cf {
            self.f = self.f | 0x10;
        } else {
            self.f = self.f & !0x10;
        }
    }
}

} // verus!
