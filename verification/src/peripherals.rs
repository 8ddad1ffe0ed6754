//! The memory bus: a boot overlay over the lowest page, working RAM, the
//! boot-disable latch, and high RAM.  Reads of unmapped addresses return
//! 0xff and writes to them are dropped.

use vstd::prelude::*;

verus! {

/// The abstract contents of the bus: the boot page, whether the overlay is
/// still active, and the two RAM arrays.
#[verifier::ext_equal]
pub struct BusView {
    pub boot: Seq<u8>,
    pub boot_active: bool,
    pub wram: Seq<u8>,
    pub hram: Seq<u8>,
}

impl BusView {
    /// The storage sizes the bus is built with.
    pub open spec fn wf(self) -> bool {
        &&& self.boot.len() >= 0x100
        &&& self.wram.len() == 0x2000
        &&& self.hram.len() == 0x80
    }

    /// What a read at `addr` returns: the boot page while the overlay is
    /// active, working RAM (echoed through 0xfdff), high RAM, and 0xff
    /// everywhere else.
    pub open spec fn read_at(self, addr: u16) -> u8 {
        if addr < 0x100 {
            if self.boot_active {
                self.boot[addr as int]
            } else {
                0xff
            }
        } else if 0xc000 <= addr && addr <= 0xfdff {
            self.wram[(addr & 0x1fff) as int]
        } else if 0xff80 <= addr && addr <= 0xfffe {
            self.hram[(addr & 0x7f) as int]
        } else {
            0xff
        }
    }

    /// The bus after a write at `addr`: RAM cells are updated, a nonzero
    /// write to 0xff50 retires the boot overlay, all other writes are
    /// dropped.
    pub open spec fn write_at(self, addr: u16, val: u8) -> BusView {
        if 0xc000 <= addr && addr <= 0xfdff {
            BusView { wram: self.wram.update((addr & 0x1fff) as int, val), ..self }
        } else if addr == 0xff50 {
            BusView { boot_active: self.boot_active && val == 0, ..self }
        } else if 0xff80 <= addr && addr <= 0xfffe {
            BusView { hram: self.hram.update((addr & 0x7f) as int, val), ..self }
        } else {
            self
        }
    }

    /// True of the plain-RAM addresses, where a written byte reads back.
    pub open spec fn writable(addr: u16) -> bool {
        (0xc000 <= addr && addr <= 0xfdff) || (0xff80 <= addr && addr <= 0xfffe)
    }
}

/// A write to a plain-RAM address reads back, and a write anywhere leaves
/// every cell whose backing storage it does not touch as it was.
pub proof fn lemma_write_read(b: BusView, addr: u16, val: u8, other: u16)
    requires
        b.wf(),
    ensures
        BusView::writable(addr) ==> b.write_at(addr, val).read_at(addr) == val,
        b.write_at(addr, val).wf(),
        !BusView::writable(addr) && addr != 0xff50 ==> b.write_at(addr, val) == b,
        (other < 0x100 && addr != 0xff50) || (0xff80 <= other && other <= 0xfffe && !(0xff80
            <= addr && addr <= 0xfffe)) || (0xc000 <= other && other <= 0xfdff && !(0xc000 <= addr
            && addr <= 0xfdff)) ==> b.write_at(addr, val).read_at(other) == b.read_at(other),
        0xc000 <= addr && addr <= 0xfdff && 0xc000 <= other && other <= 0xfdff && (addr & 0x1fff)
            != (other & 0x1fff) ==> b.write_at(addr, val).read_at(other) == b.read_at(other),
        0xff80 <= addr && addr <= 0xfffe && 0xff80 <= other && other <= 0xfffe && (addr & 0x7f)
            != (other & 0x7f) ==> b.write_at(addr, val).read_at(other) == b.read_at(other),
{
    assert((addr & 0x1fff) < 0x2000 && (addr & 0x7f) < 0x80 && (other & 0x1fff) < 0x2000 && (other
        & 0x7f) < 0x80) by (bit_vector);
}

/// The boot ROM overlay: a byte array and the latch that keeps it mapped.
pub struct Bootrom {
    pub rom: Vec<u8>,
    pub active: bool,
}

impl Bootrom {
    pub fn new(rom: Vec<u8>) -> (r: Self)
        ensures
            r.rom@ == rom@,
            r.active,
    {
        Bootrom { rom, active: true }
    }

    pub fn is_active(&self) -> (r: bool)
        ensures
            r == self.active,
    {
        self.active
    }

    pub fn read(&self, addr: u16) -> (r: u8)
        requires
            (addr as int) < self.rom@.len(),
        ensures
            r == self.rom@[addr as int],
    {
        self.rom[addr as usize]
    }

    /// Any nonzero value written through the latch register disables the
    /// overlay for good; writing zero leaves it as it is.
    pub fn write(&mut self, _addr: u16, val: u8)
        ensures
            final(self).rom@ == old(self).rom@,
            final(self).active == (old(self).active && val == 0),
    {
        self.active = self.active && val == 0;
    }
}

/// Working RAM: 0x2000 bytes, addressed through the low 13 address bits so
/// that 0xe000–0xfdff echoes 0xc000–0xddff.
pub struct WRam {
    pub buf: Vec<u8>,
}

impl WRam {
    pub fn new() -> (r: Self)
        ensures
            r.buf@.len() == 0x2000,
            forall|i: int| 0 <= i < 0x2000 ==> r.buf@[i] == 0xff,
    {
        let mut buf: Vec<u8> = Vec::new();
        while buf.len() < 0x2000
            invariant
                buf@.len() <= 0x2000,
                forall|i: int| 0 <= i < buf@.len() ==> buf@[i] == 0xff,
            decreases 0x2000 - buf@.len(),
        {
            buf.push(0xff);
        }
        WRam { buf }
    }

    pub fn read(&self, addr: u16) -> (r: u8)
        requires
            self.buf@.len() == 0x2000,
        ensures
            r == self.buf@[(addr & 0x1fff) as int],
    {
        proof {
            assert((addr & 0x1fff) < 0x2000) by (bit_vector);
        }
        self.buf[(addr & 0x1fff) as usize]
    }

    pub fn write(&mut self, addr: u16, val: u8)
        requires
            old(self).buf@.len() == 0x2000,
        ensures
            final(self).buf@ == old(self).buf@.update((addr & 0x1fff) as int, val),
            final(self).buf@.len() == old(self).buf@.len(),
    {
        proof {
            assert((addr & 0x1fff) < 0x2000) by (bit_vector);
        }
        self.buf.set((addr & 0x1fff) as usize, val);
    }
}

/// High RAM: 0x80 bytes reached through the low 7 address bits.
pub struct HRam {
    pub buf: Vec<u8>,
}

impl HRam {
    pub fn new() -> (r: Self)
        ensures
            r.buf@.len() == 0x80,
            forall|i: int| 0 <= i < 0x80 ==> r.buf@[i] == 0xff,
    {
        let mut buf: Vec<u8> = Vec::new();
        while buf.len() < 0x80
            invariant
                buf@.len() <= 0x80,
                forall|i: int| 0 <= i < buf@.len() ==> buf@[i] == 0xff,
            decreases 0x80 - buf@.len(),
        {
            buf.push(0xff);
        }
        HRam { buf }
    }

    pub fn read(&self, addr: u16) -> (r: u8)
        requires
            self.buf@.len() == 0x80,
        ensures
            r == self.buf@[(addr & 0x7f) as int],
    {
        proof {
            assert((addr & 0x7f) < 0x80) by (bit_vector);
        }
        self.buf[(addr & 0x7f) as usize]
    }

    pub fn write(&mut self, addr: u16, val: u8)
        requires
            old(self).buf@.len() == 0x80,
        ensures
            final(self).buf@ == old(self).buf@.update((addr & 0x7f) as int, val),
            final(self).buf@.len() == old(self).buf@.len(),
    {
        proof {
            assert((addr & 0x7f) < 0x80) by (bit_vector);
        }
        self.buf.set((addr & 0x7f) as usize, val);
    }
}

/// The assembled bus the CPU core reads and writes through.
pub struct Peripherals {
    pub bootrom: Bootrom,
    pub wram: WRam,
    pub hram: HRam,
}

impl View for Peripherals {
    type V = BusView;

    open spec fn view(&self) -> BusView {
        BusView {
            boot: self.bootrom.rom@,
            boot_active: self.bootrom.active,
            wram: self.wram.buf@,
            hram: self.hram.buf@,
        }
    }
}

impl Peripherals {
    pub open spec fn wf(self) -> bool {
        self@.wf()
    }

    pub fn new(bootrom: Bootrom) -> (r: Self)
        requires
            bootrom.rom@.len() >= 0x100,
        ensures
            r.wf(),
            r@ == (BusView {
                boot: bootrom.rom@,
                boot_active: bootrom.active,
                wram: r@.wram,
                hram: r@.hram,
            }),
            forall|i: int| 0 <= i < 0x2000 ==> r@.wram[i] == 0xff,
            forall|i: int| 0 <= i < 0x80 ==> r@.hram[i] == 0xff,
    {
        Peripherals { bootrom, wram: WRam::new(), hram: HRam::new() }
    }

    pub fn read(&self, addr: u16) -> (r: u8)
        requires
            self.wf(),
        ensures
            r == self@.read_at(addr),
    {
        if addr < 0x100 {
            if self.bootrom.is_active() {
                self.bootrom.read(addr)
            } else {
                0xff
            }
        } else if 0xc000 <= addr && addr <= 0xfdff {
            self.wram.read(addr)
        } else if 0xff80 <= addr && addr <= 0xfffe {
            self.hram.read(addr)
        } else {
            0xff
        }
    }

    pub fn write(&mut self, addr: u16, val: u8)
        requires
            old(self).wf(),
        ensures
            final(self).wf(),
            final(self)@ == old(self)@.write_at(addr, val),
    {
        if 0xc000 <= addr && addr <= 0xfdff {
            self.wram.write(addr, val);
        } else if addr == 0xff50 {
            self.bootrom.write(addr, val);
        } else if 0xff80 <= addr && addr <= 0xfffe {
            self.hram.write(addr, val);
        }
        proof {
            assert(self@ =~= old(self)@.write_at(addr, val));
        }
    }
}

} // verus!
