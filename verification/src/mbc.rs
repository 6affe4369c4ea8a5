//! Cartridge mappers.
//!
//! Reads and writes in 0x0000..=0x7FFF and external-RAM offsets are routed
//! through a bank-switch model: a tagged variant over no mapper, MBC1
//! (5-bit ROM bank, 2-bit RAM/upper-ROM bank, 1-bit mode) and MBC5 (9-bit
//! ROM bank, 4-bit RAM bank).  Battery-backed external RAM is exposed as a
//! flat byte image in bank order.

use vstd::prelude::*;

use crate::rom::Rom;
use crate::rom::RomError;

verus! {

/// Loading saved external RAM failed; nothing was changed.
#[derive(Clone, Copy, Debug, PartialEq, Eq, Structural)]
pub enum SaveError {
    /// The blob's length differs from the cartridge's declared RAM size.
    SizeMismatch,
}

pub struct NoMbc {
    pub mbc_type: u8,
    pub rom: Rom,
}

pub struct Mbc1 {
    pub mbc_type: u8,
    pub rom: Rom,
    /// ROM size code from the header (0..=8).
    pub rom_size: u8,
    /// RAM size code from the header (0..=5).
    pub ram_size: u8,
    pub is_external_ram_enable: bool,
    /// 5-bit ROM bank register; a write of 0 is stored as 1.
    pub rom_bank_number: u8,
    /// 2-bit RAM bank / upper ROM bank register.
    pub ram_bank_number: u8,
    /// Banking mode bit: 0 simple, 1 advanced.
    pub mode_flag: bool,
    pub ram: [u8; 32768],
}

pub struct Mbc5 {
    pub mbc_type: u8,
    pub rom: Rom,
    pub is_external_ram_enable: bool,
    pub rom_bank_number_low: u8,
    pub rom_bank_number_high: bool,
    /// 4-bit RAM bank register.
    pub ram_bank_number: u8,
    pub ram: [u8; 131072],
}

/// The mapper a cartridge-type byte selects.
pub enum MbcState {
    NoMbc(NoMbc),
    Mbc1(Mbc1),
    Mbc5(Mbc5),
}

impl NoMbc {
    pub open spec fn wf(self) -> bool {
        self.rom.wf()
    }

    pub open spec fn spec_read_rom(self, address: u16) -> u8 {
        self.rom.data@[address as int]
    }

    /// Plain ROM: the address indexes the image directly.
    pub fn read_rom(&self, address: u16) -> (r: u8)
        requires
            self.wf(),
            address < 0x8000,
        ensures
            r == self.spec_read_rom(address),
    {
        self.rom.data[address as usize]
    }
}

impl Mbc1 {
    pub open spec fn wf(self) -> bool {
        &&& self.rom.wf()
        &&& self.rom.ram_size <= 32768
        &&& 1 <= self.rom_bank_number < 32
        &&& self.ram_bank_number < 4
    }

    /// Number of 16 KiB ROM banks of the image (a power of two, 2..=512).
    pub open spec fn spec_n_banks(self) -> int {
        self.rom.data@.len() as int / 0x4000
    }

    /// The bank mapped at 0x0000..=0x3FFF: 0 in simple mode or for small
    /// ROMs, the upper bank bits shifted in otherwise, masked by the size.
    pub open spec fn spec_zero_bank(self) -> int {
        if self.mode_flag && self.rom.rom_size >= 0x100000 {
            (self.ram_bank_number * 32) % self.spec_n_banks()
        } else {
            0
        }
    }

    /// The bank mapped at 0x4000..=0x7FFF: upper bits next to the 5-bit
    /// bank register, masked by the size.
    pub open spec fn spec_high_bank(self) -> int {
        (self.ram_bank_number * 32 + self.rom_bank_number) % self.spec_n_banks()
    }

    pub open spec fn spec_read_rom(self, address: u16) -> u8 {
        if address < 0x4000 {
            self.rom.data@[self.spec_zero_bank() * 0x4000 + address]
        } else {
            self.rom.data@[self.spec_high_bank() * 0x4000 + (address - 0x4000)]
        }
    }

    /// The flat external-RAM offset an access at RAM offset `address` hits:
    /// banked by the 2-bit register only in advanced mode with 32 KiB RAM.
    pub open spec fn spec_ram_offset(self, address: u16) -> int {
        if self.mode_flag && self.rom.ram_size >= 32768 {
            self.ram_bank_number * 0x2000 + address
        } else {
            address as int
        }
    }

    /// What a RAM read at offset `address` returns: 0xFF with RAM disabled
    /// or beyond the declared size, the stored byte otherwise.
    pub open spec fn spec_read_ram(self, address: u16) -> u8 {
        if self.is_external_ram_enable && self.spec_ram_offset(address) < self.rom.ram_size {
            self.ram@[self.spec_ram_offset(address)]
        } else {
            0xFF
        }
    }

    proof fn lemma_bank_in_bounds(self, bank: int)
        requires
            self.wf(),
            0 <= bank < self.spec_n_banks(),
        ensures
            bank * 0x4000 + 0x4000 <= self.rom.data@.len(),
    {
        assert(bank * 0x4000 + 0x4000 <= self.spec_n_banks() * 0x4000) by (nonlinear_arith)
            requires
                bank < self.spec_n_banks(),
        ;
        assert(self.spec_n_banks() * 0x4000 <= self.rom.data@.len());
    }

    /// Banked ROM read per the MBC1 rules of the mapper model.
    pub fn read_rom(&self, address: u16) -> (r: u8)
        requires
            self.wf(),
            address < 0x8000,
        ensures
            r == self.spec_read_rom(address),
    {
        let n_banks: usize = self.rom.data.len() / 0x4000;
        if address < 0x4000 {
            let zero_bank: usize = if self.mode_flag && self.rom.rom_size >= 0x100000 {
                (self.ram_bank_number as usize * 32) % n_banks
            } else {
                0
            };
            proof {
                self.lemma_bank_in_bounds(self.spec_zero_bank());
            }
            self.rom.data[zero_bank * 0x4000 + address as usize]
        } else {
            let high_bank: usize =
                (self.ram_bank_number as usize * 32 + self.rom_bank_number as usize) % n_banks;
            proof {
                self.lemma_bank_in_bounds(self.spec_high_bank());
            }
            self.rom.data[high_bank * 0x4000 + (address as usize - 0x4000)]
        }
    }

    /// External RAM read at offset `address` below 0x2000.
    pub fn read_ram(&self, address: u16) -> (r: u8)
        requires
            self.wf(),
            address < 0x2000,
        ensures
            r == self.spec_read_ram(address),
    {
        if !self.is_external_ram_enable {
            return 0xFF;
        }
        let offset: usize = if self.mode_flag && self.rom.ram_size >= 32768 {
            self.ram_bank_number as usize * 0x2000 + address as usize
        } else {
            address as usize
        };
        if offset < self.rom.ram_size {
            self.ram[offset]
        } else {
            0xFF
        }
    }

    /// External RAM write at offset `address`: stored only with RAM enabled
    /// and inside the declared size, dropped otherwise.
    pub fn write_ram(&mut self, address: u16, data: u8)
        requires
            old(self).wf(),
            address < 0x2000,
        ensures
            final(self).wf(),
            ({
                let offset = old(self).spec_ram_offset(address);
                if old(self).is_external_ram_enable && offset < old(self).rom.ram_size {
                    *final(self) == (Mbc1 {
                        ram: final(self).ram,
                        ..*old(self)
                    }) && final(self).ram@ == old(self).ram@.update(offset, data)
                } else {
                    *final(self) == *old(self)
                }
            }),
    {
        if !self.is_external_ram_enable {
            return;
        }
        let offset: usize = if self.mode_flag && self.rom.ram_size >= 32768 {
            self.ram_bank_number as usize * 0x2000 + address as usize
        } else {
            address as usize
        };
        if offset < self.rom.ram_size {
            self.ram[offset] = data;
        }
    }

    /// The MBC1 state after a register write at `address`:
    /// 0x0000..=0x1FFF latches RAM enable on low nibble 0xA,
    /// 0x2000..=0x3FFF sets the 5-bit ROM bank (0 becomes 1),
    /// 0x4000..=0x5FFF sets the 2-bit RAM bank,
    /// 0x6000..=0x7FFF sets the mode bit.
    pub open spec fn spec_write_registers(self, address: u16, data: u8) -> Mbc1 {
        if address < 0x2000 {
            Mbc1 { is_external_ram_enable: data % 16 == 0x0A, ..self }
        } else if address < 0x4000 {
            Mbc1 {
                rom_bank_number: if data % 32 == 0 {
                    1
                } else {
                    (data % 32) as u8
                },
                ..self
            }
        } else if address < 0x6000 {
            Mbc1 { ram_bank_number: (data % 4) as u8, ..self }
        } else {
            Mbc1 { mode_flag: data % 2 == 1, ..self }
        }
    }

    pub fn write_registers(&mut self, address: u16, data: u8)
        requires
            old(self).wf(),
            address < 0x8000,
        ensures
            final(self).wf(),
            *final(self) == old(self).spec_write_registers(address, data),
    {
        if address < 0x2000 {
            self.is_external_ram_enable = data % 16 == 0x0A;
        } else if address < 0x4000 {
            let low = data % 32;
            self.rom_bank_number = if low == 0 {
                1
            } else {
                low
            };
        } else if address < 0x6000 {
            self.ram_bank_number = data % 4;
        } else {
            self.mode_flag = data % 2 == 1;
        }
    }
}

impl Mbc5 {
    pub open spec fn wf(self) -> bool {
        &&& self.rom.wf()
        &&& self.ram_bank_number < 16
    }

    pub open spec fn spec_n_banks(self) -> int {
        self.rom.data@.len() as int / 0x4000
    }

    /// The 9-bit ROM bank register, masked by the image's bank count;
    /// unlike MBC1 it may select bank 0.
    pub open spec fn spec_high_bank(self) -> int {
        (self.rom_bank_number_low + if self.rom_bank_number_high {
            256int
        } else {
            0int
        }) % self.spec_n_banks()
    }

    pub open spec fn spec_read_rom(self, address: u16) -> u8 {
        if address < 0x4000 {
            self.rom.data@[address as int]
        } else {
            self.rom.data@[self.spec_high_bank() * 0x4000 + (address - 0x4000)]
        }
    }

    pub open spec fn spec_ram_offset(self, address: u16) -> int {
        self.ram_bank_number * 0x2000 + address
    }

    pub open spec fn spec_read_ram(self, address: u16) -> u8 {
        if self.is_external_ram_enable && self.spec_ram_offset(address) < self.rom.ram_size {
            self.ram@[self.spec_ram_offset(address)]
        } else {
            0xFF
        }
    }

    proof fn lemma_bank_in_bounds(self, bank: int)
        requires
            self.wf(),
            0 <= bank < self.spec_n_banks(),
        ensures
            bank * 0x4000 + 0x4000 <= self.rom.data@.len(),
    {
        assert(bank * 0x4000 + 0x4000 <= self.spec_n_banks() * 0x4000) by (nonlinear_arith)
            requires
                bank < self.spec_n_banks(),
        ;
        assert(self.spec_n_banks() * 0x4000 <= self.rom.data@.len());
    }

    pub fn read_rom(&self, address: u16) -> (r: u8)
        requires
            self.wf(),
            address < 0x8000,
        ensures
            r == self.spec_read_rom(address),
    {
        if address < 0x4000 {
            self.rom.data[address as usize]
        } else {
            let n_banks: usize = self.rom.data.len() / 0x4000;
            let raw_bank: usize = self.rom_bank_number_low as usize + if self.rom_bank_number_high {
                256
            } else {
                0
            };
            let bank = raw_bank % n_banks;
            proof {
                self.lemma_bank_in_bounds(self.spec_high_bank());
            }
            self.rom.data[bank * 0x4000 + (address as usize - 0x4000)]
        }
    }

    pub fn read_ram(&self, address: u16) -> (r: u8)
        requires
            self.wf(),
            address < 0x2000,
        ensures
            r == self.spec_read_ram(address),
    {
        if !self.is_external_ram_enable {
            return 0xFF;
        }
        let offset: usize = self.ram_bank_number as usize * 0x2000 + address as usize;
        if offset < self.rom.ram_size {
            self.ram[offset]
        } else {
            0xFF
        }
    }

    pub fn write_ram(&mut self, address: u16, data: u8)
        requires
            old(self).wf(),
            address < 0x2000,
        ensures
            final(self).wf(),
            ({
                let offset = old(self).spec_ram_offset(address);
                if old(self).is_external_ram_enable && offset < old(self).rom.ram_size {
                    *final(self) == (Mbc5 {
                        ram: final(self).ram,
                        ..*old(self)
                    }) && final(self).ram@ == old(self).ram@.update(offset, data)
                } else {
                    *final(self) == *old(self)
                }
            }),
    {
        if !self.is_external_ram_enable {
            return;
        }
        let offset: usize = self.ram_bank_number as usize * 0x2000 + address as usize;
        if offset < self.rom.ram_size {
            self.ram[offset] = data;
        }
    }

    /// The MBC5 state after a register write:
    /// 0x0000..=0x1FFF latches RAM enable on low nibble 0xA,
    /// 0x2000..=0x2FFF sets the low 8 ROM bank bits,
    /// 0x3000..=0x3FFF sets the 9th ROM bank bit,
    /// 0x4000..=0x5FFF sets the 4-bit RAM bank; the rest is ignored.
    pub open spec fn spec_write_registers(self, address: u16, data: u8) -> Mbc5 {
        if address < 0x2000 {
            Mbc5 { is_external_ram_enable: data % 16 == 0x0A, ..self }
        } else if address < 0x3000 {
            Mbc5 { rom_bank_number_low: data, ..self }
        } else if address < 0x4000 {
            Mbc5 { rom_bank_number_high: data % 2 == 1, ..self }
        } else if address < 0x6000 {
            Mbc5 { ram_bank_number: (data % 16) as u8, ..self }
        } else {
            self
        }
    }

    pub fn write_registers(&mut self, address: u16, data: u8)
        requires
            old(self).wf(),
            address < 0x8000,
        ensures
            final(self).wf(),
            *final(self) == old(self).spec_write_registers(address, data),
    {
        if address < 0x2000 {
            self.is_external_ram_enable = data % 16 == 0x0A;
        } else if address < 0x3000 {
            self.rom_bank_number_low = data;
        } else if address < 0x4000 {
            self.rom_bank_number_high = data % 2 == 1;
        } else if address < 0x6000 {
            self.ram_bank_number = data % 16;
        }
    }
}

impl MbcState {
    pub open spec fn wf(self) -> bool {
        match self {
            MbcState::NoMbc(m) => m.wf(),
            MbcState::Mbc1(m) => m.wf(),
            MbcState::Mbc5(m) => m.wf(),
        }
    }

    pub open spec fn spec_rom(self) -> Rom {
        match self {
            MbcState::NoMbc(m) => m.rom,
            MbcState::Mbc1(m) => m.rom,
            MbcState::Mbc5(m) => m.rom,
        }
    }

    pub open spec fn spec_read_rom(self, address: u16) -> u8 {
        match self {
            MbcState::NoMbc(m) => m.spec_read_rom(address),
            MbcState::Mbc1(m) => m.spec_read_rom(address),
            MbcState::Mbc5(m) => m.spec_read_rom(address),
        }
    }

    /// External RAM is absent without a mapper: reads return 0xFF.
    pub open spec fn spec_read_ram(self, address: u16) -> u8 {
        match self {
            MbcState::NoMbc(_) => 0xFF,
            MbcState::Mbc1(m) => m.spec_read_ram(address),
            MbcState::Mbc5(m) => m.spec_read_ram(address),
        }
    }

    /// The view of the whole external RAM backing store.
    pub open spec fn spec_ram(self) -> Seq<u8> {
        match self {
            MbcState::NoMbc(_) => Seq::empty(),
            MbcState::Mbc1(m) => m.ram@,
            MbcState::Mbc5(m) => m.ram@,
        }
    }

    /// Whether two mapper states agree on everything but the RAM contents.
    pub open spec fn same_except_ram(self, other: MbcState) -> bool {
        match (self, other) {
            (MbcState::NoMbc(a), MbcState::NoMbc(b)) => a == b,
            (MbcState::Mbc1(a), MbcState::Mbc1(b)) => b == (Mbc1 { ram: b.ram, ..a }),
            (MbcState::Mbc5(a), MbcState::Mbc5(b)) => b == (Mbc5 { ram: b.ram, ..a }),
            _ => false,
        }
    }

    /// Whether a RAM access at offset `address` lands in enabled, present
    /// RAM, and the flat offset it then hits.
    pub open spec fn spec_ram_hit(self, address: u16) -> Option<int> {
        match self {
            MbcState::NoMbc(_) => None,
            MbcState::Mbc1(m) => if m.is_external_ram_enable && m.spec_ram_offset(address)
                < m.rom.ram_size {
                Some(m.spec_ram_offset(address))
            } else {
                None
            },
            MbcState::Mbc5(m) => if m.is_external_ram_enable && m.spec_ram_offset(address)
                < m.rom.ram_size {
                Some(m.spec_ram_offset(address))
            } else {
                None
            },
        }
    }

    pub open spec fn spec_write_registers(self, address: u16, data: u8) -> MbcState {
        match self {
            MbcState::NoMbc(m) => MbcState::NoMbc(m),
            MbcState::Mbc1(m) => MbcState::Mbc1(m.spec_write_registers(address, data)),
            MbcState::Mbc5(m) => MbcState::Mbc5(m.spec_write_registers(address, data)),
        }
    }

    pub fn read_rom(&self, address: u16) -> (r: u8)
        requires
            self.wf(),
            address < 0x8000,
        ensures
            r == self.spec_read_rom(address),
    {
        match self {
            MbcState::NoMbc(m) => m.read_rom(address),
            MbcState::Mbc1(m) => m.read_rom(address),
            MbcState::Mbc5(m) => m.read_rom(address),
        }
    }

    pub fn read_ram(&self, address: u16) -> (r: u8)
        requires
            self.wf(),
            address < 0x2000,
        ensures
            r == self.spec_read_ram(address),
    {
        match self {
            MbcState::NoMbc(_) => 0xFF,
            MbcState::Mbc1(m) => m.read_ram(address),
            MbcState::Mbc5(m) => m.read_ram(address),
        }
    }

    pub fn write_ram(&mut self, address: u16, data: u8)
        requires
            old(self).wf(),
            address < 0x2000,
        ensures
            final(self).wf(),
            old(self).same_except_ram(*final(self)),
            final(self).spec_ram() == match old(self).spec_ram_hit(address) {
                Some(offset) => old(self).spec_ram().update(offset, data),
                None => old(self).spec_ram(),
            },
    {
        match self {
            MbcState::NoMbc(_) => {},
            MbcState::Mbc1(m) => m.write_ram(address, data),
            MbcState::Mbc5(m) => m.write_ram(address, data),
        }
    }

    pub fn write_registers(&mut self, address: u16, data: u8)
        requires
            old(self).wf(),
            address < 0x8000,
        ensures
            final(self).wf(),
            *final(self) == old(self).spec_write_registers(address, data),
    {
        match self {
            MbcState::NoMbc(_) => {},
            MbcState::Mbc1(m) => m.write_registers(address, data),
            MbcState::Mbc5(m) => m.write_registers(address, data),
        }
    }

    /// Whether the cartridge-type byte declares battery backing, so the
    /// external RAM is worth persisting.
    pub open spec fn spec_has_battery(self) -> bool {
        let t = match self {
            MbcState::NoMbc(m) => m.mbc_type,
            MbcState::Mbc1(m) => m.mbc_type,
            MbcState::Mbc5(m) => m.mbc_type,
        };
        t == 0x03 || t == 0x1B || t == 0x1E
    }

    pub fn has_battery(&self) -> (r: bool)
        ensures
            r == self.spec_has_battery(),
    {
        let t = match self {
            MbcState::NoMbc(m) => m.mbc_type,
            MbcState::Mbc1(m) => m.mbc_type,
            MbcState::Mbc5(m) => m.mbc_type,
        };
        t == 0x03 || t == 0x1B || t == 0x1E
    }

    /// The flat byte image of the external RAM, in bank order, cut to the
    /// declared RAM size.
    pub open spec fn spec_ram_image(self) -> Seq<u8> {
        match self {
            MbcState::NoMbc(_) => Seq::empty(),
            MbcState::Mbc1(m) => m.ram@.subrange(0, m.rom.ram_size as int),
            MbcState::Mbc5(m) => m.ram@.subrange(0, m.rom.ram_size as int),
        }
    }

    /// Serialize the external RAM as a flat byte image for the host to
    /// persist.
    pub fn save_ram(&self) -> (r: Vec<u8>)
        requires
            self.wf(),
        ensures
            r@ == self.spec_ram_image(),
    {
        let mut out: Vec<u8> = Vec::new();
        match self {
            MbcState::NoMbc(_) => {},
            MbcState::Mbc1(m) => {
                let n = m.rom.ram_size;
                let mut i: usize = 0;
                while i < n
                    invariant
                        i <= n,
                        n <= 32768,
                        out@ == m.ram@.subrange(0, i as int),
                    decreases n - i,
                {
                    out.push(m.ram[i]);
                    proof {
                        assert(out@ =~= m.ram@.subrange(0, i + 1));
                    }
                    i = i + 1;
                }
            },
            MbcState::Mbc5(m) => {
                let n = m.rom.ram_size;
                let mut i: usize = 0;
                while i < n
                    invariant
                        i <= n,
                        n <= 131072,
                        out@ == m.ram@.subrange(0, i as int),
                    decreases n - i,
                {
                    out.push(m.ram[i]);
                    proof {
                        assert(out@ =~= m.ram@.subrange(0, i + 1));
                    }
                    i = i + 1;
                }
            },
        }
        out
    }

    /// Restore the external RAM from a flat byte image.  Fails, changing
    /// nothing, exactly when the image's length differs from the declared
    /// RAM size; on success the image becomes the first `ram_size` bytes of
    /// the RAM and the rest is untouched.
    pub fn load_ram(&mut self, bytes: &Vec<u8>) -> (r: Result<(), SaveError>)
        requires
            old(self).wf(),
        ensures
            final(self).wf(),
            r is Ok <==> bytes@.len() == old(self).spec_ram_image().len(),
            r is Err ==> *final(self) == *old(self) && r->Err_0 == SaveError::SizeMismatch,
            old(self).same_except_ram(*final(self)),
            r is Ok ==> final(self).spec_ram_image() == bytes@,
    {
        let n = self.declared_ram_size();
        if bytes.len() != n {
            return Err(SaveError::SizeMismatch);
        }
        match self {
            MbcState::NoMbc(_) => {
                proof {
                    assert(bytes@ =~= Seq::<u8>::empty());
                }
            },
            MbcState::Mbc1(m) => {
                let ghost m0 = *m;
                let mut i: usize = 0;
                while i < n
                    invariant
                        i <= n,
                        *m == (Mbc1 { ram: m.ram, ..m0 }),
                        n == m.rom.ram_size,
                        n <= 32768,
                        bytes@.len() == n,
                        forall|k: int| 0 <= k < i ==> m.ram@[k] == bytes@[k],
                    decreases n - i,
                {
                    m.ram[i] = bytes[i];
                    i = i + 1;
                }
                proof {
                    assert(m.ram@.subrange(0, n as int) =~= bytes@);
                }
            },
            MbcState::Mbc5(m) => {
                let ghost m0 = *m;
                let mut i: usize = 0;
                while i < n
                    invariant
                        i <= n,
                        *m == (Mbc5 { ram: m.ram, ..m0 }),
                        n == m.rom.ram_size,
                        n <= 131072,
                        bytes@.len() == n,
                        forall|k: int| 0 <= k < i ==> m.ram@[k] == bytes@[k],
                    decreases n - i,
                {
                    m.ram[i] = bytes[i];
                    i = i + 1;
                }
                proof {
                    assert(m.ram@.subrange(0, n as int) =~= bytes@);
                }
            },
        }
        Ok(())
    }

    /// The cartridge's declared external RAM size in bytes (0 without a
    /// mapper).
    pub fn declared_ram_size(&self) -> (r: usize)
        requires
            self.wf(),
        ensures
            r == self.spec_ram_image().len(),
    {
        match self {
            MbcState::NoMbc(_) => 0,
            MbcState::Mbc1(m) => m.rom.ram_size,
            MbcState::Mbc5(m) => m.rom.ram_size,
        }
    }
}

/// Pick the mapper the cartridge-type byte asks for.  Types 0x00 map
/// straight ROM, 0x01..=0x03 MBC1 (which addresses at most 32 KiB of RAM),
/// 0x19..=0x1E MBC5; anything else is rejected as unsupported.
pub fn make_mbc(rom: Rom) -> (r: Result<MbcState, RomError>)
    requires
        rom.wf(),
    ensures
        r is Ok <==> (rom.cartridge_type == 0x00 || ((rom.cartridge_type == 0x01
            || rom.cartridge_type == 0x02 || rom.cartridge_type == 0x03)
            && rom.ram_size <= 32768) || (0x19 <= rom.cartridge_type <= 0x1E)),
        r is Err ==> r->Err_0 == RomError::UnsupportedCartridgeType,
        r is Ok ==> r->Ok_0.wf() && r->Ok_0.spec_rom() == rom,
        r is Ok ==> match r->Ok_0 {
            MbcState::NoMbc(_) => rom.cartridge_type == 0x00,
            MbcState::Mbc1(_) => rom.cartridge_type == 0x01 || rom.cartridge_type == 0x02
                || rom.cartridge_type == 0x03,
            MbcState::Mbc5(_) => 0x19 <= rom.cartridge_type <= 0x1E,
        },
        r is Ok ==> r->Ok_0.spec_ram_image() == Seq::new(
            match r->Ok_0 {
                MbcState::NoMbc(_) => 0int,
                _ => rom.ram_size as int,
            } as nat,
            |i: int| 0u8,
        ),
{
    let t = rom.cartridge_type;
    if t == 0x00 {
        let m = MbcState::NoMbc(NoMbc { mbc_type: t, rom });
        proof {
            assert(m.spec_ram_image() =~= Seq::new(0nat, |i: int| 0u8));
        }
        Ok(m)
    } else if (t == 0x01 || t == 0x02 || t == 0x03) && rom.ram_size <= 32768 {
        let m = MbcState::Mbc1(Mbc1 {
            mbc_type: t,
            rom,
            rom_size: 0,
            ram_size: 0,
            is_external_ram_enable: false,
            rom_bank_number: 1,
            ram_bank_number: 0,
            mode_flag: false,
            ram: [0u8; 32768],
        });
        proof {
            assert(m.spec_ram_image() =~= Seq::new(m.spec_rom().ram_size as nat, |i: int| 0u8));
        }
        Ok(m)
    } else if 0x19 <= t && t <= 0x1E {
        let m = MbcState::Mbc5(Mbc5 {
            mbc_type: t,
            rom,
            is_external_ram_enable: false,
            rom_bank_number_low: 0,
            rom_bank_number_high: false,
            ram_bank_number: 0,
            ram: [0u8; 131072],
        });
        proof {
            assert(m.spec_ram_image() =~= Seq::new(m.spec_rom().ram_size as nat, |i: int| 0u8));
        }
        Ok(m)
    } else {
        Err(RomError::UnsupportedCartridgeType)
    }
}

/// Simple-mode MBC1 bank selection: with mode 0, a write of `n` to the ROM
/// bank register maps ROM offset `(n % 32) * 0x4000` at 0x4000 when that
/// bank exists on the cartridge, and bank 1 when `n % 32 == 0`.  Banks past
/// the cartridge's size are excluded: the register is masked by the bank
/// count, so such a write selects `bank % n_banks` instead.
pub proof fn lemma_mbc1_simple_mode_bank_select(m: Mbc1, n: u8, address: u16)
    requires
        m.wf(),
        !m.mode_flag,
        m.rom.rom_size <= 0x80000,
        0x4000 <= address < 0x8000,
        ({
            let bank = if n % 32 == 0 {
                1int
            } else {
                (n % 32) as int
            };
            bank < m.spec_n_banks()
        }),
    ensures
        ({
            let m2 = m.spec_write_registers(0x2000, n);
            let bank = if n % 32 == 0 {
                1int
            } else {
                (n % 32) as int
            };
            m2.spec_read_rom(address) == m.rom.data@[bank * 0x4000 + (address - 0x4000)]
        }),
{
    let m2 = m.spec_write_registers(0x2000, n);
    let bank = if n % 32 == 0 {
        1int
    } else {
        (n % 32) as int
    };
    let nb = m.spec_n_banks();
    assert(m2.rom_bank_number == bank);
    assert(nb == 2 || nb == 4 || nb == 8 || nb == 16 || nb == 32);
    assert(m2.ram_bank_number * 32 % nb == 0) by (nonlinear_arith)
        requires
            m2.ram_bank_number < 4,
            nb == 2 || nb == 4 || nb == 8 || nb == 16 || nb == 32,
    ;
    assert((m2.ram_bank_number * 32 + bank) % nb == bank) by (nonlinear_arith)
        requires
            0 <= bank < nb,
            m2.ram_bank_number * 32 % nb == 0,
            m2.ram_bank_number < 4,
            nb == 2 || nb == 4 || nb == 8 || nb == 16 || nb == 32,
    ;
}

} // verus!
