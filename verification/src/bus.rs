//! Memory bus.
//!
//! Maps the 16-bit address space onto the cartridge mapper, VRAM, work RAM
//! (echoed at 0xE000), OAM, the I/O registers of the joypad, timer, sound
//! unit and pixel unit, HRAM, and the interrupt flag/enable registers.
//! Reads and writes are total: unused regions read 0 (0xFEA0..=0xFEFF) or
//! 0xFF (unused I/O), and writes to them are dropped.  A write to 0xFF46
//! performs the OAM DMA copy of 160 bytes at once.

use vstd::prelude::*;

use crate::joypad::Joypad;
use crate::mbc::MbcState;
use crate::mbc::make_mbc;
use crate::ppu::OAM;
use crate::ppu::Ppu;
use crate::rom::Rom;
use crate::rom::RomError;
use crate::sound::Sound;
use crate::timer::Timer;

verus! {

pub struct Bus {
    pub ram: [u8; 8192],
    pub hram: [u8; 127],
    pub ppu: Ppu,
    pub mbc: MbcState,
    /// Last value written to the DMA trigger register.
    pub dma: u8,
    pub timer: Timer,
    pub joypad: Joypad,
    pub sound: Sound,
    /// Interrupt enable register (0xFFFF).
    pub ie_flag: u8,
    /// Interrupt flag register (0xFF0F).
    pub int_flag: u8,
}

impl Bus {
    pub open spec fn wf(self) -> bool {
        &&& self.ppu.wf()
        &&& self.mbc.wf()
        &&& self.timer.wf()
        &&& self.sound.wf()
    }

    /// What a read returns for every address: the fixed address decode of
    /// the machine.
    pub open spec fn spec_read(self, address: u16) -> u8 {
        if address < 0x8000 {
            self.mbc.spec_read_rom(address)
        } else if address < 0xA000 {
            self.ppu.vram@[address - 0x8000]
        } else if address < 0xC000 {
            self.mbc.spec_read_ram((address - 0xA000) as u16)
        } else if address < 0xE000 {
            self.ram@[address - 0xC000]
        } else if address < 0xFE00 {
            self.ram@[address - 0xE000]
        } else if address < 0xFEA0 {
            self.ppu.oam@[(address - 0xFE00) as int / 4].spec_get((address - 0xFE00) as u16)
        } else if address < 0xFF00 {
            0
        } else if address == 0xFF00 {
            self.joypad.spec_read()
        } else if address == 0xFF04 {
            (self.timer.current_cycle / 256) as u8
        } else if address == 0xFF05 {
            self.timer.tima
        } else if address == 0xFF06 {
            self.timer.tma
        } else if address == 0xFF07 {
            self.timer.tac
        } else if address == 0xFF0F {
            self.int_flag
        } else if 0xFF10 <= address <= 0xFF3F {
            self.sound.spec_read(address)
        } else if address == 0xFF40 {
            self.ppu.lcd_control
        } else if address == 0xFF41 {
            self.ppu.spec_stat_read()
        } else if address == 0xFF42 {
            self.ppu.scy
        } else if address == 0xFF43 {
            self.ppu.scx
        } else if address == 0xFF44 {
            self.ppu.ly
        } else if address == 0xFF45 {
            self.ppu.lyc
        } else if address == 0xFF46 {
            self.dma
        } else if address == 0xFF47 {
            self.ppu.bgp
        } else if address == 0xFF48 || address == 0xFF49 {
            self.ppu.obp@[address - 0xFF48]
        } else if address == 0xFF4A {
            self.ppu.wy
        } else if address == 0xFF4B {
            self.ppu.wx
        } else if address < 0xFF80 {
            0xFF
        } else if address < 0xFFFF {
            self.hram@[address - 0xFF80]
        } else {
            self.ie_flag
        }
    }

    /// Total read of the whole address space.
    pub fn read(&self, address: u16) -> (r: u8)
        requires
            self.wf(),
        ensures
            r == self.spec_read(address),
    {
        if address < 0x8000 {
            self.mbc.read_rom(address)
        } else if address < 0xA000 {
            self.ppu.read(address - 0x8000)
        } else if address < 0xC000 {
            self.mbc.read_ram(address - 0xA000)
        } else if address < 0xE000 {
            self.ram[(address - 0xC000) as usize]
        } else if address < 0xFE00 {
            self.ram[(address - 0xE000) as usize]
        } else if address < 0xFEA0 {
            self.ppu.read_OAM(address - 0xFE00)
        } else if address < 0xFF00 {
            0
        } else if address == 0xFF00 {
            self.joypad.read()
        } else if address == 0xFF04 {
            self.timer.read_div()
        } else if address == 0xFF05 {
            self.timer.read_tima()
        } else if address == 0xFF06 {
            self.timer.read_tma()
        } else if address == 0xFF07 {
            self.timer.read_tac()
        } else if address == 0xFF0F {
            self.int_flag
        } else if 0xFF10 <= address && address <= 0xFF3F {
            self.sound.read(address)
        } else if address == 0xFF40 {
            self.ppu.lcd_control_read()
        } else if address == 0xFF41 {
            self.ppu.read_lcd_stat()
        } else if address == 0xFF42 {
            self.ppu.scy_read()
        } else if address == 0xFF43 {
            self.ppu.scx_read()
        } else if address == 0xFF44 {
            self.ppu.ly_read()
        } else if address == 0xFF45 {
            self.ppu.lyc_read()
        } else if address == 0xFF46 {
            self.dma
        } else if address == 0xFF47 {
            self.ppu.bgp_read()
        } else if address == 0xFF48 || address == 0xFF49 {
            self.ppu.read_obp(address)
        } else if address == 0xFF4A {
            self.ppu.wy_read()
        } else if address == 0xFF4B {
            self.ppu.wx_read()
        } else if address < 0xFF80 {
            0xFF
        } else if address < 0xFFFF {
            self.hram[(address - 0xFF80) as usize]
        } else {
            self.ie_flag
        }
    }

    /// A 16-bit read: low byte at `address`, high byte right after it.
    pub fn read_16(&self, address: u16) -> (r: u16)
        requires
            self.wf(),
            address < 0xFFFF,
        ensures
            r == self.spec_read((address + 1) as u16) * 256 + self.spec_read(address),
    {
        let low = self.read(address);
        let high = self.read(address + 1);
        (high as u16) * 256 + low as u16
    }

    /// Everything a write can leave untouched, relative to `other`: the two
    /// states agree except possibly at the named subsystem.  Spelled as one
    /// relation per target for the write contract below.
    pub open spec fn spec_write_effect(self, address: u16, data: u8, post: Bus) -> bool {
        if address < 0x8000 {
            post == Bus { mbc: self.mbc.spec_write_registers(address, data), ..self }
        } else if address < 0xA000 {
            &&& post == (Bus { ppu: post.ppu, ..self })
            &&& post.ppu == (Ppu { vram: post.ppu.vram, ..self.ppu })
            &&& post.ppu.vram@ == self.ppu.vram@.update(address - 0x8000, data)
        } else if address < 0xC000 {
            &&& post == (Bus { mbc: post.mbc, ..self })
            &&& self.mbc.same_except_ram(post.mbc)
            &&& post.mbc.spec_ram() == match self.mbc.spec_ram_hit((address - 0xA000) as u16) {
                Some(offset) => self.mbc.spec_ram().update(offset, data),
                None => self.mbc.spec_ram(),
            }
        } else if address < 0xE000 {
            &&& post == (Bus { ram: post.ram, ..self })
            &&& post.ram@ == self.ram@.update(address - 0xC000, data)
        } else if address < 0xFE00 {
            &&& post == (Bus { ram: post.ram, ..self })
            &&& post.ram@ == self.ram@.update(address - 0xE000, data)
        } else if address < 0xFEA0 {
            &&& post == (Bus { ppu: post.ppu, ..self })
            &&& post.ppu == (Ppu { oam: post.ppu.oam, ..self.ppu })
            &&& post.ppu.oam@ == self.ppu.oam@.update(
                (address - 0xFE00) as int / 4,
                self.ppu.oam@[(address - 0xFE00) as int / 4].spec_set(
                    (address - 0xFE00) as u16,
                    data,
                ),
            )
        } else if address < 0xFF00 {
            post == self
        } else if address == 0xFF00 {
            post == Bus { joypad: self.joypad.spec_write(data), ..self }
        } else if address == 0xFF04 {
            post == Bus { timer: Timer { current_cycle: 0, ..self.timer }, ..self }
        } else if address == 0xFF05 {
            post == Bus {
                timer: Timer {
                    tima: data,
                    is_overflowing: false,
                    after_overflow_cycle: 0,
                    ..self.timer
                },
                ..self
            }
        } else if address == 0xFF06 {
            post == Bus { timer: Timer { tma: data, ..self.timer }, ..self }
        } else if address == 0xFF07 {
            post == Bus {
                timer: Timer {
                    tac: data,
                    int_timer_enable: (Timer { tac: data, ..self.timer }).spec_enabled(),
                    clock_frequency_bit: Timer::freq_bit_of_tac(data),
                    ..self.timer
                },
                ..self
            }
        } else if address == 0xFF0F {
            post == Bus { int_flag: data, ..self }
        } else if 0xFF10 <= address <= 0xFF3F {
            &&& post == (Bus { sound: post.sound, ..self })
            &&& if Sound::spec_is_wave(address) {
                &&& post.sound == (Sound { ch3: post.sound.ch3, ..self.sound })
                &&& post.sound.ch3 == (crate::sound::Ch3 {
                    wave_pattern_ram: post.sound.ch3.wave_pattern_ram,
                    ..self.sound.ch3
                })
                &&& post.sound.ch3.wave_pattern_ram@ == self.sound.ch3.wave_pattern_ram@.update(
                    address - 0xFF30,
                    data,
                )
            } else {
                post.sound == self.sound.spec_write(address, data)
            }
        } else if address == 0xFF40 {
            post == Bus { ppu: Ppu { lcd_control: data, ..self.ppu }, ..self }
        } else if address == 0xFF41 {
            post == Bus { ppu: Ppu { lcd_stat_enable: data, ..self.ppu }, ..self }
        } else if address == 0xFF42 {
            post == Bus { ppu: Ppu { scy: data, ..self.ppu }, ..self }
        } else if address == 0xFF43 {
            post == Bus { ppu: Ppu { scx: data, ..self.ppu }, ..self }
        } else if address == 0xFF44 {
            post == self
        } else if address == 0xFF45 {
            post == Bus { ppu: Ppu { lyc: data, ..self.ppu }, ..self }
        } else if address == 0xFF46 {
            self.spec_dma_effect(data, post)
        } else if address == 0xFF47 {
            post == Bus { ppu: Ppu { bgp: data, ..self.ppu }, ..self }
        } else if address == 0xFF48 || address == 0xFF49 {
            &&& post == (Bus { ppu: post.ppu, ..self })
            &&& post.ppu == (Ppu { obp: post.ppu.obp, ..self.ppu })
            &&& post.ppu.obp@ == self.ppu.obp@.update(address - 0xFF48, data)
        } else if address == 0xFF4A {
            post == Bus { ppu: Ppu { wy: data, ..self.ppu }, ..self }
        } else if address == 0xFF4B {
            post == Bus { ppu: Ppu { wx: data, ..self.ppu }, ..self }
        } else if address < 0xFF80 {
            post == self
        } else if address < 0xFFFF {
            &&& post == (Bus { hram: post.hram, ..self })
            &&& post.hram@ == self.hram@.update(address - 0xFF80, data)
        } else {
            post == Bus { ie_flag: data, ..self }
        }
    }

    /// The OAM DMA: 160 bytes starting at `data << 8` are copied into OAM,
    /// and the trigger register keeps the written value.  Byte `i` of OAM
    /// becomes the bus byte at `data * 256 + i`, read before any of the
    /// copy's own writes.
    pub open spec fn spec_dma_effect(self, data: u8, post: Bus) -> bool {
        &&& post == (Bus { dma: data, ppu: post.ppu, ..self })
        &&& post.ppu == (Ppu { oam: post.ppu.oam, ..self.ppu })
        &&& forall|e: int|
            0 <= e < 40 ==> #[trigger] post.ppu.oam@[e] == (OAM {
                y_position: self.spec_read((data * 256 + 4 * e) as u16),
                x_position: self.spec_read((data * 256 + 4 * e + 1) as u16),
                tile_number: self.spec_read((data * 256 + 4 * e + 2) as u16),
                sprite_flags: self.spec_read((data * 256 + 4 * e + 3) as u16),
            })
    }

    /// Total write of the whole address space: one register, one byte of a
    /// memory, one mapper register, or the DMA copy, per the address
    /// decode; writes to unused regions are dropped.
    /// Total write of the whole address space: one register, one byte of a
    /// memory, one mapper register, or the DMA copy, per the address
    /// decode; writes to unused regions are dropped.
    pub fn write(&mut self, address: u16, data: u8)
        requires
            old(self).wf(),
        ensures
            final(self).wf(),
            old(self).spec_write_effect(address, data, *final(self)),
    {
        if address < 0xFF00 {
            self.write_below_io(address, data);
        } else {
            self.write_io(address, data);
        }
    }

    /// The memory half of the decode: cartridge, VRAM, external RAM, work
    /// RAM and its echo, OAM, and the unused gap before the registers.
    #[verifier::rlimit(100)]
    fn write_below_io(&mut self, address: u16, data: u8)
        requires
            old(self).wf(),
            address < 0xFF00,
        ensures
            final(self).wf(),
            old(self).spec_write_effect(address, data, *final(self)),
    {
        if address < 0x8000 {
            self.mbc.write_registers(address, data);
        } else if address < 0xA000 {
            self.ppu.write(address - 0x8000, data);
        } else if address < 0xC000 {
            self.mbc.write_ram(address - 0xA000, data);
        } else if address < 0xE000 {
            self.ram[(address - 0xC000) as usize] = data;
        } else if address < 0xFE00 {
            self.ram[(address - 0xE000) as usize] = data;
        } else if address < 0xFEA0 {
            self.ppu.write_OAM(address - 0xFE00, data);
        }
    }

    /// The register half of the decode: joypad, timer, interrupt flag,
    /// sound, pixel-unit registers, the DMA trigger, HRAM and the
    /// interrupt enable.
    #[verifier::rlimit(100)]
    fn write_io(&mut self, address: u16, data: u8)
        requires
            old(self).wf(),
            address >= 0xFF00,
        ensures
            final(self).wf(),
            old(self).spec_write_effect(address, data, *final(self)),
    {
        if address < 0xFF40 {
            self.write_io_low(address, data);
        } else {
            self.write_io_high(address, data);
        }
    }

    /// 0xFF00..=0xFF3F: joypad, timer, interrupt flag and sound registers.
    #[verifier::rlimit(100)]
    fn write_io_low(&mut self, address: u16, data: u8)
        requires
            old(self).wf(),
            0xFF00 <= address < 0xFF40,
        ensures
            final(self).wf(),
            old(self).spec_write_effect(address, data, *final(self)),
    {
        if address == 0xFF00 {
            self.joypad.write(data);
        } else if address == 0xFF04 {
            self.timer.write_div(data);
        } else if address == 0xFF05 {
            self.timer.write_tima(data);
        } else if address == 0xFF06 {
            self.timer.write_tma(data);
        } else if address == 0xFF07 {
            self.timer.write_tac(data);
        } else if address == 0xFF0F {
            self.int_flag = data;
        } else if 0xFF10 <= address && address <= 0xFF3F {
            self.sound.write(address, data);
        }
    }

    /// 0xFF40 and up: the pixel-unit registers, the DMA trigger, HRAM and
    /// the interrupt enable.
    #[verifier::rlimit(100)]
    fn write_io_high(&mut self, address: u16, data: u8)
        requires
            old(self).wf(),
            address >= 0xFF40,
        ensures
            final(self).wf(),
            old(self).spec_write_effect(address, data, *final(self)),
    {
        if address == 0xFF40 {
            self.ppu.lcd_control_write(data);
        } else if address == 0xFF41 {
            self.ppu.write_lcd_stat(data);
        } else if address == 0xFF42 {
            self.ppu.scy_write(data);
        } else if address == 0xFF43 {
            self.ppu.scx_write(data);
        } else if address == 0xFF44 {
            self.ppu.ly_write(data);
        } else if address == 0xFF45 {
            self.ppu.lyc_write(data);
        } else if address == 0xFF46 {
            self.excute_dma(data);
        } else if address == 0xFF47 {
            self.ppu.bgp_write(data);
        } else if address == 0xFF48 || address == 0xFF49 {
            self.ppu.write_obp(address, data);
        } else if address == 0xFF4A {
            self.ppu.wy_write(data);
        } else if address == 0xFF4B {
            self.ppu.wx_write(data);
        } else if address < 0xFF80 {
        } else if address < 0xFFFF {
            self.hram[(address - 0xFF80) as usize] = data;
        } else {
            self.ie_flag = data;
        }
    }

    /// A 16-bit write: low byte first, then the high byte one above.
    pub fn write_16(&mut self, address: u16, data: u16)
        requires
            old(self).wf(),
            address < 0xFFFF,
        ensures
            final(self).wf(),
            exists|mid: Bus|
                old(self).spec_write_effect(address, (data % 256) as u8, mid)
                    && #[trigger] mid.spec_write_effect(
                    (address + 1) as u16,
                    (data / 256) as u8,
                    *final(self),
                ),
    {
        let low: u8 = (data % 256) as u8;
        let high: u8 = (data / 256) as u8;
        let ghost pre = *self;
        self.write(address, low);
        let ghost mid = *self;
        self.write(address + 1, high);
        proof {
            assert(pre.spec_write_effect(address, low, mid) && mid.spec_write_effect(
                (address + 1) as u16,
                high,
                *self,
            ));
        }
    }

    /// The DMA copy behind a 0xFF46 write.
    fn excute_dma(&mut self, data: u8)
        requires
            old(self).wf(),
        ensures
            final(self).wf(),
            old(self).spec_dma_effect(data, *final(self)),
    {
        let source: u16 = data as u16 * 256;

        let mut staged = [0u8; 160];
        let mut i: usize = 0;
        while i < 160
            invariant
                i <= 160,
                self.wf(),
                *self == *old(self),
                source == data as u16 * 256,
                forall|k: int| 0 <= k < i ==> staged@[k] == old(self).spec_read((data * 256 + k) as u16),
            decreases 160 - i,
        {
            staged[i] = self.read(source + i as u16);
            i = i + 1;
        }
        self.dma = data;

        let mut new_oam = self.ppu.oam;
        let mut e: usize = 0;
        while e < 40
            invariant
                e <= 40,
                forall|k: int|
                    0 <= k < e ==> #[trigger] new_oam@[k] == (OAM {
                        y_position: staged@[4 * k],
                        x_position: staged@[4 * k + 1],
                        tile_number: staged@[4 * k + 2],
                        sprite_flags: staged@[4 * k + 3],
                    }),
            decreases 40 - e,
        {
            new_oam[e] = OAM {
                y_position: staged[4 * e],
                x_position: staged[4 * e + 1],
                tile_number: staged[4 * e + 2],
                sprite_flags: staged[4 * e + 3],
            };
            e = e + 1;
        }
        self.ppu.oam = new_oam;
    }

    /// Build the machine's bus from a cartridge image: decode the header,
    /// pick the mapper, and put every device in its post-boot state
    /// (LCDC = 0x91, BGP = 0xFC, IF = 0xE1, IE = 0).  Succeeds exactly on
    /// images whose header passes every check and whose cartridge type
    /// names a supported mapper; a rejected image reports the header error,
    /// or the unsupported type once the header is fine.
    pub fn new(data: Vec<u8>, sample_rate: usize, sound_buffer_size: usize) -> (r: Result<
        Bus,
        RomError,
    >)
        requires
            1 <= sample_rate <= 4194304,
        ensures
            r is Ok <==> crate::rom::spec_header_ok(data@) && crate::rom::spec_cart_supported(
                data@,
            ),
            r is Err ==> r->Err_0 == (if !crate::rom::spec_header_ok(data@) {
                crate::rom::spec_header_err(data@)
            } else {
                RomError::UnsupportedCartridgeType
            }),
            r is Ok ==> ({
                let bus = r->Ok_0;
                &&& bus.wf()
                &&& bus.mbc.spec_rom().data@ == data@
                &&& bus.ppu.lcd_control == 0x91
                &&& bus.ppu.bgp == 0xFC
                &&& bus.ppu.ly == 0
                &&& bus.ppu.vblank_count == 0
                &&& bus.int_flag == 0xE1
                &&& bus.ie_flag == 0
                &&& bus.timer == Timer::spec_new()
                &&& forall|k: int| 0 <= k < 8192 ==> bus.ram@[k] == 0u8
                &&& forall|k: int| 0 <= k < 127 ==> bus.hram@[k] == 0u8
                &&& bus.sound.sample_rate == sample_rate
                &&& bus.sound.buffer_capacity == sound_buffer_size
                &&& bus.sound.sound_buffer@.len() == 0
            }),
    {
        let rom: Rom = match Rom::new(data) {
            Ok(rom) => rom,
            Err(e) => {
                return Err(e);
            },
        };

        let mbc: MbcState = match make_mbc(rom) {
            Ok(mbc) => mbc,
            Err(e) => {
                return Err(e);
            },
        };

        let mut ppu = Ppu::new();
        ppu.lcd_control_write(0x91);
        ppu.bgp_write(0xFC);

        Ok(Bus {
            ram: [0u8; 8192],
            hram: [0u8; 127],
            ppu,
            mbc,
            dma: 0,
            timer: Timer::new(),
            joypad: Joypad::new(),
            sound: Sound::new(sample_rate, sound_buffer_size),
            ie_flag: 0,
            int_flag: 0xE1,
        })
    }
}

/// Whether two bus states agree on the pixel unit's frame counters: the
/// line, the dot inside it, and the VBlank tally.  No bus write can move
/// them; only `Ppu::tick` does.
pub open spec fn same_frame_counters(b0: Bus, b1: Bus) -> bool {
    &&& b1.ppu.ly == b0.ppu.ly
    &&& b1.ppu.current_cycle == b0.ppu.current_cycle
    &&& b1.ppu.vblank_count == b0.ppu.vblank_count
}

/// Every bus write leaves the pixel unit's frame counters alone: writes
/// reach memories, mapper and device registers, never the line/dot
/// counters or the VBlank tally.
pub broadcast proof fn lemma_write_preserves_frame_counters(b0: Bus, a: u16, d: u8, b1: Bus)
    requires
        #[trigger] b0.spec_write_effect(a, d, b1),
    ensures
        same_frame_counters(b0, b1),
{
}

/// A pushed stack word reads back unchanged: after the two byte writes of a
/// PUSH into work RAM, the two bytes a POP reads at the new stack top are
/// exactly the pushed pair, so `PUSH rr` followed by `POP rr'` hands `rr`
/// over and the two SP moves cancel; for PUSH AF, the flag byte was stored
/// with its low nibble zero, so POP AF reads it back as zero.
pub proof fn lemma_stack_roundtrip(b0: Bus, mid: Bus, b1: Bus, lo_addr: u16, lo: u8, hi: u8)
    requires
        0xC000 <= lo_addr,
        lo_addr + 1 <= 0xDFFF,
        b0.spec_write_effect(lo_addr, lo, mid),
        mid.spec_write_effect((lo_addr + 1) as u16, hi, b1),
    ensures
        b1.spec_read(lo_addr) == lo,
        b1.spec_read((lo_addr + 1) as u16) == hi,
{
}

} // verus!
