//! Unit-level checks of the subsystems: header decoding, mappers, timer,
//! joypad and sound.

use gb_core::bus::Bus;
use gb_core::joypad::Button;
use gb_core::joypad::Joypad;
use gb_core::mbc::MbcState;
use gb_core::mbc::SaveError;
use gb_core::mbc::make_mbc;
use gb_core::rom::Rom;
use gb_core::rom::RomError;
use gb_core::sound::Sound;
use gb_core::timer::Timer;

fn make_rom(size_code: u8, cart_type: u8, ram_code: u8, patches: &[(usize, u8)]) -> Vec<u8> {
    let size = 32768usize << size_code;
    let mut data = vec![0u8; size];
    data[0x100] = 0xC3;
    data[0x101] = 0x50;
    data[0x102] = 0x01;
    data[0x147] = cart_type;
    data[0x148] = size_code;
    data[0x149] = ram_code;
    for &(a, v) in patches {
        data[a] = v;
    }
    let mut c: u8 = 0;
    for i in 0x134..=0x14C {
        c = c.wrapping_sub(data[i]).wrapping_sub(1);
    }
    data[0x14D] = c;
    data
}

#[test]
fn rom_header_fields() {
    let mut patches: Vec<(usize, u8)> = Vec::new();
    for (i, b) in b"TESTTITLE".iter().enumerate() {
        patches.push((0x134 + i, *b));
    }
    patches.push((0x14A, 0x01));
    patches.push((0x14B, 0x33));
    patches.push((0x14C, 0x02));
    let data = make_rom(1, 0x01, 2, &patches);
    let rom = Rom::new(data).unwrap();
    assert_eq!(&rom.title[..9], b"TESTTITLE");
    assert_eq!(rom.cartridge_type, 0x01);
    assert_eq!(rom.rom_size, 65536);
    assert_eq!(rom.ram_size, 8192);
    assert_eq!(rom.old_licensee_code, 0x33);
    assert_eq!(rom.version, 0x02);
}

fn rom_err(r: Result<Rom, RomError>) -> RomError {
    match r {
        Err(e) => e,
        Ok(_) => panic!("expected a header error"),
    }
}

fn bus_err(r: Result<Bus, RomError>) -> RomError {
    match r {
        Err(e) => e,
        Ok(_) => panic!("expected a load error"),
    }
}

#[test]
fn rom_header_errors() {
    assert_eq!(rom_err(Rom::new(vec![0u8; 0x100])), RomError::TooShort);

    let mut bad_size = make_rom(0, 0, 0, &[]);
    bad_size[0x148] = 9;
    assert_eq!(rom_err(Rom::new(bad_size)), RomError::UnsupportedRomSize);

    let mut bad_ram = make_rom(0, 0, 0, &[]);
    bad_ram[0x149] = 6;
    assert_eq!(rom_err(Rom::new(bad_ram)), RomError::UnsupportedRamSize);

    let mut bad_sum = make_rom(0, 0, 0, &[]);
    bad_sum[0x14D] = bad_sum[0x14D].wrapping_add(1);
    assert_eq!(rom_err(Rom::new(bad_sum)), RomError::ChecksumMismatch);

    // Declared 64 KiB but only 32 KiB of data.
    let mut short = make_rom(0, 0, 0, &[(0x148, 1)]);
    let mut c: u8 = 0;
    for i in 0x134..=0x14C {
        c = c.wrapping_sub(short[i]).wrapping_sub(1);
    }
    short[0x14D] = c;
    assert_eq!(rom_err(Rom::new(short)), RomError::SizeMismatch);

    let unsupported = make_rom(0, 0x05, 0, &[]);
    assert_eq!(bus_err(Bus::new(unsupported, 44100, 16)), RomError::UnsupportedCartridgeType);
}

#[test]
fn mbc1_bank_selection() {
    // 512 KiB ROM: distinct marker at the start of each bank.
    let mut patches: Vec<(usize, u8)> = Vec::new();
    for bank in 0..16usize {
        patches.push((bank * 0x4000 + 0x2000, bank as u8 + 0xA0));
    }
    let data = make_rom(4, 0x01, 0, &patches);
    let rom = Rom::new(data).unwrap();
    let mut mbc = make_mbc(rom).unwrap();

    // Default bank is 1.
    assert_eq!(mbc.read_rom(0x6000), 0xA1);
    // Writing 5 selects bank 5.
    mbc.write_registers(0x2000, 5);
    assert_eq!(mbc.read_rom(0x6000), 0xA5);
    // Writing 0 selects bank 1.
    mbc.write_registers(0x2000, 0);
    assert_eq!(mbc.read_rom(0x6000), 0xA1);
    // Bank 0 stays mapped low.
    assert_eq!(mbc.read_rom(0x2000), 0xA0);
}

#[test]
fn mbc5_bank_zero_allowed() {
    let mut patches: Vec<(usize, u8)> = Vec::new();
    for bank in 0..8usize {
        patches.push((bank * 0x4000 + 0x1000, bank as u8 + 0x50));
    }
    let data = make_rom(3, 0x19, 0, &patches);
    let rom = Rom::new(data).unwrap();
    let mut mbc = make_mbc(rom).unwrap();
    mbc.write_registers(0x2000, 0);
    assert_eq!(mbc.read_rom(0x5000), 0x50);
    mbc.write_registers(0x2000, 3);
    assert_eq!(mbc.read_rom(0x5000), 0x53);
}

#[test]
fn save_ram_roundtrip() {
    let data = make_rom(3, 0x03, 3, &[]);
    let rom = Rom::new(data).unwrap();
    let mut mbc = make_mbc(rom).unwrap();
    mbc.write_registers(0x0000, 0x0A);
    mbc.write_ram(0x0010, 0x42);
    let image = mbc.save_ram();
    assert_eq!(image.len(), 32768);
    assert_eq!(image[0x10], 0x42);

    let data2 = make_rom(3, 0x03, 3, &[]);
    let mut mbc2 = make_mbc(Rom::new(data2).unwrap()).unwrap();
    mbc2.load_ram(&image).unwrap();
    mbc2.write_registers(0x0000, 0x0A);
    assert_eq!(mbc2.read_ram(0x0010), 0x42);

    let wrong = vec![0u8; 16];
    assert_eq!(mbc2.load_ram(&wrong).unwrap_err(), SaveError::SizeMismatch);
    assert!(mbc2.has_battery());
    let _ = match &mbc2 {
        MbcState::Mbc1(m) => m.rom_bank_number,
        _ => panic!("expected MBC1"),
    };
}

#[test]
fn timer_div_write_reads_zero() {
    let mut t = Timer::new();
    for _ in 0..5000 {
        t.tick();
    }
    assert!(t.read_div() > 0);
    t.write_div(0xAB);
    assert_eq!(t.read_div(), 0);
}

#[test]
fn timer_disabled_keeps_tima() {
    let mut t = Timer::new();
    t.write_tac(0x00);
    t.write_tima(0x12);
    for _ in 0..100000 {
        t.tick();
    }
    assert_eq!(t.read_tima(), 0x12);
}

#[test]
fn timer_overflow_reloads_and_requests() {
    let mut t = Timer::new();
    t.write_tma(0x80);
    t.write_tac(0x05);
    // Bit 3 selected: one increment each 16 T-cycles; from 0 the overflow
    // comes after 256 increments plus the 4-cycle reload delay.
    for _ in 0..(256 * 16 + 8) {
        t.tick();
    }
    assert!(t.int_timer_flag);
    assert_eq!(t.read_tima(), 0x80);
}

#[test]
fn joypad_matrix() {
    let mut j = Joypad::new();
    j.press(Button::A);
    j.press(Button::Down);
    assert!(j.int_flag);
    // Select the button group (bit 5 low).
    j.write(0x10);
    assert_eq!(j.read(), 0xDE); // A (bit 0) low
    // Select the direction group (bit 4 low).
    j.write(0x20);
    assert_eq!(j.read(), 0xE7); // Down (bit 3) low
    j.release(Button::A);
    j.write(0x10);
    assert_eq!(j.read(), 0xDF);
    // Nothing selected reads 0xFF.
    j.write(0x30);
    assert_eq!(j.read(), 0xFF);
}

#[test]
fn sound_power_cycle_resets_sequencer() {
    let mut s = Sound::new(44100, 16);
    s.write(0xFF26, 0x80);
    assert_eq!(s.frame_step, 7);
    // Step the sequencer a few times with synthetic DIV edges.
    for k in 0..6 {
        s.tick(if k % 2 == 0 { 0x10 } else { 0x00 });
    }
    assert_ne!(s.frame_step, 7);
    // Power off, then on: the sequencer restarts at step 7.
    s.write(0xFF26, 0x00);
    assert_eq!(s.read(0xFF26) & 0x80, 0);
    s.write(0xFF26, 0x80);
    assert_eq!(s.frame_step, 7);
}

#[test]
fn sound_registers_and_wave_ram() {
    let mut s = Sound::new(44100, 16);
    s.write(0xFF26, 0x80);
    s.write(0xFF11, 0b1011_0101);
    assert_eq!(s.read(0xFF11), 0b1011_1111); // only the duty bits read back
    s.write(0xFF30, 0xAB);
    assert_eq!(s.read(0xFF30), 0xAB);
    // Powering off resets the registers but keeps the wave RAM, which
    // accepts writes even with the unit off.
    s.write(0xFF26, 0x00);
    s.write(0xFF3F, 0xCD);
    assert_eq!(s.read(0xFF3F), 0xCD);
    assert_eq!(s.read(0xFF30), 0xAB);
    // Other registers were cleared by the power-off and drop writes now.
    s.write(0xFF11, 0xFF);
    assert_eq!(s.read(0xFF11), 0b0011_1111);
}

#[test]
fn sound_emits_samples() {
    let mut s = Sound::new(44100, 4);
    s.write(0xFF26, 0x80); // power on
    s.write(0xFF25, 0x11); // route channel 1 both sides
    s.write(0xFF24, 0x77); // full volume both sides
    s.write(0xFF12, 0xF0); // envelope: volume 15
    s.write(0xFF13, 0x00);
    s.write(0xFF14, 0x87); // trigger, frequency high bits
    for _ in 0..500 {
        s.tick(0);
    }
    assert!(s.sample_count() > 0);
    let (l, r) = s.pop_sample().unwrap();
    // Numerators stay inside 4 channels x 15 x 7.
    assert!(l >= 0 && l <= 420);
    assert!(r >= 0 && r <= 420);
}
