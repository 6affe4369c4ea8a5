//! End-to-end scenarios on the whole machine: small hand-assembled programs
//! loaded at 0x0150 and entered from 0x0100 by `JP 0x0150`.

use gb_core::bus::Bus;
use gb_core::cpu::Cpu;

/// Build a cartridge image with the given size code, cartridge type and RAM
/// size code, a `JP 0x0150` at the entry point, the given bytes patched in,
/// and a correct header checksum.
fn make_rom(size_code: u8, cart_type: u8, ram_code: u8, patches: &[(usize, u8)]) -> Vec<u8> {
    let size = 32768usize << size_code;
    let mut data = vec![0u8; size];
    data[0x100] = 0xC3;
    data[0x101] = 0x50;
    data[0x102] = 0x01;
    data[0x147] = cart_type;
    data[0x148] = size_code;
    data[0x149] = ram_code;
    for &(a, v) in patches {
        data[a] = v;
    }
    let mut c: u8 = 0;
    for i in 0x134..=0x14C {
        c = c.wrapping_sub(data[i]).wrapping_sub(1);
    }
    data[0x14D] = c;
    data
}

fn program(bytes: &[u8]) -> Vec<(usize, u8)> {
    bytes.iter().enumerate().map(|(i, &b)| (0x150 + i, b)).collect()
}

fn machine(data: Vec<u8>) -> Cpu {
    Cpu::new(Bus::new(data, 44100, 16).unwrap())
}

#[test]
fn s1_add_flag_correctness() {
    // LD A,0x0F; ADD A,0x01; HALT
    let rom = make_rom(0, 0, 0, &program(&[0x3E, 0x0F, 0xC6, 0x01, 0x76]));
    let mut cpu = machine(rom);
    cpu.run().unwrap();
    assert!(cpu.halt);
    assert_eq!(cpu.a, 0x10);
    // Z=0, N=0, H=1, C=0
    assert_eq!(cpu.f, 0x20);
}

#[test]
fn s2_daa_after_addition() {
    // LD A,0x45; LD B,0x38; ADD A,B; DAA; HALT
    let rom = make_rom(0, 0, 0, &program(&[0x3E, 0x45, 0x06, 0x38, 0x80, 0x27, 0x76]));
    let mut cpu = machine(rom);
    cpu.run().unwrap();
    assert!(cpu.halt);
    assert_eq!(cpu.a, 0x83);
    // N=0 and C=0; Z must be 0 as well since A != 0.
    assert_eq!(cpu.f & 0x40, 0);
    assert_eq!(cpu.f & 0x10, 0);
    assert_eq!(cpu.f & 0x80, 0);
}

#[test]
fn s3_timer_interrupt() {
    // DI; clear IF; TIMA=0; TMA=0; TAC=0x05; EI; IE=0x04; loop: JR loop
    // The timer vector at 0x50 holds HALT.
    let mut patches = program(&[
        0xF3, // DI
        0x3E, 0x00, 0xE0, 0x0F, // LDH (0xFF0F),A : clear IF
        0x3E, 0x00, 0xE0, 0x05, // LDH (0xFF05),A : TIMA=0
        0x3E, 0x00, 0xE0, 0x06, // LDH (0xFF06),A : TMA=0
        0x3E, 0x05, 0xE0, 0x07, // LDH (0xFF07),A : TAC=5
        0xFB, // EI
        0x3E, 0x04, 0xE0, 0xFF, // LDH (0xFFFF),A : IE=0x04
        0x18, 0xFE, // JR -2
    ]);
    // The handler at the timer vector disables the timer and halts, so
    // exactly one service is observed.
    for (i, b) in [0x3Eu8, 0x00, 0xE0, 0x07, 0x76].iter().enumerate() {
        patches.push((0x50 + i, *b));
    }
    let rom = make_rom(0, 0, 0, &patches);
    let mut cpu = machine(rom);
    cpu.run().unwrap();
    // The overflow takes 256 increments of 16 T-cycles plus the reload
    // delay: well inside one frame, so the CPU sits halted past the vector.
    assert!(cpu.halt);
    assert_eq!(cpu.pc, 0x55);
    // The serviced bit is clear and SP dropped by the pushed return address.
    assert_eq!(cpu.bus.int_flag & 0x04, 0);
    assert_eq!(cpu.sp, 0xFFFC);
    assert!(!cpu.ime);
}

#[test]
fn s4_vblank_cadence() {
    // Clear IF; IE=0x01; EI; loop.  The VBlank vector increments 0xC000.
    let mut patches = program(&[
        0x3E, 0x00, 0xE0, 0x0F, // IF = 0
        0x3E, 0x01, 0xE0, 0xFF, // IE = 0x01
        0xFB, // EI
        0x18, 0xFE, // JR -2
    ]);
    for (i, b) in [0x21u8, 0x00, 0xC0, 0x34, 0xD9].iter().enumerate() {
        // LD HL,0xC000; INC (HL); RETI
        patches.push((0x40 + i, *b));
    }
    let rom = make_rom(0, 0, 0, &patches);
    let mut cpu = machine(rom);
    for _ in 0..60 {
        cpu.run().unwrap();
    }
    assert_eq!(cpu.bus.ppu.vblank_count, 60);
    assert_eq!(cpu.bus.ram[0], 60);
}

#[test]
fn s5_ppu_background() {
    // HALT right away; the frame renders regardless of the CPU.
    let rom = make_rom(0, 0, 0, &program(&[0x76]));
    let mut cpu = machine(rom);
    // Tile 0: rows alternate 0xFF/0xFF and 0x00/0x00.
    for k in 0..16u16 {
        let v = if (k / 2) % 2 == 0 { 0xFF } else { 0x00 };
        cpu.bus.write(0x8000 + k, v);
    }
    // The tile map is already all zeroes; set BGP = 0xE4.
    cpu.bus.write(0xFF47, 0xE4);
    cpu.run().unwrap();

    let mut frame = vec![0u8; 160 * 144 * 4];
    cpu.render(&mut frame);
    for row in 0..8usize {
        for x in 0..8usize {
            let base = (row * 160 + x) * 4;
            let px = [frame[base], frame[base + 1], frame[base + 2], frame[base + 3]];
            if row % 2 == 0 {
                // color 3 through BGP 0xE4: black
                assert_eq!(px, [0x00, 0x00, 0x00, 0xFF], "row {row} x {x}");
            } else {
                // color 0: white
                assert_eq!(px, [0xFF, 0xFF, 0xFF, 0xFF], "row {row} x {x}");
            }
        }
    }
}

#[test]
fn s6_mbc1_ram_roundtrip() {
    // 256 KiB ROM (code 3), MBC1+RAM+BATTERY, 32 KiB RAM (code 3).
    let rom = make_rom(3, 0x03, 3, &[]);
    let mut bus = Bus::new(rom, 44100, 16).unwrap();
    bus.write(0x0000, 0x0A); // enable RAM
    bus.write(0x4000, 0x02); // RAM bank 2 - ignored in mode 0
    bus.write(0xA000, 0x55);
    bus.write(0x0000, 0x00); // disable
    assert_eq!(bus.read(0xA000), 0xFF);
    bus.write(0x0000, 0x0A); // re-enable
    assert_eq!(bus.read(0xA000), 0x55);
}

#[test]
fn push_pop_roundtrip() {
    // LD SP,0xD000; LD BC,0x1234; PUSH BC; POP DE; PUSH AF; POP AF; HALT
    let rom = make_rom(
        0,
        0,
        0,
        &program(&[0x31, 0x00, 0xD0, 0x01, 0x34, 0x12, 0xC5, 0xD1, 0xF5, 0xF1, 0x76]),
    );
    let mut cpu = machine(rom);
    cpu.run().unwrap();
    assert_eq!(cpu.d, 0x12);
    assert_eq!(cpu.e, 0x34);
    assert_eq!(cpu.sp, 0xD000);
    // The low nibble of F reads back as zero after POP AF.
    assert_eq!(cpu.f % 16, 0);
}

#[test]
fn add_sub_leaves_a_unchanged() {
    // LD A,0x37; LD B,0x29; ADD A,B; SUB B; HALT
    let rom = make_rom(0, 0, 0, &program(&[0x3E, 0x37, 0x06, 0x29, 0x80, 0x90, 0x76]));
    let mut cpu = machine(rom);
    cpu.run().unwrap();
    assert_eq!(cpu.a, 0x37);
}

#[test]
fn flags_low_nibble_always_zero() {
    // A mix of flag-heavy instructions; F & 0x0F must stay zero.
    let rom = make_rom(
        0,
        0,
        0,
        &program(&[
            0x3E, 0xFF, 0xC6, 0x01, // ADD overflow
            0x37, 0x3F, // SCF, CCF
            0x07, 0x17, 0x0F, 0x1F, // rotates
            0x27, 0x2F, // DAA, CPL
            0x76,
        ]),
    );
    let mut cpu = machine(rom);
    cpu.run().unwrap();
    assert_eq!(cpu.f & 0x0F, 0);
}

#[test]
fn dma_copies_into_oam() {
    let rom = make_rom(0, 0, 0, &program(&[0x76]));
    let mut bus = Bus::new(rom, 44100, 16).unwrap();
    for k in 0..160u16 {
        bus.write(0xC100 + k, (k % 251) as u8);
    }
    bus.write(0xFF46, 0xC1);
    assert_eq!(bus.dma, 0xC1);
    for k in 0..160u16 {
        assert_eq!(bus.read(0xFE00 + k), (k % 251) as u8);
    }
}

#[test]
fn work_ram_echo() {
    let rom = make_rom(0, 0, 0, &[]);
    let mut bus = Bus::new(rom, 44100, 16).unwrap();
    bus.write(0xC123, 0xAB);
    assert_eq!(bus.read(0xE123), 0xAB);
    bus.write(0xE055, 0x77);
    assert_eq!(bus.read(0xC055), 0x77);
}
