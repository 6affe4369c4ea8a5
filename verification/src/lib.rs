//! Core of a cycle-stepped emulator for the original DMG-class handheld
//! console: an LR35902 CPU interpreter, a scanline pixel processor, a
//! divider/interval timer with falling-edge interrupt detection, a
//! four-channel tone synthesis unit gated by a 512 Hz frame sequencer,
//! bank-switched cartridge mappers, and the memory bus that ties them
//! together.  The host supplies the cartridge image and consumes the
//! framebuffer, the sample ring and the button interface.

pub mod bus;
pub mod cpu;
pub mod joypad;
pub mod mbc;
pub mod ppu;
pub mod rom;
pub mod sound;
pub mod timer;
pub mod util;

pub use bus::Bus;
pub use cpu::Cpu;
pub use cpu::Opcode;
pub use joypad::Button;
pub use joypad::Joypad;
pub use rom::Rom;
pub use timer::Timer;
