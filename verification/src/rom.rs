//! Cartridge image and header decoding.
//!
//! The header sits at 0x100: entry point, logo, title, CGB flag, licensee
//! codes, SGB flag, cartridge-type byte, ROM/RAM size codes, destination,
//! version and checksums.  The header checksum must equal the running
//! `x - byte - 1` fold over bytes 0x134..=0x14C.  Construction fails on a
//! short image, an unsupported size code, a checksum mismatch, or an image
//! whose length differs from the declared ROM size.

use vstd::prelude::*;

verus! {

#[derive(Clone, Copy, Debug, PartialEq, Eq, Structural)]
pub enum CGBMode {
    NotOnlyCGB,
    OnlyCGB,
}

impl Default for CGBMode {
    fn default() -> (r: Self)
        ensures
            r == CGBMode::NotOnlyCGB,
    {
        CGBMode::NotOnlyCGB
    }
}

#[derive(Clone, Copy, Debug, PartialEq, Eq, Structural)]
pub enum DestinationCode {
    Japanese,
    NonJapanese,
}

impl Default for DestinationCode {
    fn default() -> (r: Self)
        ensures
            r == DestinationCode::Japanese,
    {
        DestinationCode::Japanese
    }
}

/// Why a cartridge image was rejected at load.
#[derive(Clone, Copy, Debug, PartialEq, Eq, Structural)]
pub enum RomError {
    /// Shorter than the 0x150 bytes that hold the header.
    TooShort,
    /// ROM size code above 8.
    UnsupportedRomSize,
    /// RAM size code above 5.
    UnsupportedRamSize,
    /// Computed header checksum differs from the stored one.
    ChecksumMismatch,
    /// Image length differs from the size the ROM size code declares.
    SizeMismatch,
    /// Cartridge-type byte names a mapper this core does not provide.
    UnsupportedCartridgeType,
}

pub struct Rom {
    pub entry_point: [u8; 4],
    pub logo: [u8; 48],
    pub title: [u8; 16],
    pub manufacturer_code: [u8; 4],
    pub cgb_flag: CGBMode,
    pub licensee_code: [u8; 2],
    pub sgb_flag: bool,
    pub cartridge_type: u8,
    pub rom_size: usize,
    pub ram_size: usize,
    pub destination_code: DestinationCode,
    pub old_licensee_code: u8,
    pub version: u8,
    pub header_check_sum: u8,
    pub global_check_sum: [u8; 2],
    pub data: Vec<u8>,
}

/// ROM size in bytes for size codes 0..=8: `32 KiB << code`.
pub open spec fn spec_rom_size_of_code(code: u8) -> int {
    32768 * spec_pow2_small(code as int)
}

/// 2^n for the small exponents the size codes use.
pub open spec fn spec_pow2_small(n: int) -> int
    decreases n,
{
    if n <= 0 {
        1
    } else {
        2 * spec_pow2_small(n - 1)
    }
}

/// External RAM size in bytes by size code: 0, 2, 8, 32, 128 or 64 KiB.
pub open spec fn spec_ram_size_of_code(code: u8) -> int {
    if code == 0 {
        0
    } else if code == 1 {
        2048
    } else if code == 2 {
        8192
    } else if code == 3 {
        32768
    } else if code == 4 {
        131072
    } else {
        65536
    }
}

/// The running header checksum over the first `n` bytes of 0x134..=0x14C:
/// each byte folds in as `sum - byte - 1` modulo 256.
pub open spec fn spec_header_checksum(data: Seq<u8>, n: int) -> int
    decreases n,
{
    if n <= 0 {
        0
    } else {
        (spec_header_checksum(data, n - 1) + 511 - data[0x134 + n - 1]) % 256
    }
}

/// All the checks a cartridge image must pass at load.
pub open spec fn spec_header_ok(data: Seq<u8>) -> bool {
    &&& data.len() >= 0x150
    &&& data[0x148] <= 8
    &&& data[0x149] <= 5
    &&& spec_header_checksum(data, 0x19) == data[0x14D]
    &&& data.len() == spec_rom_size_of_code(data[0x148])
}

/// The first check a rejected image fails, in the order the loader tests.
pub open spec fn spec_header_err(data: Seq<u8>) -> RomError {
    if data.len() < 0x150 {
        RomError::TooShort
    } else if data[0x148] > 8 {
        RomError::UnsupportedRomSize
    } else if data[0x149] > 5 {
        RomError::UnsupportedRamSize
    } else if spec_header_checksum(data, 0x19) != data[0x14D] {
        RomError::ChecksumMismatch
    } else {
        RomError::SizeMismatch
    }
}

/// Whether the cartridge-type byte of an image names a mapper this core
/// provides, with RAM the mapper can address: plain ROM, MBC1 (at most
/// 32 KiB of RAM), or MBC5.
pub open spec fn spec_cart_supported(data: Seq<u8>) -> bool {
    let t = data[0x147];
    ||| t == 0x00
    ||| ((t == 0x01 || t == 0x02 || t == 0x03) && spec_ram_size_of_code(data[0x149]) <= 32768)
    ||| (0x19 <= t <= 0x1E)
}

impl Rom {
    /// What every loaded cartridge satisfies: the kept image has exactly the
    /// declared ROM size, which is one of the nine power-of-two sizes from
    /// 32 KiB to 8 MiB, and the declared RAM size is one of the six
    /// supported ones.
    pub open spec fn wf(self) -> bool {
        &&& self.data@.len() == self.rom_size
        &&& (self.rom_size == 0x8000 || self.rom_size == 0x10000 || self.rom_size == 0x20000
            || self.rom_size == 0x40000 || self.rom_size == 0x80000 || self.rom_size == 0x100000
            || self.rom_size == 0x200000 || self.rom_size == 0x400000
            || self.rom_size == 0x800000)
        &&& (self.ram_size == 0 || self.ram_size == 2048 || self.ram_size == 8192
            || self.ram_size == 32768 || self.ram_size == 65536 || self.ram_size == 131072)
    }

    /// Decode the header of a cartridge image and keep the whole image.
    /// Succeeds exactly on images whose header passes every check of
    /// `spec_header_ok`; each decoded field then equals the documented
    /// header byte range of the image.
    pub fn new(data: Vec<u8>) -> (r: Result<Rom, RomError>)
        ensures
            r is Ok <==> spec_header_ok(data@),
            r is Err ==> r->Err_0 == spec_header_err(data@),
            r is Ok ==> ({
                let rom = r->Ok_0;
                &&& rom.wf()
                &&& rom.entry_point@ == data@.subrange(0x100, 0x104)
                &&& rom.logo@ == data@.subrange(0x104, 0x134)
                &&& rom.title@ == data@.subrange(0x134, 0x144)
                &&& rom.manufacturer_code@ == data@.subrange(0x13F, 0x143)
                &&& rom.cgb_flag == (if data@[0x143] == 0xC0 {
                    CGBMode::OnlyCGB
                } else {
                    CGBMode::NotOnlyCGB
                })
                &&& rom.licensee_code@ == data@.subrange(0x144, 0x146)
                &&& rom.sgb_flag == (data@[0x146] == 0x03)
                &&& rom.cartridge_type == data@[0x147]
                &&& rom.rom_size == spec_rom_size_of_code(data@[0x148])
                &&& rom.ram_size == spec_ram_size_of_code(data@[0x149])
                &&& rom.destination_code == (if data@[0x14A] == 0 {
                    DestinationCode::Japanese
                } else {
                    DestinationCode::NonJapanese
                })
                &&& rom.old_licensee_code == data@[0x14B]
                &&& rom.version == data@[0x14C]
                &&& rom.header_check_sum == data@[0x14D]
                &&& rom.global_check_sum@ == data@.subrange(0x14E, 0x150)
                &&& rom.data@ == data@
            }),
    {
        if data.len() < 0x150 {
            return Err(RomError::TooShort);
        }

        let rom_size_code = data[0x148];
        if rom_size_code > 8 {
            return Err(RomError::UnsupportedRomSize);
        }
        let ram_size_code = data[0x149];
        if ram_size_code > 5 {
            return Err(RomError::UnsupportedRamSize);
        }

        // Fold the checksum over 0x134..=0x14C.
        let mut checksum: u8 = 0;
        let mut i: usize = 0;
        while i < 0x19
            invariant
                i <= 0x19,
                data@.len() >= 0x150,
                checksum == spec_header_checksum(data@, i as int),
            decreases 0x19 - i,
        {
            let v = data[0x134 + i];
            checksum = (((checksum as u32 + 511) - v as u32) % 256) as u8;
            i = i + 1;
        }

        if checksum != data[0x14D] {
            return Err(RomError::ChecksumMismatch);
        }

        let rom_size = rom_size_of_code(rom_size_code);
        if data.len() != rom_size {
            return Err(RomError::SizeMismatch);
        }

        let mut entry_point = [0u8; 4];
        let mut j: usize = 0;
        while j < 4
            invariant
                j <= 4,
                data@.len() >= 0x150,
                forall|k: int| 0 <= k < j ==> entry_point@[k] == data@[0x100 + k],
            decreases 4 - j,
        {
            entry_point[j] = data[0x100 + j];
            j = j + 1;
        }

        let mut logo = [0u8; 48];
        let mut j: usize = 0;
        while j < 48
            invariant
                j <= 48,
                data@.len() >= 0x150,
                forall|k: int| 0 <= k < j ==> logo@[k] == data@[0x104 + k],
            decreases 48 - j,
        {
            logo[j] = data[0x104 + j];
            j = j + 1;
        }

        let mut title = [0u8; 16];
        let mut j: usize = 0;
        while j < 16
            invariant
                j <= 16,
                data@.len() >= 0x150,
                forall|k: int| 0 <= k < j ==> title@[k] == data@[0x134 + k],
            decreases 16 - j,
        {
            title[j] = data[0x134 + j];
            j = j + 1;
        }

        let mut manufacturer_code = [0u8; 4];
        let mut j: usize = 0;
        while j < 4
            invariant
                j <= 4,
                data@.len() >= 0x150,
                forall|k: int| 0 <= k < j ==> manufacturer_code@[k] == data@[0x13F + k],
            decreases 4 - j,
        {
            manufacturer_code[j] = data[0x13F + j];
            j = j + 1;
        }

        let mut licensee_code = [0u8; 2];
        licensee_code[0] = data[0x144];
        licensee_code[1] = data[0x145];

        let mut global_check_sum = [0u8; 2];
        global_check_sum[0] = data[0x14E];
        global_check_sum[1] = data[0x14F];

        let cgb_flag = if data[0x143] == 0xC0 {
            CGBMode::OnlyCGB
        } else {
            CGBMode::NotOnlyCGB
        };

        let destination_code = if data[0x14A] == 0 {
            DestinationCode::Japanese
        } else {
            DestinationCode::NonJapanese
        };

        proof {
            assert(entry_point@ =~= data@.subrange(0x100, 0x104));
            assert(logo@ =~= data@.subrange(0x104, 0x134));
            assert(title@ =~= data@.subrange(0x134, 0x144));
            assert(manufacturer_code@ =~= data@.subrange(0x13F, 0x143));
            assert(licensee_code@ =~= data@.subrange(0x144, 0x146));
            assert(global_check_sum@ =~= data@.subrange(0x14E, 0x150));
        }

        let sgb_flag = data[0x146] == 0x03;
        let cartridge_type = data[0x147];
        let old_licensee_code = data[0x14B];
        let version = data[0x14C];
        let header_check_sum = data[0x14D];
        let ram_size = ram_size_of_code(ram_size_code);

        Ok(Rom {
            entry_point,
            logo,
            title,
            manufacturer_code,
            cgb_flag,
            licensee_code,
            sgb_flag,
            cartridge_type,
            rom_size,
            ram_size,
            destination_code,
            old_licensee_code,
            version,
            header_check_sum,
            global_check_sum,
            data,
        })
    }
}

/// ROM size in bytes for a supported size code.
pub fn rom_size_of_code(code: u8) -> (r: usize)
    requires
        code <= 8,
    ensures
        r == spec_rom_size_of_code(code),
        r == 0x8000 || r == 0x10000 || r == 0x20000 || r == 0x40000 || r == 0x80000
            || r == 0x100000 || r == 0x200000 || r == 0x400000 || r == 0x800000,
{
    let r: usize = if code == 0 {
        32768
    } else if code == 1 {
        65536
    } else if code == 2 {
        131072
    } else if code == 3 {
        262144
    } else if code == 4 {
        524288
    } else if code == 5 {
        1048576
    } else if code == 6 {
        2097152
    } else if code == 7 {
        4194304
    } else {
        8388608
    };
    proof {
        reveal_with_fuel(spec_pow2_small, 9);
    }
    r
}

/// External RAM size in bytes for a supported size code.
pub fn ram_size_of_code(code: u8) -> (r: usize)
    requires
        code <= 5,
    ensures
        r == spec_ram_size_of_code(code),
        r == 0 || r == 2048 || r == 8192 || r == 32768 || r == 65536 || r == 131072,
{
    if code == 0 {
        0
    } else if code == 1 {
        2048
    } else if code == 2 {
        8192
    } else if code == 3 {
        32768
    } else if code == 4 {
        131072
    } else {
        65536
    }
}

} // verus!
