//! NES cartridges: the iNES and NES 2.0 headers, and the ROM they describe.
use vstd::prelude::*;

use crate::common::{NesRegion, push_number, digits, padded};
use crate::fs::{compute_crc32, compute_combine_crc32, crc32_continued, io_error_debug, lemma_crc32_combines};

verus! {

/// Default CHR-RAM provided when a cart has no CHR-ROM.
pub const DEFAULT_CHR_RAM_SIZE: usize = 8192;
/// Bytes in one PRG-ROM bank.
pub const PRG_ROM_BANK_SIZE: usize = 0x4000;
/// Bytes in one CHR-ROM bank.
pub const CHR_ROM_BANK_SIZE: usize = 0x2000;

/// Errors from loading a cartridge.
#[derive(Debug)]
pub enum Error {
    /// The iNES/NES 2.0 header did not describe a cartridge this crate can build.
    InvalidHeader {
        /// Which header byte was rejected.
        byte: u8,
        /// The value found there.
        value: u8,
        /// What was wrong with it.
        message: String,
    },
    /// The ROM could not be read.
    Io {
        /// What was being read when this happened.
        context: String,
        /// The underlying I/O error.
        source: std::io::Error,
    },
}

impl Error {
    /// Wraps an I/O error with a description of what was being read.
    pub fn io(source: std::io::Error, context: String) -> (e: Self)
        ensures
            e matches Error::Io { context: c, .. } && c@ == context@,
    {
        Error::Io { context, source }
    }

    /// The error as a player reads it.
    pub fn message(&self) -> (m: String)
        ensures
            self matches Error::InvalidHeader { byte, value, message } ==> m@ == "invalid nes header (found: $"@
                + padded(digits(*value as nat, 16, true), 4, '0') + " at byte: "@ + digits(*byte as nat, 10, true)
                + "). "@ + message@,
            self matches Error::Io { context, .. } ==> m@.len() >= context@.len() + 2int
                && m@.subrange(0, context@.len() + 2int) == context@ + ": "@,
    {
        proof {
            reveal_strlit(": ");
        }
        match self {
            Error::InvalidHeader { byte, value, message } => {
                let mut m = String::from_str("invalid nes header (found: $");
                push_number(&mut m, *value as u64, 16, true, 4);
                m.append(" at byte: ");
                push_number(&mut m, *byte as u64, 10, true, 0);
                m.append("). ");
                m.append(message.as_str());
                m
            },
            Error::Io { context, source } => {
                let mut m = String::from_str(context.as_str());
                m.append(": ");
                m.append(io_error_debug(source).as_str());
                m
            },
        }
    }
}

/// How the cart's RAM is filled at power-on.
#[derive(Debug, Copy, Clone, PartialEq, Eq)]
pub enum RamState {
    /// Every byte zero.
    AllZeros,
    /// Every byte `0xFF`.
    AllOnes,
    /// Random bytes.
    Random,
}

impl Default for RamState {
    fn default() -> (r: Self)
        ensures
            r == RamState::AllZeros,
    {
        RamState::AllZeros
    }
}

/// How the cart wires the PPU's nametables.
#[derive(Debug, Copy, Clone, PartialEq, Eq)]
pub enum Mirroring {
    /// Nametables mirrored horizontally.
    Horizontal,
    /// Nametables mirrored vertically.
    Vertical,
    /// Four separate nametables, backed by RAM on the cart.
    FourScreen,
}

/// Which cartridge header format a ROM carries.
#[derive(Debug, Copy, Clone, PartialEq, Eq)]
pub enum NesVariant {
    /// The original iNES header, before byte 7 was assigned any meaning.
    ArchaicINes,
    /// iNES 0.7, whose byte 7 holds a mapper high nibble but no padding requirement.
    INes07,
    /// iNES, i.e. the format with bytes 8-15 required to be zero.
    INes,
    /// NES 2.0, which adds submappers, sized RAM fields and a region field.
    Nes2,
}

impl Default for NesVariant {
    fn default() -> (r: Self)
        ensures
            r == NesVariant::ArchaicINes,
    {
        NesVariant::ArchaicINes
    }
}

/// An iNES or NES 2.0 header: the hardware a cartridge carries.
#[derive(Debug, Copy, Clone, PartialEq, Eq)]
pub struct NesHeader {
    /// Which of the four header formats this is.
    pub variant: NesVariant,
    /// The primary mapper number.
    pub mapper_num: u16,
    /// NES 2.0 submapper number.
    pub submapper_num: u8,
    /// Mirroring, battery, trainer, VS Unisystem, PlayChoice-10 and the NES 2.0 marker.
    pub flags: u8,
    /// Number of 16K PRG-ROM banks.
    pub prg_rom_banks: u16,
    /// Number of 8K CHR-ROM banks.
    pub chr_rom_banks: u16,
    /// NES 2.0 PRG-RAM size byte: two shift counts, volatile low and battery-backed high.
    pub prg_ram_shift: u8,
    /// NES 2.0 CHR-RAM size byte, laid out as `prg_ram_shift`.
    pub chr_ram_shift: u8,
    /// NES 2.0 NTSC/PAL indicator.
    pub tv_mode: u8,
    /// NES 2.0 VS System data.
    pub vs_data: u8,
}

/// The header of a cart built with no ROM file: archaic iNES, everything zero.
pub open spec fn blank_header() -> NesHeader {
    NesHeader {
        variant: NesVariant::ArchaicINes,
        mapper_num: 0,
        submapper_num: 0,
        flags: 0,
        prg_rom_banks: 0,
        chr_rom_banks: 0,
        prg_ram_shift: 0,
        chr_ram_shift: 0,
        tv_mode: 0,
        vs_data: 0,
    }
}

impl Default for NesHeader {
    fn default() -> (h: Self)
        ensures
            h == blank_header(),
    {
        NesHeader {
            variant: NesVariant::ArchaicINes,
            mapper_num: 0,
            submapper_num: 0,
            flags: 0,
            prg_rom_banks: 0,
            chr_rom_banks: 0,
            prg_ram_shift: 0,
            chr_ram_shift: 0,
            tv_mode: 0,
            vs_data: 0,
        }
    }
}

/// Whether a NES 2.0 RAM size byte uses the reserved shift `0xF` in either nibble.
pub open spec fn reserved_ram_shift(b: u8) -> bool {
    b & 0x0F == 0x0F || b & 0xF0 == 0xF0
}

/// What the first sixteen bytes of `h` describe, or the byte and value a header is refused at.
pub open spec fn header_verdict(h: Seq<u8>) -> Result<NesHeader, (u8, u8)> {
    if h.len() < 16 {
        Err((0u8, 0u8))
    } else if !(h[0] == 0x4E && h[1] == 0x45 && h[2] == 0x53 && h[3] == 0x1A) {
        Err((0u8, h[0]))
    } else if h[7] & 0x0C == 0x04 || h[7] & 0x0C == 0x0C {
        Err((7u8, h[7]))
    } else {
        let flags = (h[6] & 0x0F) | ((h[7] & 0x0F) << 4u8);
        let mapper = (((h[6] & 0xF0) >> 4u8) | (h[7] & 0xF0)) as u16;
        if h[7] & 0x0C == 0x08 {
            if reserved_ram_shift(h[10]) {
                Err((10u8, h[10]))
            } else if reserved_ram_shift(h[11]) {
                Err((11u8, h[11]))
            } else if flags & 0x04 == 0x04 {
                Err((6u8, h[6]))
            } else {
                Ok(NesHeader {
                    variant: NesVariant::Nes2,
                    mapper_num: mapper | (((h[8] & 0x0F) as u16) << 8u16),
                    submapper_num: (h[8] & 0xF0) >> 4u8,
                    flags,
                    prg_rom_banks: (h[4] as u16) | (((h[9] & 0x0F) as u16) << 8u16),
                    chr_rom_banks: (h[5] as u16) | (((h[9] & 0xF0) as u16) << 4u16),
                    prg_ram_shift: h[10],
                    chr_ram_shift: h[11],
                    tv_mode: h[12],
                    vs_data: h[13],
                })
            }
        } else if flags & 0x04 == 0x04 {
            Err((6u8, h[6]))
        } else {
            Ok(NesHeader {
                variant: if h[12] == 0 && h[13] == 0 && h[14] == 0 && h[15] == 0 { NesVariant::INes } else { NesVariant::INes07 },
                mapper_num: mapper,
                submapper_num: 0,
                flags,
                prg_rom_banks: h[4] as u16,
                chr_rom_banks: h[5] as u16,
                prg_ram_shift: 0,
                chr_ram_shift: 0,
                tv_mode: 0,
                vs_data: 0,
            })
        }
    }
}

/// How the header's numbers are spread over its bytes, as arithmetic on the byte values.
proof fn lemma_header_nibbles(a: u8, b: u8, c: u8)
    by (bit_vector)
    ensures
        ((((a & 0xF0) >> 4u8) | (b & 0xF0)) as u16) % 16u16 == ((a / 16u8) as u16),
        ((((a & 0xF0) >> 4u8) | (b & 0xF0)) as u16) / 16u16 == ((b / 16u8) as u16),
        (c & 0xF0) >> 4u8 == c / 16u8,
        ((a as u16) | (((c & 0x0F) as u16) << 8u16)) == ((a as u16) + 256u16 * ((c % 16u8) as u16)) as u16,
        ((b as u16) | (((c & 0xF0) as u16) << 4u16)) == ((b as u16) + 256u16 * ((c / 16u8) as u16)) as u16,
{
}

/// How a NES 2.0 header's byte 8 extends the mapper number, as arithmetic on the byte values.
proof fn lemma_mapper_high_nibble(a: u8, b: u8, c: u8)
    by (bit_vector)
    ensures
        (((((a & 0xF0) >> 4u8) | (b & 0xF0)) as u16) | (((c & 0x0F) as u16) << 8u16)) % 256u16
            == ((((a & 0xF0) >> 4u8) | (b & 0xF0)) as u16),
        (((((a & 0xF0) >> 4u8) | (b & 0xF0)) as u16) | (((c & 0x0F) as u16) << 8u16)) / 256u16 == ((c % 16u8) as u16),
{
}

/// What a header that loads says, read off its bytes: the mapper number's low nibble is the
/// high nibble of byte 6 and its next nibble the high nibble of byte 7. An iNES header stops
/// there; a NES 2.0 header takes the mapper number's top nibble and the submapper from byte 8,
/// and the high bits of the ROM sizes from byte 9.
pub proof fn lemma_header_fields_come_from_their_bytes(h: Seq<u8>)
    ensures
        header_verdict(h) matches Ok(hd) ==> {
            &&& hd.mapper_num % 16 == h[6] / 16
            &&& (hd.mapper_num / 16) % 16 == h[7] / 16
            &&& hd.variant == NesVariant::Nes2 ==> {
                &&& hd.mapper_num / 256 == h[8] % 16
                &&& hd.submapper_num == h[8] / 16
                &&& hd.prg_rom_banks == h[4] + 256 * (h[9] % 16)
                &&& hd.chr_rom_banks == h[5] + 256 * (h[9] / 16)
            }
            &&& hd.variant != NesVariant::Nes2 ==> {
                &&& hd.mapper_num < 256
                &&& hd.submapper_num == 0
                &&& hd.prg_rom_banks == h[4]
                &&& hd.chr_rom_banks == h[5]
            }
        },
{
    if h.len() >= 16 {
        lemma_header_nibbles(h[6], h[7], h[8]);
        lemma_mapper_high_nibble(h[6], h[7], h[8]);
        lemma_header_nibbles(h[4], h[5], h[9]);
    }
}

/// Why a header is refused, in words.
pub open spec fn header_message(h: Seq<u8>) -> Seq<char> {
    if h.len() < 16 {
        "expected 16-byte header"@
    } else if !(h[0] == 0x4E && h[1] == 0x45 && h[2] == 0x53 && h[3] == 0x1A) {
        "nes header signature not found"@
    } else if h[7] & 0x0C == 0x04 {
        "header is corrupted by `DiskDude!`. repair and try again"@
    } else if h[7] & 0x0C == 0x0C {
        "unrecognized header format. repair and try again"@
    } else if h[7] & 0x0C == 0x08 && reserved_ram_shift(h[10]) {
        "invalid prg-ram size in header"@
    } else if h[7] & 0x0C == 0x08 && reserved_ram_shift(h[11]) {
        "invalid chr-ram size in header"@
    } else {
        "trained roms are currently not supported."@
    }
}

/// The board name conventionally associated with a mapper number.
pub open spec fn board_name(mapper_num: u16) -> Seq<char> {
    match mapper_num {
        0 => "Mapper 000 - NROM"@,
        1 => "Mapper 001 - SxROM/MMC1B/C"@,
        2 => "Mapper 002 - UxROM"@,
        3 => "Mapper 003 - CNROM"@,
        4 => "Mapper 004 - TxROM/MMC3/MMC6"@,
        5 => "Mapper 005 - ExROM/MMC5"@,
        6 => "Mapper 006 - FFE 1M/2M"@,
        7 => "Mapper 007 - AxROM"@,
        8 => "Mapper 008 - FFE 1M/2M"@,
        9 => "Mapper 009 - PxROM/MMC2"@,
        10 => "Mapper 010 - FxROM/MMC4"@,
        11 => "Mapper 011 - Color Dreams"@,
        12 => "Mapper 012 - Gouder/FFE 4M/MMC3"@,
        13 => "Mapper 013 - CPROM"@,
        14 => "Mapper 014 - UNL SL1632"@,
        15 => "Mapper 015 - K1029/30"@,
        16 => "Mapper 016 - Bandai FCG"@,
        17 => "Mapper 017 - FFE"@,
        18 => "Mapper 018 - Jaleco SS 88006"@,
        19 => "Mapper 019 - Namco 129/163"@,
        20 => "Mapper 020 - FDS"@,
        21 => "Mapper 021 - Vrc4a/Vrc4c"@,
        22 => "Mapper 022 - Vrc2a"@,
        23 => "Mapper 023 - Vrc4e"@,
        24 => "Mapper 024 - Vrc6a"@,
        25 => "Mapper 025 - Vrc4b"@,
        26 => "Mapper 026 - Vrc6b"@,
        27 => "Mapper 027 - Vrc4x"@,
        28 => "Mapper 028 - Action 53"@,
        29 => "Mapper 029 - Sealie Computing"@,
        30 => "Mapper 030 - UNROM 512"@,
        31 => "Mapper 031 - NSF"@,
        32 => "Mapper 032 - Irem G101"@,
        33 => "Mapper 033 - Taito TC0190"@,
        34 => "Mapper 034 - BNROM/NINA-001"@,
        35 => "Mapper 035 - JY Company"@,
        36 => "Mapper 036 - TXC 22000"@,
        37 => "Mapper 037 - MMC3 Multicart"@,
        38 => "Mapper 038 - UNL PCI556"@,
        39 => "Mapper 039 - Subor"@,
        40 => "Mapper 040 - NTDEC 2722"@,
        41 => "Mapper 041 - Caltron 6-in-1"@,
        42 => "Mapper 042"@,
        43 => "Mapper 043 - TONY-I/YS-612"@,
        44 => "Mapper 044 - MMC3 Multicart"@,
        45 => "Mapper 045 - MMC3 Multicart"@,
        46 => "Mapper 046 - Color Dreams"@,
        47 => "Mapper 047 - MMC3 Multicart"@,
        48 => "Mapper 048 - Taito TC0690"@,
        49 => "Mapper 049 - MMC Multicart"@,
        50 => "Mapper 050"@,
        51 => "Mapper 051"@,
        52 => "Mapper 052 - Realtec 8213/MMC Multicaart"@,
        53 => "Mapper 053 - Supervision"@,
        54 => "Mapper 054 - Novel Diamond"@,
        55 => "Mapper 055 - UNIF BTL-MARIO1-MALEE2"@,
        56 => "Mapper 056"@,
        57 => "Mapper 057"@,
        58 => "Mapper 058"@,
        59 => "Mapper 059 - BMC T3H53/D1038"@,
        60 => "Mapper 060"@,
        61 => "Mapper 061"@,
        62 => "Mapper 062"@,
        63 => "Mapper 063"@,
        64 => "Mapper 064 - RAMBO-1"@,
        65 => "Mapper 065 - Irem H3001"@,
        66 => "Mapper 066 - GxROM/MxROM"@,
        67 => "Mapper 067 - Sunsoft-3"@,
        68 => "Mapper 068 - Sunsoft-4"@,
        69 => "Mapper 069 - Sunsoft FME-7"@,
        70 => "Mapper 070 - Bandai"@,
        71 => "Mapper 071 - BF909x"@,
        72 => "Mapper 072 - Jaleco JF-17"@,
        73 => "Mapper 073 - Vrc3"@,
        74 => "Mapper 074"@,
        75 => "Mapper 075 - Vrc1"@,
        76 => "Mapper 076 - NAMCOT-108"@,
        77 => "Mapper 077"@,
        78 => "Mapper 078"@,
        79 => "Mapper 079 - NINA-03/06"@,
        80 => "Mapper 080 - Taito X1005"@,
        81 => "Mapper 081 - NTDEC 715021"@,
        82 => "Mapper 082 - Taito X1017"@,
        83 => "Mapper 083"@,
        84 => "Mapper 084"@,
        85 => "Mapper 085 - Vrc7"@,
        86 => "Mapper 086 - Jaleco JF-13"@,
        87 => "Mapper 087 - Jaleco JF-xx"@,
        88 => "Mapper 088"@,
        89 => "Mapper 089 - Sunsoft"@,
        90 => "Mapper 090 - JY Company"@,
        91 => "Mapper 091"@,
        92 => "Mapper 092"@,
        93 => "Mapper 093 - Sunsoft"@,
        94 => "Mapper 094 - UxROM"@,
        95 => "Mapper 095 - NAMCOT-3425"@,
        96 => "Mapper 096 - Oeka Kids"@,
        97 => "Mapper 097 - Irem TAM-S1"@,
        98 => "Mapper 098"@,
        99 => "Mapper 099 - Vs. System"@,
        100 => "Mapper 100"@,
        101 => "Mapper 101 - Jaleco JF-10"@,
        102 => "Mapper 102"@,
        103 => "Mapper 103"@,
        104 => "Mapper 104 - Golden Five"@,
        105 => "Mapper 105 - MMC1"@,
        106 => "Mapper 106"@,
        107 => "Mapper 107"@,
        108 => "Mapper 108"@,
        109 => "Mapper 109"@,
        110 => "Mapper 110"@,
        111 => "Mapper 111 - GTROM"@,
        112 => "Mapper 112"@,
        113 => "Mapper 113 - NINA-03/06"@,
        114 => "Mapper 114 - MMC3"@,
        115 => "Mapper 115 - MMC3"@,
        116 => "Mapper 116 - SOMARI-P"@,
        117 => "Mapper 117"@,
        118 => "Mapper 118 - TxSROM"@,
        119 => "Mapper 119 - TQROM"@,
        120 => "Mapper 120"@,
        121 => "Mapper 121 - MMC3"@,
        122 => "Mapper 122"@,
        123 => "Mapper 123 - MMC3"@,
        124 => "Mapper 124"@,
        125 => "Mapper 125 - UNL-LH32"@,
        126 => "Mapper 126 - MMC36"@,
        127 => "Mapper 127"@,
        128 => "Mapper 128"@,
        129 => "Mapper 129"@,
        130 => "Mapper 130"@,
        131 => "Mapper 131"@,
        132 => "Mapper 132 - TXC"@,
        133 => "Mapper 133 - Sachen 3009"@,
        134 => "Mapper 134 - MMC3"@,
        135 => "Mapper 135 - Sachen 8259A"@,
        136 => "Mapper 136 - Sachen 3011"@,
        137 => "Mapper 137 - Sachen 8259D"@,
        138 => "Mapper 138 - Sachen 8259B"@,
        139 => "Mapper 139 - Sachen 8259C"@,
        140 => "Mapper 140 - Jaleco JF-11/14"@,
        141 => "Mapper 141 - Sachen 8259A"@,
        142 => "Mapper 142 - Kaiser KS-7032"@,
        143 => "Mapper 143 - NROM"@,
        144 => "Mapper 144 - Color Dreams"@,
        145 => "Mapper 145 - Sachen SA-72007"@,
        146 => "Mapper 146 - NINA-03/06"@,
        147 => "Mapper 147 - Sachen 3018"@,
        148 => "Mapper 148 - Sachen SA-008-A/Tengen 800008"@,
        149 => "Mapper 149 - Sachen SA-0036"@,
        150 => "Mapper 150 - Sach SA-015/630"@,
        151 => "Mapper 151 - Vrc1"@,
        152 => "Mapper 152"@,
        153 => "Mapper 153 - Bandai FCG"@,
        154 => "Mapper 154 - NAMCOT-3453"@,
        155 => "Mapper 155 - SxROM/MMC1A"@,
        156 => "Mapper 156 - Daou"@,
        157 => "Mapper 157 - Bandai FCG"@,
        158 => "Mapper 158 - Tengen 800037"@,
        159 => "Mapper 159 - Bandai FCG"@,
        160 => "Mapper 160"@,
        161 => "Mapper 161"@,
        162 => "Mapper 162 - Wàixīng"@,
        163 => "Mapper 163 - Nánjīng"@,
        164 => "Mapper 164 - Dōngdá/Yànchéng"@,
        165 => "Mapper 165 - MMC3"@,
        166 => "Mapper 166 - Subor"@,
        167 => "Mapper 167 - Subor"@,
        168 => "Mapper 168 - Racermate"@,
        169 => "Mapper 169 - Yuxing"@,
        170 => "Mapper 170"@,
        171 => "Mapper 171 - Kaiser KS-7058"@,
        172 => "Mapper 172"@,
        173 => "Mapper 173"@,
        174 => "Mapper 174"@,
        175 => "Mapper 175 - Kaiser KS-7022"@,
        176 => "Mapper 176 - MMC3"@,
        177 => "Mapper 177 - Hénggé Diànzǐ"@,
        178 => "Mapper 178"@,
        179 => "Mapper 179"@,
        180 => "Mapper 180 - UNROM"@,
        181 => "Mapper 181"@,
        182 => "Mapper 182 - MMC3"@,
        183 => "Mapper 183"@,
        184 => "Mapper 184 - Sunsoft"@,
        185 => "Mapper 185 - CNROM"@,
        186 => "Mapper 186"@,
        187 => "Mapper 187 - Kǎshèng/MMC3"@,
        188 => "Mapper 188 - Bandai Karaoke"@,
        189 => "Mapper 189 - MMC3"@,
        190 => "Mapper 190 -"@,
        191 => "Mapper 191 - MMC3"@,
        192 => "Mapper 192 - Wàixīng"@,
        193 => "Mapper 193 - NTDEC TC-112"@,
        194 => "Mapper 194 - MMC3"@,
        195 => "Mapper 195 - Wàixīng/MMC3"@,
        196 => "Mapper 196 - MMC3"@,
        197 => "Mapper 197 - MMC3"@,
        198 => "Mapper 198 - MMC3"@,
        199 => "Mapper 199 - Wàixīng/MMC3"@,
        200 => "Mapper 200"@,
        201 => "Mapper 201 - NROM"@,
        202 => "Mapper 202"@,
        203 => "Mapper 203"@,
        204 => "Mapper 204"@,
        205 => "Mapper 205 - MMC3"@,
        206 => "Mapper 206 - DxROM"@,
        207 => "Mapper 207 - Taito X1-005"@,
        208 => "Mapper 208 - MMC3"@,
        209 => "Mapper 209 - JY Company"@,
        210 => "Mapper 210 - Namco"@,
        211 => "Mapper 211 - JyCompany"@,
        212 => "Mapper 212"@,
        213 => "Mapper 213"@,
        214 => "Mapper 214"@,
        215 => "Mapper 215 - MMC3"@,
        216 => "Mapper 216"@,
        217 => "Mapper 217 - MMC3"@,
        218 => "Mapper 218"@,
        219 => "Mapper 219 - Kǎshèng/MMC3"@,
        220 => "Mapper 220"@,
        221 => "Mapper 221 - NTDEC N625092"@,
        222 => "Mapper 222"@,
        223 => "Mapper 223"@,
        224 => "Mapper 224 - Jncota/MMC3"@,
        225 => "Mapper 225"@,
        226 => "Mapper 226"@,
        227 => "Mapper 227"@,
        228 => "Mapper 228- Active Enterprises"@,
        229 => "Mapper 229"@,
        230 => "Mapper 230"@,
        231 => "Mapper 231"@,
        232 => "Mapper 232 - BF909x"@,
        233 => "Mapper 233"@,
        234 => "Mapper 234 - Maxi 15 Multicart"@,
        235 => "Mapper 235"@,
        236 => "Mapper 236 - Realtec"@,
        237 => "Mapper 237"@,
        238 => "Mapper 238 - MMC3"@,
        239 => "Mapper 239"@,
        240 => "Mapper 240"@,
        241 => "Mapper 241 - BxROM"@,
        242 => "Mapper 242"@,
        243 => "Mapper 243 - Sachen SA-020A"@,
        244 => "Mapper 244"@,
        245 => "Mapper 245 - Wàixīng/MMC3"@,
        246 => "Mapper 246"@,
        247 => "Mapper 247"@,
        248 => "Mapper 248"@,
        249 => "Mapper 249 - MMC3"@,
        250 => "Mapper 250 - Nitra/MMC3"@,
        251 => "Mapper 251"@,
        252 => "Mapper 252 - Wàixīng"@,
        253 => "Mapper 253 - Wàixīng"@,
        254 => "Mapper 254 - MMC3"@,
        255 => "Mapper 255"@,
        _ => "Invalid Mapper"@,
    }
}

impl NesHeader {
    /// Load `NesHeader` from the first sixteen bytes of ROM data.
    ///
    /// # Errors
    ///
    /// If there are fewer than sixteen bytes, or they are not a header this crate can load.
    pub fn load(rom_data: &[u8]) -> (r: Result<Self, Error>)
        ensures
            match r {
                Ok(h) => header_verdict(rom_data@) == Ok::<NesHeader, (u8, u8)>(h),
                Err(Error::InvalidHeader { byte, value, message }) => header_verdict(rom_data@) == Err::<NesHeader, (u8, u8)>((byte, value))
                    && message@ == header_message(rom_data@),
                Err(Error::Io { .. }) => false,
            },
    {
        if rom_data.len() < 16 {
            return Err(Error::InvalidHeader { byte: 0, value: 0, message: String::from_str("expected 16-byte header") });
        }
        let h = rom_data;
        if !(h[0] == 0x4E && h[1] == 0x45 && h[2] == 0x53 && h[3] == 0x1A) {
            return Err(Error::InvalidHeader { byte: 0, value: h[0], message: String::from_str("nes header signature not found") });
        }
        if (h[7] & 0x0C) == 0x04 {
            return Err(Error::InvalidHeader {
                byte: 7,
                value: h[7],
                message: String::from_str("header is corrupted by `DiskDude!`. repair and try again"),
            });
        }
        if (h[7] & 0x0C) == 0x0C {
            return Err(Error::InvalidHeader {
                byte: 7,
                value: h[7],
                message: String::from_str("unrecognized header format. repair and try again"),
            });
        }
        let mut prg_rom_banks = h[4] as u16;
        let mut chr_rom_banks = h[5] as u16;
        // Upper 4 bits of flags 6 = D0..D3 and 7 = D4..D7
        let mut mapper_num = (((h[6] & 0xF0) >> 4) | (h[7] & 0xF0)) as u16;
        // Lower 4 bits of flag 6 = D0..D3, upper 4 bits of flag 7 = D4..D7
        let flags = (h[6] & 0x0F) | ((h[7] & 0x0F) << 4);
        let mut submapper_num: u8 = 0;
        let mut prg_ram_shift: u8 = 0;
        let mut chr_ram_shift: u8 = 0;
        let mut tv_mode: u8 = 0;
        let mut vs_data: u8 = 0;
        // A DiskDude-corrupted byte 7 is refused above, so no header reaches the archaic layout.
        let b7 = h[7];
        assert(b7 & 0x0C == 0 || b7 & 0x0C == 4 || b7 & 0x0C == 8 || b7 & 0x0C == 12) by (bit_vector);
        let variant = if h[7] & 0x0C == 0x08 {
            mapper_num = mapper_num | (((h[8] & 0x0F) as u16) << 8);
            submapper_num = (h[8] & 0xF0) >> 4;
            prg_rom_banks = prg_rom_banks | (((h[9] & 0x0F) as u16) << 8);
            chr_rom_banks = chr_rom_banks | (((h[9] & 0xF0) as u16) << 4);
            prg_ram_shift = h[10];
            chr_ram_shift = h[11];
            tv_mode = h[12];
            vs_data = h[13];
            if prg_ram_shift & 0x0F == 0x0F || prg_ram_shift & 0xF0 == 0xF0 {
                return Err(Error::InvalidHeader { byte: 10, value: prg_ram_shift, message: String::from_str("invalid prg-ram size in header") });
            }
            if chr_ram_shift & 0x0F == 0x0F || chr_ram_shift & 0xF0 == 0xF0 {
                return Err(Error::InvalidHeader { byte: 11, value: chr_ram_shift, message: String::from_str("invalid chr-ram size in header") });
            }
            NesVariant::Nes2
        } else if h[7] & 0x0C == 0 && h[12] == 0 && h[13] == 0 && h[14] == 0 && h[15] == 0 {
            NesVariant::INes
        } else {
            NesVariant::INes07
        };
        if flags & 0x04 == 0x04 {
            return Err(Error::InvalidHeader { byte: 6, value: h[6], message: String::from_str("trained roms are currently not supported.") });
        }
        Ok(NesHeader {
            variant,
            mapper_num,
            submapper_num,
            flags,
            prg_rom_banks,
            chr_rom_banks,
            prg_ram_shift,
            chr_ram_shift,
            tv_mode,
            vs_data,
        })
    }

    /// The board name conventionally associated with a mapper number, for display.
    pub fn mapper_board(mapper_num: u16) -> (name: &'static str)
        ensures
            name@ == board_name(mapper_num),
    {
        match mapper_num {
            0 => "Mapper 000 - NROM",
            1 => "Mapper 001 - SxROM/MMC1B/C",
            2 => "Mapper 002 - UxROM",
            3 => "Mapper 003 - CNROM",
            4 => "Mapper 004 - TxROM/MMC3/MMC6",
            5 => "Mapper 005 - ExROM/MMC5",
            6 => "Mapper 006 - FFE 1M/2M",
            7 => "Mapper 007 - AxROM",
            8 => "Mapper 008 - FFE 1M/2M",
            9 => "Mapper 009 - PxROM/MMC2",
            10 => "Mapper 010 - FxROM/MMC4",
            11 => "Mapper 011 - Color Dreams",
            12 => "Mapper 012 - Gouder/FFE 4M/MMC3",
            13 => "Mapper 013 - CPROM",
            14 => "Mapper 014 - UNL SL1632",
            15 => "Mapper 015 - K1029/30",
            16 => "Mapper 016 - Bandai FCG",
            17 => "Mapper 017 - FFE",
            18 => "Mapper 018 - Jaleco SS 88006",
            19 => "Mapper 019 - Namco 129/163",
            20 => "Mapper 020 - FDS",
            21 => "Mapper 021 - Vrc4a/Vrc4c",
            22 => "Mapper 022 - Vrc2a",
            23 => "Mapper 023 - Vrc4e",
            24 => "Mapper 024 - Vrc6a",
            25 => "Mapper 025 - Vrc4b",
            26 => "Mapper 026 - Vrc6b",
            27 => "Mapper 027 - Vrc4x",
            28 => "Mapper 028 - Action 53",
            29 => "Mapper 029 - Sealie Computing",
            30 => "Mapper 030 - UNROM 512",
            31 => "Mapper 031 - NSF",
            32 => "Mapper 032 - Irem G101",
            33 => "Mapper 033 - Taito TC0190",
            34 => "Mapper 034 - BNROM/NINA-001",
            35 => "Mapper 035 - JY Company",
            36 => "Mapper 036 - TXC 22000",
            37 => "Mapper 037 - MMC3 Multicart",
            38 => "Mapper 038 - UNL PCI556",
            39 => "Mapper 039 - Subor",
            40 => "Mapper 040 - NTDEC 2722",
            41 => "Mapper 041 - Caltron 6-in-1",
            42 => "Mapper 042",
            43 => "Mapper 043 - TONY-I/YS-612",
            44 => "Mapper 044 - MMC3 Multicart",
            45 => "Mapper 045 - MMC3 Multicart",
            46 => "Mapper 046 - Color Dreams",
            47 => "Mapper 047 - MMC3 Multicart",
            48 => "Mapper 048 - Taito TC0690",
            49 => "Mapper 049 - MMC Multicart",
            50 => "Mapper 050",
            51 => "Mapper 051",
            52 => "Mapper 052 - Realtec 8213/MMC Multicaart",
            53 => "Mapper 053 - Supervision",
            54 => "Mapper 054 - Novel Diamond",
            55 => "Mapper 055 - UNIF BTL-MARIO1-MALEE2",
            56 => "Mapper 056",
            57 => "Mapper 057",
            58 => "Mapper 058",
            59 => "Mapper 059 - BMC T3H53/D1038",
            60 => "Mapper 060",
            61 => "Mapper 061",
            62 => "Mapper 062",
            63 => "Mapper 063",
            64 => "Mapper 064 - RAMBO-1",
            65 => "Mapper 065 - Irem H3001",
            66 => "Mapper 066 - GxROM/MxROM",
            67 => "Mapper 067 - Sunsoft-3",
            68 => "Mapper 068 - Sunsoft-4",
            69 => "Mapper 069 - Sunsoft FME-7",
            70 => "Mapper 070 - Bandai",
            71 => "Mapper 071 - BF909x",
            72 => "Mapper 072 - Jaleco JF-17",
            73 => "Mapper 073 - Vrc3",
            74 => "Mapper 074",
            75 => "Mapper 075 - Vrc1",
            76 => "Mapper 076 - NAMCOT-108",
            77 => "Mapper 077",
            78 => "Mapper 078",
            79 => "Mapper 079 - NINA-03/06",
            80 => "Mapper 080 - Taito X1005",
            81 => "Mapper 081 - NTDEC 715021",
            82 => "Mapper 082 - Taito X1017",
            83 => "Mapper 083",
            84 => "Mapper 084",
            85 => "Mapper 085 - Vrc7",
            86 => "Mapper 086 - Jaleco JF-13",
            87 => "Mapper 087 - Jaleco JF-xx",
            88 => "Mapper 088",
            89 => "Mapper 089 - Sunsoft",
            90 => "Mapper 090 - JY Company",
            91 => "Mapper 091",
            92 => "Mapper 092",
            93 => "Mapper 093 - Sunsoft",
            94 => "Mapper 094 - UxROM",
            95 => "Mapper 095 - NAMCOT-3425",
            96 => "Mapper 096 - Oeka Kids",
            97 => "Mapper 097 - Irem TAM-S1",
            98 => "Mapper 098",
            99 => "Mapper 099 - Vs. System",
            100 => "Mapper 100",
            101 => "Mapper 101 - Jaleco JF-10",
            102 => "Mapper 102",
            103 => "Mapper 103",
            104 => "Mapper 104 - Golden Five",
            105 => "Mapper 105 - MMC1",
            106 => "Mapper 106",
            107 => "Mapper 107",
            108 => "Mapper 108",
            109 => "Mapper 109",
            110 => "Mapper 110",
            111 => "Mapper 111 - GTROM",
            112 => "Mapper 112",
            113 => "Mapper 113 - NINA-03/06",
            114 => "Mapper 114 - MMC3",
            115 => "Mapper 115 - MMC3",
            116 => "Mapper 116 - SOMARI-P",
            117 => "Mapper 117",
            118 => "Mapper 118 - TxSROM",
            119 => "Mapper 119 - TQROM",
            120 => "Mapper 120",
            121 => "Mapper 121 - MMC3",
            122 => "Mapper 122",
            123 => "Mapper 123 - MMC3",
            124 => "Mapper 124",
            125 => "Mapper 125 - UNL-LH32",
            126 => "Mapper 126 - MMC36",
            127 => "Mapper 127",
            128 => "Mapper 128",
            129 => "Mapper 129",
            130 => "Mapper 130",
            131 => "Mapper 131",
            132 => "Mapper 132 - TXC",
            133 => "Mapper 133 - Sachen 3009",
            134 => "Mapper 134 - MMC3",
            135 => "Mapper 135 - Sachen 8259A",
            136 => "Mapper 136 - Sachen 3011",
            137 => "Mapper 137 - Sachen 8259D",
            138 => "Mapper 138 - Sachen 8259B",
            139 => "Mapper 139 - Sachen 8259C",
            140 => "Mapper 140 - Jaleco JF-11/14",
            141 => "Mapper 141 - Sachen 8259A",
            142 => "Mapper 142 - Kaiser KS-7032",
            143 => "Mapper 143 - NROM",
            144 => "Mapper 144 - Color Dreams",
            145 => "Mapper 145 - Sachen SA-72007",
            146 => "Mapper 146 - NINA-03/06",
            147 => "Mapper 147 - Sachen 3018",
            148 => "Mapper 148 - Sachen SA-008-A/Tengen 800008",
            149 => "Mapper 149 - Sachen SA-0036",
            150 => "Mapper 150 - Sach SA-015/630",
            151 => "Mapper 151 - Vrc1",
            152 => "Mapper 152",
            153 => "Mapper 153 - Bandai FCG",
            154 => "Mapper 154 - NAMCOT-3453",
            155 => "Mapper 155 - SxROM/MMC1A",
            156 => "Mapper 156 - Daou",
            157 => "Mapper 157 - Bandai FCG",
            158 => "Mapper 158 - Tengen 800037",
            159 => "Mapper 159 - Bandai FCG",
            160 => "Mapper 160",
            161 => "Mapper 161",
            162 => "Mapper 162 - Wàixīng",
            163 => "Mapper 163 - Nánjīng",
            164 => "Mapper 164 - Dōngdá/Yànchéng",
            165 => "Mapper 165 - MMC3",
            166 => "Mapper 166 - Subor",
            167 => "Mapper 167 - Subor",
            168 => "Mapper 168 - Racermate",
            169 => "Mapper 169 - Yuxing",
            170 => "Mapper 170",
            171 => "Mapper 171 - Kaiser KS-7058",
            172 => "Mapper 172",
            173 => "Mapper 173",
            174 => "Mapper 174",
            175 => "Mapper 175 - Kaiser KS-7022",
            176 => "Mapper 176 - MMC3",
            177 => "Mapper 177 - Hénggé Diànzǐ",
            178 => "Mapper 178",
            179 => "Mapper 179",
            180 => "Mapper 180 - UNROM",
            181 => "Mapper 181",
            182 => "Mapper 182 - MMC3",
            183 => "Mapper 183",
            184 => "Mapper 184 - Sunsoft",
            185 => "Mapper 185 - CNROM",
            186 => "Mapper 186",
            187 => "Mapper 187 - Kǎshèng/MMC3",
            188 => "Mapper 188 - Bandai Karaoke",
            189 => "Mapper 189 - MMC3",
            190 => "Mapper 190 -",
            191 => "Mapper 191 - MMC3",
            192 => "Mapper 192 - Wàixīng",
            193 => "Mapper 193 - NTDEC TC-112",
            194 => "Mapper 194 - MMC3",
            195 => "Mapper 195 - Wàixīng/MMC3",
            196 => "Mapper 196 - MMC3",
            197 => "Mapper 197 - MMC3",
            198 => "Mapper 198 - MMC3",
            199 => "Mapper 199 - Wàixīng/MMC3",
            200 => "Mapper 200",
            201 => "Mapper 201 - NROM",
            202 => "Mapper 202",
            203 => "Mapper 203",
            204 => "Mapper 204",
            205 => "Mapper 205 - MMC3",
            206 => "Mapper 206 - DxROM",
            207 => "Mapper 207 - Taito X1-005",
            208 => "Mapper 208 - MMC3",
            209 => "Mapper 209 - JY Company",
            210 => "Mapper 210 - Namco",
            211 => "Mapper 211 - JyCompany",
            212 => "Mapper 212",
            213 => "Mapper 213",
            214 => "Mapper 214",
            215 => "Mapper 215 - MMC3",
            216 => "Mapper 216",
            217 => "Mapper 217 - MMC3",
            218 => "Mapper 218",
            219 => "Mapper 219 - Kǎshèng/MMC3",
            220 => "Mapper 220",
            221 => "Mapper 221 - NTDEC N625092",
            222 => "Mapper 222",
            223 => "Mapper 223",
            224 => "Mapper 224 - Jncota/MMC3",
            225 => "Mapper 225",
            226 => "Mapper 226",
            227 => "Mapper 227",
            228 => "Mapper 228- Active Enterprises",
            229 => "Mapper 229",
            230 => "Mapper 230",
            231 => "Mapper 231",
            232 => "Mapper 232 - BF909x",
            233 => "Mapper 233",
            234 => "Mapper 234 - Maxi 15 Multicart",
            235 => "Mapper 235",
            236 => "Mapper 236 - Realtec",
            237 => "Mapper 237",
            238 => "Mapper 238 - MMC3",
            239 => "Mapper 239",
            240 => "Mapper 240",
            241 => "Mapper 241 - BxROM",
            242 => "Mapper 242",
            243 => "Mapper 243 - Sachen SA-020A",
            244 => "Mapper 244",
            245 => "Mapper 245 - Wàixīng/MMC3",
            246 => "Mapper 246",
            247 => "Mapper 247",
            248 => "Mapper 248",
            249 => "Mapper 249 - MMC3",
            250 => "Mapper 250 - Nitra/MMC3",
            251 => "Mapper 251",
            252 => "Mapper 252 - Wàixīng",
            253 => "Mapper 253 - Wàixīng",
            254 => "Mapper 254 - MMC3",
            255 => "Mapper 255",
            _ => "Invalid Mapper",
        }
    }
}

/// What the bundled game database knows about a ROM, matched by CRC32. A fair number of ROMs
/// carry a header that is wrong about their board, region or submapper; an entry overrides it.
#[derive(Debug, Copy, Clone, PartialEq, Eq)]
pub struct GameInfo {
    /// CRC32 of the ROM's PRG and CHR data, which is what the database is keyed by.
    pub crc32: u32,
    /// The region the database says this ROM runs in.
    pub region: NesRegion,
    /// The mapper number the database says this ROM uses, overriding a wrong header.
    pub mapper_num: u16,
    /// The submapper number the database says this ROM uses.
    pub submapper_num: u8,
}

/// Whether the database entries are in order of CRC, as the shipped database is.
pub open spec fn sorted_by_crc(games: Seq<GameInfo>) -> bool {
    forall|i: int, j: int| 0 <= i <= j < games.len() ==> games[i].crc32 <= games[j].crc32
}

/// Whether `found` is what a search of `games` for `crc32` may answer: an entry with that CRC,
/// or nothing when there is none.
pub open spec fn is_lookup(games: Seq<GameInfo>, crc32: u32, found: Option<GameInfo>) -> bool {
    match found {
        Some(g) => g.crc32 == crc32 && games.contains(g),
        None => forall|i: int| 0 <= i < games.len() ==> games[i].crc32 != crc32,
    }
}

/// `2` to the power `n`.
pub open spec fn two_pow(n: nat) -> nat
    decreases n,
{
    if n == 0 { 1 } else { 2 * two_pow((n - 1) as nat) }
}

/// The bytes a NES 2.0 RAM shift asks for: none for 0, else `64 << shift`.
pub open spec fn shift_size(shift: u8) -> nat {
    if shift == 0 { 0 } else { 64 * two_pow(shift as nat) }
}

/// Total RAM a NES 2.0 size byte asks for: the volatile (low nibble) and battery-backed (high
/// nibble) shifts, summed.
pub open spec fn ram_size(byte: u8) -> nat {
    shift_size(byte & 0x0F) + shift_size(byte >> 4u8)
}

/// The region a cart runs in: an iNES or NES 2.0 header's TV mode names PAL or Dendy, and
/// otherwise the database, or NTSC when it does not know the ROM.
pub open spec fn cart_region(header: NesHeader, game_info: Option<GameInfo>) -> NesRegion {
    let fallback = match game_info {
        Some(info) => info.region,
        None => NesRegion::Ntsc,
    };
    if header.variant == NesVariant::INes || header.variant == NesVariant::Nes2 {
        if header.tv_mode == 1 {
            NesRegion::Pal
        } else if header.tv_mode == 3 {
            NesRegion::Dendy
        } else {
            fallback
        }
    } else {
        fallback
    }
}

/// The name of a mirroring mode, as its variant is written.
pub open spec fn mirroring_name(m: Mirroring) -> Seq<char> {
    match m {
        Mirroring::Horizontal => "Horizontal"@,
        Mirroring::Vertical => "Vertical"@,
        Mirroring::FourScreen => "FourScreen"@,
    }
}

impl Mirroring {
    /// The name of the mode, as its variant is written.
    pub fn name(&self) -> (s: &'static str)
        ensures
            s@ == mirroring_name(*self),
    {
        match self {
            Mirroring::Horizontal => "Horizontal",
            Mirroring::Vertical => "Vertical",
            Mirroring::FourScreen => "FourScreen",
        }
    }
}

/// An NES cartridge: its header, its ROM, and what the game database knows about it.
#[derive(Debug)]
pub struct Cart {
    /// The ROM's name, taken from the path it was loaded from.
    pub name: String,
    /// The iNES/NES 2.0 header it was built from.
    pub header: NesHeader,
    /// The region the cart runs in.
    pub region: NesRegion,
    /// How the cart's RAM is initialised at power-on.
    pub ram_state: RamState,
    /// Bytes of CHR-ROM; 0 for a cart with CHR-RAM instead.
    pub chr_rom_size: usize,
    /// Bytes of CHR-RAM; 0 for a cart with CHR-ROM instead. A cart without CHR-ROM whose header
    /// gives no CHR-RAM size has the default `DEFAULT_CHR_RAM_SIZE`.
    pub chr_ram_size: usize,
    /// Bytes of PRG-ROM.
    pub prg_rom_size: usize,
    /// Bytes of PRG-RAM, battery-backed or not.
    pub prg_ram_size: usize,
    /// What the game database knows about this ROM, matched by CRC.
    pub game_info: Option<GameInfo>,
    /// CRC32 of the ROM itself, PRG then CHR, which identifies the game.
    pub rom_crc32: u32,
    /// The PRG-ROM, exactly as the file contained it.
    pub prg_rom: Vec<u8>,
    /// The CHR-ROM, exactly as the file contained it; empty for a CHR-RAM cart.
    pub chr_rom: Vec<u8>,
}

impl Cart {
    /// The nametable mirroring the header asks for.
    pub open spec fn spec_mirroring(&self) -> Mirroring {
        if self.header.flags & 0x08 == 0x08 {
            Mirroring::FourScreen
        } else if self.header.flags & 0x01 == 0 {
            Mirroring::Horizontal
        } else {
            Mirroring::Vertical
        }
    }

    /// The cart as a one-line summary: name, board, memory sizes in KiB, mirroring and battery.
    pub open spec fn spec_summary(&self) -> Seq<char> {
        self.name@ + " - "@ + board_name(self.spec_mapper_num())
            + ", CHR-ROM: "@ + digits((self.chr_rom_size / 0x0400) as nat, 10, true)
            + "K, CHR-RAM: "@ + digits((self.chr_ram_size / 0x0400) as nat, 10, true)
            + "K, PRG-ROM: "@ + digits((self.prg_rom_size / 0x0400) as nat, 10, true)
            + "K, PRG-RAM: "@ + digits((self.prg_ram_size / 0x0400) as nat, 10, true)
            + "K, Mirroring: "@ + mirroring_name(self.spec_mirroring())
            + ", Battery: "@ + if self.header.flags & 0x02 == 0x02 { "true"@ } else { "false"@ }
    }

    /// The cart's PRG-ROM.
    pub open spec fn spec_prg_rom(&self) -> Seq<u8> {
        self.prg_rom@
    }

    /// The cart's CHR-ROM.
    pub open spec fn spec_chr_rom(&self) -> Seq<u8> {
        self.chr_rom@
    }

    /// The mapper number the cart uses: the database's, else the header's.
    pub open spec fn spec_mapper_num(&self) -> u16 {
        match self.game_info {
            Some(info) => info.mapper_num,
            None => self.header.mapper_num,
        }
    }

    /// Creates a cart with one PRG-ROM bank and one CHR-ROM bank of zeros, and no board.
    pub fn empty() -> (c: Self)
        ensures
            c.prg_rom_size == PRG_ROM_BANK_SIZE,
            c.chr_rom_size == CHR_ROM_BANK_SIZE,
            c.chr_ram_size == 0,
            c.spec_prg_rom() == Seq::new(PRG_ROM_BANK_SIZE as nat, |i: int| 0u8),
            c.spec_chr_rom() == Seq::new(CHR_ROM_BANK_SIZE as nat, |i: int| 0u8),
    {
        Self::empty_sized(PRG_ROM_BANK_SIZE, CHR_ROM_BANK_SIZE)
    }

    /// An empty `Cart` with the given ROM sizes, zeroed. A `chr_rom_size` of zero yields CHR-RAM
    /// instead.
    pub fn empty_sized(prg_rom_size: usize, chr_rom_size: usize) -> (c: Self)
        ensures
            c.name@ == "Empty Cart"@,
            c.header == blank_header(),
            c.region == NesRegion::Ntsc,
            c.ram_state == RamState::AllZeros,
            c.prg_rom_size == prg_rom_size,
            c.chr_rom_size == chr_rom_size,
            c.chr_ram_size == if chr_rom_size == 0 { DEFAULT_CHR_RAM_SIZE } else { 0 },
            c.prg_ram_size == 0,
            c.game_info is None,
            c.spec_prg_rom() == Seq::new(prg_rom_size as nat, |i: int| 0u8),
            c.spec_chr_rom() == Seq::new(chr_rom_size as nat, |i: int| 0u8),
    {
        let chr_ram_size = if chr_rom_size == 0 { DEFAULT_CHR_RAM_SIZE } else { 0 };
        let prg_rom = zeroed(prg_rom_size);
        let chr_rom = zeroed(chr_rom_size);
        Self {
            name: String::from_str("Empty Cart"),
            header: NesHeader::default(),
            region: NesRegion::Ntsc,
            ram_state: RamState::AllZeros,
            chr_rom_size,
            chr_ram_size,
            prg_rom_size,
            prg_ram_size: 0,
            game_info: None,
            rom_crc32: 0,
            prg_rom,
            chr_rom,
        }
    }

    /// Load a cart's ROM and metadata from `rom_data`, the contents of an iNES or NES 2.0 file,
    /// without selecting a board. `game_db` is the game database, in order of CRC.
    ///
    /// # Errors
    ///
    /// If the NES header is invalid, or the ROM data is shorter than the header says.
    pub fn from_rom_unmapped(name: String, rom_data: &[u8], ram_state: RamState, game_db: &[GameInfo]) -> (r: Result<Self, Error>)
        requires
            sorted_by_crc(game_db@),
        ensures
            match header_verdict(rom_data@) {
                Err((byte, value)) => r matches Err(Error::InvalidHeader { byte: b, value: v, message: m })
                    && b == byte && v == value && m@ == header_message(rom_data@),
                Ok(h) => {
                    let prg = h.prg_rom_banks * PRG_ROM_BANK_SIZE;
                    let chr = h.chr_rom_banks * CHR_ROM_BANK_SIZE;
                    if rom_data@.len() < 16 + prg {
                        r matches Err(Error::InvalidHeader { byte: b, value: v, .. }) && b == 4 && v == h.prg_rom_banks as u8
                    } else if chr > 0 && rom_data@.len() < 16 + prg + chr {
                        r matches Err(Error::InvalidHeader { byte: b, value: v, .. }) && b == 5 && v == h.chr_rom_banks as u8
                    } else {
                        r matches Ok(c) && {
                            &&& c.name@ == name@
                            &&& c.header == h
                            &&& c.ram_state == ram_state
                            &&& c.prg_rom_size == prg
                            &&& c.chr_rom_size == chr
                            &&& c.spec_prg_rom() == rom_data@.subrange(16, 16 + prg)
                            &&& c.spec_chr_rom() == rom_data@.subrange(16 + prg, 16 + prg + chr)
                            &&& c.prg_ram_size == ram_size(h.prg_ram_shift)
                            &&& c.chr_ram_size == if chr > 0 {
                                0
                            } else if ram_size(h.chr_ram_shift) == 0 {
                                DEFAULT_CHR_RAM_SIZE as nat
                            } else {
                                ram_size(h.chr_ram_shift)
                            }
                            &&& c.rom_crc32 == crc32_continued(0, c.spec_prg_rom() + c.spec_chr_rom())
                            &&& is_lookup(game_db@, c.rom_crc32, c.game_info)
                            &&& c.region == cart_region(h, c.game_info)
                        }
                    }
                },
            },
    {
        let header = match NesHeader::load(rom_data) {
            Ok(h) => h,
            Err(e) => return Err(e),
        };
        let prg_rom_size = (header.prg_rom_banks as usize) * PRG_ROM_BANK_SIZE;
        if rom_data.len() - 16 < prg_rom_size {
            let mut message = String::from_str("expected `");
            push_number(&mut message, header.prg_rom_banks as u64, 10, true, 0);
            message.append("` prg-rom banks (");
            push_number(&mut message, prg_rom_size as u64, 10, true, 0);
            message.append(" total bytes)");
            return Err(Error::InvalidHeader { byte: 4, value: header.prg_rom_banks as u8, message });
        }
        let prg_rom = copied(rom_data, 16, 16 + prg_rom_size);
        let prg_ram_size = match Self::calculate_ram_size(header.prg_ram_shift, 10) {
            Ok(size) => size,
            Err(e) => return Err(e),
        };
        let chr_rom_size = (header.chr_rom_banks as usize) * CHR_ROM_BANK_SIZE;
        if chr_rom_size > 0 && rom_data.len() - 16 - prg_rom_size < chr_rom_size {
            let mut message = String::from_str("expected `");
            push_number(&mut message, header.chr_rom_banks as u64, 10, true, 0);
            message.append("` chr-rom banks (");
            push_number(&mut message, prg_rom_size as u64, 10, true, 0);
            message.append(" total bytes)");
            return Err(Error::InvalidHeader { byte: 5, value: header.chr_rom_banks as u8, message });
        }
        let chr_rom = if chr_rom_size > 0 {
            copied(rom_data, 16 + prg_rom_size, 16 + prg_rom_size + chr_rom_size)
        } else {
            Vec::new()
        };
        let chr_ram_size = if chr_rom_size > 0 {
            0
        } else {
            match Self::calculate_ram_size(header.chr_ram_shift, 11) {
                Ok(size) => if size == 0 { DEFAULT_CHR_RAM_SIZE } else { size },
                Err(e) => return Err(e),
            }
        };
        proof {
            assert(chr_rom_size == 0 ==> chr_rom@ =~= rom_data@.subrange(16 + prg_rom_size, 16 + prg_rom_size + chr_rom_size));
        }
        let crc32 = Self::rom_crc32(prg_rom.as_slice(), chr_rom.as_slice());
        let game_info = lookup_info(game_db, crc32);
        let fallback = match game_info {
            Some(info) => info.region,
            None => NesRegion::Ntsc,
        };
        let region = match header.variant {
            NesVariant::INes | NesVariant::Nes2 => {
                if header.tv_mode == 1 {
                    NesRegion::Pal
                } else if header.tv_mode == 3 {
                    NesRegion::Dendy
                } else {
                    fallback
                }
            },
            _ => fallback,
        };
        Ok(Self {
            name,
            header,
            region,
            ram_state,
            chr_rom_size,
            chr_ram_size,
            prg_rom_size,
            prg_ram_size,
            game_info,
            rom_crc32: crc32,
            prg_rom,
            chr_rom,
        })
    }

    /// Total RAM a NES 2.0 size byte asks for, volatile plus battery-backed.
    ///
    /// Each nibble is its own shift, where the size is `64 << shift` and 0 means none; the two
    /// are summed because a board gets one region per kind rather than one per volatility.
    fn calculate_ram_size(byte: u8, header_byte: u8) -> (r: Result<usize, Error>)
        ensures
            r matches Ok(size) && size == ram_size(byte),
    {
        let low = byte & 0x0F;
        let high = byte >> 4;
        assert(low < 16 && high < 16) by (bit_vector)
            requires
                low == byte & 0x0F,
                high == byte >> 4u8,
        ;
        let volatile = if low == 0 { 0 } else { shifted_size(low) };
        let non_volatile = if high == 0 { 0 } else { shifted_size(high) };
        Ok(volatile + non_volatile)
    }

    /// CRC32 of the ROM itself: PRG-ROM, plus CHR-ROM when the cart has any.
    fn rom_crc32(prg_rom: &[u8], chr_rom: &[u8]) -> (crc: u32)
        ensures
            crc == crc32_continued(0, prg_rom@ + chr_rom@),
    {
        let crc32 = compute_crc32(prg_rom);
        if chr_rom.len() == 0 {
            proof {
                assert(prg_rom@ + chr_rom@ =~= prg_rom@);
            }
            crc32
        } else {
            proof {
                lemma_crc32_combines(0, prg_rom@, chr_rom@);
            }
            compute_combine_crc32(crc32, chr_rom)
        }
    }

    /// The ROM's name.
    pub fn name(&self) -> (n: &str)
        ensures
            n@ == self.name@,
    {
        self.name.as_str()
    }

    /// Whether the header is iNES rather than NES 2.0.
    pub fn is_ines(&self) -> (b: bool)
        ensures
            b == (self.header.variant != NesVariant::Nes2),
    {
        match self.header.variant {
            NesVariant::ArchaicINes | NesVariant::INes07 | NesVariant::INes => true,
            NesVariant::Nes2 => false,
        }
    }

    /// Whether the header is NES 2.0.
    pub fn is_nes2(&self) -> (b: bool)
        ensures
            b == (self.header.variant == NesVariant::Nes2),
    {
        match self.header.variant {
            NesVariant::Nes2 => true,
            _ => false,
        }
    }

    /// Whether this cartridge has battery-backed Save RAM.
    pub fn battery_backed(&self) -> (b: bool)
        ensures
            b == (self.header.flags & 0x02 == 0x02),
    {
        self.header.flags & 0x02 == 0x02
    }

    /// The nametable mirroring the cart is wired for.
    pub fn mirroring(&self) -> (m: Mirroring)
        ensures
            m == if self.header.flags & 0x08 == 0x08 {
                Mirroring::FourScreen
            } else if self.header.flags & 0x01 == 0 {
                Mirroring::Horizontal
            } else {
                Mirroring::Vertical
            },
    {
        if self.header.flags & 0x08 == 0x08 {
            Mirroring::FourScreen
        } else if self.header.flags & 0x01 == 0 {
            Mirroring::Horizontal
        } else {
            Mirroring::Vertical
        }
    }

    /// The mapper number for this cart: the database's, else the header's.
    pub fn mapper_num(&self) -> (n: u16)
        ensures
            n == self.spec_mapper_num(),
    {
        match self.game_info {
            Some(info) => info.mapper_num,
            None => self.header.mapper_num,
        }
    }

    /// The submapper number for this cart: the database's, else the header's.
    pub fn submapper_num(&self) -> (n: u8)
        ensures
            n == match self.game_info {
                Some(info) => info.submapper_num,
                None => self.header.submapper_num,
            },
    {
        match self.game_info {
            Some(info) => info.submapper_num,
            None => self.header.submapper_num,
        }
    }

    /// The mapper and board name for this cart.
    pub fn mapper_board(&self) -> (name: &'static str)
        ensures
            name@ == board_name(self.spec_mapper_num()),
    {
        NesHeader::mapper_board(self.mapper_num())
    }

    /// The cart as a one-line summary: name, board, memory sizes in KiB, mirroring and battery.
    pub fn summary(&self) -> (s: String)
        ensures
            s@ == self.spec_summary(),
    {
        let mut s = String::from_str(self.name.as_str());
        s.append(" - ");
        s.append(self.mapper_board());
        s.append(", CHR-ROM: ");
        push_number(&mut s, (self.chr_rom_size / 0x0400) as u64, 10, true, 0);
        s.append("K, CHR-RAM: ");
        push_number(&mut s, (self.chr_ram_size / 0x0400) as u64, 10, true, 0);
        s.append("K, PRG-ROM: ");
        push_number(&mut s, (self.prg_rom_size / 0x0400) as u64, 10, true, 0);
        s.append("K, PRG-RAM: ");
        push_number(&mut s, (self.prg_ram_size / 0x0400) as u64, 10, true, 0);
        s.append("K, Mirroring: ");
        s.append(self.mirroring().name());
        s.append(", Battery: ");
        s.append(if self.battery_backed() { "true" } else { "false" });
        proof {
            assert(s@ =~= self.spec_summary());
        }
        s
    }

    /// The cart's PRG-ROM, exactly as the file contained it.
    pub fn prg_rom(&self) -> (rom: &[u8])
        ensures
            rom@ == self.spec_prg_rom(),
    {
        self.prg_rom.as_slice()
    }

    /// The cart's CHR-ROM, exactly as the file contained it. Empty for a CHR-RAM cart.
    pub fn chr_rom(&self) -> (rom: &[u8])
        ensures
            rom@ == self.spec_chr_rom(),
    {
        self.chr_rom.as_slice()
    }

    /// Sets the region this cart runs in.
    pub fn set_region(&mut self, region: NesRegion)
        ensures
            final(self).region == region,
            final(self).header == old(self).header,
            final(self).name@ == old(self).name@,
            final(self).spec_prg_rom() == old(self).spec_prg_rom(),
            final(self).spec_chr_rom() == old(self).spec_chr_rom(),
            final(self).game_info == old(self).game_info,
    {
        self.region = region;
    }
}

/// `64 << shift`, for a shift from 1 to 15.
fn shifted_size(shift: u8) -> (size: usize)
    requires
        1 <= shift < 16,
    ensures
        size == shift_size(shift),
        size <= 64 * 32768,
{
    let mut size: usize = 64;
    let mut i: u8 = 0;
    while i < shift
        invariant
            i <= shift < 16,
            size == 64 * two_pow(i as nat),
            size <= 64 * 32768,
        decreases shift - i,
    {
        proof {
            lemma_two_pow_monotonic((i + 1) as nat, 15);
        }
        size = size * 2;
        i = i + 1;
    }
    size
}

/// Powers of two grow with the exponent.
proof fn lemma_two_pow_monotonic(a: nat, b: nat)
    requires
        a <= b,
    ensures
        two_pow(a) <= two_pow(b),
        two_pow(15) == 32768,
    decreases b,
{
    reveal_with_fuel(two_pow, 16);
    if a < b {
        lemma_two_pow_monotonic(a, (b - 1) as nat);
    }
}

/// `n` zero bytes.
fn zeroed(n: usize) -> (v: Vec<u8>)
    ensures
        v@ == Seq::new(n as nat, |i: int| 0u8),
{
    let mut v: Vec<u8> = Vec::new();
    let mut i: usize = 0;
    while i < n
        invariant
            i <= n,
            v@ == Seq::new(i as nat, |j: int| 0u8),
        decreases n - i,
    {
        v.push(0);
        proof {
            assert(v@ =~= Seq::new((i + 1) as nat, |j: int| 0u8));
        }
        i = i + 1;
    }
    v
}

/// The bytes of `data` from `start` up to `end`, copied.
fn copied(data: &[u8], start: usize, end: usize) -> (v: Vec<u8>)
    requires
        start <= end <= data@.len(),
    ensures
        v@ == data@.subrange(start as int, end as int),
{
    let mut v: Vec<u8> = Vec::new();
    let mut i: usize = start;
    while i < end
        invariant
            start <= i <= end <= data@.len(),
            v@ == data@.subrange(start as int, i as int),
        decreases end - i,
    {
        v.push(data[i]);
        proof {
            assert(data@.subrange(start as int, i + 1) =~= data@.subrange(start as int, i as int).push(data@[i as int]));
        }
        i = i + 1;
    }
    v
}

/// Looks up the ROM with CRC `crc32` in the game database, which is in order of CRC.
pub fn lookup_info(games: &[GameInfo], crc32: u32) -> (found: Option<GameInfo>)
    requires
        sorted_by_crc(games@),
    ensures
        is_lookup(games@, crc32, found),
{
    let mut lo: usize = 0;
    let mut hi: usize = games.len();
    while lo < hi
        invariant
            lo <= hi <= games@.len(),
            sorted_by_crc(games@),
            forall|i: int| 0 <= i < lo ==> games@[i].crc32 < crc32,
            forall|i: int| hi <= i < games@.len() ==> games@[i].crc32 > crc32,
        decreases hi - lo,
    {
        let mid = lo + (hi - lo) / 2;
        let c = games[mid].crc32;
        if c == crc32 {
            proof {
                assert(games@.contains(games@[mid as int]));
            }
            return Some(games[mid]);
        } else if c < crc32 {
            lo = mid + 1;
        } else {
            hi = mid;
        }
    }
    None
}

} // verus!
