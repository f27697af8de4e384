use tetanes_core::cart::{
    lookup_info, Cart, Error, GameInfo, Mirroring, NesHeader, NesVariant, RamState,
    CHR_ROM_BANK_SIZE, PRG_ROM_BANK_SIZE,
};
use tetanes_core::common::NesRegion;
use tetanes_core::fs::compute_crc32;

fn nes2_rom(ram_byte: u8) -> Vec<u8> {
    let mut rom = vec![
        0x4E, 0x45, 0x53, 0x1A, // NES\x1a
        0x01, // 1 x 16K PRG-ROM
        0x01, // 1 x 8K CHR-ROM
        0x02, // mapper 0, battery-backed
        0x08, // NES 2.0
        0x00, 0x00, ram_byte, 0x00, 0x00, 0x00, 0x00, 0x00,
    ];
    rom.resize(rom.len() + PRG_ROM_BANK_SIZE + CHR_ROM_BANK_SIZE, 0);
    rom
}

fn load(rom: &[u8]) -> Result<Cart, Error> {
    Cart::from_rom_unmapped("test.nes".to_string(), rom, RamState::AllZeros, &[])
}

#[test]
fn nes2_prg_nvram_is_the_high_nibble_of_byte_10() {
    let cases = [
        (0x00, 0),
        (0x07, 8 * 1024),
        (0x70, 8 * 1024),
        (0x77, 16 * 1024),
        (0x0E, 1024 * 1024),
    ];

    for (byte, expected) in cases {
        let cart = load(&nes2_rom(byte))
            .unwrap_or_else(|err| panic!("byte 10 = {byte:#04X} should load: {}", err.message()));
        assert_eq!(cart.prg_ram_size, expected, "byte 10 = {byte:#04X}",);
    }
}

#[test]
fn nes2_rejects_the_reserved_ram_shift() {
    for byte in [0x0F, 0xF0] {
        let err = load(&nes2_rom(byte)).expect_err("reserved shift should be rejected");
        assert!(
            matches!(err, Error::InvalidHeader { byte: 10, .. }),
            "byte 10 = {byte:#04X} gave {}",
            err.message()
        );
    }
}

#[test]
fn mapper000_horizontal() {
    let data = [
        0x4E, 0x45, 0x53, 0x1A, 0x02, 0x01, 0x01, 0x00, 0x00, 0x00, 0x00, 0x00, 0x00, 0x00, 0x00,
        0x00,
    ];
    let header = NesHeader::load(&data).expect("valid header");
    assert_eq!(
        header,
        NesHeader {
            variant: NesVariant::INes,
            mapper_num: 0,
            flags: 0b0000_0001,
            prg_rom_banks: 2,
            chr_rom_banks: 1,
            ..NesHeader::default()
        }
    );
}

#[test]
fn mapper001_vertical() {
    let data = [
        0x4E, 0x45, 0x53, 0x1A, 0x08, 0x00, 0x10, 0x00, 0x00, 0x00, 0x00, 0x00, 0x00, 0x00, 0x00,
        0x00,
    ];
    let header = NesHeader::load(&data).expect("valid header");
    assert_eq!(
        header,
        NesHeader {
            variant: NesVariant::INes,
            mapper_num: 1,
            flags: 0b0000_0000,
            prg_rom_banks: 8,
            chr_rom_banks: 0,
            ..NesHeader::default()
        }
    );
}

#[test]
fn a_header_without_the_signature_is_refused() {
    let err = NesHeader::load(b"NOPE\x01\x01\x00\x00\x00\x00\x00\x00\x00\x00\x00\x00")
        .expect_err("no signature");
    assert!(matches!(err, Error::InvalidHeader { byte: 0, value: b'N', .. }));
    assert_eq!(
        err.message(),
        "invalid nes header (found: $004E at byte: 0). nes header signature not found"
    );
    let err = NesHeader::load(b"NES\x1a").expect_err("too short");
    assert!(matches!(err, Error::InvalidHeader { byte: 0, value: 0, .. }));
}

#[test]
fn a_trainer_or_a_diskdude_header_is_refused() {
    let mut header = [0u8; 16];
    header[..4].copy_from_slice(b"NES\x1a");
    header[6] = 0x04;
    assert!(matches!(NesHeader::load(&header), Err(Error::InvalidHeader { byte: 6, .. })));
    header[6] = 0;
    header[7] = 0x44;
    assert!(matches!(NesHeader::load(&header), Err(Error::InvalidHeader { byte: 7, .. })));
}

#[test]
fn a_short_rom_is_refused_at_the_bank_it_runs_out_in() {
    let mut rom = nes2_rom(0);
    rom.truncate(16 + PRG_ROM_BANK_SIZE - 1);
    assert!(matches!(load(&rom), Err(Error::InvalidHeader { byte: 4, value: 1, .. })));
    let mut rom = nes2_rom(0);
    rom.truncate(16 + PRG_ROM_BANK_SIZE + 10);
    assert!(matches!(load(&rom), Err(Error::InvalidHeader { byte: 5, value: 1, .. })));
}

#[test]
fn a_cart_holds_its_rom_and_its_crc() {
    let mut rom = nes2_rom(0x07);
    rom[16] = 0xAA;
    rom[16 + PRG_ROM_BANK_SIZE] = 0xBB;
    let cart = load(&rom).expect("loads");
    assert_eq!(cart.name(), "test.nes");
    assert!(cart.is_nes2());
    assert!(cart.battery_backed());
    assert_eq!(cart.mapper_num(), 0);
    assert_eq!(cart.prg_rom().len(), PRG_ROM_BANK_SIZE);
    assert_eq!(cart.prg_rom()[0], 0xAA);
    assert_eq!(cart.chr_rom()[0], 0xBB);
    assert_eq!(cart.chr_ram_size, 0);
    assert_eq!(cart.rom_crc32, compute_crc32(&rom[16..]));
    assert_eq!(cart.region, NesRegion::Ntsc);
    assert_eq!(cart.mapper_board(), NesHeader::mapper_board(0));
    assert_eq!(cart.mirroring(), Mirroring::Horizontal);
}

#[test]
fn the_game_database_overrides_a_wrong_header() {
    let rom = nes2_rom(0);
    let crc = compute_crc32(&rom[16..]);
    let db = [
        GameInfo { crc32: 1, region: NesRegion::Ntsc, mapper_num: 4, submapper_num: 0 },
        GameInfo { crc32: crc, region: NesRegion::Pal, mapper_num: 1, submapper_num: 2 },
        GameInfo { crc32: u32::MAX, region: NesRegion::Ntsc, mapper_num: 7, submapper_num: 0 },
    ];
    let cart = Cart::from_rom_unmapped("db.nes".to_string(), &rom, RamState::AllOnes, &db)
        .expect("loads");
    assert_eq!(cart.game_info, Some(db[1]));
    assert_eq!(cart.mapper_num(), 1);
    assert_eq!(cart.submapper_num(), 2);
    assert_eq!(cart.region, NesRegion::Pal);
    assert_eq!(cart.ram_state, RamState::AllOnes);
}

#[test]
fn a_lookup_finds_exactly_the_matching_crc() {
    let db: Vec<GameInfo> = (0..50u32)
        .map(|i| GameInfo { crc32: i * 3, region: NesRegion::Ntsc, mapper_num: i as u16, submapper_num: 0 })
        .collect();
    for crc in 0..150u32 {
        let found = lookup_info(&db, crc);
        if crc % 3 == 0 {
            assert_eq!(found.map(|g| g.mapper_num), Some((crc / 3) as u16));
        } else {
            assert!(found.is_none());
        }
    }
    assert!(lookup_info(&[], 0).is_none());
}

#[test]
fn the_board_names_follow_the_mapper_numbers() {
    assert_eq!(NesHeader::mapper_board(0), "Mapper 000 - NROM");
    assert_eq!(NesHeader::mapper_board(4), "Mapper 004 - TxROM/MMC3/MMC6");
    assert_eq!(NesHeader::mapper_board(9999), "Invalid Mapper");
}

#[test]
fn an_empty_cart_has_one_bank_of_each() {
    let cart = Cart::empty();
    assert_eq!(cart.prg_rom().len(), PRG_ROM_BANK_SIZE);
    assert_eq!(cart.chr_rom().len(), CHR_ROM_BANK_SIZE);
    let sized = Cart::empty_sized(2 * PRG_ROM_BANK_SIZE, 0x2000);
    assert_eq!(sized.prg_rom().len(), 2 * PRG_ROM_BANK_SIZE);
}

#[test]
fn a_cart_summarises_itself_in_one_line() {
    let cart = load(&nes2_rom(0x07)).expect("loads");
    assert_eq!(
        cart.summary(),
        "test.nes - Mapper 000 - NROM, CHR-ROM: 8K, CHR-RAM: 0K, PRG-ROM: 16K, PRG-RAM: 8K, Mirroring: Horizontal, Battery: true"
    );
    assert_eq!(Mirroring::FourScreen.name(), "FourScreen");
}

#[test]
fn a_cart_without_chr_rom_gets_the_default_chr_ram() {
    let mut rom = vec![
        0x4E, 0x45, 0x53, 0x1A, // NES\x1a
        0x01, // 1 x 16K PRG-ROM
        0x00, // no CHR-ROM
        0x00, 0x00, 0x00, 0x00, 0x00, 0x00, 0x00, 0x00, 0x00, 0x00,
    ];
    rom.resize(rom.len() + PRG_ROM_BANK_SIZE, 0);
    let cart = load(&rom).expect("loads");
    assert_eq!(cart.chr_rom_size, 0);
    assert_eq!(cart.chr_ram_size, 8 * 1024);
}
