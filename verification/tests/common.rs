use tetanes_core::common::{hexdump, push_number, str_eq, NesRegion};

#[test]
fn a_hexdump_line_starts_with_its_address_and_spells_its_bytes() {
    let lines = hexdump(&[0xDE, 0xAD, 0xBE, 0xEF], 0x8000);
    assert!(lines[0].starts_with("00008000"));
    assert!(lines[0].contains("DE AD BE EF"));
    assert_eq!(
        lines,
        vec![format!("00008000  DE AD BE EF{}  |....|", " ".repeat(18))]
    );
}

#[test]
fn a_hexdump_shows_printable_bytes_as_text() {
    let lines = hexdump(b"Hello, world!\n\x00A", 0);
    assert_eq!(
        lines[0],
        "00000000  48 65 6C 6C 6F 2C 20 77 6F 72 6C 64 21 0A 00 41  |Hello, world!..A|"
    );
    assert_eq!(lines[1], "00000010 ");
    assert_eq!(lines.len(), 2);
}

#[test]
fn repeated_hexdump_lines_collapse_to_a_star() {
    let data = [0u8; 64];
    let lines = hexdump(&data, 0);
    assert_eq!(lines.len(), 3);
    assert_eq!(lines[1], "*");
    assert_eq!(lines[2], "00000040 ");
}

#[test]
fn an_empty_hexdump_has_no_lines() {
    assert!(hexdump(&[], 0).is_empty());
    assert!(hexdump(&[], 0x8000).is_empty());
    assert!(hexdump(&[], usize::MAX).is_empty());
}

#[test]
fn numbers_are_written_padded_in_their_base() {
    let mut s = String::from("$");
    push_number(&mut s, 0x2A, 16, true, 4);
    assert_eq!(s, "$002A");
    let mut s = String::new();
    push_number(&mut s, 12345, 10, false, 2);
    assert_eq!(s, "12345");
    let mut s = String::new();
    push_number(&mut s, 0xBEEF, 16, false, 0);
    assert_eq!(s, "beef");
}

#[test]
fn a_region_name_parses_back_to_the_region() {
    for region in NesRegion::as_slice() {
        assert_eq!(NesRegion::try_from_str(region.as_str()), Ok(region));
    }
    assert!(NesRegion::try_from_str("NTSC").is_err());
    for (index, region) in NesRegion::as_slice().into_iter().enumerate() {
        assert_eq!(NesRegion::try_from_index(index), Ok(region));
    }
    assert!(NesRegion::try_from_index(4).is_err());
    assert!(NesRegion::Auto.is_ntsc() && NesRegion::Auto.is_auto());
    assert!(NesRegion::Pal.is_pal() && NesRegion::Dendy.is_dendy());
    assert_eq!(NesRegion::default(), NesRegion::Ntsc);
}

#[test]
fn strings_compare_by_their_characters() {
    assert!(str_eq("abc", "abc"));
    assert!(!str_eq("abc", "abd"));
    assert!(!str_eq("abc", "ab"));
}

#[test]
fn a_region_reads_as_players_know_it() {
    let labels: Vec<&str> = NesRegion::as_slice().iter().map(|r| r.text()).collect();
    assert_eq!(labels, ["Auto", "NTSC", "PAL", "Dendy"]);
}

#[test]
fn a_hexdump_reaches_the_top_of_the_address_space() {
    let lines = hexdump(&[0x41], usize::MAX);
    assert_eq!(lines.len(), 1);
    assert!(lines[0].starts_with("ffffffffffffffff "));
}
