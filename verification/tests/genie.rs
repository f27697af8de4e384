use tetanes_core::genie::{ErrorKind, GenieCode};

const LETTERS: &str = "APZLGITYEOXUKSVN";

#[test]
fn the_alphabet_is_the_inverse_of_the_map() {
    assert_eq!(LETTERS.len(), 16);
    for (nibble, letter) in LETTERS.chars().enumerate() {
        let code: String = std::iter::repeat(letter).take(6).collect();
        let hex = GenieCode::parse(&code).expect("every letter is in the alphabet");
        assert_eq!(hex, vec![nibble as u8; 6], "letter {letter:?}");
        let lower = code.to_ascii_lowercase();
        assert_eq!(GenieCode::parse(&lower).expect("case is ignored"), hex);
    }
}

#[test]
fn a_code_survives_a_decode_and_encode_round_trip() {
    let mut codes = vec![
        "SXIOPO".to_string(),
        "AATOZA".to_string(),
        "ZEXPYGLA".to_string(),
        "GXXZZLVI".to_string(),
    ];
    for bit in 0..15 {
        let code = GenieCode::encode(0x8000 | (1 << bit), 0x5A, None).expect("in ROM space");
        codes.push(code.code().to_string());
    }

    for code in codes {
        let decoded = GenieCode::new(code.clone()).expect("valid code");
        let encoded = GenieCode::encode(decoded.addr(), decoded.data(), decoded.compare())
            .expect("addr is in ROM space");
        assert_eq!(encoded.addr(), decoded.addr(), "{code} address");
        assert_eq!(encoded.data(), decoded.data(), "{code} data");
        assert_eq!(encoded.compare(), decoded.compare(), "{code} compare");
        assert_eq!(encoded.code().len(), code.len(), "{code} keeps its length");
        let round_tripped = GenieCode::new(encoded.code().to_string()).expect("valid code");
        assert_eq!(round_tripped, encoded, "{code} re-decodes to itself");
    }
}

#[test]
fn the_third_letters_high_bit_carries_nothing() {
    let with = GenieCode::new("ZEXPYGLA".to_string()).expect("valid code");
    let without = GenieCode::new("ZEZPYGLA".to_string()).expect("valid code");
    assert_eq!(
        (with.addr(), with.data(), with.compare()),
        (without.addr(), without.data(), without.compare()),
    );
}

#[test]
fn encoding_round_trips_every_data_and_compare_byte() {
    for data in 0..=u8::MAX {
        let code = GenieCode::encode(0x9ABC, data, None).expect("in ROM space");
        let decoded = GenieCode::new(code.code().to_string()).expect("valid code");
        assert_eq!(decoded.addr(), 0x9ABC, "data {data:#04X}");
        assert_eq!(decoded.data(), data);
        assert_eq!(decoded.compare(), None);

        let code = GenieCode::encode(0x9ABC, 0x5A, Some(data)).expect("in ROM space");
        let decoded = GenieCode::new(code.code().to_string()).expect("valid code");
        assert_eq!(decoded.addr(), 0x9ABC, "compare {data:#04X}");
        assert_eq!(decoded.data(), 0x5A);
        assert_eq!(decoded.compare(), Some(data));
    }
}

#[test]
fn an_address_below_rom_has_no_code() {
    assert!(GenieCode::encode(0x7FFF, 0xAA, None).is_none());
    assert!(GenieCode::encode(0x0000, 0xAA, None).is_none());
}

#[test]
fn a_known_code_decodes_to_its_patch() {
    let code = GenieCode::new("sxiopo".to_string()).expect("valid code");
    assert_eq!(code.code(), "SXIOPO");
    assert_eq!(code.addr(), 0x91D9);
    assert_eq!(code.data(), 0xAD);
    assert_eq!(code.compare(), None);
    assert_eq!(code.read(0x00), 0xAD);
}

#[test]
fn a_compare_byte_gates_the_patch() {
    let code = GenieCode::new("ZEXPYGLA".to_string()).expect("valid code");
    let compare = code.compare().expect("eight letters carry a compare byte");
    assert_eq!(code.read(compare), code.data());
    assert_eq!(code.read(compare.wrapping_add(1)), compare.wrapping_add(1));
}

#[test]
fn a_code_of_the_wrong_length_is_refused() {
    let err = GenieCode::new("SXIOP".to_string()).expect_err("five letters");
    assert_eq!(err.kind(), ErrorKind::InvalidLength(5));
    assert_eq!(err.code(), "SXIOP");
}

#[test]
fn a_letter_outside_the_alphabet_is_refused() {
    let err = GenieCode::new("SXIOPB".to_string()).expect_err("B is not a letter of the code");
    assert_eq!(err.kind(), ErrorKind::InvalidCharacter('B'));
    let err = GenieCode::parse("QXIOPB").expect_err("the first bad letter is named");
    assert_eq!(err.kind(), ErrorKind::InvalidCharacter('Q'));
}
