use tetanes_core::fs::{
    compute_combine_crc32, compute_crc32, decode_save, encode_save, validate_header,
    write_header, Error, SAVE_FILE_MAGIC_LEN, SAVE_VERSION, SRAM_VERSION,
};

#[test]
fn save_header() {
    let mut file = Vec::new();
    assert!(
        write_header(&mut file, SAVE_VERSION).is_ok(),
        "write header"
    );
    assert!(
        validate_header(file.as_slice(), SAVE_VERSION).is_ok(),
        "validate header"
    );
}

#[test]
fn a_version_mismatch_names_both_versions() {
    let mut file = Vec::new();
    write_header(&mut file, "2").expect("write header");

    let err = validate_header(file.as_slice(), "1").expect_err("mismatched");
    assert_eq!(
        err.message(),
        "invalid tetanes header: invalid version (expected \"1\", found \"2\")"
    );
}

#[test]
fn sram_header_is_pinned_to_the_released_version() {
    assert_eq!(SRAM_VERSION, "1");

    let mut file = Vec::new();
    write_header(&mut file, SRAM_VERSION).expect("write header");
    assert_eq!(&file[SAVE_FILE_MAGIC_LEN..], b"1");
}

#[test]
fn crc32() {
    let s = "Lorem ipsum dolor sit amet, consectetur adipisicing elit";
    assert_eq!(compute_crc32(s.as_bytes()), 0xb9b4cbd5);
}

#[test]
fn a_crc_continued_over_the_rest_is_the_crc_of_the_whole() {
    let s = b"Lorem ipsum dolor sit amet, consectetur adipisicing elit";
    let (head, tail) = s.split_at(20);
    assert_eq!(compute_combine_crc32(compute_crc32(head), tail), 0xb9b4cbd5);
    assert_eq!(compute_crc32(b""), 0);
    assert_eq!(compute_crc32(b"123456789"), 0xCBF4_3926);
}

#[test]
fn the_header_is_the_magic_then_the_version() {
    let mut file = vec![0xAA];
    write_header(&mut file, "2").expect("write header");
    assert_eq!(file, b"\xAATETANES\x1a2");
}

#[test]
fn a_foreign_magic_is_refused() {
    let err = validate_header(b"NOTTETAN1", "1").expect_err("bad magic");
    assert!(matches!(err, Error::InvalidHeader(_)));
    assert!(err.message().starts_with("invalid tetanes header: "));
}

#[test]
fn a_truncated_header_is_refused() {
    let err = validate_header(b"TETA", "1").expect_err("too short");
    assert!(matches!(err, Error::InvalidHeader(_)));
    let mut file = Vec::new();
    write_header(&mut file, "1").expect("write header");
    file.pop();
    assert!(matches!(validate_header(&file, "1"), Err(Error::InvalidHeader(_))));
}

#[test]
fn a_save_round_trips_through_its_framing() {
    let data: Vec<u8> = (0..=255u8).cycle().take(2000).collect();
    let framed = encode_save(&data, SAVE_VERSION).expect("encodes");
    assert!(validate_header(&framed, SAVE_VERSION).is_ok());
    assert_ne!(&framed[SAVE_FILE_MAGIC_LEN + 1..], data.as_slice(), "the body is compressed");
    assert_eq!(decode_save(&framed, SAVE_VERSION).expect("decodes"), data);
}

#[test]
fn a_save_for_another_version_does_not_decode() {
    let framed = encode_save(b"state", "2").expect("encodes");
    assert!(matches!(decode_save(&framed, "1"), Err(Error::InvalidHeader(_))));
}

#[test]
fn a_corrupt_body_fails_to_decode() {
    let mut file = Vec::new();
    write_header(&mut file, "1").expect("write header");
    file.extend_from_slice(&[0xFF, 0xFF, 0xFF, 0xFF]);
    assert!(matches!(decode_save(&file, "1"), Err(Error::DecodingFailed(_))));
}

#[test]
fn a_custom_error_reads_as_its_message() {
    assert_eq!(Error::custom("backend down".to_string()).message(), "backend down");
}
