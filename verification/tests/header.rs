use gcimage::{
    parse_header, validate_header, DVDHeader, ImageError, CONSOLE_ID, DVD_HEADER_SIZE,
    DVD_IMAGE_SIZE, DVD_MAGIC_NUMBER, GAME_NAME_SIZE,
};

fn sample_bytes() -> Vec<u8> {
    let mut data = vec![0u8; 0x440];
    data[0..4].copy_from_slice(b"GALE");
    data[4..6].copy_from_slice(b"01");
    data[6] = 2;
    data[7] = 3;
    data[8] = 1;
    data[9] = 4;
    data[0x1c..0x20].copy_from_slice(&[0xC2, 0x33, 0x9F, 0x3D]);
    data[0x20..0x25].copy_from_slice(b"Melee");
    data[0x420..0x424].copy_from_slice(&[0x00, 0x01, 0xE8, 0x00]);
    data[0x424..0x428].copy_from_slice(&[0x00, 0x45, 0x6E, 0x00]);
    data[0x428..0x42c].copy_from_slice(&[0x00, 0x00, 0x7D, 0x05]);
    data[0x42c..0x430].copy_from_slice(&[0x00, 0x00, 0x7D, 0x06]);
    data
}

fn sample_header() -> DVDHeader {
    parse_header(&sample_bytes()).unwrap()
}

fn invalid(reason: &str) -> Result<(), ImageError> {
    Err(ImageError::InvalidHeader(reason.to_string()))
}

#[test]
fn constants_of_the_format() {
    assert_eq!(DVD_HEADER_SIZE, 0x440);
    assert_eq!(DVD_MAGIC_NUMBER, 0xC2339F3D);
    assert_eq!(DVD_IMAGE_SIZE, 1_459_978_240);
    assert_eq!(GAME_NAME_SIZE, 0x3e0);
    assert_eq!(CONSOLE_ID, b'G');
}

#[test]
fn header_fields_come_from_their_offsets() {
    let h = sample_header();
    assert_eq!(h.game_code, *b"GALE");
    assert_eq!(h.maker_code, *b"01");
    assert_eq!(h.disk_id, 2);
    assert_eq!(h.version, 3);
    assert!(h.audio_streaming);
    assert_eq!(h.stream_buf_sz, 4);
    assert_eq!(h.magic_word, 0xC2339F3D);
    assert_eq!(h.dol_ofst, 0x0001E800);
    assert_eq!(h.fst_ofst, 0x00456E00);
    assert_eq!(h.fst_sz, 0x7D05);
    assert_eq!(h.max_fst_sz, 0x7D06);
}

#[test]
fn game_name_keeps_its_padding() {
    let h = sample_header();
    assert_eq!(h.game_name.len(), 0x3e0);
    let mut expected = String::from("Melee");
    while expected.len() < 0x3e0 {
        expected.push('\0');
    }
    assert_eq!(h.game_name, expected);
}

#[test]
fn audio_streaming_is_any_non_zero_byte() {
    let mut data = sample_bytes();
    data[8] = 0;
    assert!(!parse_header(&data).unwrap().audio_streaming);
    data[8] = 0x80;
    assert!(parse_header(&data).unwrap().audio_streaming);
}

#[test]
fn game_name_that_is_not_utf8_is_refused() {
    let mut data = sample_bytes();
    data[0x30] = 0xFF;
    assert_eq!(
        parse_header(&data),
        Err(ImageError::InvalidHeader("malformed game name".to_string()))
    );
}

#[test]
fn a_sound_header_passes() {
    assert_eq!(validate_header(&sample_header()), Ok(()));
}

#[test]
fn wrong_magic_word() {
    let mut h = sample_header();
    h.magic_word = 0xC2339F3C;
    assert_eq!(validate_header(&h), invalid("incorrect or missing magic number"));
}

#[test]
fn table_offset_at_or_beyond_the_image() {
    let mut h = sample_header();
    h.fst_ofst = 1_459_978_240;
    assert_eq!(validate_header(&h), invalid("malformed filesystem table offset"));
    h.fst_ofst = u32::MAX;
    assert_eq!(validate_header(&h), invalid("malformed filesystem table offset"));
    h.fst_ofst = 1_459_978_239;
    assert_eq!(validate_header(&h), Ok(()));
}

#[test]
fn boot_file_offset_at_or_beyond_the_image() {
    let mut h = sample_header();
    h.dol_ofst = 1_459_978_240;
    assert_eq!(validate_header(&h), invalid("malformed bootfile offset"));
    h.dol_ofst = 1_459_978_239;
    assert_eq!(validate_header(&h), Ok(()));
}

#[test]
fn wrong_console_letter() {
    let mut h = sample_header();
    h.game_code[0] = b'R';
    assert_eq!(validate_header(&h), invalid("incorrect console id"));
}

#[test]
fn the_first_broken_rule_decides() {
    let mut h = sample_header();
    h.game_code[0] = b'R';
    h.dol_ofst = u32::MAX;
    assert_eq!(validate_header(&h), invalid("malformed bootfile offset"));
    h.fst_ofst = u32::MAX;
    assert_eq!(validate_header(&h), invalid("malformed filesystem table offset"));
    h.magic_word = 0;
    assert_eq!(validate_header(&h), invalid("incorrect or missing magic number"));
}
