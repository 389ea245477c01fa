use gcimage::{ImageError, Region};

#[test]
fn the_four_region_bytes() {
    assert_eq!(Region::from_byte(b'E'), Ok(Region::USA));
    assert_eq!(Region::from_byte(b'P'), Ok(Region::EUR));
    assert_eq!(Region::from_byte(b'J'), Ok(Region::JPN));
    assert_eq!(Region::from_byte(b'F'), Ok(Region::FRA));
}

#[test]
fn every_other_byte_is_refused_with_itself() {
    for byte in 0u8..=255 {
        if byte == b'E' || byte == b'P' || byte == b'J' || byte == b'F' {
            continue;
        }
        assert_eq!(Region::from_byte(byte), Err(ImageError::InvalidRegion { byte }));
    }
}

#[test]
fn lower_case_is_no_region() {
    assert_eq!(Region::from_byte(b'e'), Err(ImageError::InvalidRegion { byte: 0x65 }));
    assert_eq!(Region::from_byte(0), Err(ImageError::InvalidRegion { byte: 0 }));
}
