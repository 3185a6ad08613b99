use tongue::backend::vkey_shm::{parse_vietnamese_flag, ShmError, VKEY_MAGIC};

/// A 20-byte buffer with the layout of the section Local\VKeySharedState.
fn shm(magic: u32, version: u32, flags: u32) -> Vec<u8> {
    let mut b = vec![0u8; 20];
    b[0..4].copy_from_slice(&magic.to_le_bytes());
    b[4..8].copy_from_slice(&version.to_le_bytes());
    b[16..20].copy_from_slice(&flags.to_le_bytes());
    b
}

#[test]
fn doc_bit_vietnamese() {
    assert_eq!(parse_vietnamese_flag(&shm(VKEY_MAGIC, 4, 0x0001)), Ok(true));
    assert_eq!(parse_vietnamese_flag(&shm(VKEY_MAGIC, 4, 0x0000)), Ok(false));
    // other bits do not affect bit 0
    assert_eq!(parse_vietnamese_flag(&shm(VKEY_MAGIC, 2, 0x0102)), Ok(false));
}

#[test]
fn magic_sai_thi_tu_choi() {
    assert_eq!(
        parse_vietnamese_flag(&shm(0xDEADBEEF, 4, 1)),
        Err(ShmError::BadMagic(0xDEADBEEF))
    );
}

#[test]
fn version_moi_hon_thi_tu_choi() {
    assert_eq!(
        parse_vietnamese_flag(&shm(VKEY_MAGIC, 5, 1)),
        Err(ShmError::UnsupportedVersion(5))
    );
}

#[test]
fn buffer_ngan_thi_tu_choi() {
    assert_eq!(parse_vietnamese_flag(&[0u8; 10]), Err(ShmError::TooShort(10)));
}

#[test]
fn shm_error_messages() {
    assert_eq!(ShmError::TooShort(10).message(), "shared memory quá ngắn (10 byte)");
    assert_eq!(
        ShmError::BadMagic(0xDEADBEEF).message(),
        "magic không khớp (0xDEADBEEF) — không phải VKey?"
    );
    assert_eq!(
        ShmError::UnsupportedVersion(5).message(),
        "structVersion 5 mới hơn mức tongue hiểu (4) — VKey vừa nâng cấp?"
    );
}

#[test]
fn longer_section_reads_only_the_first_twenty_bytes() {
    let mut b = shm(VKEY_MAGIC, 4, 0xFFFF_FFFF);
    b.extend_from_slice(&[0u8; 100]);
    assert_eq!(parse_vietnamese_flag(&b), Ok(true));
    assert_eq!(parse_vietnamese_flag(&b[..19]), Err(ShmError::TooShort(19)));
}
