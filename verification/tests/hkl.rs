use tongue::backend::hkl::{format_langid, klid_of, langid_from_id, langid_of};

#[test]
fn langid_bo_word_cao_vi_do_la_handle_thiet_bi() {
    // HKL-shaped values: the high word is a device handle, the low word the LANGID.
    assert_eq!(langid_of(0x0409_0409), 0x0409);
    assert_eq!(langid_of(0xF0C1_0804), 0x0804);
    assert_eq!(langid_of(0x0000_042A), 0x042A);
}

#[test]
fn format_ra_4_chu_so_hex_thuong() {
    assert_eq!(format_langid(0x0409_0409), "0409");
    assert_eq!(format_langid(0xF0C1_0804), "0804");
    // lower case: the config says "042a", reading it back must say "042a" too
    assert_eq!(format_langid(0x0000_042A), "042a");
}

#[test]
fn klid_dem_khong_len_8_chu_so() {
    assert_eq!(klid_of("0409"), "00000409");
    assert_eq!(klid_of("804"), "00000804");
}

#[test]
fn klid_giu_nguyen_chuoi_da_du_8() {
    assert_eq!(klid_of("00010409"), "00010409");
}

/// The round trip reconcile relies on: the LANGID that is set reads back as the
/// same string.
#[test]
fn round_trip_cho_layout_chuan() {
    for id in ["0409", "0804", "042a"] {
        let klid = klid_of(id);
        let fake_hkl = usize::from_str_radix(&klid, 16).unwrap();
        assert_eq!(format_langid(fake_hkl), id);
    }
}

#[test]
fn langid_from_id_reads_padded_hex() {
    assert_eq!(langid_from_id("0409"), Some(0x0409));
    assert_eq!(langid_from_id("042A"), Some(0x042A));
    // a KLID keeps only its low word
    assert_eq!(langid_from_id("00010409"), Some(0x0409));
    // a leading '+' is accepted, as usize::from_str_radix does
    assert_eq!(langid_from_id("+0000409"), Some(0x0409));
    assert_eq!(langid_from_id("04g9"), None);
    assert_eq!(langid_from_id(""), Some(0));
    assert_eq!(langid_from_id("11111111111111111"), None);
}

#[test]
fn langid_round_trip_through_format() {
    for hkl in [0x0409_0409usize, 0xF0C1_0804, 0x0000_042A, 0xFFFF_FFFF] {
        let id = format_langid(hkl);
        assert_eq!(langid_from_id(&id), Some(langid_of(hkl)));
    }
}
