use image_packer::codec::{pack, unpack};

#[test]
fn pack_pure_red_opaque() {
    // r = 255 quantizes to 31; alpha true sets bit 15.
    assert_eq!(pack(255, 0, 0, true), 0xFC00);
}

#[test]
fn pack_pure_green_transparent() {
    assert_eq!(pack(0, 255, 0, false), 0x03E0);
}

#[test]
fn pack_pure_blue_transparent() {
    assert_eq!(pack(0, 0, 255, false), 0x001F);
}

#[test]
fn pack_black_transparent_is_zero() {
    assert_eq!(pack(0, 0, 0, false), 0x0000);
}

#[test]
fn pack_white_opaque_is_all_ones() {
    assert_eq!(pack(255, 255, 255, true), 0xFFFF);
}

#[test]
fn pack_rounds_to_nearest() {
    // (128 * 31 + 127) / 255 = 4095 / 255 = 16, so red packs to 16 << 10.
    assert_eq!(pack(128, 0, 0, false), 16 << 10);
    // (4 * 31 + 127) / 255 = 251 / 255 = 0: small values round down to 0.
    assert_eq!(pack(4, 0, 0, false), 0x0000);
    // (5 * 31 + 127) / 255 = 282 / 255 = 1: the first value that rounds up.
    assert_eq!(pack(5, 0, 0, false), 1 << 10);
}

#[test]
fn unpack_pure_red_opaque() {
    assert_eq!(unpack(0xFC00), (255, 0, 0, 255));
}

#[test]
fn unpack_pure_green_transparent() {
    assert_eq!(unpack(0x03E0), (0, 255, 0, 0));
}

#[test]
fn unpack_all_ones() {
    assert_eq!(unpack(0xFFFF), (255, 255, 255, 255));
}

#[test]
fn unpack_zero() {
    assert_eq!(unpack(0x0000), (0, 0, 0, 0));
}

#[test]
fn unpack_expands_midscale_field() {
    // Red field 16 expands to (16 * 255 + 15) / 31 = 4095 / 31 = 132.
    assert_eq!(unpack(16 << 10), (132, 0, 0, 0));
}

#[test]
fn pack_fields_stay_in_bounds() {
    // Every quantized channel fits its 5-bit field: packing a single
    // channel never touches the other fields.
    for c in 0..=255u8 {
        let red_only = pack(c, 0, 0, false);
        assert_eq!(red_only & !0x7C00, 0);
        assert!((red_only >> 10) & 0x1F <= 31);
        let green_only = pack(0, c, 0, false);
        assert_eq!(green_only & !0x03E0, 0);
        let blue_only = pack(0, 0, c, false);
        assert_eq!(blue_only & !0x001F, 0);
    }
}

#[test]
fn unpack_then_pack_is_identity() {
    // Round-trip stability over the whole 16-bit domain.
    for v in 0..=0xFFFFu16 {
        let (r, g, b, a) = unpack(v);
        assert_eq!(pack(r, g, b, a > 0), v);
    }
}

#[test]
fn alpha_is_binarized() {
    for &(r, g, b) in &[(0u8, 0u8, 0u8), (12, 200, 77), (255, 255, 255)] {
        assert_eq!(pack(r, g, b, true) & 0x8000, 0x8000);
        assert_eq!(pack(r, g, b, false) & 0x8000, 0);
    }
    for &v in &[0x0000u16, 0x7FFF, 0x1234] {
        assert_eq!(unpack(v).3, 0);
        assert_eq!(unpack(v | 0x8000).3, 255);
    }
}

#[test]
fn quantization_is_monotonic() {
    for c in 0..255u8 {
        let lo = (pack(c, 0, 0, false) >> 10) & 0x1F;
        let hi = (pack(c + 1, 0, 0, false) >> 10) & 0x1F;
        assert!(lo <= hi);
    }
}
