use blur_core::params::EffectParams;

fn le(x: u32) -> [u8; 4] {
    [
        (x & 0xff) as u8,
        ((x >> 8) & 0xff) as u8,
        ((x >> 16) & 0xff) as u8,
        ((x >> 24) & 0xff) as u8,
    ]
}

#[test]
fn default_params_fields() {
    let p = EffectParams::default();
    assert_eq!(p.struct_version, 1);
    assert_eq!(p.intensity_bits, 1.0f32.to_bits());
    assert_eq!(p.color_argb, 0x8000_0000);
    assert_eq!(p.animate, 0);
    assert_eq!(p.animation_ms, 0);
    assert_eq!(p.reserved_flags, 0);
    assert_eq!(p.reserved_padding, 0);
}

#[test]
fn new_overrides_only_strength_and_tint() {
    let p = EffectParams::new(0x1234_5678, 0xAABB_CCDD);
    assert_eq!(p.struct_version, 1);
    assert_eq!(p.intensity_bits, 0x1234_5678);
    assert_eq!(p.color_argb, 0xAABB_CCDD);
    assert_eq!(p.animate, 0);
    assert_eq!(p.animation_ms, 0);
    assert_eq!(p.reserved_flags, 0);
    assert_eq!(p.reserved_padding, 0);
}

#[test]
fn encode_half_intensity_layout() {
    // intensity 0.5, color 0xFF112233: the serialized record carries
    // struct_version 1, those two values, no animation, and all reserved
    // bytes zero, byte for byte.
    let p = EffectParams::new(0.5f32.to_bits(), 0xFF11_2233);
    let bytes = p.encode();
    let mut expected: Vec<u8> = Vec::new();
    expected.extend_from_slice(&le(1));
    expected.extend_from_slice(&le(0.5f32.to_bits()));
    expected.extend_from_slice(&le(0xFF11_2233));
    expected.push(0);
    expected.extend_from_slice(&le(0));
    expected.extend_from_slice(&le(0));
    expected.extend_from_slice(&le(0));
    assert_eq!(bytes, expected);
    assert_eq!(bytes.len(), 25);
    assert_eq!(&bytes[0..4], &[1, 0, 0, 0]);
    assert_eq!(&bytes[4..8], &[0x00, 0x00, 0x00, 0x3F]);
    assert_eq!(&bytes[8..12], &[0x33, 0x22, 0x11, 0xFF]);
    assert!(bytes[12..25].iter().all(|b| *b == 0));
}

#[test]
fn encode_default_layout() {
    let bytes = EffectParams::default().encode();
    assert_eq!(&bytes[0..4], &[1, 0, 0, 0]);
    assert_eq!(&bytes[4..8], &[0x00, 0x00, 0x80, 0x3F]);
    assert_eq!(&bytes[8..12], &[0x00, 0x00, 0x00, 0x80]);
    assert!(bytes[12..25].iter().all(|b| *b == 0));
}
