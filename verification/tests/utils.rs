use portal_renderer::utils::{
    buffer_bytes, glenum_to_i32, has_parameter_value, usize_to_glenum, GlEnum, GL_CLAMP_TO_EDGE,
    GL_LINEAR, GL_LINEAR_MIPMAP_LINEAR, GL_NEAREST, GL_RED, GL_REPEAT, GL_RG, GL_RGB, GL_RGBA,
    GL_TEXTURE0, TEXTURE_UNITS,
};

#[test]
fn parameter_values_keep_their_number() {
    assert_eq!(glenum_to_i32(GlEnum(GL_RED)), 0x1903);
    assert_eq!(glenum_to_i32(GlEnum(GL_RGB)), 0x1907);
    assert_eq!(glenum_to_i32(GlEnum(GL_NEAREST)), 0x2600);
    assert_eq!(glenum_to_i32(GlEnum(GL_LINEAR)), 0x2601);
    assert_eq!(glenum_to_i32(GlEnum(GL_LINEAR_MIPMAP_LINEAR)), 0x2703);
    assert_eq!(glenum_to_i32(GlEnum(GL_REPEAT)), 0x2901);
    assert_eq!(glenum_to_i32(GlEnum(GL_CLAMP_TO_EDGE)), 0x812F);
}

#[test]
fn only_the_seven_are_parameter_values() {
    assert!(has_parameter_value(GlEnum(GL_RED)));
    assert!(has_parameter_value(GlEnum(GL_CLAMP_TO_EDGE)));
    assert!(!has_parameter_value(GlEnum(GL_RG)));
    assert!(!has_parameter_value(GlEnum(GL_RGBA)));
    assert!(!has_parameter_value(GlEnum(GL_TEXTURE0)));
    assert!(!has_parameter_value(GlEnum(0)));
}

#[test]
fn texture_units_keep_their_number() {
    assert_eq!(usize_to_glenum(0x84c0), GlEnum(0x84C0));
    assert_eq!(usize_to_glenum(0x84c5), GlEnum(0x84C5));
    assert_eq!(usize_to_glenum(0x84c9), GlEnum(0x84C9));
}

#[test]
fn ten_texture_units_from_the_first() {
    assert_eq!(TEXTURE_UNITS, 10);
    assert_eq!(GL_TEXTURE0, 0x84C0);
    let last = usize_to_glenum(GL_TEXTURE0 as usize + TEXTURE_UNITS - 1);
    assert_eq!(last.0, 0x84C9);
}

#[test]
fn buffer_bytes_multiplies() {
    assert_eq!(buffer_bytes(6, 32), Some(192));
    assert_eq!(buffer_bytes(0, 32), Some(0));
    assert_eq!(buffer_bytes(36, 4), Some(144));
}

#[test]
fn buffer_bytes_stops_at_the_signed_maximum() {
    let max = isize::MAX as usize;
    assert_eq!(buffer_bytes(max, 1), Some(isize::MAX));
    assert_eq!(buffer_bytes(max + 1, 1), None);
    assert_eq!(buffer_bytes(max / 2 + 1, 2), None);
    assert_eq!(buffer_bytes(usize::MAX, usize::MAX), None);
}
