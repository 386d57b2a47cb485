use wallpaper_cava::color::{
    array_from_config_color, color_from_hex, ColorError, ConfigColor, HexColorConfig, Rgba,
};
use wallpaper_cava::gpu::{gradient_header, gradient_quads};
use wallpaper_cava::rational::Rat;

fn rat(num: i64, den: i64) -> Rat {
    Rat { num, den }
}

fn opaque() -> Rat {
    rat(1, 1)
}

#[test]
fn parse_pure_red() {
    let c = color_from_hex("#FF0000", opaque()).unwrap();
    assert!(c.r.eq_value(&rat(1, 1)));
    assert!(c.g.eq_value(&rat(0, 1)));
    assert!(c.b.eq_value(&rat(0, 1)));
    assert!(c.a.eq_value(&rat(1, 1)));
}

#[test]
fn parse_lower_case_and_mixed_digits() {
    let c = color_from_hex("#7fAa01", opaque()).unwrap();
    assert_eq!(c.r, rat(0x7f, 255));
    assert_eq!(c.g, rat(0xaa, 255));
    assert_eq!(c.b, rat(0x01, 255));
}

#[test]
fn leading_character_is_ignored() {
    // only the six characters after the marker are read
    let c = color_from_hex("XFF0000", opaque()).unwrap();
    assert!(c.r.eq_value(&rat(1, 1)));
    assert!(c.g.eq_value(&rat(0, 1)));
    assert!(c.b.eq_value(&rat(0, 1)));
}

#[test]
fn trailing_characters_are_ignored() {
    let c = color_from_hex("#00FF00 and more", opaque()).unwrap();
    assert!(c.g.eq_value(&rat(1, 1)));
    assert!(c.r.eq_value(&rat(0, 1)));
    assert_eq!(color_from_hex("#FF000000", opaque()).unwrap().r, rat(0xff, 255));
}

#[test]
fn reject_too_short() {
    assert_eq!(color_from_hex("#FF00", opaque()), Err(ColorError::BadFormat));
    assert_eq!(color_from_hex("FF0000", opaque()), Err(ColorError::BadFormat));
    assert_eq!(color_from_hex("", opaque()), Err(ColorError::BadFormat));
}

#[test]
fn reject_non_hex_digit() {
    assert_eq!(color_from_hex("#GG0000", opaque()), Err(ColorError::BadDigit));
    assert_eq!(color_from_hex("#12345z", opaque()), Err(ColorError::BadDigit));
}

#[test]
fn simple_config_color_is_opaque() {
    let c = array_from_config_color(&ConfigColor::Simple("#0000FF".to_string())).unwrap();
    assert!(c.b.eq_value(&rat(1, 1)));
    assert!(c.a.eq_value(&rat(1, 1)));
}

#[test]
fn complex_config_color_keeps_alpha() {
    let c = array_from_config_color(
        &ConfigColor::Complex(HexColorConfig {
            hex: "#00FF00".to_string(),
            alpha: Some(rat(1, 2)),
        }),
    )
    .unwrap();
    assert!(c.g.eq_value(&rat(1, 1)));
    assert!(c.a.eq_value(&rat(1, 2)));
}

#[test]
fn complex_config_color_missing_alpha_is_opaque() {
    let c = array_from_config_color(
        &ConfigColor::Complex(HexColorConfig { hex: "#010203".to_string(), alpha: None }),
    )
    .unwrap();
    assert!(c.a.eq_value(&rat(1, 1)));
}

#[test]
fn gradient_upload_layout() {
    // Gradient of red and half-transparent green: the upload is the
    // count with 12 bytes of padding (16-byte alignment for the vec4
    // quads), then the RGBA quads [1,0,0,1] and [0,1,0,1/2] in order.
    let c1 = array_from_config_color(&ConfigColor::Simple("#FF0000".to_string())).unwrap();
    let c2 = array_from_config_color(
        &ConfigColor::Complex(HexColorConfig {
            hex: "#00FF00".to_string(),
            alpha: Some(rat(1, 2)),
        }),
    )
    .unwrap();
    let colors: Vec<Rgba> = vec![c1, c2];

    let header = gradient_header(colors.len() as u32);
    assert_eq!(header.len(), 16);
    assert_eq!(&header[0..4], &[2u8, 0, 0, 0]);
    assert_eq!(&header[4..16], &[0u8; 12]);

    let quads = gradient_quads(&colors);
    assert_eq!(quads.len(), 8);
    let expected = [
        rat(1, 1),
        rat(0, 1),
        rat(0, 1),
        rat(1, 1),
        rat(0, 1),
        rat(1, 1),
        rat(0, 1),
        rat(1, 2),
    ];
    for (q, e) in quads.iter().zip(expected.iter()) {
        assert!(q.eq_value(e));
    }
}

#[test]
fn gradient_header_large_count_little_endian() {
    let header = gradient_header(0x01020304);
    assert_eq!(&header[0..4], &[0x04u8, 0x03, 0x02, 0x01]);
}
