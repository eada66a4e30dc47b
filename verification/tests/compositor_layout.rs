use nesmulator_gui::color::Color;
use nesmulator_gui::compositor::{
    compose_debug_buffer, DEBUG_BUFFER_CELLS, PALETTE_REGION_START, PATTERN_REGION_START,
    SECOND_SEPARATOR_START,
};
use nesmulator_gui::frame::color_bytes;

fn sample_inputs() -> (Vec<Color>, Vec<Color>, Vec<Color>) {
    let mut pt0: Vec<Color> = Vec::new();
    let mut pt1: Vec<Color> = Vec::new();
    for i in 0..16_384u32 {
        pt0.push(Color::opaque((i % 251) as u8, 10, 20));
        pt1.push(Color::opaque(30, (i % 241) as u8, 40));
    }
    let mut palette: Vec<Color> = Vec::new();
    for i in 0..32u32 {
        palette.push(Color::opaque(50, 60, (7 * i) as u8));
    }
    (pt0, pt1, palette)
}

#[test]
fn overlay_has_fixed_shape_and_separator_rows() {
    let (pt0, pt1, palette) = sample_inputs();
    let out = compose_debug_buffer(&pt0, &pt1, &palette);

    assert_eq!(out.len(), 35_328);
    assert_eq!(out.len(), DEBUG_BUFFER_CELLS);

    let separator = Color::light_gray();
    for i in 0..512 {
        assert_eq!(out[i], separator);
    }
    for i in 33_280..33_792 {
        assert_eq!(out[i], separator);
    }
    assert_eq!(SECOND_SEPARATOR_START, 33_280);
}

#[test]
fn pattern_tables_sit_side_by_side() {
    let (pt0, pt1, palette) = sample_inputs();
    let out = compose_debug_buffer(&pt0, &pt1, &palette);

    // Cell j of table 0 lands at row j / 128, column j % 128; table 1 sits
    // 128 columns further right.
    for &j in &[0usize, 1, 127, 128, 5_000, 16_383] {
        let row = j / 128;
        let col = j % 128;
        assert_eq!(out[PATTERN_REGION_START + row * 256 + col], pt0[j]);
        assert_eq!(out[PATTERN_REGION_START + row * 256 + col + 128], pt1[j]);
    }
}

#[test]
fn palette_swatches_are_six_wide_with_group_gaps() {
    let (pt0, pt1, palette) = sample_inputs();
    let out = compose_debug_buffer(&pt0, &pt1, &palette);

    let black = Color::black();
    for row in 0..6 {
        let line = PALETTE_REGION_START + row * 256;
        // The two columns in front of a group of four stay black.
        assert_eq!(out[line], black);
        assert_eq!(out[line + 1], black);
        assert_eq!(out[line + 24], black);
        assert_eq!(out[line + 25], black);
        // Swatch 0 is pushed right two columns and paints 2..8, but the
        // unpushed swatch 1 overlaps its last two columns.
        assert_eq!(out[line + 2], palette[0]);
        assert_eq!(out[line + 5], palette[0]);
        assert_eq!(out[line + 6], palette[1]);
        assert_eq!(out[line + 7], palette[1]);
        assert_eq!(out[line + 11], palette[1]);
        assert_eq!(out[line + 12], palette[2]);
        assert_eq!(out[line + 18], palette[3]);
        assert_eq!(out[line + 23], palette[3]);
        // The second group starts pushed right again at column 26, and the
        // unpushed swatch 5 overlaps its last two columns.
        assert_eq!(out[line + 26], palette[4]);
        assert_eq!(out[line + 29], palette[4]);
        assert_eq!(out[line + 30], palette[5]);
        assert_eq!(out[line + 31], palette[5]);
        // The last swatch of the strip.
        assert_eq!(out[line + 186], palette[31]);
        assert_eq!(out[line + 191], palette[31]);
        // Right of the last swatch the strip stays black.
        assert_eq!(out[line + 192], black);
        assert_eq!(out[line + 255], black);
    }
}

#[test]
fn surface_bytes_are_rgba_in_cell_order() {
    let colors = vec![
        Color { alpha: 1, red: 2, green: 3, blue: 4 },
        Color { alpha: 255, red: 90, green: 91, blue: 92 },
    ];
    let bytes = color_bytes(&colors);
    assert_eq!(bytes, vec![2, 3, 4, 1, 90, 91, 92, 255]);
}
