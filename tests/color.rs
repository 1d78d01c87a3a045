use audio_visualizer::color::{map_color, tint_channel, ColorScheme, Rgb};

#[test]
fn full_level_gives_the_tint() {
    let tint = ColorScheme::new(200, 100, 7);
    assert_eq!(map_color(255, tint), Rgb { r: 200, g: 100, b: 7 });
}

#[test]
fn zero_level_gives_black() {
    let tint = ColorScheme::new(200, 100, 7);
    assert_eq!(map_color(0, tint), Rgb { r: 0, g: 0, b: 0 });
}

#[test]
fn channels_round_down() {
    // 128 * 100 / 255 = 50.19..., 128 * 255 / 255 = 128
    assert_eq!(tint_channel(128, 100), 50);
    assert_eq!(tint_channel(128, 255), 128);
    assert_eq!(tint_channel(1, 254), 0);
    assert_eq!(map_color(128, ColorScheme::new(255, 100, 0)), Rgb { r: 128, g: 50, b: 0 });
}

#[test]
fn color_mapping_repeats_exactly() {
    let tint = ColorScheme::new(17, 240, 99);
    for level in 0..=255u8 {
        assert_eq!(map_color(level, tint), map_color(level, tint));
    }
}

#[test]
fn default_tint_is_white() {
    let tint = ColorScheme::default();
    assert_eq!(tint, ColorScheme::new(255, 255, 255));
    assert_eq!(map_color(77, tint), Rgb { r: 77, g: 77, b: 77 });
}
