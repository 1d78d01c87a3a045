use audio_visualizer::color::ColorScheme;
use audio_visualizer::frame::{bin_for_column, render_frame, value_for_column};

#[test]
fn columns_map_to_bins_in_order() {
    assert_eq!(bin_for_column(0, 4, 8), 0);
    assert_eq!(bin_for_column(1, 4, 8), 2);
    assert_eq!(bin_for_column(3, 4, 8), 6);
    // floor(799 / 800 * 1024) = 1022
    assert_eq!(bin_for_column(799, 800, 1024), 1022);
    assert_eq!(bin_for_column(5, 3000, 1024), 1);
}

#[test]
fn empty_spectrum_reads_as_zero() {
    let empty: [u32; 0] = [];
    assert_eq!(value_for_column(&empty, 42, 0, 10), 42);
    assert_eq!(value_for_column(&[5u32, 6, 7, 8], 0, 9, 10), 8);
}

#[test]
fn every_pixel_is_written_and_opaque() {
    let (w, h) = (5u32, 3u32);
    let mut frame = vec![7u8; (w * h * 4) as usize];
    render_frame(&mut frame, w, h, &[0u8; 4], 0, ColorScheme::new(255, 255, 255), |_, _, _| 200);
    for p in 0..(w * h) as usize {
        assert_eq!(&frame[4 * p..4 * p + 4], &[200, 200, 200, 255]);
    }
}

#[test]
fn pixels_follow_column_row_and_bin() {
    let (w, h) = (4u32, 2u32);
    let spectrum = [10u8, 20, 30, 40, 50, 60];
    let mut frame = vec![1u8; (w * h * 4) as usize];
    render_frame(&mut frame, w, h, &spectrum, 0, ColorScheme::new(255, 255, 0), |x, y, m| {
        m + (x as u8) + 100 * (y as u8)
    });
    for y in 0..h {
        for x in 0..w {
            let p = (y * w + x) as usize;
            // bin = floor(x * 6 / 4)
            let bin = (x * 6 / 4) as usize;
            let level = spectrum[bin] + x as u8 + 100 * y as u8;
            assert_eq!(&frame[4 * p..4 * p + 4], &[level, level, 0, 255]);
        }
    }
}

#[test]
fn empty_frame_is_left_alone() {
    let mut frame: Vec<u8> = Vec::new();
    render_frame(&mut frame, 0, 7, &[1u8], 0, ColorScheme::default(), |_, _, _| 1);
    assert!(frame.is_empty());
}
