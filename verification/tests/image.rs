use ql_driver::driver::bits::IMAGE_BITS_MAX;
use ql_driver::image::{PrintableImage, BLACK_BELOW};

fn bitmap(pixels: &[bool], width: u32) -> PrintableImage {
    match PrintableImage::new(pixels, width) {
        Some(image) => image,
        None => panic!("a bitmap of {} pixels was refused", pixels.len()),
    }
}

#[test]
fn a_bitmap_keeps_its_pixels_and_width() {
    let pixels = [true, false, false, true, true, true];
    let image = bitmap(&pixels, 3);
    assert_eq!(image.width(), 3);
    assert_eq!(image.len(), 6);
    assert_eq!(image.lines(), 2);
    assert_eq!(image.row(0), vec![true, false, false]);
    assert_eq!(image.row(1), vec![true, true, true]);
}

#[test]
fn an_empty_bitmap_has_no_lines() {
    let image = bitmap(&[], 720);
    assert_eq!(image.len(), 0);
    assert_eq!(image.lines(), 0);
}

#[test]
fn pixels_after_the_last_whole_row_are_left_out() {
    let pixels = [true; 11];
    let image = bitmap(&pixels, 4);
    assert_eq!(image.len(), 11);
    assert_eq!(image.lines(), 2);
    assert_eq!(image.row(1), vec![true; 4]);
    let image = bitmap(&pixels, 12);
    assert_eq!(image.lines(), 0);
    let image = bitmap(&pixels, 11);
    assert_eq!(image.lines(), 1);
    assert_eq!(image.row(0), vec![true; 11]);
}

#[test]
fn rows_come_in_order() {
    let pixels: Vec<bool> = (0..7 * 13).map(|i| (i * i) % 5 < 2).collect();
    let image = bitmap(&pixels, 13);
    assert_eq!(image.lines(), 7);
    for line in 0..7u32 {
        let start = line as usize * 13;
        assert_eq!(image.row(line), pixels[start..start + 13].to_vec());
    }
}

#[test]
fn rows_of_one_pixel() {
    let pixels = [false, true, false];
    let image = bitmap(&pixels, 1);
    assert_eq!(image.lines(), 3);
    assert_eq!(image.row(0), vec![false]);
    assert_eq!(image.row(1), vec![true]);
    assert_eq!(image.row(2), vec![false]);
}

#[test]
fn a_wide_bitmap_spans_storage_words() {
    let pixels: Vec<bool> = (0..3 * 720).map(|i| i % 3 == 0 || i % 64 == 63).collect();
    let image = bitmap(&pixels, 720);
    assert_eq!(image.lines(), 3);
    assert_eq!(image.row(2), pixels[1440..2160].to_vec());
    assert_eq!(image.row(1), pixels[720..1440].to_vec());
}

#[test]
fn luma_below_the_threshold_is_black() {
    assert_eq!(BLACK_BELOW, 127);
    let luma = [0u8, 1, 126, 127, 128, 254, 255];
    let image = match PrintableImage::from_luma(&luma, 7) {
        Some(image) => image,
        None => panic!("a picture of seven pixels was refused"),
    };
    assert_eq!(image.width(), 7);
    assert_eq!(image.lines(), 1);
    assert_eq!(image.row(0), vec![true, true, true, false, false, false, false]);
}

#[test]
fn luma_of_every_value() {
    let luma: Vec<u8> = (0..=255).collect();
    let image = PrintableImage::from_luma(&luma, 16).unwrap_or_else(|| panic!("refused"));
    assert_eq!(image.lines(), 16);
    for line in 0..16u32 {
        let expected: Vec<bool> = (0..16).map(|i| line * 16 + i < 127).collect();
        assert_eq!(image.row(line), expected);
    }
}

#[test]
fn an_empty_picture_is_an_empty_bitmap() {
    let image = PrintableImage::from_luma(&[], 5).unwrap_or_else(|| panic!("refused"));
    assert_eq!(image.len(), 0);
    assert_eq!(image.width(), 5);
}

#[test]
fn a_bitmap_of_width_zero_can_be_made() {
    let image = bitmap(&[true, false], 0);
    assert_eq!(image.width(), 0);
    assert_eq!(image.len(), 2);
}

#[test]
fn a_bitmap_beyond_the_limit_is_refused() {
    assert_eq!(IMAGE_BITS_MAX, 0x1fff_ffff);
    let pixels = vec![false; IMAGE_BITS_MAX + 1];
    assert!(PrintableImage::new(&pixels, 720).is_none());
    let luma = vec![0u8; IMAGE_BITS_MAX + 1];
    assert!(PrintableImage::from_luma(&luma, 720).is_none());
}
