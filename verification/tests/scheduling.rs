use rustracer::color::Color;
use rustracer::render::{
    ANTI_ALIASING, NO_SHADOW, assemble_bands, band_range, band_step, has_anti_aliasing,
    has_no_shadow, pack_rgb,
};

#[test]
fn band_step_rounds_up() {
    assert_eq!(band_step(10, 4), 3);
    assert_eq!(band_step(8, 4), 2);
    assert_eq!(band_step(7, 1), 7);
    assert_eq!(band_step(2, 8), 1);
    assert_eq!(band_step(0, 3), 0);
}

#[test]
fn band_ranges_partition_the_rows() {
    assert_eq!(band_range(10, 4, 0), (0, 3));
    assert_eq!(band_range(10, 4, 1), (3, 6));
    assert_eq!(band_range(10, 4, 2), (6, 9));
    assert_eq!(band_range(10, 4, 3), (9, 10));
}

#[test]
fn trailing_bands_are_empty() {
    assert_eq!(band_range(2, 8, 1), (1, 2));
    assert_eq!(band_range(2, 8, 2), (2, 2));
    assert_eq!(band_range(2, 8, 7), (2, 2));
}

#[test]
fn assemble_concatenates_in_worker_order() {
    let a = Color::new(1, 1, 1);
    let b = Color::new(2, 2, 2);
    let c = Color::new(3, 3, 3);
    let out = assemble_bands(vec![vec![a, b], vec![], vec![c]]);
    assert_eq!(out, vec![a, b, c]);
}

#[test]
fn pack_rgb_is_three_bytes_per_pixel() {
    let buf = pack_rgb(&vec![Color::new(1, 2, 3), Color::new(4, 5, 6)]);
    assert_eq!(buf, vec![1, 2, 3, 4, 5, 6]);
}

#[test]
fn reassembly_is_independent_of_worker_count() {
    // the same 6x3 image, rendered row by row from a fixed pattern,
    // split into bands for several worker counts
    let width = 6usize;
    let height = 3usize;
    let pixel = |x: usize, y: usize| {
        Color::new((x * 40) as u8, (y * 80) as u8, ((x + y) * 10) as u8)
    };

    let mut renders: Vec<Vec<u8>> = Vec::new();
    for threads in [1usize, 2, 3, 8] {
        let mut bands: Vec<Vec<Color>> = Vec::new();
        for k in 0..threads {
            let (start, stop) = band_range(height, threads, k);
            let mut band = Vec::new();
            for y in start..stop {
                for x in 0..width {
                    band.push(pixel(x, y));
                }
            }
            bands.push(band);
        }
        renders.push(pack_rgb(&assemble_bands(bands)));
    }

    assert_eq!(renders[0].len(), width * height * 3);
    for r in &renders[1..] {
        assert_eq!(r, &renders[0]);
    }
}

#[test]
fn flag_bits_decode() {
    assert!(has_anti_aliasing(ANTI_ALIASING));
    assert!(!has_anti_aliasing(NO_SHADOW));
    assert!(has_no_shadow(ANTI_ALIASING | NO_SHADOW));
    assert!(!has_no_shadow(0));
}
