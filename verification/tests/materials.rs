use rustracer::color::Color;
use rustracer::material::{Material, shadow_transmit};

#[test]
fn default_material_values() {
    let m = Material::default();
    assert_eq!(m.ambient, Color::new_gray(63));
    assert_eq!(m.diffuse, Color::new_gray(127));
    assert_eq!(m.specular, Color::new_gray(191));
    assert_eq!(m.alpha, 255);
    assert_eq!(m.reflection, 0);
}

#[test]
fn material_new_keeps_parts() {
    let m = Material::new(
        Color::new(1, 2, 3),
        Color::new(4, 5, 6),
        Color::new(7, 8, 9),
        10,
        11,
    );
    assert_eq!(m.diffuse, Color::new(4, 5, 6));
    assert_eq!(m.alpha, 10);
    assert_eq!(m.reflection, 11);
}

#[test]
fn texel_material_derivation() {
    let m = Material::from_texel(100, 200, 30, 128, 7);
    assert_eq!(m.ambient, Color::new(50, 100, 15));
    assert_eq!(m.diffuse, Color::new(100, 200, 30));
    // specular is half again above the sample, clamped at 255
    assert_eq!(m.specular, Color::new(150, 255, 45));
    assert_eq!(m.alpha, 128);
    assert_eq!(m.reflection, 7);
}

#[test]
fn opaque_occluder_transmits_nothing() {
    assert_eq!(shadow_transmit(255, Color::new(10, 200, 90)), Color::new_gray(0));
}

#[test]
fn transparent_occluder_transmits_white() {
    assert_eq!(shadow_transmit(0, Color::new(10, 200, 90)), Color::new_gray(255));
}

#[test]
fn translucent_occluder_filters_by_diffuse() {
    // weight 128/255: white side 127; complement of 100 scaled: 155*128/255 = 77
    assert_eq!(shadow_transmit(128, Color::new_gray(100)), Color::new_gray(50));
}
