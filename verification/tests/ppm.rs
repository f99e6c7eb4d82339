use raytracer::decimal::decimal_string;
use raytracer::ppm::{color_triple, ppm_header, ppm_image, Pixel};

#[test]
fn decimal_zero() {
    assert_eq!(decimal_string(0), "0");
}

#[test]
fn decimal_one_digit() {
    assert_eq!(decimal_string(7), "7");
}

#[test]
fn decimal_ten() {
    assert_eq!(decimal_string(10), "10");
}

#[test]
fn decimal_channel_max() {
    assert_eq!(decimal_string(255), "255");
}

#[test]
fn decimal_image_dimensions() {
    assert_eq!(decimal_string(400), "400");
    assert_eq!(decimal_string(225), "225");
}

#[test]
fn decimal_largest() {
    assert_eq!(decimal_string(u64::MAX), "18446744073709551615");
}

#[test]
fn header_default_size() {
    assert_eq!(ppm_header(400, 225), "P3\n400 225\n255\n");
}

#[test]
fn header_tiny() {
    assert_eq!(ppm_header(2, 2), "P3\n2 2\n255\n");
}

#[test]
fn triple_white() {
    let p = Pixel { r: 255, g: 255, b: 255 };
    assert_eq!(color_triple(p), "255 255 255");
}

#[test]
fn triple_black() {
    let p = Pixel { r: 0, g: 0, b: 0 };
    assert_eq!(color_triple(p), "0 0 0");
}

#[test]
fn triple_mixed_widths() {
    let p = Pixel { r: 12, g: 3, b: 200 };
    assert_eq!(color_triple(p), "12 3 200");
}

#[test]
fn image_single_pixel() {
    let pixels = vec![Pixel { r: 0, g: 0, b: 0 }];
    assert_eq!(ppm_image(1, 1, &pixels), "P3\n1 1\n255\n0 0 0\n");
}

#[test]
fn image_two_by_two_keeps_order() {
    let pixels = vec![
        Pixel { r: 1, g: 2, b: 3 },
        Pixel { r: 4, g: 5, b: 6 },
        Pixel { r: 7, g: 8, b: 9 },
        Pixel { r: 10, g: 11, b: 12 },
    ];
    assert_eq!(
        ppm_image(2, 2, &pixels),
        "P3\n2 2\n255\n1 2 3\n4 5 6\n7 8 9\n10 11 12\n"
    );
}

#[test]
fn image_one_row() {
    let pixels = vec![
        Pixel { r: 255, g: 0, b: 0 },
        Pixel { r: 0, g: 255, b: 0 },
        Pixel { r: 0, g: 0, b: 255 },
    ];
    assert_eq!(
        ppm_image(3, 1, &pixels),
        "P3\n3 1\n255\n255 0 0\n0 255 0\n0 0 255\n"
    );
}
