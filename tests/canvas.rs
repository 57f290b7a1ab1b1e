use rusttracer::canvas::{
    canvas_to_ppm, canvas_to_ppm_header, within_range, write_pixel, Canvas, Pixel,
};

#[test]
fn test_create_canvas() {
    let canvas = Canvas::new(10, 20);
    assert_eq!(canvas.width(), 10);
    assert_eq!(canvas.height(), 20);
    for i in 0..canvas.width() - 1 {
        for j in 0..canvas.height() - 1 {
            assert_eq!(canvas.pixel_at(i, j), Pixel { red: 0, green: 0, blue: 0 });
        }
    }
}

#[test]
fn test_write_pixel() {
    let mut canvas = Canvas::new(10, 20);
    let red = Pixel { red: 255, green: 0, blue: 0 };
    write_pixel(&mut canvas, 2, 3, red);
    assert_eq!(canvas.pixel_at(2, 3), red)
}

#[test]
fn test_constructing_the_ppm_header() {
    let mut canvas = Canvas::new(5, 3);
    let ppm = canvas_to_ppm_header(&mut canvas);
    assert_eq!(ppm, "P3\n5 3\n255\n")
}

#[test]
fn test_constructing_the_ppm_pixel_data() {
    let mut canvas = Canvas::new(5, 3);
    let c1 = Pixel { red: 255, green: 0, blue: 0 };
    let c2 = Pixel { red: 0, green: 128, blue: 0 };
    let c3 = Pixel { red: 0, green: 0, blue: 255 };
    write_pixel(&mut canvas, 0, 0, c1);
    write_pixel(&mut canvas, 2, 1, c2);
    write_pixel(&mut canvas, 4, 2, c3);

    let ppm = canvas_to_ppm(&mut canvas);
    assert_eq!(ppm, "P3\n5 3\n255\n255 0 0 0 0 0 0 0 0 0 0 0 0 0 0\n0 0 0 0 0 0 0 128 0 0 0 0 0 0 0\n0 0 0 0 0 0 0 0 0 0 0 0 0 0 255\n");
}

#[test]
fn test_splitting_long_lines_in_ppm() {
    let mut canvas = Canvas::new(10, 2);
    for y in 0..canvas.height() {
        for x in 0..canvas.width() {
            write_pixel(&mut canvas, x, y, Pixel { red: 255, green: 204, blue: 153 });
        }
    }

    let ppm = canvas_to_ppm(&mut canvas);
    assert_eq!(ppm, "P3\n10 2\n255\n255 204 153 255 204 153 255 204 153 255 204 153 255 204 153 255 204\n153 255 204 153 255 204 153 255 204 153 255 204 153\n255 204 153 255 204 153 255 204 153 255 204 153 255 204 153 255 204\n153 255 204 153 255 204 153 255 204 153 255 204 153\n");
}

#[test]
fn test_ends_with_newline() {
    let mut canvas = Canvas::new(5, 3);
    let ppm = canvas_to_ppm(&mut canvas);
    let code: u8 = ppm.as_bytes()[ppm.len() - 1];
    let char = code as char;
    assert_eq!('\n', char);
}

#[test]
fn header_of_wide_canvas_writes_multi_digit_sizes() {
    let mut canvas = Canvas::new(1234, 0);
    assert_eq!(canvas_to_ppm_header(&mut canvas), "P3\n1234 0\n255\n");
    assert_eq!(canvas_to_ppm(&mut canvas), "P3\n1234 0\n255\n");
}

#[test]
fn empty_canvas_is_header_only() {
    let mut canvas = Canvas::new(0, 0);
    assert_eq!(canvas_to_ppm(&mut canvas), "P3\n0 0\n255\n");
}

#[test]
fn black_pixel_has_zero_levels() {
    assert_eq!(Pixel::black(), Pixel { red: 0, green: 0, blue: 0 });
}

#[test]
fn within_range_needs_a_gap_above_two() {
    assert!(!within_range(5, 7));
    assert!(!within_range(7, 5));
    assert!(within_range(5, 8));
    assert!(within_range(8, 5));
    assert!(!within_range(0, 0));
}
