use rt::decimal::push_decimal;
use rt::PpmWriter;

#[test]
fn test_ppm_writer() {
    let mut writer = PpmWriter::new(2, 2);
    writer.write_pixel(255, 0, 0); // Red
    writer.write_pixel(0, 255, 0); // Green
    writer.write_pixel(0, 0, 255); // Blue
    writer.write_pixel(255, 255, 255); // White

    let output = writer.to_string();
    assert!(output.starts_with("P3\n2 2\n255\n"));
    assert!(output.contains("255 0 0\n"));
    assert!(output.contains("0 255 0\n"));
    assert!(output.contains("0 0 255\n"));
    assert!(output.contains("255 255 255\n"));
}

#[test]
fn two_by_two_serializes_exactly_in_scan_order() {
    let mut writer = PpmWriter::new(2, 2);
    writer.write_pixel(255, 0, 0);
    writer.write_pixel(0, 255, 0);
    writer.write_pixel(0, 0, 255);
    writer.write_pixel(255, 255, 255);
    assert_eq!(
        writer.to_string(),
        "P3\n2 2\n255\n255 0 0\n0 255 0\n0 0 255\n255 255 255\n"
    );
}

#[test]
fn empty_writer_is_header_only() {
    let writer = PpmWriter::new(0, 0);
    assert_eq!(writer.to_string(), "P3\n0 0\n255\n");
}

#[test]
fn header_has_multi_digit_dimensions() {
    let writer = PpmWriter::new(800, 600);
    assert_eq!(writer.to_string(), "P3\n800 600\n255\n");
}

#[test]
fn largest_dimensions_are_written_in_full() {
    let writer = PpmWriter::new(u32::MAX, 1);
    assert_eq!(writer.to_string(), "P3\n4294967295 1\n255\n");
}

#[test]
fn writing_a_pixel_appends_one_line() {
    let mut writer = PpmWriter::new(3, 1);
    writer.write_pixel(10, 9, 100);
    let before = writer.to_string();
    writer.write_pixel(0, 128, 7);
    let after = writer.to_string();
    assert_eq!(before, "P3\n3 1\n255\n10 9 100\n");
    assert_eq!(after, format!("{}0 128 7\n", before));
}

#[test]
fn decimal_digits() {
    let mut s = String::from("x=");
    push_decimal(&mut s, 0);
    assert_eq!(s, "x=0");
    let mut s = String::new();
    push_decimal(&mut s, 9);
    push_decimal(&mut s, 10);
    push_decimal(&mut s, 1203);
    assert_eq!(s, "9101203");
}
