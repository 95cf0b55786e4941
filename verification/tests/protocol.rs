use helion::color::RGB8;
use helion::protocol::{check_write, new_pixel_buf_header, rgbs_as_bytes, WriteCheck};

#[test]
fn header_for_300_leds() {
    let h = new_pixel_buf_header(300);
    // 'A', 'd', 'a', (299 >> 8), (299 & 0xff), high ^ low ^ 0x55
    assert_eq!(h[0], b'A');
    assert_eq!(h[1], b'd');
    assert_eq!(h[2], b'a');
    assert_eq!(h[3], 1);
    assert_eq!(h[4], 43);
    assert_eq!(h[5], 1 ^ 43 ^ 0x55);
    assert_eq!(h, [65, 100, 97, 1, 43, 127]);
}

#[test]
fn header_for_one_led() {
    let h = new_pixel_buf_header(1);
    assert_eq!(h, [b'A', b'd', b'a', 0, 0, 0x55]);
}

#[test]
fn header_for_256_leds() {
    let h = new_pixel_buf_header(256);
    assert_eq!(h[3], 0);
    assert_eq!(h[4], 255);
    assert_eq!(h[5], 0 ^ 255 ^ 0x55);
}

#[test]
fn payload_is_rgb_triples_in_led_order() {
    let colors = vec![
        RGB8 { r: 1, g: 2, b: 3 },
        RGB8 { r: 200, g: 100, b: 50 },
        RGB8 { r: 0, g: 0, b: 255 },
    ];
    let bytes = rgbs_as_bytes(&colors);
    assert_eq!(bytes, vec![1, 2, 3, 200, 100, 50, 0, 0, 255]);
}

#[test]
fn payload_of_empty_buffer_is_empty() {
    let colors: Vec<RGB8> = Vec::new();
    let bytes = rgbs_as_bytes(&colors);
    assert!(bytes.is_empty());
}

#[test]
fn write_reports_are_classified() {
    assert_eq!(check_write(6, Some(6)), WriteCheck::Complete);
    assert_eq!(check_write(6, Some(3)), WriteCheck::Short);
    assert_eq!(check_write(6, Some(0)), WriteCheck::Short);
    assert_eq!(check_write(6, None), WriteCheck::TransportError);
}
