use ble_touch::hid::{HidReport, TOUCH_SCREEN_DESCRIPTOR};

#[test]
fn descriptor_is_non_empty() {
    assert!(!TOUCH_SCREEN_DESCRIPTOR.is_empty());
    // Approx 62 bytes for single-touch descriptor
    assert!(TOUCH_SCREEN_DESCRIPTOR.len() > 50);
}

#[test]
fn touch_report_bytes_layout() {
    let report = HidReport::touch(1000, 2000);
    let bytes = report.to_bytes();

    // Report ID
    assert_eq!(bytes[0], 0x01);
    // Tip switch set
    assert_eq!(bytes[1], 0x01);
    // Contact ID
    assert_eq!(bytes[2], 1);
    // X = 1000 = 0x03E8, LE -> [0xe8, 0x03]
    assert_eq!(bytes[3], 0xe8);
    assert_eq!(bytes[4], 0x03);
    // Y = 2000 = 0x07D0, LE -> [0xd0, 0x07]
    assert_eq!(bytes[5], 0xd0);
    assert_eq!(bytes[6], 0x07);
    // Contact count
    assert_eq!(bytes[7], 1);
}

#[test]
fn release_report_bytes() {
    let report = HidReport::release();
    let bytes = report.to_bytes();
    assert_eq!(bytes[0], 0x01); // Report ID
    assert_eq!(bytes[1], 0x00); // No tip
    assert_eq!(bytes[2], 0x00); // Contact ID 0
    assert_eq!(bytes[3], 0x00); // X = 0
    assert_eq!(bytes[4], 0x00);
    assert_eq!(bytes[5], 0x00); // Y = 0
    assert_eq!(bytes[6], 0x00);
    assert_eq!(bytes[7], 0x00); // Contact count = 0
}

#[test]
fn coordinates_clamped_to_4095() {
    let report = HidReport::touch(5000, 5000);
    assert_eq!(report.x, 4095);
    assert_eq!(report.y, 4095);
}

#[test]
fn max_coordinate_bytes() {
    let report = HidReport::touch(4095, 4095);
    let bytes = report.to_bytes();
    assert_eq!(bytes[3], 0xff);
    assert_eq!(bytes[4], 0x0f);
    assert_eq!(bytes[5], 0xff);
    assert_eq!(bytes[6], 0x0f);
}

#[test]
fn report_size_is_eight_bytes() {
    let report = HidReport::touch(100, 200);
    let bytes = report.to_bytes();
    assert_eq!(bytes.len(), 8);
}

#[test]
fn descriptor_declares_single_touch_layout() {
    assert_eq!(TOUCH_SCREEN_DESCRIPTOR.len(), 79);
    // Usage page Digitizers, usage Touch Screen, report ID 1
    assert_eq!(&TOUCH_SCREEN_DESCRIPTOR[..8], &[0x05, 0x0d, 0x09, 0x04, 0xa1, 0x01, 0x85, 0x01]);
    // Logical maximum 4095 for X/Y
    assert!(TOUCH_SCREEN_DESCRIPTOR.windows(3).any(|w| w == [0x26, 0xff, 0x0f]));
    assert_eq!(TOUCH_SCREEN_DESCRIPTOR[78], 0xc0);
}

#[test]
fn bytes_decode_back_to_coordinates() {
    for &(x, y) in &[(0u16, 0u16), (1, 255), (256, 4095), (1234, 3210)] {
        let r = HidReport::touch(x, y);
        let b = r.to_bytes();
        assert_eq!(b[3] as u16 + 256 * b[4] as u16, x);
        assert_eq!(b[5] as u16 + 256 * b[6] as u16, y);
    }
}

#[test]
fn touch_clamps_each_axis_independently() {
    let r = HidReport::touch(4096, 17);
    assert_eq!((r.x, r.y), (4095, 17));
    assert!(r.tip_switch);
    assert_eq!(r.contact_id, 1);
    assert_eq!(r.contact_count, 1);
    let r = HidReport::touch(9, 65535);
    assert_eq!((r.x, r.y), (9, 4095));
}
