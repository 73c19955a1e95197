use vkbd::report::Report;
use vkbd::report::buffer_is_well_framed;
use vkbd::report::CONSUMER_REPORT_ID;
use vkbd::report::KEYBOARD_REPORT_ID;
use vkbd::report::MOUSE_REPORT_ID;
use vkbd::report::SYSTEM_REPORT_ID;
use vkbd::report::VENDOR_REPORT_ID;

#[test]
fn report_ids_are_the_five_schema_ids() {
    let keyboard = Report::Keyboard { keys: vec![0; 15] };
    let system = Report::System { power: false, sleep: false, wake: false };
    let consumer = Report::Consumer { usage: 0 };
    let vendor = Report::Vendor { data: Vec::new() };
    let mouse = Report::Mouse { buttons: 0, x: 0, y: 0, wheel: 0, pan: 0 };
    assert_eq!(keyboard.report_id(), KEYBOARD_REPORT_ID);
    assert_eq!(system.report_id(), SYSTEM_REPORT_ID);
    assert_eq!(consumer.report_id(), CONSUMER_REPORT_ID);
    assert_eq!(vendor.report_id(), VENDOR_REPORT_ID);
    assert_eq!(mouse.report_id(), MOUSE_REPORT_ID);
    assert_eq!(
        [KEYBOARD_REPORT_ID, SYSTEM_REPORT_ID, CONSUMER_REPORT_ID, VENDOR_REPORT_ID, MOUSE_REPORT_ID],
        [1, 2, 3, 4, 5]
    );
}

#[test]
fn encoded_lengths_are_fixed_per_report_id() {
    let keyboard = Report::Keyboard { keys: vec![0; 15] };
    let system = Report::System { power: true, sleep: false, wake: false };
    let consumer = Report::Consumer { usage: 100 };
    let vendor = Report::Vendor { data: vec![0xaa; 63] };
    let mouse = Report::Mouse { buttons: 1, x: -5, y: 7, wheel: 0, pan: 0 };
    assert_eq!(keyboard.encode().len(), 16);
    assert_eq!(system.encode().len(), 2);
    assert_eq!(consumer.encode().len(), 3);
    assert_eq!(vendor.encode().len(), 64);
    assert_eq!(mouse.encode().len(), 8);
}

#[test]
fn keyboard_key_down_for_usage_four() {
    // Bit 0 of the first data byte stands for usage 4, commonly "A".
    let mut keys = vec![0u8; 15];
    keys[0] = 0x01;
    let report = Report::Keyboard { keys };
    let buffer = report.encode();
    let mut expected = vec![0u8; 16];
    expected[0] = 0x01;
    expected[1] = 0x01;
    assert_eq!(buffer, expected);
    assert!(buffer_is_well_framed(&buffer));
}

#[test]
fn mouse_left_button_down_with_zero_motion() {
    let report = Report::Mouse { buttons: 0x01, x: 0, y: 0, wheel: 0, pan: 0 };
    let buffer = report.encode();
    assert_eq!(buffer, vec![0x05, 0x01, 0x00, 0x00, 0x00, 0x00, 0x00, 0x00]);
    assert!(buffer_is_well_framed(&buffer));
}

#[test]
fn mouse_signed_fields_are_little_endian_twos_complement() {
    let report = Report::Mouse { buttons: 0, x: -1, y: -32768, wheel: -1, pan: -128 };
    assert_eq!(report.encode(), vec![0x05, 0x00, 0xff, 0xff, 0x00, 0x80, 0xff, 0x80]);
    let report = Report::Mouse { buttons: 0x1f, x: 32767, y: 258, wheel: 127, pan: 1 };
    assert_eq!(report.encode(), vec![0x05, 0x1f, 0xff, 0x7f, 0x02, 0x01, 0x7f, 0x01]);
}

#[test]
fn consumer_usage_is_little_endian() {
    assert_eq!(Report::Consumer { usage: 0x1234 }.encode(), vec![0x03, 0x34, 0x12]);
    assert_eq!(Report::Consumer { usage: 0 }.encode(), vec![0x03, 0x00, 0x00]);
    assert_eq!(Report::Consumer { usage: 8191 }.encode(), vec![0x03, 0xff, 0x1f]);
}

#[test]
fn system_flags_fill_the_low_bits() {
    let none = Report::System { power: false, sleep: false, wake: false };
    assert_eq!(none.encode(), vec![0x02, 0x00]);
    let power_and_wake = Report::System { power: true, sleep: false, wake: true };
    assert_eq!(power_and_wake.encode(), vec![0x02, 0x05]);
    let all = Report::System { power: true, sleep: true, wake: true };
    assert_eq!(all.encode(), vec![0x02, 0x07]);
}

#[test]
fn vendor_payload_is_framed_behind_its_id() {
    let empty = Report::Vendor { data: Vec::new() };
    assert_eq!(empty.encode(), vec![0x04]);
    let full = Report::Vendor { data: vec![0xaa; 63] };
    let buffer = full.encode();
    assert_eq!(buffer[0], 0x04);
    assert_eq!(&buffer[1..], &[0xaa; 63][..]);
    assert!(buffer_is_well_framed(&buffer));
}

#[test]
fn unknown_leading_byte_matches_no_schema() {
    // What the kernel does with such a buffer is kernel-defined; the crate
    // itself must neither crash nor call it well framed.
    assert!(!buffer_is_well_framed(&[0x00, 0x01]));
    assert!(!buffer_is_well_framed(&[0x06, 0x01, 0x02]));
    assert!(!buffer_is_well_framed(&[0xff]));
    assert!(!buffer_is_well_framed(&[]));
}

#[test]
fn short_buffer_is_not_well_framed() {
    // A consumer-control report needs two data bytes, not one.
    assert!(!buffer_is_well_framed(&[0x03, 0x05]));
    assert!(buffer_is_well_framed(&[0x03, 0x05, 0x00]));
}

#[test]
fn framing_checks_every_schema_length() {
    assert!(buffer_is_well_framed(&[1u8; 16]));
    assert!(!buffer_is_well_framed(&[1u8; 15]));
    assert!(!buffer_is_well_framed(&[1u8; 17]));
    assert!(buffer_is_well_framed(&[2, 0]));
    assert!(!buffer_is_well_framed(&[2, 0, 0]));
    assert!(buffer_is_well_framed(&[4u8; 64]));
    assert!(!buffer_is_well_framed(&[4u8; 65]));
    assert!(buffer_is_well_framed(&[5u8; 8]));
    assert!(!buffer_is_well_framed(&[5u8; 7]));
}
