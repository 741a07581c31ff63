use pelcodrs::{
    AdjustmentValue, AutoCtrl, Command1, Command2, FocusSpeed, Message, MessageBuilder, OnOff,
    ShutterSpeed, ZoomSpeed,
};

#[test]
fn test_checksum() {
    assert_eq!(0x62, pelcodrs::checksum(&[0x0A, 0x88, 0x90, 0x00, 0x40]));
}

#[test]
fn test_checksum_empty() {
    assert_eq!(0, pelcodrs::checksum(&[]));
}

#[test]
fn test_message_test_message_new() {
    let msg = Message::new(
        10,
        Command1::sense().or(Command1::camera_on_off()),
        Command2::focus_far().or(Command2::down()),
        0x00,
        0x20,
    );
    assert_eq!(&[0xFF, 0x0A, 0x88, 0x90, 0x00, 0x20, 0x42], msg.as_bytes());

    // Tilt at half speed: the quantized byte for Range(0.5) is
    // round(0.5 * 63) = 0x20.
    let msg2 = MessageBuilder::new(10)
        .camera_on()
        .focus_far()
        .down()
        .tilt((0.5f32 * 63.0).round() as u8)
        .finalize()
        .unwrap();

    assert_eq!(msg, msg2);
}

#[test]
fn test_new_message_with_try_from() {
    let bytes = [11, 22, 33, 44, 55, 66, 77];
    let msg =
        Message::try_from_bytes(&bytes[..]).expect("Failed creating Message from bytes slice");
    assert_eq!(&bytes, msg.as_bytes());

    let few_bytes = [11, 22, 33, 44, 55, 66];
    let err = Message::try_from_bytes(&few_bytes[..])
        .expect_err("Message instantiation with too few bytes should fail");
    assert_eq!(err.description(), "The slice must contain exactly 7 bytes");
    assert_eq!(err.observed_value(), Some(6));

    let many_bytes = [11, 22, 33, 44, 55, 66, 77, 88];
    let err = Message::try_from_bytes(&many_bytes[..])
        .expect_err("Message instantiation with too many bytes should fail");
    assert_eq!(err.description(), "The slice must contain exactly 7 bytes");
    assert_eq!(err.observed_value(), Some(8));
}

#[test]
fn test_message_test_message_build() {
    let msg = MessageBuilder::new(1).camera_on().finalize().unwrap();
    assert_eq!(&[0xFF, 0x01, 0x88, 0x00, 0x00, 0x00, 0x89], msg.as_bytes());

    let msg = MessageBuilder::new(1).camera_off().finalize().unwrap();
    assert_eq!(&[0xFF, 0x01, 0x08, 0x00, 0x00, 0x00, 0x09], msg.as_bytes());

    let msg = MessageBuilder::new(2)
        .left()
        .pan((0.5f32 * 63.0).round() as u8)
        .finalize()
        .unwrap();
    assert_eq!(&[0xFF, 0x02, 0x00, 0x04, 0x20, 0x00, 0x26], msg.as_bytes());

    let msg = MessageBuilder::new(2).stop().finalize().unwrap();
    assert_eq!(&[0xFF, 0x02, 0x00, 0x00, 0x00, 0x00, 0x02], msg.as_bytes());

    let msg = MessageBuilder::new(10)
        .camera_on()
        .focus_far()
        .direction(pelcodrs::Direction::down())
        .tilt(0xFF)
        .finalize()
        .expect("Could not finalize message");
    assert_eq!(&[0xFF, 0x0A, 0x88, 0x90, 0x00, 0xFF, 0x21], msg.as_bytes());
}

#[test]
fn test_message_from_words() {
    let msg = Message::from_bytes(23, [200, 9, 145, 17]);
    assert_eq!([0xFF, 23, 200, 9, 145, 17, 138], *msg.as_bytes());
}

#[test]
fn test_frame_checksum_consistent() {
    // The checksum byte of a constructed frame always matches the six bytes
    // before it.
    let msg = Message::from_bytes(77, [0x12, 0x34, 0x56, 0x78]);
    let bytes = msg.as_bytes();
    assert_eq!(bytes[0], 0xFF);
    assert_eq!(bytes[6], pelcodrs::checksum(&bytes[1..6]));
}

#[test]
fn test_message_from_array() {
    // No checksum is recomputed: the array comes back byte for byte.
    let msg = Message::from([11, 22, 33, 44, 55, 66, 77]);
    assert_eq!(&[11, 22, 33, 44, 55, 66, 77], msg.as_bytes());
}

#[test]
fn test_invalid_preset() {
    let err = Message::set_preset(12, 0).expect_err("Preset 0 should fail");
    assert_eq!(err.description(), "Invalid Preset ID");
    let _ = Message::clear_preset(12, 0).expect_err("Preset 0 should fail");
    let _ = Message::go_to_preset(12, 0).expect_err("Preset 0 should fail");
}

#[test]
fn test_preset() {
    let msg = Message::set_preset(1, 1).unwrap();
    assert_eq!(&[0xFF, 1, 0, 0x03, 0, 1, 5], msg.as_bytes());

    let msg = Message::clear_preset(12, 15).unwrap();
    assert_eq!(&[0xFF, 12, 0, 0x05, 0, 15, 32], msg.as_bytes());

    let msg = Message::go_to_preset(255, 255).unwrap();
    assert_eq!(&[0xFF, 255, 0, 0x07, 0, 255, 5], msg.as_bytes());

    assert_eq!(
        Message::go_to_preset(34, 0x21).unwrap(),
        Message::flip_180(34).unwrap()
    );
    assert_eq!(
        Message::go_to_preset(84, 0x22).unwrap(),
        Message::go_to_zero_pan(84).unwrap()
    );
}

#[test]
fn test_write_char_to_screen() {
    let msg = Message::write_char_to_screen(11, 32, 'F').unwrap();
    assert_eq!(&[0xFF, 11, 0, 0x15, 32, b'F', 134], msg.as_bytes());

    let _ = Message::write_char_to_screen(11, 32, '\u{597D}').expect_err("Should fail for non-ASCII");
}

#[test]
fn test_zoom_focus_speed() {
    let msg = Message::set_zoom_speed(12, ZoomSpeed::Medium).unwrap();
    assert_eq!(&[0xFF, 12, 0, 0x25, 0, 1, 50], msg.as_bytes());

    let msg = Message::set_focus_speed(12, FocusSpeed::Highest).unwrap();
    assert_eq!(&[0xFF, 12, 0, 0x27, 0, 3, 54], msg.as_bytes());
}

#[test]
fn test_auxiliary_and_zones() {
    let msg = Message::set_auxiliary(3, 1, 4).unwrap();
    assert_eq!(&[0xFF, 3, 1, 0x09, 0, 4, 17], msg.as_bytes());

    let msg = Message::clear_auxiliary(3, 1, 4).unwrap();
    assert_eq!(&[0xFF, 3, 1, 0x0B, 0, 4, 19], msg.as_bytes());

    let msg = Message::set_zone_start(5, 2).unwrap();
    assert_eq!(&[0xFF, 5, 0, 0x11, 0, 2, 24], msg.as_bytes());

    let msg = Message::set_zone_end(5, 2).unwrap();
    assert_eq!(&[0xFF, 5, 0, 0x13, 0, 2, 26], msg.as_bytes());

    let msg = Message::zone_scan_on(5).unwrap();
    assert_eq!(&[0xFF, 5, 0, 0x1B, 0, 0, 32], msg.as_bytes());

    let msg = Message::zone_scan_off(5).unwrap();
    assert_eq!(&[0xFF, 5, 0, 0x1D, 0, 0, 34], msg.as_bytes());
}

#[test]
fn test_patterns_and_misc() {
    let msg = Message::set_pattern_start(1, 3).unwrap();
    assert_eq!(&[0xFF, 1, 0, 0x1F, 0, 3, 35], msg.as_bytes());

    let msg = Message::set_pattern_stop(1, 3).unwrap();
    assert_eq!(&[0xFF, 1, 0, 0x21, 0, 3, 37], msg.as_bytes());

    let msg = Message::run_pattern(1, 3).unwrap();
    assert_eq!(&[0xFF, 1, 0, 0x23, 0, 3, 39], msg.as_bytes());

    let msg = Message::remote_reset(9).unwrap();
    assert_eq!(&[0xFF, 9, 0, 0x0F, 0, 0, 24], msg.as_bytes());

    let msg = Message::clear_screen(9).unwrap();
    assert_eq!(&[0xFF, 9, 0, 0x17, 0, 0, 32], msg.as_bytes());

    let msg = Message::alarm_acknowledge(9, 2).unwrap();
    assert_eq!(&[0xFF, 9, 0, 0x19, 0, 2, 36], msg.as_bytes());

    let msg = Message::reset_camera_to_defaults(9).unwrap();
    assert_eq!(&[0xFF, 9, 0, 0x29, 0, 0, 50], msg.as_bytes());

    let msg = Message::enable_device_phase_delay_mode(9).unwrap();
    assert_eq!(&[0xFF, 9, 0, 0x35, 0, 0, 62], msg.as_bytes());

    let msg = Message::query().unwrap();
    assert_eq!(&[0xFF, 0, 0, 0x45, 0, 0, 0x45], msg.as_bytes());
}

#[test]
fn test_auto_controls() {
    let msg = Message::auto_focus(1, AutoCtrl::Auto).unwrap();
    assert_eq!(&[0xFF, 1, 0, 0x2B, 0, 0, 44], msg.as_bytes());

    let msg = Message::auto_focus(1, AutoCtrl::Off).unwrap();
    assert_eq!(&[0xFF, 1, 0, 0x2B, 0, 1, 45], msg.as_bytes());

    let msg = Message::auto_iris(1, AutoCtrl::Off).unwrap();
    assert_eq!(&[0xFF, 1, 0, 0x2D, 0, 1, 47], msg.as_bytes());

    let msg = Message::agc(1, AutoCtrl::Auto).unwrap();
    assert_eq!(&[0xFF, 1, 0, 0x2F, 0, 0, 48], msg.as_bytes());
}

#[test]
fn test_on_off_codes() {
    // Backlight compensation: On is 2, Off is 1.
    let msg = Message::backlight_compensation(1, OnOff::On).unwrap();
    assert_eq!(&[0xFF, 1, 0, 0x31, 0, 2, 52], msg.as_bytes());

    let msg = Message::backlight_compensation(1, OnOff::Off).unwrap();
    assert_eq!(&[0xFF, 1, 0, 0x31, 0, 1, 51], msg.as_bytes());

    // Auto white balance: On is 1, Off is 2.
    let msg = Message::auto_white_balance(1, OnOff::On).unwrap();
    assert_eq!(&[0xFF, 1, 0, 0x33, 0, 1, 53], msg.as_bytes());

    let msg = Message::auto_white_balance(1, OnOff::Off).unwrap();
    assert_eq!(&[0xFF, 1, 0, 0x33, 0, 2, 54], msg.as_bytes());

    // A manual value bypasses the mapping.
    let msg = Message::auto_white_balance(1, OnOff::Value(7)).unwrap();
    assert_eq!(&[0xFF, 1, 0, 0x33, 0, 7, 59], msg.as_bytes());
}

#[test]
fn test_shutter_speed() {
    let msg = Message::set_shutter_speed(1, ShutterSpeed::Bytes(0xAB, 0xCD)).unwrap();
    assert_eq!(&[0xFF, 1, 0, 0x37, 0xAB, 0xCD, 0xB0], msg.as_bytes());

    let msg = Message::set_shutter_speed(1, ShutterSpeed::DefaultValue).unwrap();
    assert_eq!(&[0xFF, 1, 0, 0x37, 0, 0, 56], msg.as_bytes());

    let msg = Message::set_shutter_speed(1, ShutterSpeed::Increment).unwrap();
    assert_eq!(&[0xFF, 1, 0, 0x37, 0, 1, 57], msg.as_bytes());

    let msg = Message::set_shutter_speed(1, ShutterSpeed::Decrement).unwrap();
    assert_eq!(&[0xFF, 1, 0, 0x37, 0, 2, 58], msg.as_bytes());

    let msg = Message::set_shutter_speed(1, ShutterSpeed::PAL).unwrap();
    assert_eq!(&[0xFF, 1, 0, 0x37, 0, 50, 106], msg.as_bytes());

    let msg = Message::set_shutter_speed(1, ShutterSpeed::NTSC).unwrap();
    assert_eq!(&[0xFF, 1, 0, 0x37, 0, 60, 116], msg.as_bytes());

    // A Value is serialized big-endian across the two data bytes.
    let msg = Message::set_shutter_speed(1, ShutterSpeed::Value(0x1234)).unwrap();
    assert_eq!(&[0xFF, 1, 0, 0x37, 0x12, 0x34, 0x7E], msg.as_bytes());

    let msg = Message::set_shutter_speed(1, ShutterSpeed::AutoShutter).unwrap();
    assert_eq!(&[0xFF, 1, 0, 0x37, 0, 0, 56], msg.as_bytes());

    let msg = Message::set_shutter_speed(1, ShutterSpeed::Index(9)).unwrap();
    assert_eq!(&[0xFF, 1, 0, 0x37, 0, 9, 65], msg.as_bytes());
}

#[test]
fn test_adjustments() {
    // An absolute value: leading mode byte 0, big-endian data bytes.
    let msg = Message::adjust_gain(2, AdjustmentValue::New(0x1234)).unwrap();
    assert_eq!(&[0xFF, 2, 0, 0x3F, 0x12, 0x34, 0x87], msg.as_bytes());

    // A delta: leading mode byte 1, two's complement big-endian data bytes.
    let msg = Message::adjust_gain(1, AdjustmentValue::Delta(-1)).unwrap();
    assert_eq!(&[0xFF, 1, 1, 0x3F, 0xFF, 0xFF, 0x3F], msg.as_bytes());

    let msg = Message::adjust_line_lock_phase_delay(1, AdjustmentValue::New(1)).unwrap();
    assert_eq!(&[0xFF, 1, 0, 0x39, 0, 1, 0x3B], msg.as_bytes());

    let msg = Message::adjust_white_balance_rb(1, AdjustmentValue::New(1)).unwrap();
    assert_eq!(&[0xFF, 1, 0, 0x3B, 0, 1, 0x3D], msg.as_bytes());

    let msg = Message::adjust_white_balance_mg(1, AdjustmentValue::New(1)).unwrap();
    assert_eq!(&[0xFF, 1, 0, 0x3D, 0, 1, 0x3F], msg.as_bytes());

    let msg = Message::adjust_auto_iris_level(1, AdjustmentValue::Delta(0x0102)).unwrap();
    assert_eq!(&[0xFF, 1, 1, 0x41, 1, 2, 0x46], msg.as_bytes());

    let msg = Message::adjust_auto_iris_peak(1, AdjustmentValue::Delta(0x0102)).unwrap();
    assert_eq!(&[0xFF, 1, 1, 0x43, 1, 2, 0x48], msg.as_bytes());
}

#[test]
fn test_builder_remaining_methods() {
    let msg = MessageBuilder::new(1).zoom_in().finalize().unwrap();
    assert_eq!(&[0xFF, 1, 0, 0x20, 0, 0, 0x21], msg.as_bytes());

    let msg = MessageBuilder::new(1).zoom_out().finalize().unwrap();
    assert_eq!(&[0xFF, 1, 0, 0x40, 0, 0, 0x41], msg.as_bytes());

    let msg = MessageBuilder::new(1).auto_scan().finalize().unwrap();
    assert_eq!(&[0xFF, 1, 0x90, 0, 0, 0, 0x91], msg.as_bytes());

    let msg = MessageBuilder::new(1).manual_scan().finalize().unwrap();
    assert_eq!(&[0xFF, 1, 0x10, 0, 0, 0, 0x11], msg.as_bytes());

    let msg = MessageBuilder::new(1).close_iris().finalize().unwrap();
    assert_eq!(&[0xFF, 1, 0x04, 0, 0, 0, 0x05], msg.as_bytes());

    let msg = MessageBuilder::new(1).open_iris().finalize().unwrap();
    assert_eq!(&[0xFF, 1, 0x02, 0, 0, 0, 0x03], msg.as_bytes());

    let msg = MessageBuilder::new(1).focus_near().finalize().unwrap();
    assert_eq!(&[0xFF, 1, 0x01, 0, 0, 0, 0x02], msg.as_bytes());

    let msg = MessageBuilder::new(1).up().right().pan(0x3F).tilt(0x3F).finalize().unwrap();
    assert_eq!(&[0xFF, 1, 0, 0x0A, 0x3F, 0x3F, 0x89], msg.as_bytes());

    // The command bits accumulate by bitwise or: camera_off after camera_on
    // leaves both the sense and camera bits set.
    let msg = MessageBuilder::new(1).camera_on().camera_off().finalize().unwrap();
    assert_eq!(&[0xFF, 1, 0x88, 0, 0, 0, 0x89], msg.as_bytes());

    // A diagonal move: two directions combined into one bit-set.
    let diagonal = pelcodrs::Direction::down().or(pelcodrs::Direction::left());
    let msg = MessageBuilder::new(1).direction(diagonal).finalize().unwrap();
    assert_eq!(&[0xFF, 1, 0, 0x14, 0, 0, 0x15], msg.as_bytes());
}
