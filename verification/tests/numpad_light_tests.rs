use numberpad::numpad_light::{
    set_brightness, turn_off, turn_on, LightError, BRIGHTNESS_OFFSET, MAX_BRIGHTNESS,
    SLAVE_ADDRESS, TURN_OFF, TURN_ON,
};

#[test]
fn constants_of_the_light() {
    assert_eq!(MAX_BRIGHTNESS, 7);
    assert_eq!(TURN_OFF, 0);
    assert_eq!(TURN_ON, 1);
    assert_eq!(BRIGHTNESS_OFFSET, 65);
    assert_eq!(SLAVE_ADDRESS, 0x38);
}

#[test]
fn frame_carries_the_command_in_its_twelfth_byte() {
    assert_eq!(
        numberpad::numpad_light::write(0x42),
        [0x05, 0x00, 0x3d, 0x03, 0x06, 0x00, 0x07, 0x00, 0x0d, 0x14, 0x03, 0x42, 0xad]
    );
    assert_eq!(
        numberpad::numpad_light::write(0xff),
        [0x05, 0x00, 0x3d, 0x03, 0x06, 0x00, 0x07, 0x00, 0x0d, 0x14, 0x03, 0xff, 0xad]
    );
}

#[test]
fn frame_that_switches_on() {
    assert_eq!(
        turn_on(),
        [0x05, 0x00, 0x3d, 0x03, 0x06, 0x00, 0x07, 0x00, 0x0d, 0x14, 0x03, 0x01, 0xad]
    );
}

#[test]
fn frame_that_switches_off() {
    assert_eq!(
        turn_off(),
        [0x05, 0x00, 0x3d, 0x03, 0x06, 0x00, 0x07, 0x00, 0x0d, 0x14, 0x03, 0x00, 0xad]
    );
}

#[test]
fn frames_of_the_levels() {
    assert_eq!(
        set_brightness(0),
        Ok([0x05, 0x00, 0x3d, 0x03, 0x06, 0x00, 0x07, 0x00, 0x0d, 0x14, 0x03, 65, 0xad])
    );
    assert_eq!(
        set_brightness(3),
        Ok([0x05, 0x00, 0x3d, 0x03, 0x06, 0x00, 0x07, 0x00, 0x0d, 0x14, 0x03, 68, 0xad])
    );
    assert_eq!(
        set_brightness(7),
        Ok([0x05, 0x00, 0x3d, 0x03, 0x06, 0x00, 0x07, 0x00, 0x0d, 0x14, 0x03, 72, 0xad])
    );
}

#[test]
fn every_level_of_the_scale_has_a_frame() {
    let mut level: u8 = 0;
    while level <= MAX_BRIGHTNESS {
        let frame = set_brightness(level).unwrap();
        assert_eq!(frame[11], level + 65);
        assert_eq!(frame.len(), 13);
        level += 1;
    }
}

#[test]
fn level_above_the_scale_is_refused() {
    assert_eq!(set_brightness(8), Err(LightError::BrightnessOutOfRange));
    assert_eq!(set_brightness(14), Err(LightError::BrightnessOutOfRange));
    assert_eq!(set_brightness(190), Err(LightError::BrightnessOutOfRange));
    assert_eq!(set_brightness(191), Err(LightError::BrightnessOutOfRange));
    assert_eq!(set_brightness(255), Err(LightError::BrightnessOutOfRange));
}
