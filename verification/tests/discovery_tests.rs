use numberpad::discovery::{get_touchpad_id, DiscoveryError, TouchPadId};

const LISTING: &str = "\
I: Bus=0019 Vendor=0000 Product=0005 Version=0000
N: Name=\"Lid Switch\"
P: Phys=PNP0C0D/button/input0
S: Sysfs=/devices/LNXSYSTM:00/LNXSYBUS:00/PNP0C0D:00/input/input0
U: Uniq=
H: Handlers=event0
B: PROP=0
B: EV=21

I: Bus=0018 Vendor=04f3 Product=31b9 Version=0100
N: Name=\"ASUF1204:00 2808:0202 Touchpad\"
P: Phys=i2c-ASUF1204:00
S: Sysfs=/devices/pci0000:00/0000:00:15.3/i2c_designware.3/i2c-4/i2c-ASUF1204:00/0018:2808:0202.0001/input/input17
U: Uniq=
H: Handlers=mouse2 event12
B: PROP=5
B: EV=1b

I: Bus=0011 Vendor=0001 Product=0001 Version=ab83
N: Name=\"Asus Keyboard\"
P: Phys=isa0060/serio0/input0
S: Sysfs=/devices/platform/i8042/serio0/input/input3
U: Uniq=
H: Handlers=sysrq kbd event3 leds
B: PROP=0
";

fn read(text: &str) -> Result<TouchPadId, DiscoveryError> {
    get_touchpad_id(text.as_bytes())
}

#[test]
fn touchpad_among_other_devices() {
    assert_eq!(read(LISTING), Ok(TouchPadId { i2c_id: 4, ev_id: 12 }));
}

#[test]
fn smallest_listing() {
    assert_eq!(
        read("N: ASUF Touchpad\nS: i2c-1\nH: event2"),
        Ok(TouchPadId { i2c_id: 1, ev_id: 2 })
    );
    assert_eq!(
        read("N:ASUFTouchpad\nS:i2c-1\nH:event2\n"),
        Ok(TouchPadId { i2c_id: 1, ev_id: 2 })
    );
}

#[test]
fn lines_may_end_with_a_carriage_return() {
    assert_eq!(
        read("N: ASUF Touchpad\r\nS: i2c-17\r\nH: event23\r\n"),
        Ok(TouchPadId { i2c_id: 17, ev_id: 23 })
    );
}

#[test]
fn empty_listing() {
    assert_eq!(read(""), Err(DiscoveryError::I2cIdNotFound));
    assert_eq!(read("\n"), Err(DiscoveryError::I2cIdNotFound));
    assert_eq!(read("\n\n\n"), Err(DiscoveryError::I2cIdNotFound));
}

#[test]
fn listing_without_the_touchpad() {
    assert_eq!(
        read("N: Name=\"Lid Switch\"\nS: Sysfs=/i2c-3\nH: Handlers=event0\n"),
        Err(DiscoveryError::I2cIdNotFound)
    );
}

#[test]
fn name_needs_its_tag_and_both_marks() {
    assert_eq!(read("P: ASUF Touchpad\nS: i2c-1\nH: event2"), Err(DiscoveryError::I2cIdNotFound));
    assert_eq!(read(" N: ASUF Touchpad\nS: i2c-1\nH: event2"), Err(DiscoveryError::I2cIdNotFound));
    assert_eq!(read("N: ASUF Mouse\nS: i2c-1\nH: event2"), Err(DiscoveryError::I2cIdNotFound));
    assert_eq!(read("N: ELAN Touchpad\nS: i2c-1\nH: event2"), Err(DiscoveryError::I2cIdNotFound));
    assert_eq!(read("N: asuf touchpad\nS: i2c-1\nH: event2"), Err(DiscoveryError::I2cIdNotFound));
    assert_eq!(read("N: ASU Touchpad F\nS: i2c-1\nH: event2"), Err(DiscoveryError::I2cIdNotFound));
    assert_eq!(
        read("N: Touchpad of ASUF\nS: i2c-1\nH: event2"),
        Ok(TouchPadId { i2c_id: 1, ev_id: 2 })
    );
    assert_eq!(read("N:"), Err(DiscoveryError::I2cIdNotFound));
    assert_eq!(read("N"), Err(DiscoveryError::I2cIdNotFound));
}

#[test]
fn name_must_stand_on_one_line() {
    assert_eq!(read("N: ASUF\nTouchpad\nS: i2c-1\nH: event2"), Err(DiscoveryError::I2cIdNotFound));
}

#[test]
fn lines_before_the_name_do_not_count() {
    assert_eq!(
        read("S: i2c-9\nH: event9\nN: ASUF Touchpad\nS: i2c-1\nH: event2"),
        Ok(TouchPadId { i2c_id: 1, ev_id: 2 })
    );
    assert_eq!(
        read("S: nothing\nH: nothing\nN: ASUF Touchpad\nS: i2c-1\nH: event2"),
        Ok(TouchPadId { i2c_id: 1, ev_id: 2 })
    );
}

#[test]
fn touchpad_without_a_path() {
    assert_eq!(read("N: ASUF Touchpad\nH: event2\n"), Err(DiscoveryError::I2cIdNotFound));
    assert_eq!(read("N: ASUF Touchpad\n"), Err(DiscoveryError::I2cIdNotFound));
}

#[test]
fn touchpad_without_handlers() {
    assert_eq!(read("N: ASUF Touchpad\nS: i2c-1\n"), Err(DiscoveryError::EvIdNotFound));
    assert_eq!(read("N: ASUF Touchpad\nS: i2c-1\nU: Uniq=\n"), Err(DiscoveryError::EvIdNotFound));
}

#[test]
fn zero_is_a_number_like_any_other() {
    assert_eq!(
        read("N: ASUF Touchpad\nS: i2c-7\nH: event0"),
        Ok(TouchPadId { i2c_id: 7, ev_id: 0 })
    );
    assert_eq!(
        read("N: ASUF Touchpad\nS: i2c-0\nH: event2"),
        Ok(TouchPadId { i2c_id: 0, ev_id: 2 })
    );
    assert_eq!(
        read("N: ASUF Touchpad\nS: i2c-0\nH: event0"),
        Ok(TouchPadId { i2c_id: 0, ev_id: 0 })
    );
    assert_eq!(
        read("N: ASUF Touchpad\nS: i2c-000\nH: event00"),
        Ok(TouchPadId { i2c_id: 0, ev_id: 0 })
    );
}

#[test]
fn bus_zero_without_handlers_misses_the_event_device() {
    assert_eq!(read("N: ASUF Touchpad\nS: i2c-0\n"), Err(DiscoveryError::EvIdNotFound));
}

#[test]
fn event_device_zero_without_a_path_misses_the_bus() {
    assert_eq!(read("N: ASUF Touchpad\nH: event0\n"), Err(DiscoveryError::I2cIdNotFound));
}

#[test]
fn path_without_a_bus_is_malformed() {
    assert_eq!(
        read("N: ASUF Touchpad\nS: Sysfs=/devices\nH: event2"),
        Err(DiscoveryError::MalformedEntry)
    );
    assert_eq!(read("N: ASUF Touchpad\nS: i2c-\nH: event2"), Err(DiscoveryError::MalformedEntry));
    assert_eq!(read("N: ASUF Touchpad\nS: i2c-x1\nH: event2"), Err(DiscoveryError::MalformedEntry));
    assert_eq!(read("N: ASUF Touchpad\nS: i2c- 1\nH: event2"), Err(DiscoveryError::MalformedEntry));
    assert_eq!(read("N: ASUF Touchpad\nS: i2c-+1\nH: event2"), Err(DiscoveryError::MalformedEntry));
    assert_eq!(read("N: ASUF Touchpad\nS: I2C-1\nH: event2"), Err(DiscoveryError::MalformedEntry));
    assert_eq!(read("N: ASUF Touchpad\nS:"), Err(DiscoveryError::MalformedEntry));
}

#[test]
fn handlers_without_an_event_device_are_malformed() {
    assert_eq!(
        read("N: ASUF Touchpad\nS: i2c-1\nH: Handlers=mouse2"),
        Err(DiscoveryError::MalformedEntry)
    );
    assert_eq!(read("N: ASUF Touchpad\nS: i2c-1\nH: event"), Err(DiscoveryError::MalformedEntry));
    assert_eq!(read("N: ASUF Touchpad\nS: i2c-1\nH: event-3"), Err(DiscoveryError::MalformedEntry));
    assert_eq!(read("N: ASUF Touchpad\nH: Handlers=kbd"), Err(DiscoveryError::MalformedEntry));
}

#[test]
fn number_is_read_after_the_first_mark_only() {
    assert_eq!(
        read("N: ASUF Touchpad\nS: /i2c-4/i2c-ASUF1204:00\nH: event2"),
        Ok(TouchPadId { i2c_id: 4, ev_id: 2 })
    );
    assert_eq!(
        read("N: ASUF Touchpad\nS: /i2c-ASUF1204:00/i2c-4\nH: event2"),
        Err(DiscoveryError::MalformedEntry)
    );
    assert_eq!(
        read("N: ASUF Touchpad\nS: i2c-1\nH: event5 event6"),
        Ok(TouchPadId { i2c_id: 1, ev_id: 5 })
    );
    assert_eq!(
        read("N: ASUF Touchpad\nS: i2c-1\nH: events event6"),
        Err(DiscoveryError::MalformedEntry)
    );
}

#[test]
fn number_ends_with_its_digits() {
    assert_eq!(
        read("N: ASUF Touchpad\nS: i2c-12/x\nH: event34 leds"),
        Ok(TouchPadId { i2c_id: 12, ev_id: 34 })
    );
    assert_eq!(
        read("N: ASUF Touchpad\nS: i2c-12i2c-5\nH: event34event7"),
        Ok(TouchPadId { i2c_id: 12, ev_id: 34 })
    );
    assert_eq!(
        read("N: ASUF Touchpad\nS: i2c-007\nH: event0042"),
        Ok(TouchPadId { i2c_id: 7, ev_id: 42 })
    );
    assert_eq!(
        read("N: ASUF Touchpad\nS: i2c-1:9\nH: event2/8"),
        Ok(TouchPadId { i2c_id: 1, ev_id: 2 })
    );
}

#[test]
fn number_must_fit_thirty_two_bits() {
    assert_eq!(
        read("N: ASUF Touchpad\nS: i2c-4294967295\nH: event4294967295"),
        Ok(TouchPadId { i2c_id: 4294967295, ev_id: 4294967295 })
    );
    assert_eq!(
        read("N: ASUF Touchpad\nS: i2c-00000000004294967295\nH: event1"),
        Ok(TouchPadId { i2c_id: 4294967295, ev_id: 1 })
    );
    assert_eq!(
        read("N: ASUF Touchpad\nS: i2c-4294967296\nH: event1"),
        Err(DiscoveryError::MalformedEntry)
    );
    assert_eq!(
        read("N: ASUF Touchpad\nS: i2c-1\nH: event4294967296"),
        Err(DiscoveryError::MalformedEntry)
    );
    assert_eq!(
        read("N: ASUF Touchpad\nS: i2c-99999999999999999999999999\nH: event1"),
        Err(DiscoveryError::MalformedEntry)
    );
}

#[test]
fn last_path_before_the_handlers_counts() {
    assert_eq!(
        read("N: ASUF Touchpad\nS: i2c-1\nS: i2c-2\nH: event3\nS: i2c-4\n"),
        Ok(TouchPadId { i2c_id: 2, ev_id: 3 })
    );
    assert_eq!(
        read("N: ASUF Touchpad\nS: i2c-1\nS: i2c-0\nH: event3\n"),
        Ok(TouchPadId { i2c_id: 0, ev_id: 3 })
    );
    assert_eq!(
        read("N: ASUF Touchpad\nS: none\nS: i2c-2\nH: event3\n"),
        Err(DiscoveryError::MalformedEntry)
    );
}

#[test]
fn first_handlers_end_the_reading() {
    assert_eq!(
        read("N: ASUF Touchpad\nS: i2c-1\nH: event3\nH: event4\n"),
        Ok(TouchPadId { i2c_id: 1, ev_id: 3 })
    );
    assert_eq!(
        read("N: ASUF Touchpad\nS: i2c-1\nH: event3\nS: broken\nH: broken\n"),
        Ok(TouchPadId { i2c_id: 1, ev_id: 3 })
    );
    assert_eq!(
        read("N: ASUF Touchpad\nH: event3\nS: i2c-1\n"),
        Err(DiscoveryError::I2cIdNotFound)
    );
}

#[test]
fn block_of_the_touchpad_runs_on_into_the_next_device() {
    assert_eq!(
        read("N: ASUF Touchpad\n\nN: keyboard\nS: i2c-6\nH: event7\n"),
        Ok(TouchPadId { i2c_id: 6, ev_id: 7 })
    );
}

#[test]
fn first_of_two_touchpads_is_taken() {
    assert_eq!(
        read("N: ASUF Touchpad\nS: i2c-1\nH: event2\n\nN: ASUF Touchpad\nS: i2c-3\nH: event4\n"),
        Ok(TouchPadId { i2c_id: 1, ev_id: 2 })
    );
}

#[test]
fn bytes_that_are_no_text_are_read_all_the_same() {
    let mut listing: Vec<u8> = vec![0xff, 0xfe, 0x0a];
    listing.extend_from_slice(b"N: ASUF \xc3\xa9 Touchpad\nS: \x80i2c-5\xff\nH: \x00event6\x00\n");
    assert_eq!(get_touchpad_id(&listing), Ok(TouchPadId { i2c_id: 5, ev_id: 6 }));
}
