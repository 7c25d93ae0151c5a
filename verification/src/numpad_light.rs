//! The commands of the keypad's backlight.
//!
//! The light hangs on an I2C bus and takes frames of thirteen bytes. The frames
//! for switching it off, switching it on and setting one of its levels differ in
//! one byte only. This module builds the frames; writing them to the bus is
//! left to the caller.

use vstd::prelude::*;

verus! {

/// The highest level of the light.
pub const MAX_BRIGHTNESS: u8 = 7;

/// The command byte that switches the light off.
pub const TURN_OFF: u8 = 0;

/// The command byte that switches the light on.
pub const TURN_ON: u8 = 1;

/// The command byte of level 0; the one of level `n` is `n` above it.
pub const BRIGHTNESS_OFFSET: u8 = 65;

/// The bus address of the light.
pub const SLAVE_ADDRESS: u16 = 0x38;

/// Why a command for the light could not be built.
#[derive(Clone, Copy, Debug, PartialEq, Eq, Structural)]
pub enum LightError {
    /// The level asked for lies above [`MAX_BRIGHTNESS`].
    BrightnessOutOfRange,
}

/// The frame that carries the command byte `num`.
pub open spec fn frame(num: u8) -> Seq<u8> {
    seq![
        0x05u8,
        0x00u8,
        0x3du8,
        0x03u8,
        0x06u8,
        0x00u8,
        0x07u8,
        0x00u8,
        0x0du8,
        0x14u8,
        0x03u8,
        num,
        0xadu8,
    ]
}

/// The frame that a request for `level` is answered with, where there is one.
pub open spec fn brightness_frame(level: u8) -> Result<Seq<u8>, LightError> {
    if level <= MAX_BRIGHTNESS {
        Ok(frame((level + BRIGHTNESS_OFFSET) as u8))
    } else {
        Err(LightError::BrightnessOutOfRange)
    }
}

/// Builds the frame that carries the command byte `num`.
pub fn write(num: u8) -> (bytes: [u8; 13])
    ensures
        bytes@ == frame(num),
{
    let bytes: [u8; 13] = [
        0x05, 0x00, 0x3d, 0x03, 0x06, 0x00, 0x07, 0x00, 0x0d, 0x14, 0x03, num, 0xad,
    ];
    assert(bytes@ =~= frame(num));
    bytes
}

/// The frame that switches the light on. Until it is on, its level does not show.
pub fn turn_on() -> (bytes: [u8; 13])
    ensures
        bytes@ == frame(TURN_ON),
{
    write(TURN_ON)
}

/// The frame that switches the light off.
pub fn turn_off() -> (bytes: [u8; 13])
    ensures
        bytes@ == frame(TURN_OFF),
{
    write(TURN_OFF)
}

/// The frame that sets the light to `brightness_num`, or the error for a level
/// above [`MAX_BRIGHTNESS`], for which no frame is built.
pub fn set_brightness(brightness_num: u8) -> (built: Result<[u8; 13], LightError>)
    ensures
        match (built, brightness_frame(brightness_num)) {
            (Ok(bytes), Ok(expected)) => bytes@ == expected,
            (Err(e), Err(expected)) => e == expected,
            _ => false,
        },
{
    if brightness_num > MAX_BRIGHTNESS {
        return Err(LightError::BrightnessOutOfRange);
    }
    Ok(write(brightness_num + BRIGHTNESS_OFFSET))
}

/// Every frame has thirteen bytes, and two frames differ in the command byte
/// alone, which is the twelfth.
pub proof fn lemma_frames_differ_in_command(a: u8, b: u8)
    ensures
        frame(a).len() == 13,
        frame(a)[11] == a,
        forall|i: int| 0 <= i < 13 && i != 11 ==> frame(a)[i] == frame(b)[i],
{
}

/// The frames that switch the light and those that set its levels are all
/// different: no level has the command byte of a switch, nor that of
/// another level.
pub proof fn lemma_commands_differ(a: u8, b: u8)
    requires
        a <= MAX_BRIGHTNESS,
        b <= MAX_BRIGHTNESS,
    ensures
        brightness_frame(a) != Ok::<Seq<u8>, LightError>(frame(TURN_ON)),
        brightness_frame(a) != Ok::<Seq<u8>, LightError>(frame(TURN_OFF)),
        a != b ==> brightness_frame(a) != brightness_frame(b),
{
    let level_a = (a + BRIGHTNESS_OFFSET) as u8;
    let level_b = (b + BRIGHTNESS_OFFSET) as u8;
    assert(frame(level_a)[11] == level_a);
    assert(frame(level_b)[11] == level_b);
    assert(frame(TURN_ON)[11] == TURN_ON);
    assert(frame(TURN_OFF)[11] == TURN_OFF);
}

} // verus!
