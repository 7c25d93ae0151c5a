//! The keys that the keypad knows.

use vstd::prelude::*;

verus! {

/// A key of the keypad. `NumLock` is the toggle key: it switches the keypad on
/// and off and is never typed.
#[derive(Clone, Copy, Debug, PartialEq, Eq, Structural)]
pub enum Key {
    NumLock,
    Backspace,
    Enter,
    Slash,
    KpAsterisk,
    Minus,
    KpPlus,
    Dot,
    Num0,
    Num1,
    Num2,
    Num3,
    Num4,
    Num5,
    Num6,
    Num7,
    Num8,
    Num9,
}

} // verus!
