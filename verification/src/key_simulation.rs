//! The events by which the keypad types.
//!
//! The keypad types through a keyboard of its own making, which knows the keys
//! of [`KEYS`] and no others. A key goes down or up by one event for the key
//! and one report that ends the batch. This module builds the batches; sending
//! them is left to the caller.

use vstd::prelude::*;
use crate::keys::Key;

verus! {

/// The value of the event by which a key goes down.
pub const KEY_DOWN: i32 = 1;

/// The value of the event by which a key goes up.
pub const KEY_UP: i32 = 0;

/// One event of the keyboard.
#[derive(Clone, Copy, Debug, PartialEq, Eq, Structural)]
pub enum KeyboardEvent {
    /// The key `key` changes to `value`.
    Key { key: Key, value: i32 },
    /// The events since the last report belong together.
    SynReport,
}

/// The keys of the keyboard.
pub open spec fn all_keys() -> Seq<Key> {
    seq![
        Key::NumLock,
        Key::Backspace,
        Key::Enter,
        Key::Slash,
        Key::KpAsterisk,
        Key::Minus,
        Key::KpPlus,
        Key::Dot,
        Key::Num0,
        Key::Num1,
        Key::Num2,
        Key::Num3,
        Key::Num4,
        Key::Num5,
        Key::Num6,
        Key::Num7,
        Key::Num8,
        Key::Num9,
    ]
}

/// The batch that sets each key of `keys` to `value`: one event for each key,
/// in the order of `keys`, and one report after them.
pub open spec fn key_batch(keys: Seq<Key>, value: i32) -> Seq<KeyboardEvent> {
    Seq::new(keys.len(), |i: int| KeyboardEvent::Key { key: keys[i], value }).push(
        KeyboardEvent::SynReport,
    )
}

/// The keys that the keyboard is made with.
pub fn keys() -> (all: [Key; 18])
    ensures
        all@ == all_keys(),
{
    let all: [Key; 18] = [
        Key::NumLock,
        Key::Backspace,
        Key::Enter,
        Key::Slash,
        Key::KpAsterisk,
        Key::Minus,
        Key::KpPlus,
        Key::Dot,
        Key::Num0,
        Key::Num1,
        Key::Num2,
        Key::Num3,
        Key::Num4,
        Key::Num5,
        Key::Num6,
        Key::Num7,
        Key::Num8,
        Key::Num9,
    ];
    all
}

/// The report that ends a batch.
pub fn syn() -> (event: KeyboardEvent)
    ensures
        event == KeyboardEvent::SynReport,
{
    KeyboardEvent::SynReport
}

/// The batch that sets each key of `keys` to `event`.
pub fn send_key_event(keys: &[Key], event: i32) -> (batch: Vec<KeyboardEvent>)
    ensures
        batch@ == key_batch(keys@, event),
{
    let mut batch: Vec<KeyboardEvent> = Vec::new();
    let mut i: usize = 0;
    while i < keys.len()
        invariant
            i <= keys.len(),
            batch@ == Seq::new(
                i as nat,
                |k: int| KeyboardEvent::Key { key: keys@[k], value: event },
            ),
        decreases keys.len() - i,
    {
        batch.push(KeyboardEvent::Key { key: keys[i], value: event });
        i += 1;
    }
    batch.push(syn());
    batch
}

/// The batch by which the keys of `keys` go down.
pub fn keys_down(keys: &[Key]) -> (batch: Vec<KeyboardEvent>)
    ensures
        batch@ == key_batch(keys@, KEY_DOWN),
{
    send_key_event(keys, KEY_DOWN)
}

/// The batch by which the keys of `keys` go up.
pub fn keys_up(keys: &[Key]) -> (batch: Vec<KeyboardEvent>)
    ensures
        batch@ == key_batch(keys@, KEY_UP),
{
    send_key_event(keys, KEY_UP)
}

/// The events by which the keys of `keys` are pressed once: the batch by which
/// they go down, and after it the batch by which they go up.
pub fn keys_press(keys: &[Key]) -> (events: Vec<KeyboardEvent>)
    ensures
        events@ == key_batch(keys@, KEY_DOWN) + key_batch(keys@, KEY_UP),
{
    let mut events = keys_down(keys);
    let mut up = keys_up(keys);
    events.append(&mut up);
    events
}

/// The keyboard knows every key there is, and each of them once.
pub proof fn lemma_all_keys_complete(key: Key)
    ensures
        all_keys().contains(key),
        all_keys().no_duplicates(),
{
    let all = all_keys();
    assert(all[0] == Key::NumLock && all[1] == Key::Backspace && all[2] == Key::Enter && all[3]
        == Key::Slash && all[4] == Key::KpAsterisk && all[5] == Key::Minus && all[6]
        == Key::KpPlus && all[7] == Key::Dot && all[8] == Key::Num0 && all[9] == Key::Num1
        && all[10] == Key::Num2 && all[11] == Key::Num3 && all[12] == Key::Num4 && all[13]
        == Key::Num5 && all[14] == Key::Num6 && all[15] == Key::Num7 && all[16] == Key::Num8
        && all[17] == Key::Num9);
}

} // verus!
