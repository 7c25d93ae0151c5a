use numberpad::key_simulation::{
    keys, keys_down, keys_press, keys_up, send_key_event, syn, KeyboardEvent, KEY_DOWN, KEY_UP,
};
use numberpad::keys::Key;

#[test]
fn values_of_down_and_up() {
    assert_eq!(KEY_DOWN, 1);
    assert_eq!(KEY_UP, 0);
}

#[test]
fn keyboard_has_eighteen_keys() {
    let all = keys();
    assert_eq!(all.len(), 18);
    assert_eq!(
        all,
        [
            Key::NumLock,
            Key::Backspace,
            Key::Enter,
            Key::Slash,
            Key::KpAsterisk,
            Key::Minus,
            Key::KpPlus,
            Key::Dot,
            Key::Num0,
            Key::Num1,
            Key::Num2,
            Key::Num3,
            Key::Num4,
            Key::Num5,
            Key::Num6,
            Key::Num7,
            Key::Num8,
            Key::Num9,
        ]
    );
}

#[test]
fn keyboard_has_no_key_twice() {
    let all = keys();
    for i in 0..all.len() {
        for j in 0..i {
            assert_ne!(all[i], all[j]);
        }
    }
}

#[test]
fn report_ends_a_batch() {
    assert_eq!(syn(), KeyboardEvent::SynReport);
}

#[test]
fn one_key_down() {
    assert_eq!(
        keys_down(&[Key::Num5]),
        vec![KeyboardEvent::Key { key: Key::Num5, value: 1 }, KeyboardEvent::SynReport]
    );
}

#[test]
fn one_key_up() {
    assert_eq!(
        keys_up(&[Key::Num5]),
        vec![KeyboardEvent::Key { key: Key::Num5, value: 0 }, KeyboardEvent::SynReport]
    );
}

#[test]
fn press_is_down_and_then_up() {
    assert_eq!(
        keys_press(&[Key::Num7]),
        vec![
            KeyboardEvent::Key { key: Key::Num7, value: 1 },
            KeyboardEvent::SynReport,
            KeyboardEvent::Key { key: Key::Num7, value: 0 },
            KeyboardEvent::SynReport,
        ]
    );
}

#[test]
fn several_keys_share_one_report() {
    assert_eq!(
        keys_down(&[Key::Enter, Key::Dot, Key::Enter]),
        vec![
            KeyboardEvent::Key { key: Key::Enter, value: 1 },
            KeyboardEvent::Key { key: Key::Dot, value: 1 },
            KeyboardEvent::Key { key: Key::Enter, value: 1 },
            KeyboardEvent::SynReport,
        ]
    );
    assert_eq!(
        keys_press(&[Key::Minus, Key::KpPlus]),
        vec![
            KeyboardEvent::Key { key: Key::Minus, value: 1 },
            KeyboardEvent::Key { key: Key::KpPlus, value: 1 },
            KeyboardEvent::SynReport,
            KeyboardEvent::Key { key: Key::Minus, value: 0 },
            KeyboardEvent::Key { key: Key::KpPlus, value: 0 },
            KeyboardEvent::SynReport,
        ]
    );
}

#[test]
fn no_keys_give_the_report_alone() {
    assert_eq!(keys_down(&[]), vec![KeyboardEvent::SynReport]);
    assert_eq!(keys_up(&[]), vec![KeyboardEvent::SynReport]);
    assert_eq!(keys_press(&[]), vec![KeyboardEvent::SynReport, KeyboardEvent::SynReport]);
}

#[test]
fn any_value_is_passed_on() {
    assert_eq!(
        send_key_event(&[Key::Slash], 2),
        vec![KeyboardEvent::Key { key: Key::Slash, value: 2 }, KeyboardEvent::SynReport]
    );
    assert_eq!(
        send_key_event(&[Key::KpAsterisk], -1),
        vec![KeyboardEvent::Key { key: Key::KpAsterisk, value: -1 }, KeyboardEvent::SynReport]
    );
}
