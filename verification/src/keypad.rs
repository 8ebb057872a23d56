//! The fixed mapping from the keys of a keyboard to the sixteen keys of
//! the keypad.

use crate::scheduler::InputEvent;
use vstd::prelude::*;

verus! {

/// The key that asks to leave: escape.
pub const QUIT_KEY: char = '\u{1b}';

/// The keyboard key for each keypad key, by keypad index. The keypad's
/// four rows `123C`, `456D`, `789E`, `A0BF` lie on the keyboard rows
/// `1234`, `qwer`, `asdf`, `zxcv`.
pub open spec fn layout() -> Seq<char> {
    seq!['x', '1', '2', '3', 'q', 'w', 'e', 'a', 's', 'd', 'z', 'c', '4', 'r', 'f', 'v']
}

/// The event that a transition of the keyboard key `symbol` stands for:
/// a quit request when escape goes down, a transition of the keypad key
/// that `symbol` is laid on, and none for any other key.
pub open spec fn event_of(symbol: char, down: bool) -> Option<InputEvent> {
    if symbol == QUIT_KEY {
        if down {
            Some(InputEvent::Quit)
        } else {
            None
        }
    } else if exists|k: int| 0 <= k < 16 && layout()[k] == symbol {
        let k = choose|k: int| 0 <= k < 16 && layout()[k] == symbol;
        if down {
            Some(InputEvent::KeyDown(k as u8))
        } else {
            Some(InputEvent::KeyUp(k as u8))
        }
    } else {
        None
    }
}

/// The keypad key that the keyboard key `symbol` is laid on, if it is laid
/// on one.
pub fn key_index(symbol: char) -> (key: Option<u8>)
    ensures
        match key {
            Some(k) => k < 16 && layout()[k as int] == symbol,
            None => forall|k: int| 0 <= k < 16 ==> layout()[k] != symbol,
        },
{
    match symbol {
        'x' => Some(0x0),
        '1' => Some(0x1),
        '2' => Some(0x2),
        '3' => Some(0x3),
        'q' => Some(0x4),
        'w' => Some(0x5),
        'e' => Some(0x6),
        'a' => Some(0x7),
        's' => Some(0x8),
        'd' => Some(0x9),
        'z' => Some(0xA),
        'c' => Some(0xB),
        '4' => Some(0xC),
        'r' => Some(0xD),
        'f' => Some(0xE),
        'v' => Some(0xF),
        _ => None,
    }
}

/// The event, if any, that a transition of the keyboard key `symbol`
/// stands for; `down` tells a press from a release.
pub fn input_event(symbol: char, down: bool) -> (event: Option<InputEvent>)
    ensures
        event == event_of(symbol, down),
{
    if symbol == QUIT_KEY {
        if down {
            Some(InputEvent::Quit)
        } else {
            None
        }
    } else {
        match key_index(symbol) {
            Some(k) => {
                proof {
                    let c = choose|c: int| 0 <= c < 16 && layout()[c] == symbol;
                    assert(layout()[k as int] == symbol);
                    assert(c == k);
                }
                if down {
                    Some(InputEvent::KeyDown(k))
                } else {
                    Some(InputEvent::KeyUp(k))
                }
            },
            None => None,
        }
    }
}

} // verus!
