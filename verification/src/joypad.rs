//! The joypad matrix: two selectable rows of four buttons, read back as an
//! active-low nibble.

use vstd::prelude::*;

verus! {

/// `keypress` value when no key is held.
pub const NO_KEY: i8 = -1;

pub const KEY_UP: i8 = 1;

pub const KEY_LEFT: i8 = 2;

pub const KEY_DOWN: i8 = 3;

pub const KEY_RIGHT: i8 = 4;

pub const KEY_A: i8 = 5;

pub const KEY_B: i8 = 6;

pub const KEY_START: i8 = 7;

pub const KEY_SELECT: i8 = 8;

/// The nibble read when nothing in the selected row is pressed.
pub const ALL_RELEASED: u8 = 0x0F;

/// The direction row is selected when bit 4 of the register is low and
/// bit 5 is high.
pub open spec fn direction_row_selected(joyp: u8) -> bool {
    joyp & 0x10 == 0 && joyp & 0x20 != 0
}

/// The action row is selected when bit 5 of the register is low and bit 4
/// is high.
pub open spec fn action_row_selected(joyp: u8) -> bool {
    joyp & 0x20 == 0 && joyp & 0x10 != 0
}

/// The column (bit of the nibble) that `keypress` pulls low under the row
/// selection in `joyp`, if it pulls any.
pub open spec fn pressed_column(keypress: i8, joyp: u8) -> Option<nat> {
    if direction_row_selected(joyp) {
        if keypress == KEY_RIGHT {
            Some(0nat)
        } else if keypress == KEY_LEFT {
            Some(1nat)
        } else if keypress == KEY_UP {
            Some(2nat)
        } else if keypress == KEY_DOWN {
            Some(3nat)
        } else {
            None
        }
    } else if action_row_selected(joyp) {
        if keypress == KEY_A {
            Some(0nat)
        } else if keypress == KEY_B {
            Some(1nat)
        } else if keypress == KEY_SELECT {
            Some(2nat)
        } else if keypress == KEY_START {
            Some(3nat)
        } else {
            None
        }
    } else {
        None
    }
}

/// The weight of a column of the nibble: 1, 2, 4 or 8.
pub open spec fn column_weight(column: nat) -> int {
    if column == 0 {
        1
    } else if column == 1 {
        2
    } else if column == 2 {
        4
    } else {
        8
    }
}

/// What a read of the joypad register returns: all four columns high,
/// except the one the held key pulls low.
pub open spec fn joypad_nibble(keypress: i8, joyp: u8) -> u8 {
    match pressed_column(keypress, joyp) {
        Some(column) => (ALL_RELEASED - column_weight(column)) as u8,
        None => ALL_RELEASED,
    }
}

/// Decodes the joypad register for the held key.
pub fn read_joypad(keypress: i8, joyp: u8) -> (nibble: u8)
    ensures
        nibble == joypad_nibble(keypress, joyp),
{
    if joyp & 0x10 == 0 && joyp & 0x20 != 0 {
        if keypress == KEY_RIGHT {
            0x0E
        } else if keypress == KEY_LEFT {
            0x0D
        } else if keypress == KEY_UP {
            0x0B
        } else if keypress == KEY_DOWN {
            0x07
        } else {
            ALL_RELEASED
        }
    } else if joyp & 0x20 == 0 && joyp & 0x10 != 0 {
        if keypress == KEY_A {
            0x0E
        } else if keypress == KEY_B {
            0x0D
        } else if keypress == KEY_SELECT {
            0x0B
        } else if keypress == KEY_START {
            0x07
        } else {
            ALL_RELEASED
        }
    } else {
        ALL_RELEASED
    }
}

/// The nibble never leaves the low four bits, and at most one column is
/// low.
pub proof fn lemma_nibble_shape(keypress: i8, joyp: u8)
    ensures
        joypad_nibble(keypress, joyp) <= 0x0F,
        joypad_nibble(keypress, joyp) == 0x0F || joypad_nibble(keypress, joyp) == 0x0E
            || joypad_nibble(keypress, joyp) == 0x0D || joypad_nibble(keypress, joyp) == 0x0B
            || joypad_nibble(keypress, joyp) == 0x07,
        keypress == NO_KEY ==> joypad_nibble(keypress, joyp) == 0x0F,
{
}

} // verus!
