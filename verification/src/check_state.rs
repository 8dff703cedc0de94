use crate::link::{all_digits, is_digit};
use vstd::prelude::*;
use vstd::string::*;

verus! {

/// The digit that names the one known version of the checklist.
pub const VERSION_ONE: u8 = 0x31;

/// The digit for an item that works.
pub const PASS: u8 = 0x31;

/// The digit for an item that does not work.
pub const FAIL: u8 = 0x30;

/// The result of an inspection by version one of the checklist, whose items
/// are, in this order, screen, keyboard and touchpad.
#[derive(Clone, Copy, Debug, PartialEq, Eq, Structural)]
pub struct Inspection {
    pub screen: bool,
    pub keyboard: bool,
    pub touchpad: bool,
}

/// Whether a text has the form of a check state: at least one byte, all of
/// them decimal digits, the first the digit of a known version.
pub open spec fn valid_check_state(bytes: Seq<u8>) -> bool {
    bytes.len() > 0 && all_digits(bytes) && bytes[0] == VERSION_ONE
}

/// Whether a byte is the digit for pass or the digit for fail.
pub open spec fn is_flag(byte: u8) -> bool {
    byte == PASS || byte == FAIL
}

/// The inspection that a check state records: the version digit `1`
/// followed by one flag for each of the three items. Any other text, one
/// with another version digit among them, records no inspection.
pub open spec fn inspection_of(bytes: Seq<u8>) -> Option<Inspection> {
    if bytes.len() == 4 && bytes[0] == VERSION_ONE && is_flag(bytes[1]) && is_flag(bytes[2])
        && is_flag(bytes[3]) {
        Some(
            Inspection {
                screen: bytes[1] == PASS,
                keyboard: bytes[2] == PASS,
                touchpad: bytes[3] == PASS,
            },
        )
    } else {
        None
    }
}

/// Whether `check_state` has the form of a check state. The stores take any
/// text; this is the test for a caller that wants to refuse others.
pub fn is_check_state(check_state: &str) -> (valid: bool)
    ensures
        valid == valid_check_state(check_state.spec_bytes()),
{
    let bytes = check_state.as_bytes();
    if bytes.len() == 0 {
        return false;
    }
    let mut index: usize = 0;
    while index < bytes.len()
        invariant
            index <= bytes.len(),
            bytes@ == check_state.spec_bytes(),
            forall|i: int| 0 <= i < index ==> is_digit(#[trigger] bytes@[i]),
        decreases bytes.len() - index,
    {
        if bytes[index] < 0x30 || bytes[index] > 0x39 {
            assert(!is_digit(bytes@[index as int]));
            return false;
        }
        index = index + 1;
    }
    bytes[0] == VERSION_ONE
}

/// Reads a check state. Whoever interprets the result of an inspection goes
/// through this function: it answers `None` for every text that is not a
/// check state of version one, however the stores came to hold it.
pub fn inspect(check_state: &str) -> (inspection: Option<Inspection>)
    ensures
        inspection == inspection_of(check_state.spec_bytes()),
{
    let bytes = check_state.as_bytes();
    if bytes.len() != 4 || bytes[0] != VERSION_ONE {
        return None;
    }
    let screen = bytes[1];
    let keyboard = bytes[2];
    let touchpad = bytes[3];
    if (screen == PASS || screen == FAIL) && (keyboard == PASS || keyboard == FAIL) && (touchpad
        == PASS || touchpad == FAIL) {
        Some(
            Inspection {
                screen: screen == PASS,
                keyboard: keyboard == PASS,
                touchpad: touchpad == PASS,
            },
        )
    } else {
        None
    }
}

/// A check state whose first digit is not that of a known version records
/// no inspection and is no valid check state.
pub proof fn lemma_unknown_version_rejected(bytes: Seq<u8>)
    requires
        bytes.len() > 0,
        bytes[0] != VERSION_ONE,
    ensures
        inspection_of(bytes).is_none(),
        !valid_check_state(bytes),
{
}

/// Every check state that records an inspection is a valid check state.
pub proof fn lemma_inspected_is_valid(bytes: Seq<u8>)
    requires
        inspection_of(bytes).is_some(),
    ensures
        valid_check_state(bytes),
{
}

} // verus!
