//! Electron modifier key names and their virtual-key codes.

use vstd::prelude::*;

use crate::text::str_equal;

verus! {

/// Virtual-key code of the Control key.
pub const CONTROL_KEY: u16 = 0x11;

/// Virtual-key code of the Alt key.
pub const ALT_KEY: u16 = 0x12;

/// Virtual-key code of the Super (Windows) key.
pub const SUPER_KEY: u16 = 0x5B;

/// The virtual-key code that a modifier name stands for, if it is one of the
/// three accepted names.
pub open spec fn numeric_modifier_key(modifier: Seq<char>) -> Option<u16> {
    if modifier == "Control"@ {
        Some(CONTROL_KEY)
    } else if modifier == "Alt"@ {
        Some(ALT_KEY)
    } else if modifier == "Super"@ {
        Some(SUPER_KEY)
    } else {
        None
    }
}

/// Maps an Electron modifier key name to its numeric representation.
pub fn get_numeric_modifier_key(modifier: &str) -> (code: Option<u16>)
    ensures
        code == numeric_modifier_key(modifier@),
{
    if str_equal(modifier, "Control") {
        Some(CONTROL_KEY)
    } else if str_equal(modifier, "Alt") {
        Some(ALT_KEY)
    } else if str_equal(modifier, "Super") {
        Some(SUPER_KEY)
    } else {
        None
    }
}

} // verus!
