use vstd::prelude::*;

verus! {

/// Platform modifier bitmask bit for the left shift key.
pub const KMOD_LSHIFT: u16 = 0x0001;

/// Platform modifier bitmask bit for the right shift key.
pub const KMOD_RSHIFT: u16 = 0x0002;

/// Platform modifier bitmask bit for the left control key.
pub const KMOD_LCTRL: u16 = 0x0040;

/// Platform modifier bitmask bit for the right control key.
pub const KMOD_RCTRL: u16 = 0x0080;

/// Platform modifier bitmask bit for the left alt key.
pub const KMOD_LALT: u16 = 0x0100;

/// Platform modifier bitmask bit for the right alt key.
pub const KMOD_RALT: u16 = 0x0200;

/// Keyboard modifier state, as handed to the GUI with each key or pointer
/// event.
#[derive(Clone, Copy, PartialEq, Eq, Structural, Debug)]
pub struct Modifiers {
    pub alt: bool,
    pub ctrl: bool,
    pub shift: bool,
    pub command: bool,
}

impl Modifiers {
    /// Modifier state derived from the live platform bitmask: either alt key
    /// sets `alt`, either shift key sets `shift`, either control key sets
    /// `ctrl`, and `command` mirrors `ctrl` (no distinct platform command key
    /// is modeled).
    pub open spec fn spec_from_bits(bits: u16) -> Modifiers {
        Modifiers {
            alt: bits & (KMOD_LALT | KMOD_RALT) != 0,
            ctrl: bits & (KMOD_LCTRL | KMOD_RCTRL) != 0,
            shift: bits & (KMOD_LSHIFT | KMOD_RSHIFT) != 0,
            command: bits & (KMOD_LCTRL | KMOD_RCTRL) != 0,
        }
    }

    pub fn from_bits(bits: u16) -> (m: Modifiers)
        ensures
            m == Modifiers::spec_from_bits(bits),
    {
        let ctrl = bits & (KMOD_LCTRL | KMOD_RCTRL) != 0;
        Modifiers {
            alt: bits & (KMOD_LALT | KMOD_RALT) != 0,
            ctrl,
            shift: bits & (KMOD_LSHIFT | KMOD_RSHIFT) != 0,
            command: ctrl,
        }
    }

    /// The state with no modifier held.
    pub open spec fn spec_none() -> Modifiers {
        Modifiers { alt: false, ctrl: false, shift: false, command: false }
    }

    pub fn none() -> (m: Modifiers)
        ensures
            m == Modifiers::spec_none(),
    {
        Modifiers { alt: false, ctrl: false, shift: false, command: false }
    }
}

/// Whether the platform "command" modifier (either control key) is held,
/// read straight off the live bitmask.
pub open spec fn spec_command_held(bits: u16) -> bool {
    bits & (KMOD_LCTRL | KMOD_RCTRL) != 0
}

pub fn command_held(bits: u16) -> (r: bool)
    ensures
        r == spec_command_held(bits),
{
    bits & (KMOD_LCTRL | KMOD_RCTRL) != 0
}

} // verus!
