use vstd::prelude::*;
use crate::geom::Pos;
use crate::keymap::Key;
use crate::modifiers::Modifiers;

verus! {

/// Native code of the left pointer button.
pub const BUTTON_LEFT: u8 = 1;

/// Native code of the middle pointer button.
pub const BUTTON_MIDDLE: u8 = 2;

/// Native code of the right pointer button.
pub const BUTTON_RIGHT: u8 = 3;

/// The pointer buttons the GUI understands.
#[derive(Clone, Copy, PartialEq, Eq, Structural, Debug)]
pub enum PointerButton {
    Primary,
    Secondary,
    Middle,
}

/// The mapping from native button codes to GUI pointer buttons; other
/// buttons are ignored.
pub open spec fn spec_button_of(code: u8) -> Option<PointerButton> {
    if code == BUTTON_LEFT {
        Some(PointerButton::Primary)
    } else if code == BUTTON_MIDDLE {
        Some(PointerButton::Middle)
    } else if code == BUTTON_RIGHT {
        Some(PointerButton::Secondary)
    } else {
        None
    }
}

pub fn button_of(code: u8) -> (r: Option<PointerButton>)
    ensures
        r == spec_button_of(code),
{
    if code == BUTTON_LEFT {
        Some(PointerButton::Primary)
    } else if code == BUTTON_MIDDLE {
        Some(PointerButton::Middle)
    } else if code == BUTTON_RIGHT {
        Some(PointerButton::Secondary)
    } else {
        None
    }
}

/// One native input event, decoded at the boundary into plain values. A text
/// payload that does not decode as valid text arrives as `None`. Wheel deltas
/// are in native wheel units. `Other` stands for every event category the
/// translator ignores.
#[derive(Clone, PartialEq, Eq, Debug)]
pub enum NativeEvent {
    WindowResized { width: i32, height: i32 },
    PointerButtonDown { button: u8 },
    PointerButtonUp { button: u8 },
    PointerMoved { x: i32, y: i32 },
    Wheel { delta_x: i32, delta_y: i32 },
    KeyDown { code: u32 },
    KeyUp { code: u32 },
    TextInput { text: Option<String> },
    Other,
}

/// What the GUI context currently reports, queried live for each event.
#[derive(Clone, Copy, PartialEq, Eq, Structural, Debug)]
pub struct GuiState {
    pub pointer_over_area: bool,
    pub wants_pointer: bool,
    pub wants_keyboard: bool,
}

/// What the platform reports at the moment an event is handled: the live
/// modifier bitmask, and the clipboard text where the clipboard holds
/// non-empty valid text (`None` otherwise).
#[derive(Clone, PartialEq, Eq, Debug)]
pub struct PlatformState {
    pub mod_bits: u16,
    pub clipboard: Option<String>,
}

/// One translated event for the GUI, accumulated until the next frame
/// begins. A zoom carries the raw vertical wheel delta; the shell turns it
/// into the zoom factor `exp(delta_y / 125)`. A key event always carries
/// `repeat` false: no native repeat flag is forwarded.
#[derive(Clone, PartialEq, Eq, Debug)]
pub enum GuiEvent {
    PointerButton { pos: Pos, button: PointerButton, pressed: bool, modifiers: Modifiers },
    PointerMoved { pos: Pos },
    Zoom { delta_y: i32 },
    Copy,
    Cut,
    Text { text: String },
    Key { key: Key, pressed: bool, repeat: bool, modifiers: Modifiers },
}

/// A request to the platform to start or stop capturing text input.
#[derive(Clone, Copy, PartialEq, Eq, Structural, Debug)]
pub enum TextCapture {
    Start,
    Stop,
}

} // verus!
