use painter::events::{button_of, GuiEvent, GuiState, NativeEvent, PlatformState, PointerButton};
use painter::geom::Pos;
use painter::modifiers::Modifiers;
use painter::painter::Painter;

fn no_platform() -> PlatformState {
    PlatformState { mod_bits: 0, clipboard: None }
}

#[test]
fn button_codes() {
    assert_eq!(button_of(1), Some(PointerButton::Primary));
    assert_eq!(button_of(2), Some(PointerButton::Middle));
    assert_eq!(button_of(3), Some(PointerButton::Secondary));
    assert_eq!(button_of(4), None);
}

#[test]
fn press_over_widget_is_captured() {
    let mut p = Painter::new(800, 600);
    p.handle_event(
        NativeEvent::PointerMoved { x: 10, y: 20 },
        &GuiState { pointer_over_area: false, wants_pointer: false, wants_keyboard: false },
        no_platform(),
    );
    let gui = GuiState { pointer_over_area: true, wants_pointer: true, wants_keyboard: false };
    let (handled, _) = p.handle_event(NativeEvent::PointerButtonDown { button: 1 }, &gui, no_platform());
    assert!(handled);
    let none = Modifiers { alt: false, ctrl: false, shift: false, command: false };
    assert_eq!(
        p.raw_input.events.last(),
        Some(&GuiEvent::PointerButton {
            pos: Pos { x: 10, y: 20 },
            button: PointerButton::Primary,
            pressed: true,
            modifiers: none,
        })
    );
}

#[test]
fn press_outside_widget_consumes_focus_but_passes_through() {
    let mut p = Painter::new(800, 600);
    // The GUI wants keyboard input, but the pointer is not over any area:
    // the press is translated yet reported unhandled.
    let gui = GuiState { pointer_over_area: false, wants_pointer: false, wants_keyboard: true };
    let (handled, _) = p.handle_event(NativeEvent::PointerButtonDown { button: 3 }, &gui, no_platform());
    assert!(!handled);
    assert_eq!(p.raw_input.events.len(), 1);
}

#[test]
fn press_with_gui_idle_is_ignored() {
    let mut p = Painter::new(800, 600);
    let gui = GuiState { pointer_over_area: false, wants_pointer: false, wants_keyboard: false };
    let (handled, _) = p.handle_event(NativeEvent::PointerButtonDown { button: 1 }, &gui, no_platform());
    assert!(!handled);
    assert!(p.raw_input.events.is_empty());
}

#[test]
fn unknown_button_translates_nothing() {
    let mut p = Painter::new(800, 600);
    let gui = GuiState { pointer_over_area: true, wants_pointer: true, wants_keyboard: false };
    let (handled, _) = p.handle_event(NativeEvent::PointerButtonDown { button: 9 }, &gui, no_platform());
    // Still captured (the pointer is over the widget), but no event appended.
    assert!(handled);
    assert!(p.raw_input.events.is_empty());
}

#[test]
fn release_needs_pointer_interest() {
    let mut p = Painter::new(800, 600);
    let idle = GuiState { pointer_over_area: false, wants_pointer: false, wants_keyboard: false };
    let (handled, _) = p.handle_event(NativeEvent::PointerButtonUp { button: 1 }, &idle, no_platform());
    assert!(!handled);
    assert!(p.raw_input.events.is_empty());

    let wants = GuiState { pointer_over_area: false, wants_pointer: true, wants_keyboard: false };
    let (handled, _) = p.handle_event(NativeEvent::PointerButtonUp { button: 2 }, &wants, no_platform());
    assert!(handled);
    let none = Modifiers { alt: false, ctrl: false, shift: false, command: false };
    assert_eq!(
        p.raw_input.events,
        vec![GuiEvent::PointerButton {
            pos: Pos { x: 0, y: 0 },
            button: PointerButton::Middle,
            pressed: false,
            modifiers: none,
        }]
    );
}

#[test]
fn other_events_are_ignored() {
    let mut p = Painter::new(800, 600);
    let gui = GuiState { pointer_over_area: true, wants_pointer: true, wants_keyboard: true };
    let (handled, capture) = p.handle_event(NativeEvent::Other, &gui, no_platform());
    assert!(!handled);
    assert_eq!(capture, None);
    assert!(p.raw_input.events.is_empty());
}
