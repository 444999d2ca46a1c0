use painter::events::{GuiEvent, GuiState, NativeEvent, PlatformState, TextCapture};
use painter::geom::Pos;
use painter::keymap::{key_of, Key, KEY_C, KEY_ESCAPE, KEY_KP_0, KEY_LEFT, KEY_RETURN, KEY_5};
use painter::modifiers::{Modifiers, KMOD_LCTRL, KMOD_LSHIFT, KMOD_RALT, KMOD_RCTRL};
use painter::painter::Painter;

fn quiet_gui() -> GuiState {
    GuiState { pointer_over_area: false, wants_pointer: false, wants_keyboard: false }
}

fn no_platform() -> PlatformState {
    PlatformState { mod_bits: 0, clipboard: None }
}

#[test]
fn key_map_samples() {
    assert_eq!(key_of(KEY_LEFT), Some(Key::ArrowLeft));
    assert_eq!(key_of(KEY_RETURN), Some(Key::Enter));
    assert_eq!(key_of(KEY_KP_0), Some(Key::Num0));
    assert_eq!(key_of(0x30), Some(Key::Num0));
    assert_eq!(key_of(KEY_5), Some(Key::Num5));
    assert_eq!(key_of(KEY_C), Some(Key::C));
    assert_eq!(key_of(0x7A), Some(Key::Z));
    assert_eq!(key_of(0), None);
    assert_eq!(key_of(0xA7), None);
    assert_eq!(key_of(0x400000E0), None);
}

#[test]
fn modifiers_from_bitmask() {
    let m = Modifiers::from_bits(KMOD_LSHIFT | KMOD_LCTRL);
    assert_eq!(m, Modifiers { alt: false, ctrl: true, shift: true, command: true });
    let m = Modifiers::from_bits(KMOD_RALT);
    assert_eq!(m, Modifiers { alt: true, ctrl: false, shift: false, command: false });
    let m = Modifiers::from_bits(0);
    assert_eq!(m, Modifiers { alt: false, ctrl: false, shift: false, command: false });
}

#[test]
fn pointer_motion_is_clamped() {
    let mut p = Painter::new(800, 600);
    let (handled, _) =
        p.handle_event(NativeEvent::PointerMoved { x: -50, y: 10_000 }, &quiet_gui(), no_platform());
    assert!(!handled);
    assert_eq!(p.cursor_pos, Pos { x: 0, y: 599 });
    let (handled, _) =
        p.handle_event(NativeEvent::PointerMoved { x: 123, y: 45 }, &quiet_gui(), no_platform());
    assert!(!handled);
    assert_eq!(p.cursor_pos, Pos { x: 123, y: 45 });
    assert_eq!(
        p.raw_input.events,
        vec![
            GuiEvent::PointerMoved { pos: Pos { x: 0, y: 599 } },
            GuiEvent::PointerMoved { pos: Pos { x: 123, y: 45 } },
        ]
    );
}

#[test]
fn clamp_follows_rect_only_after_frame_begins() {
    let mut p = Painter::new(800, 600);
    p.handle_event(NativeEvent::WindowResized { width: 100, height: 50 }, &quiet_gui(), no_platform());
    p.handle_event(NativeEvent::PointerMoved { x: 500, y: 500 }, &quiet_gui(), no_platform());
    // The GUI context has not consumed the resize yet: still the old bounds.
    assert_eq!(p.cursor_pos, Pos { x: 500, y: 500 });
    let _ = p.begin_pass();
    p.handle_event(NativeEvent::PointerMoved { x: 500, y: 500 }, &quiet_gui(), no_platform());
    assert_eq!(p.cursor_pos, Pos { x: 99, y: 49 });
}

#[test]
fn resize_is_never_handled() {
    let mut p = Painter::new(800, 600);
    let (handled, capture) =
        p.handle_event(NativeEvent::WindowResized { width: 1024, height: 768 }, &quiet_gui(), no_platform());
    assert!(!handled);
    assert_eq!(capture, None);
    assert!(p.raw_input.events.is_empty());
}

#[test]
fn wheel_with_command_emits_zoom() {
    let mut p = Painter::new(800, 600);
    let gui = GuiState { pointer_over_area: false, wants_pointer: true, wants_keyboard: false };
    let plat = PlatformState { mod_bits: KMOD_RCTRL, clipboard: None };
    let (handled, capture) =
        p.handle_event(NativeEvent::Wheel { delta_x: 0, delta_y: 125 }, &gui, plat);
    assert!(handled);
    assert_eq!(capture, None);
    assert_eq!(p.raw_input.events, vec![GuiEvent::Zoom { delta_y: 125 }]);
    // The shell turns the delta into the zoom factor exp(delta_y / 125).
    let factor = (125.0_f32 / 125.0).exp();
    assert!((factor - std::f32::consts::E).abs() < 1e-6);
}

#[test]
fn wheel_without_command_is_handled_but_silent() {
    let mut p = Painter::new(800, 600);
    let gui = GuiState { pointer_over_area: false, wants_pointer: true, wants_keyboard: false };
    let (handled, _) =
        p.handle_event(NativeEvent::Wheel { delta_x: 3, delta_y: 125 }, &gui, no_platform());
    assert!(handled);
    assert!(p.raw_input.events.is_empty());
}

#[test]
fn wheel_ignored_without_pointer_interest() {
    let mut p = Painter::new(800, 600);
    let plat = PlatformState { mod_bits: KMOD_LCTRL, clipboard: None };
    let (handled, _) = p.handle_event(NativeEvent::Wheel { delta_x: 0, delta_y: 125 }, &quiet_gui(), plat);
    assert!(!handled);
    assert!(p.raw_input.events.is_empty());
}

#[test]
fn unmapped_key_down_not_handled() {
    let mut p = Painter::new(800, 600);
    let gui = GuiState { pointer_over_area: false, wants_pointer: false, wants_keyboard: true };
    let (handled, capture) = p.handle_event(NativeEvent::KeyDown { code: 0xA7 }, &gui, no_platform());
    assert!(!handled);
    assert_eq!(capture, None);
    assert!(p.raw_input.events.is_empty());
}

#[test]
fn copy_shortcut_end_to_end() {
    let mut p = Painter::new(800, 600);
    let gui = GuiState { pointer_over_area: false, wants_pointer: false, wants_keyboard: true };
    let plat = PlatformState { mod_bits: KMOD_LCTRL, clipboard: None };
    let (handled, capture) = p.handle_event(NativeEvent::KeyDown { code: KEY_C }, &gui, plat);
    assert!(handled);
    assert_eq!(capture, Some(TextCapture::Start));
    assert!(p.raw_input.focused);
    let mods = Modifiers { alt: false, ctrl: true, shift: false, command: true };
    assert_eq!(
        p.raw_input.events,
        vec![
            GuiEvent::Copy,
            GuiEvent::Key { key: Key::C, pressed: true, repeat: false, modifiers: mods },
        ]
    );
    assert_eq!(p.modifiers, mods);
}

#[test]
fn paste_shortcut_injects_clipboard_text() {
    let mut p = Painter::new(800, 600);
    let gui = GuiState { pointer_over_area: false, wants_pointer: false, wants_keyboard: true };
    let plat = PlatformState { mod_bits: KMOD_RCTRL, clipboard: Some(String::from("pasted")) };
    let (handled, _) = p.handle_event(NativeEvent::KeyDown { code: 0x76 }, &gui, plat);
    assert!(handled);
    let mods = Modifiers { alt: false, ctrl: true, shift: false, command: true };
    assert_eq!(
        p.raw_input.events,
        vec![
            GuiEvent::Text { text: String::from("pasted") },
            GuiEvent::Key { key: Key::V, pressed: true, repeat: false, modifiers: mods },
        ]
    );
}

#[test]
fn paste_shortcut_with_empty_clipboard() {
    let mut p = Painter::new(800, 600);
    let gui = GuiState { pointer_over_area: false, wants_pointer: false, wants_keyboard: true };
    let plat = PlatformState { mod_bits: KMOD_LCTRL, clipboard: None };
    let (handled, _) = p.handle_event(NativeEvent::KeyDown { code: 0x76 }, &gui, plat);
    assert!(handled);
    let mods = Modifiers { alt: false, ctrl: true, shift: false, command: true };
    assert_eq!(
        p.raw_input.events,
        vec![GuiEvent::Key { key: Key::V, pressed: true, repeat: false, modifiers: mods }]
    );
}

#[test]
fn key_down_without_keyboard_interest_ignored() {
    let mut p = Painter::new(800, 600);
    let (handled, capture) =
        p.handle_event(NativeEvent::KeyDown { code: KEY_C }, &quiet_gui(), no_platform());
    assert!(!handled);
    assert_eq!(capture, None);
    assert!(p.raw_input.events.is_empty());
    assert!(!p.raw_input.focused);
}

#[test]
fn escape_release_stops_text_capture() {
    let mut p = Painter::new(800, 600);
    let gui = GuiState { pointer_over_area: false, wants_pointer: false, wants_keyboard: true };
    let (handled, capture) =
        p.handle_event(NativeEvent::KeyUp { code: KEY_ESCAPE }, &gui, no_platform());
    assert!(!handled);
    assert_eq!(capture, Some(TextCapture::Stop));
    assert!(p.raw_input.events.is_empty());
}

#[test]
fn key_release_emits_release_event() {
    let mut p = Painter::new(800, 600);
    let gui = GuiState { pointer_over_area: false, wants_pointer: false, wants_keyboard: true };
    let (handled, capture) = p.handle_event(NativeEvent::KeyUp { code: 0x61 }, &gui, no_platform());
    assert!(handled);
    assert_eq!(capture, None);
    let mods = Modifiers { alt: false, ctrl: false, shift: false, command: false };
    assert_eq!(
        p.raw_input.events,
        vec![GuiEvent::Key { key: Key::A, pressed: false, repeat: false, modifiers: mods }]
    );
}

#[test]
fn text_input_decoded_and_refreshes_modifiers() {
    let mut p = Painter::new(800, 600);
    let gui = GuiState { pointer_over_area: false, wants_pointer: false, wants_keyboard: true };
    let plat = PlatformState { mod_bits: KMOD_LSHIFT, clipboard: None };
    let (handled, _) =
        p.handle_event(NativeEvent::TextInput { text: Some(String::from("hi")) }, &gui, plat);
    assert!(handled);
    assert_eq!(p.raw_input.events, vec![GuiEvent::Text { text: String::from("hi") }]);
    assert!(p.modifiers.shift);
}

#[test]
fn undecodable_text_refreshes_modifiers_but_is_not_handled() {
    let mut p = Painter::new(800, 600);
    let gui = GuiState { pointer_over_area: false, wants_pointer: false, wants_keyboard: true };
    let plat = PlatformState { mod_bits: KMOD_LSHIFT, clipboard: None };
    let (handled, _) = p.handle_event(NativeEvent::TextInput { text: None }, &gui, plat);
    assert!(!handled);
    assert!(p.raw_input.events.is_empty());
    assert!(p.modifiers.shift);
}
