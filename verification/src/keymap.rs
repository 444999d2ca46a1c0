use vstd::prelude::*;

verus! {

/// Native key code for an unknown key.
pub const KEY_UNKNOWN: u32 = 0;

pub const KEY_RETURN: u32 = 0x0D;

pub const KEY_ESCAPE: u32 = 0x1B;

pub const KEY_BACKSPACE: u32 = 0x08;

pub const KEY_TAB: u32 = 0x09;

pub const KEY_SPACE: u32 = 0x20;

pub const KEY_DELETE: u32 = 0x7F;

pub const KEY_0: u32 = 0x30;

pub const KEY_1: u32 = 0x31;

pub const KEY_2: u32 = 0x32;

pub const KEY_3: u32 = 0x33;

pub const KEY_4: u32 = 0x34;

pub const KEY_5: u32 = 0x35;

pub const KEY_6: u32 = 0x36;

pub const KEY_7: u32 = 0x37;

pub const KEY_8: u32 = 0x38;

pub const KEY_9: u32 = 0x39;

pub const KEY_A: u32 = 0x61;

pub const KEY_B: u32 = 0x62;

pub const KEY_C: u32 = 0x63;

pub const KEY_D: u32 = 0x64;

pub const KEY_E: u32 = 0x65;

pub const KEY_F: u32 = 0x66;

pub const KEY_G: u32 = 0x67;

pub const KEY_H: u32 = 0x68;

pub const KEY_I: u32 = 0x69;

pub const KEY_J: u32 = 0x6A;

pub const KEY_K: u32 = 0x6B;

pub const KEY_L: u32 = 0x6C;

pub const KEY_M: u32 = 0x6D;

pub const KEY_N: u32 = 0x6E;

pub const KEY_O: u32 = 0x6F;

pub const KEY_P: u32 = 0x70;

pub const KEY_Q: u32 = 0x71;

pub const KEY_R: u32 = 0x72;

pub const KEY_S: u32 = 0x73;

pub const KEY_T: u32 = 0x74;

pub const KEY_U: u32 = 0x75;

pub const KEY_V: u32 = 0x76;

pub const KEY_W: u32 = 0x77;

pub const KEY_X: u32 = 0x78;

pub const KEY_Y: u32 = 0x79;

pub const KEY_Z: u32 = 0x7A;

pub const KEY_INSERT: u32 = 0x40000049;

pub const KEY_HOME: u32 = 0x4000004A;

pub const KEY_PAGEUP: u32 = 0x4000004B;

pub const KEY_END: u32 = 0x4000004D;

pub const KEY_PAGEDOWN: u32 = 0x4000004E;

pub const KEY_RIGHT: u32 = 0x4000004F;

pub const KEY_LEFT: u32 = 0x40000050;

pub const KEY_DOWN: u32 = 0x40000051;

pub const KEY_UP: u32 = 0x40000052;

pub const KEY_KP_1: u32 = 0x40000059;

pub const KEY_KP_2: u32 = 0x4000005A;

pub const KEY_KP_3: u32 = 0x4000005B;

pub const KEY_KP_4: u32 = 0x4000005C;

pub const KEY_KP_5: u32 = 0x4000005D;

pub const KEY_KP_6: u32 = 0x4000005E;

pub const KEY_KP_7: u32 = 0x4000005F;

pub const KEY_KP_8: u32 = 0x40000060;

pub const KEY_KP_9: u32 = 0x40000061;

pub const KEY_KP_0: u32 = 0x40000062;

/// The closed set of logical keys the GUI understands.
#[derive(Clone, Copy, PartialEq, Eq, Structural, Debug)]
pub enum Key {
    ArrowLeft,
    ArrowUp,
    ArrowRight,
    ArrowDown,
    Escape,
    Tab,
    Backspace,
    Space,
    Enter,
    Insert,
    Home,
    Delete,
    End,
    PageDown,
    PageUp,
    Num0,
    Num1,
    Num2,
    Num3,
    Num4,
    Num5,
    Num6,
    Num7,
    Num8,
    Num9,
    A,
    B,
    C,
    D,
    E,
    F,
    G,
    H,
    I,
    J,
    K,
    L,
    M,
    N,
    O,
    P,
    Q,
    R,
    S,
    T,
    U,
    V,
    W,
    X,
    Y,
    Z,
}

/// The total mapping from native key codes to logical keys: arrows, escape,
/// tab, backspace, space, enter, insert, home, delete, end, page up/down,
/// digits (both the main row and the numeric pad), and the letters; every
/// other code maps to no logical key.
pub open spec fn spec_key_of(code: u32) -> Option<Key> {
    if code == KEY_LEFT {
        Some(Key::ArrowLeft)
    } else if code == KEY_UP {
        Some(Key::ArrowUp)
    } else if code == KEY_RIGHT {
        Some(Key::ArrowRight)
    } else if code == KEY_DOWN {
        Some(Key::ArrowDown)
    } else if code == KEY_ESCAPE {
        Some(Key::Escape)
    } else if code == KEY_TAB {
        Some(Key::Tab)
    } else if code == KEY_BACKSPACE {
        Some(Key::Backspace)
    } else if code == KEY_SPACE {
        Some(Key::Space)
    } else if code == KEY_RETURN {
        Some(Key::Enter)
    } else if code == KEY_INSERT {
        Some(Key::Insert)
    } else if code == KEY_HOME {
        Some(Key::Home)
    } else if code == KEY_DELETE {
        Some(Key::Delete)
    } else if code == KEY_END {
        Some(Key::End)
    } else if code == KEY_PAGEDOWN {
        Some(Key::PageDown)
    } else if code == KEY_PAGEUP {
        Some(Key::PageUp)
    } else if code == KEY_KP_0 || code == KEY_0 {
        Some(Key::Num0)
    } else if code == KEY_KP_1 || code == KEY_1 {
        Some(Key::Num1)
    } else if code == KEY_KP_2 || code == KEY_2 {
        Some(Key::Num2)
    } else if code == KEY_KP_3 || code == KEY_3 {
        Some(Key::Num3)
    } else if code == KEY_KP_4 || code == KEY_4 {
        Some(Key::Num4)
    } else if code == KEY_KP_5 || code == KEY_5 {
        Some(Key::Num5)
    } else if code == KEY_KP_6 || code == KEY_6 {
        Some(Key::Num6)
    } else if code == KEY_KP_7 || code == KEY_7 {
        Some(Key::Num7)
    } else if code == KEY_KP_8 || code == KEY_8 {
        Some(Key::Num8)
    } else if code == KEY_KP_9 || code == KEY_9 {
        Some(Key::Num9)
    } else if code == KEY_A {
        Some(Key::A)
    } else if code == KEY_B {
        Some(Key::B)
    } else if code == KEY_C {
        Some(Key::C)
    } else if code == KEY_D {
        Some(Key::D)
    } else if code == KEY_E {
        Some(Key::E)
    } else if code == KEY_F {
        Some(Key::F)
    } else if code == KEY_G {
        Some(Key::G)
    } else if code == KEY_H {
        Some(Key::H)
    } else if code == KEY_I {
        Some(Key::I)
    } else if code == KEY_J {
        Some(Key::J)
    } else if code == KEY_K {
        Some(Key::K)
    } else if code == KEY_L {
        Some(Key::L)
    } else if code == KEY_M {
        Some(Key::M)
    } else if code == KEY_N {
        Some(Key::N)
    } else if code == KEY_O {
        Some(Key::O)
    } else if code == KEY_P {
        Some(Key::P)
    } else if code == KEY_Q {
        Some(Key::Q)
    } else if code == KEY_R {
        Some(Key::R)
    } else if code == KEY_S {
        Some(Key::S)
    } else if code == KEY_T {
        Some(Key::T)
    } else if code == KEY_U {
        Some(Key::U)
    } else if code == KEY_V {
        Some(Key::V)
    } else if code == KEY_W {
        Some(Key::W)
    } else if code == KEY_X {
        Some(Key::X)
    } else if code == KEY_Y {
        Some(Key::Y)
    } else if code == KEY_Z {
        Some(Key::Z)
    } else {
        None
    }
}

pub fn key_of(code: u32) -> (r: Option<Key>)
    ensures
        r == spec_key_of(code),
{
    if code == KEY_LEFT {
        Some(Key::ArrowLeft)
    } else if code == KEY_UP {
        Some(Key::ArrowUp)
    } else if code == KEY_RIGHT {
        Some(Key::ArrowRight)
    } else if code == KEY_DOWN {
        Some(Key::ArrowDown)
    } else if code == KEY_ESCAPE {
        Some(Key::Escape)
    } else if code == KEY_TAB {
        Some(Key::Tab)
    } else if code == KEY_BACKSPACE {
        Some(Key::Backspace)
    } else if code == KEY_SPACE {
        Some(Key::Space)
    } else if code == KEY_RETURN {
        Some(Key::Enter)
    } else if code == KEY_INSERT {
        Some(Key::Insert)
    } else if code == KEY_HOME {
        Some(Key::Home)
    } else if code == KEY_DELETE {
        Some(Key::Delete)
    } else if code == KEY_END {
        Some(Key::End)
    } else if code == KEY_PAGEDOWN {
        Some(Key::PageDown)
    } else if code == KEY_PAGEUP {
        Some(Key::PageUp)
    } else if code == KEY_KP_0 || code == KEY_0 {
        Some(Key::Num0)
    } else if code == KEY_KP_1 || code == KEY_1 {
        Some(Key::Num1)
    } else if code == KEY_KP_2 || code == KEY_2 {
        Some(Key::Num2)
    } else if code == KEY_KP_3 || code == KEY_3 {
        Some(Key::Num3)
    } else if code == KEY_KP_4 || code == KEY_4 {
        Some(Key::Num4)
    } else if code == KEY_KP_5 || code == KEY_5 {
        Some(Key::Num5)
    } else if code == KEY_KP_6 || code == KEY_6 {
        Some(Key::Num6)
    } else if code == KEY_KP_7 || code == KEY_7 {
        Some(Key::Num7)
    } else if code == KEY_KP_8 || code == KEY_8 {
        Some(Key::Num8)
    } else if code == KEY_KP_9 || code == KEY_9 {
        Some(Key::Num9)
    } else if code == KEY_A {
        Some(Key::A)
    } else if code == KEY_B {
        Some(Key::B)
    } else if code == KEY_C {
        Some(Key::C)
    } else if code == KEY_D {
        Some(Key::D)
    } else if code == KEY_E {
        Some(Key::E)
    } else if code == KEY_F {
        Some(Key::F)
    } else if code == KEY_G {
        Some(Key::G)
    } else if code == KEY_H {
        Some(Key::H)
    } else if code == KEY_I {
        Some(Key::I)
    } else if code == KEY_J {
        Some(Key::J)
    } else if code == KEY_K {
        Some(Key::K)
    } else if code == KEY_L {
        Some(Key::L)
    } else if code == KEY_M {
        Some(Key::M)
    } else if code == KEY_N {
        Some(Key::N)
    } else if code == KEY_O {
        Some(Key::O)
    } else if code == KEY_P {
        Some(Key::P)
    } else if code == KEY_Q {
        Some(Key::Q)
    } else if code == KEY_R {
        Some(Key::R)
    } else if code == KEY_S {
        Some(Key::S)
    } else if code == KEY_T {
        Some(Key::T)
    } else if code == KEY_U {
        Some(Key::U)
    } else if code == KEY_V {
        Some(Key::V)
    } else if code == KEY_W {
        Some(Key::W)
    } else if code == KEY_X {
        Some(Key::X)
    } else if code == KEY_Y {
        Some(Key::Y)
    } else if code == KEY_Z {
        Some(Key::Z)
    } else {
        None
    }
}

} // verus!
