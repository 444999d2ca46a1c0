use vstd::prelude::*;
use crate::cursor::{CursorIcon, CursorState, SystemCursor};
use crate::events::{GuiEvent, GuiState, NativeEvent, PlatformState, TextCapture};
use crate::events::spec_button_of;
use crate::events::button_of;
use crate::geom::{clamp_pos, clamped_pos, Pos, ScreenRect};
use crate::keymap::{key_of, spec_key_of, Key, KEY_ESCAPE, KEY_UNKNOWN};
use crate::modifiers::{command_held, spec_command_held, Modifiers};
use crate::render::{no_callbacks, resolve_meshes, mesh_resolved, MeshCmd, MeshPrim};
use crate::textures::{
    apply_frees, apply_sets, freed_handles, op_matches, TexOp, TextureCache, TextureDelta,
};

verus! {

/// The input accumulated since the last frame began: translated events in
/// order, the modifier state last handed to the GUI, the screen rectangle
/// still to be delivered (consumed once the frame begins), and whether the
/// window has text-input focus.
pub struct RawInput {
    pub events: Vec<GuiEvent>,
    pub modifiers: Modifiers,
    pub screen_rect: Option<ScreenRect>,
    pub focused: bool,
}

/// A frame's draw output, pending until drawn: the texture delta and the
/// primitives in paint order.
pub struct DrawInfo {
    pub delta: TextureDelta,
    pub prims: Vec<MeshPrim>,
}

/// What the GUI produced at the end of a frame, reduced to plain values:
/// the platform output commands in order, the requested cursor appearance,
/// the texture delta, and the tessellated primitives in paint order.
pub struct FrameOutput {
    pub commands: Vec<OutputCmd>,
    pub cursor_icon: CursorIcon,
    pub delta: TextureDelta,
    pub prims: Vec<MeshPrim>,
}

/// One platform output command. Only clipboard-copy requests are acted on;
/// `Other` stands for every command kind that is ignored.
#[derive(Clone, PartialEq, Eq, Debug)]
pub enum OutputCmd {
    CopyText { text: String },
    Other,
}

/// The texts of the clipboard-copy commands, in order.
pub open spec fn copy_texts_of(cmds: Seq<OutputCmd>) -> Seq<String>
    decreases cmds.len(),
{
    if cmds.len() == 0 {
        Seq::empty()
    } else {
        let pre = copy_texts_of(cmds.drop_last());
        match cmds.last() {
            OutputCmd::CopyText { text } => pre.push(text),
            OutputCmd::Other => pre,
        }
    }
}

/// What ending a frame asks of the shell: texts to write to the native
/// clipboard, in order, and the native cursor kind to recreate the cursor
/// for, if the requested appearance changed.
pub struct EndPassActions {
    pub copy_texts: Vec<String>,
    pub cursor_kind: Option<SystemCursor>,
}

/// The native work of one draw: texture operations in delta order, handles
/// to destroy in free order, and one draw call per pending primitive in
/// paint order.
pub struct DrawCommands {
    pub tex_ops: Vec<TexOp>,
    pub destroys: Vec<u64>,
    pub meshes: Vec<MeshCmd>,
}

/// The painter's verified state: the cursor manager, the tracked pointer
/// position and modifier state, the accumulated input, the screen rectangle
/// the GUI context currently knows (what pointer clamping uses), the texture
/// cache, and the pending frame output.
pub struct Painter {
    pub cursor: CursorState,
    pub cursor_pos: Pos,
    pub modifiers: Modifiers,
    pub raw_input: RawInput,
    pub screen: ScreenRect,
    pub textures: TextureCache,
    pub draw_info: Option<DrawInfo>,
}

impl Painter {
    pub open spec fn wf(self) -> bool {
        &&& self.screen.wf()
        &&& match self.raw_input.screen_rect {
            Some(r) => r.wf(),
            None => true,
        }
        &&& self.raw_input.modifiers == self.modifiers
        &&& self.textures.wf()
    }

    /// The GUI events one native event appends to the accumulated input.
    pub open spec fn spec_emitted(
        self,
        ev: NativeEvent,
        gui: GuiState,
        plat: PlatformState,
    ) -> Seq<GuiEvent> {
        match ev {
            NativeEvent::WindowResized { .. } => Seq::empty(),
            NativeEvent::PointerButtonDown { button } => if gui.pointer_over_area
                || gui.wants_pointer || gui.wants_keyboard {
                match spec_button_of(button) {
                    Some(b) => seq![
                        GuiEvent::PointerButton {
                            pos: self.cursor_pos,
                            button: b,
                            pressed: true,
                            modifiers: self.modifiers,
                        },
                    ],
                    None => Seq::empty(),
                }
            } else {
                Seq::empty()
            },
            NativeEvent::PointerButtonUp { button } => if gui.wants_pointer {
                match spec_button_of(button) {
                    Some(b) => seq![
                        GuiEvent::PointerButton {
                            pos: self.cursor_pos,
                            button: b,
                            pressed: false,
                            modifiers: self.modifiers,
                        },
                    ],
                    None => Seq::empty(),
                }
            } else {
                Seq::empty()
            },
            NativeEvent::PointerMoved { x, y } => seq![
                GuiEvent::PointerMoved { pos: clamped_pos(self.screen, x as int, y as int) },
            ],
            NativeEvent::Wheel { delta_x: _, delta_y } => if gui.wants_pointer
                && spec_command_held(plat.mod_bits) {
                seq![GuiEvent::Zoom { delta_y }]
            } else {
                Seq::empty()
            },
            NativeEvent::KeyDown { code } => if gui.wants_keyboard && spec_key_of(code) is Some {
                let key = spec_key_of(code).unwrap();
                let m = Modifiers::spec_from_bits(plat.mod_bits);
                let lead: Seq<GuiEvent> = if m.command {
                    if key == Key::C {
                        seq![GuiEvent::Copy]
                    } else if key == Key::X {
                        seq![GuiEvent::Cut]
                    } else if key == Key::V {
                        match plat.clipboard {
                            Some(t) => seq![GuiEvent::Text { text: t }],
                            None => Seq::empty(),
                        }
                    } else {
                        Seq::empty()
                    }
                } else {
                    Seq::empty()
                };
                lead + seq![
                    GuiEvent::Key { key, pressed: true, repeat: false, modifiers: m },
                ]
            } else {
                Seq::empty()
            },
            NativeEvent::KeyUp { code } => if gui.wants_keyboard && code != KEY_ESCAPE
                && spec_key_of(code) is Some {
                seq![
                    GuiEvent::Key {
                        key: spec_key_of(code).unwrap(),
                        pressed: false,
                        repeat: false,
                        modifiers: Modifiers::spec_from_bits(plat.mod_bits),
                    },
                ]
            } else {
                Seq::empty()
            },
            NativeEvent::TextInput { text } => if gui.wants_keyboard {
                match text {
                    Some(t) => seq![GuiEvent::Text { text: t }],
                    None => Seq::empty(),
                }
            } else {
                Seq::empty()
            },
            NativeEvent::Other => Seq::empty(),
        }
    }

    /// Whether the GUI consumes the event, leaving the host application to
    /// decide whether to also process it.
    pub open spec fn spec_handled(
        self,
        ev: NativeEvent,
        gui: GuiState,
        plat: PlatformState,
    ) -> bool {
        match ev {
            NativeEvent::WindowResized { .. } => false,
            NativeEvent::PointerButtonDown { .. } => gui.pointer_over_area,
            NativeEvent::PointerButtonUp { .. } => gui.wants_pointer,
            NativeEvent::PointerMoved { .. } => false,
            NativeEvent::Wheel { .. } => gui.wants_pointer,
            NativeEvent::KeyDown { code } => gui.wants_keyboard && spec_key_of(code) is Some,
            NativeEvent::KeyUp { code } => gui.wants_keyboard && code != KEY_ESCAPE && spec_key_of(
                code,
            ) is Some,
            NativeEvent::TextInput { text } => gui.wants_keyboard && text is Some,
            NativeEvent::Other => false,
        }
    }

    /// The tracked pointer position after an event: pointer motion clamps the
    /// raw coordinates to the screen rectangle, everything else leaves it.
    pub open spec fn spec_pos_after(self, ev: NativeEvent) -> Pos {
        match ev {
            NativeEvent::PointerMoved { x, y } => clamped_pos(self.screen, x as int, y as int),
            _ => self.cursor_pos,
        }
    }

    /// The tracked modifier state after an event: key and text events that
    /// reach the GUI refresh it from the live platform bitmask; nothing else
    /// touches it.
    pub open spec fn spec_mods_after(
        self,
        ev: NativeEvent,
        gui: GuiState,
        plat: PlatformState,
    ) -> Modifiers {
        match ev {
            NativeEvent::KeyDown { code } => if gui.wants_keyboard && spec_key_of(code) is Some {
                Modifiers::spec_from_bits(plat.mod_bits)
            } else {
                self.modifiers
            },
            NativeEvent::KeyUp { code } => if gui.wants_keyboard && code != KEY_ESCAPE
                && spec_key_of(code) is Some {
                Modifiers::spec_from_bits(plat.mod_bits)
            } else {
                self.modifiers
            },
            NativeEvent::TextInput { .. } => if gui.wants_keyboard {
                Modifiers::spec_from_bits(plat.mod_bits)
            } else {
                self.modifiers
            },
            _ => self.modifiers,
        }
    }

    /// The screen rectangle still to be delivered, after an event: a window
    /// resize replaces it unconditionally.
    pub open spec fn spec_screen_after(self, ev: NativeEvent) -> Option<ScreenRect> {
        match ev {
            NativeEvent::WindowResized { width, height } => Some(ScreenRect { width, height }),
            _ => self.raw_input.screen_rect,
        }
    }

    /// The focus flag after an event: a key-down the GUI consumes marks the
    /// input focused.
    pub open spec fn spec_focused_after(self, ev: NativeEvent, gui: GuiState) -> bool {
        match ev {
            NativeEvent::KeyDown { code } => self.raw_input.focused || (gui.wants_keyboard
                && spec_key_of(code) is Some),
            _ => self.raw_input.focused,
        }
    }

    /// The text-capture request an event sends to the platform: a key-down
    /// the GUI consumes starts capture; releasing the escape key while the
    /// GUI wants keyboard input stops it.
    pub open spec fn spec_capture(ev: NativeEvent, gui: GuiState) -> Option<TextCapture> {
        match ev {
            NativeEvent::KeyDown { code } => if gui.wants_keyboard && spec_key_of(code) is Some {
                Some(TextCapture::Start)
            } else {
                None
            },
            NativeEvent::KeyUp { code } => if gui.wants_keyboard && code == KEY_ESCAPE {
                Some(TextCapture::Stop)
            } else {
                None
            },
            _ => None,
        }
    }

    /// A fresh painter for a window of `width` by `height` pixels: default
    /// cursor, pointer at the origin, no modifiers, an empty input buffer
    /// carrying the initial screen rectangle, an empty texture cache and no
    /// pending frame.
    pub fn new(width: i32, height: i32) -> (p: Painter)
        requires
            width >= 1,
            height >= 1,
        ensures
            p.wf(),
            p.cursor.looks == SystemCursor::Default,
            p.cursor_pos == (Pos { x: 0, y: 0 }),
            p.modifiers == Modifiers::spec_none(),
            p.raw_input.events@ == Seq::<GuiEvent>::empty(),
            p.raw_input.modifiers == Modifiers::spec_none(),
            p.raw_input.screen_rect == Some(ScreenRect { width, height }),
            p.raw_input.focused == false,
            p.screen == (ScreenRect { width, height }),
            p.textures@ == Map::<u64, u64>::empty(),
            p.textures.next_of() == 0,
            p.draw_info is None,
    {
        Painter {
            cursor: CursorState::new(),
            cursor_pos: Pos { x: 0, y: 0 },
            modifiers: Modifiers::none(),
            raw_input: RawInput {
                events: Vec::new(),
                modifiers: Modifiers::none(),
                screen_rect: Some(ScreenRect { width, height }),
                focused: false,
            },
            screen: ScreenRect { width, height },
            textures: TextureCache::new(),
            draw_info: None,
        }
    }

    /// Translate one native input event. `gui` is what the GUI context
    /// reports at this moment and `plat` the live platform state. Appends the
    /// translated events to the accumulated input, updates the tracked
    /// pointer, modifier, screen-rectangle and focus state, and says whether
    /// the GUI consumed the event and whether the platform must start or stop
    /// text capture.
    #[verifier::rlimit(100)]
    #[verifier::spinoff_prover]
    pub fn handle_event(&mut self, ev: NativeEvent, gui: &GuiState, plat: PlatformState) -> (r: (
        bool,
        Option<TextCapture>,
    ))
        requires
            old(self).wf(),
            ev matches NativeEvent::WindowResized { width, height } ==> width >= 1 && height >= 1,
        ensures
            final(self).wf(),
            r.0 == old(self).spec_handled(ev, *gui, plat),
            r.1 == Painter::spec_capture(ev, *gui),
            final(self).raw_input.events@ == old(self).raw_input.events@ + old(self).spec_emitted(
                ev,
                *gui,
                plat,
            ),
            final(self).cursor_pos == old(self).spec_pos_after(ev),
            final(self).modifiers == old(self).spec_mods_after(ev, *gui, plat),
            final(self).raw_input.modifiers == final(self).modifiers,
            final(self).raw_input.screen_rect == old(self).spec_screen_after(ev),
            final(self).raw_input.focused == old(self).spec_focused_after(ev, *gui),
            final(self).screen == old(self).screen,
            final(self).cursor == old(self).cursor,
            final(self).textures@ == old(self).textures@,
            final(self).textures.next_of() == old(self).textures.next_of(),
            final(self).draw_info == old(self).draw_info,
    {
        let ghost old_events = self.raw_input.events@;
        let ghost g_emitted = old(self).spec_emitted(ev, *gui, plat);
        match ev {
            NativeEvent::WindowResized { width, height } => {
                self.raw_input.screen_rect = Some(ScreenRect { width, height });
                proof {
                    assert(self.raw_input.events@ =~= old_events + g_emitted);
                }
                (false, None)
            },
            NativeEvent::PointerButtonDown { button } => {
                let mut handled = false;
                if gui.pointer_over_area || gui.wants_pointer || gui.wants_keyboard {
                    handled = gui.pointer_over_area;
                    match button_of(button) {
                        Some(b) => {
                            self.raw_input.events.push(
                                GuiEvent::PointerButton {
                                    pos: self.cursor_pos,
                                    button: b,
                                    pressed: true,
                                    modifiers: self.modifiers,
                                },
                            );
                        },
                        None => (),
                    }
                }
                proof {
                    assert(self.raw_input.events@ =~= old_events + g_emitted);
                }
                (handled, None)
            },
            NativeEvent::PointerButtonUp { button } => {
                let mut handled = false;
                if gui.wants_pointer {
                    match button_of(button) {
                        Some(b) => {
                            self.raw_input.events.push(
                                GuiEvent::PointerButton {
                                    pos: self.cursor_pos,
                                    button: b,
                                    pressed: false,
                                    modifiers: self.modifiers,
                                },
                            );
                        },
                        None => (),
                    }
                    handled = true;
                }
                proof {
                    assert(self.raw_input.events@ =~= old_events + g_emitted);
                }
                (handled, None)
            },
            NativeEvent::PointerMoved { x, y } => {
                self.cursor_pos = clamp_pos(self.screen, x, y);
                self.raw_input.events.push(GuiEvent::PointerMoved { pos: self.cursor_pos });
                proof {
                    assert(self.raw_input.events@ =~= old_events + g_emitted);
                }
                (false, None)
            },
            NativeEvent::Wheel { delta_x: _, delta_y } => {
                let mut handled = false;
                if gui.wants_pointer {
                    if command_held(plat.mod_bits) {
                        self.raw_input.events.push(GuiEvent::Zoom { delta_y });
                    }
                    handled = true;
                }
                proof {
                    assert(self.raw_input.events@ =~= old_events + g_emitted);
                }
                (handled, None)
            },
            NativeEvent::KeyDown { code } => {
                let mut handled = false;
                let mut capture: Option<TextCapture> = None;
                if gui.wants_keyboard && code != KEY_UNKNOWN {
                    match key_of(code) {
                        Some(key) => {
                            let m = Modifiers::from_bits(plat.mod_bits);
                            self.modifiers = m;
                            self.raw_input.modifiers = m;
                            if m.command {
                                if key == Key::C {
                                    self.raw_input.events.push(GuiEvent::Copy);
                                } else if key == Key::X {
                                    self.raw_input.events.push(GuiEvent::Cut);
                                } else if key == Key::V {
                                    match plat.clipboard {
                                        Some(t) => {
                                            self.raw_input.events.push(GuiEvent::Text { text: t });
                                        },
                                        None => (),
                                    }
                                }
                            }
                            capture = Some(TextCapture::Start);
                            self.raw_input.focused = true;
                            self.raw_input.events.push(
                                GuiEvent::Key { key, pressed: true, repeat: false, modifiers: m },
                            );
                            handled = true;
                        },
                        None => (),
                    }
                }
                proof {
                    assert(self.raw_input.events@ =~= old_events + g_emitted);
                }
                (handled, capture)
            },
            NativeEvent::KeyUp { code } => {
                let mut handled = false;
                let mut capture: Option<TextCapture> = None;
                if gui.wants_keyboard {
                    if code == KEY_ESCAPE {
                        capture = Some(TextCapture::Stop);
                    } else if code != KEY_UNKNOWN {
                        match key_of(code) {
                            Some(key) => {
                                let m = Modifiers::from_bits(plat.mod_bits);
                                self.modifiers = m;
                                self.raw_input.modifiers = m;
                                self.raw_input.events.push(
                                    GuiEvent::Key {
                                        key,
                                        pressed: false,
                                        repeat: false,
                                        modifiers: m,
                                    },
                                );
                                handled = true;
                            },
                            None => (),
                        }
                    }
                }
                proof {
                    assert(self.raw_input.events@ =~= old_events + g_emitted);
                }
                (handled, capture)
            },
            NativeEvent::TextInput { text } => {
                let mut handled = false;
                if gui.wants_keyboard {
                    let m = Modifiers::from_bits(plat.mod_bits);
                    self.modifiers = m;
                    self.raw_input.modifiers = m;
                    match text {
                        Some(t) => {
                            self.raw_input.events.push(GuiEvent::Text { text: t });
                            handled = true;
                        },
                        None => (),
                    }
                }
                proof {
                    assert(self.raw_input.events@ =~= old_events + g_emitted);
                }
                (handled, None)
            },
            NativeEvent::Other => {
                proof {
                    assert(self.raw_input.events@ =~= old_events + g_emitted);
                }
                (false, None)
            },
        }
    }

    /// Begin a frame: drain the accumulated input for the GUI context. The
    /// returned bundle is everything accumulated; afterwards the event buffer
    /// is empty and the screen rectangle has been delivered, while modifier
    /// state and focus persist. The screen rectangle the painter clamps
    /// against follows what is delivered here, since only now does the GUI
    /// context learn it.
    pub fn begin_pass(&mut self) -> (r: RawInput)
        requires
            old(self).wf(),
        ensures
            final(self).wf(),
            r == old(self).raw_input,
            final(self).raw_input.events@ == Seq::<GuiEvent>::empty(),
            final(self).raw_input.screen_rect is None,
            final(self).raw_input.modifiers == old(self).raw_input.modifiers,
            final(self).raw_input.focused == old(self).raw_input.focused,
            final(self).screen == (match old(self).raw_input.screen_rect {
                Some(rc) => rc,
                None => old(self).screen,
            }),
            final(self).cursor == old(self).cursor,
            final(self).cursor_pos == old(self).cursor_pos,
            final(self).modifiers == old(self).modifiers,
            final(self).textures@ == old(self).textures@,
            final(self).textures.next_of() == old(self).textures.next_of(),
            final(self).draw_info == old(self).draw_info,
    {
        let mut taken = RawInput {
            events: Vec::new(),
            modifiers: self.raw_input.modifiers,
            screen_rect: None,
            focused: self.raw_input.focused,
        };
        core::mem::swap(&mut self.raw_input, &mut taken);
        match taken.screen_rect {
            Some(rc) => {
                self.screen = rc;
            },
            None => (),
        }
        taken
    }

    /// End a frame. Stores the frame's draw output as pending (replacing any
    /// previous pending output) and says what the shell must do: write the
    /// copy-command texts to the clipboard in order, and recreate the native
    /// cursor if the requested appearance changed. The cursor swap is
    /// recorded separately with `commit_cursor`, only once the native
    /// creation succeeded, so a failure leaves the previous cursor active.
    pub fn end_pass(&mut self, out: FrameOutput) -> (r: EndPassActions)
        requires
            old(self).wf(),
        ensures
            final(self).wf(),
            r.copy_texts@ == copy_texts_of(out.commands@),
            r.cursor_kind == old(self).cursor.spec_plan(out.cursor_icon),
            final(self).draw_info == Some(DrawInfo { delta: out.delta, prims: out.prims }),
            final(self).cursor == old(self).cursor,
            final(self).cursor_pos == old(self).cursor_pos,
            final(self).modifiers == old(self).modifiers,
            final(self).raw_input == old(self).raw_input,
            final(self).screen == old(self).screen,
            final(self).textures@ == old(self).textures@,
            final(self).textures.next_of() == old(self).textures.next_of(),
    {
        let mut copy_texts: Vec<String> = Vec::new();
        let mut i: usize = 0;
        while i < out.commands.len()
            invariant
                i <= out.commands@.len(),
                copy_texts@ == copy_texts_of(out.commands@.take(i as int)),
            decreases out.commands@.len() - i,
        {
            proof {
                assert(out.commands@.take(i + 1 as int).drop_last() =~= out.commands@.take(
                    i as int,
                ));
            }
            match &out.commands[i] {
                OutputCmd::CopyText { text } => copy_texts.push(text.clone()),
                OutputCmd::Other => (),
            }
            i = i + 1;
        }
        proof {
            assert(out.commands@.take(out.commands@.len() as int) =~= out.commands@);
        }
        let cursor_kind = self.cursor.plan(out.cursor_icon);
        self.draw_info = Some(DrawInfo { delta: out.delta, prims: out.prims });
        EndPassActions { copy_texts, cursor_kind }
    }

    /// Record that a native cursor of kind `kind` was created and installed.
    pub fn commit_cursor(&mut self, kind: SystemCursor)
        requires
            old(self).wf(),
        ensures
            final(self).wf(),
            final(self).cursor.looks == kind,
            final(self).cursor_pos == old(self).cursor_pos,
            final(self).modifiers == old(self).modifiers,
            final(self).raw_input == old(self).raw_input,
            final(self).screen == old(self).screen,
            final(self).textures@ == old(self).textures@,
            final(self).textures.next_of() == old(self).textures.next_of(),
            final(self).draw_info == old(self).draw_info,
    {
        self.cursor.commit(kind);
    }

    /// Draw the pending frame output, if any. Consumes it: a second call
    /// without an intervening `end_pass` finds nothing pending, changes
    /// nothing and returns `None`. Otherwise the texture delta is applied to
    /// the cache and the commands say the native work in order: the texture
    /// operations, the handles to destroy, and one draw call per primitive in
    /// paint order with its texture identifier resolved against the updated
    /// cache.
    pub fn draw(&mut self) -> (r: Option<DrawCommands>)
        requires
            old(self).wf(),
            match old(self).draw_info {
                Some(di) => {
                    &&& di.delta.wf()
                    &&& no_callbacks(di.prims@)
                    &&& old(self).textures.next_of() + di.delta.sets@.len() <= u64::MAX
                },
                None => true,
            },
        ensures
            final(self).wf(),
            final(self).draw_info is None,
            final(self).cursor == old(self).cursor,
            final(self).cursor_pos == old(self).cursor_pos,
            final(self).modifiers == old(self).modifiers,
            final(self).raw_input == old(self).raw_input,
            final(self).screen == old(self).screen,
            old(self).draw_info is None ==> r is None && final(self).textures@ == old(
                self,
            ).textures@ && final(self).textures.next_of() == old(self).textures.next_of(),
            match old(self).draw_info {
                Some(di) => {
                    let m0 = old(self).textures@;
                    let n0 = old(self).textures.next_of();
                    let (m1, n1) = apply_sets(m0, n0, di.delta.sets@);
                    let m2 = apply_frees(m1, di.delta.frees@);
                    match r {
                        Some(cmds) => {
                            &&& final(self).textures@ == m2
                            &&& final(self).textures.next_of() == n1
                            &&& cmds.tex_ops@.len() == di.delta.sets@.len()
                            &&& forall|i: int|
                                0 <= i < di.delta.sets@.len() ==> op_matches(
                                    #[trigger] cmds.tex_ops@[i],
                                    di.delta.sets@[i],
                                    apply_sets(m0, n0, di.delta.sets@.take(i)),
                                )
                            &&& cmds.destroys@ == freed_handles(m1, di.delta.frees@)
                            &&& cmds.meshes@.len() == di.prims@.len()
                            &&& forall|i: int|
                                0 <= i < di.prims@.len() ==> mesh_resolved(
                                    #[trigger] cmds.meshes@[i],
                                    di.prims@[i],
                                    m2,
                                )
                        },
                        None => false,
                    }
                },
                None => r is None,
            },
    {
        let pending = self.draw_info.take();
        match pending {
            None => None,
            Some(di) => {
                let tex_ops = self.textures.apply_sets_exec(&di.delta.sets);
                let destroys = self.textures.apply_frees_exec(&di.delta.frees);
                let meshes = resolve_meshes(&self.textures, &di.prims);
                Some(DrawCommands { tex_ops, destroys, meshes })
            },
        }
    }
}

/// Law: after pointer motion, the tracked pointer position lies within the
/// screen rectangle — at least the minimum edge, at most one unit inside the
/// maximum edge on each axis — whatever the raw event coordinates were.
pub proof fn lemma_pointer_position_clamped(p: Painter, x: i32, y: i32)
    requires
        p.wf(),
    ensures
        ({
            let q = p.spec_pos_after(NativeEvent::PointerMoved { x, y });
            &&& 0 <= q.x < p.screen.width
            &&& 0 <= q.y < p.screen.height
        }),
{
}

/// Law: a key-down whose code maps to no logical key is not handled and
/// appends no input event, whatever the GUI and platform state.
pub proof fn lemma_unmapped_key_down_ignored(
    p: Painter,
    code: u32,
    gui: GuiState,
    plat: PlatformState,
)
    requires
        spec_key_of(code) is None,
    ensures
        !p.spec_handled(NativeEvent::KeyDown { code }, gui, plat),
        p.spec_emitted(NativeEvent::KeyDown { code }, gui, plat) == Seq::<GuiEvent>::empty(),
{
}

/// Law: a wheel event is consumed exactly when the GUI wants pointer input;
/// it emits a zoom carrying the vertical delta exactly when, in addition,
/// the live command modifier is held, and emits nothing otherwise.
pub proof fn lemma_wheel_zoom_decision(
    p: Painter,
    dx: i32,
    dy: i32,
    gui: GuiState,
    plat: PlatformState,
)
    ensures
        p.spec_handled(NativeEvent::Wheel { delta_x: dx, delta_y: dy }, gui, plat)
            == gui.wants_pointer,
        gui.wants_pointer && spec_command_held(plat.mod_bits) ==> p.spec_emitted(
            NativeEvent::Wheel { delta_x: dx, delta_y: dy },
            gui,
            plat,
        ) == seq![GuiEvent::Zoom { delta_y: dy }],
        !(gui.wants_pointer && spec_command_held(plat.mod_bits)) ==> p.spec_emitted(
            NativeEvent::Wheel { delta_x: dx, delta_y: dy },
            gui,
            plat,
        ) == Seq::<GuiEvent>::empty(),
{
}

} // verus!
