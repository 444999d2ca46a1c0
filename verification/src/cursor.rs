use vstd::prelude::*;

verus! {

/// The cursor appearances the GUI may request. `Other` stands for every
/// appearance outside the fixed mapping table; it falls back to the default
/// arrow.
#[derive(Clone, Copy, PartialEq, Eq, Structural, Debug)]
pub enum CursorIcon {
    Crosshair,
    Default,
    Grab,
    Grabbing,
    Move,
    PointingHand,
    ResizeHorizontal,
    ResizeNeSw,
    ResizeNwSe,
    ResizeVertical,
    Text,
    NotAllowed,
    NoDrop,
    Wait,
    Other,
}

/// The native system cursor kinds the mapping table targets.
#[derive(Clone, Copy, PartialEq, Eq, Structural, Debug)]
pub enum SystemCursor {
    Default,
    Text,
    Wait,
    Crosshair,
    Move,
    NsResize,
    EwResize,
    NeswResize,
    NwseResize,
    Pointer,
    NotAllowed,
}

/// The fixed table from requested cursor appearance to native cursor kind.
/// Grab and pointing-hand both use the pointer hand; grabbing and move both
/// use the move cursor; not-allowed and no-drop share the not-allowed cursor;
/// anything unmodeled falls back to the default arrow.
pub open spec fn spec_cursor_kind(icon: CursorIcon) -> SystemCursor {
    match icon {
        CursorIcon::Crosshair => SystemCursor::Crosshair,
        CursorIcon::Default => SystemCursor::Default,
        CursorIcon::Grab => SystemCursor::Pointer,
        CursorIcon::Grabbing => SystemCursor::Move,
        CursorIcon::Move => SystemCursor::Move,
        CursorIcon::PointingHand => SystemCursor::Pointer,
        CursorIcon::ResizeHorizontal => SystemCursor::EwResize,
        CursorIcon::ResizeNeSw => SystemCursor::NeswResize,
        CursorIcon::ResizeNwSe => SystemCursor::NwseResize,
        CursorIcon::ResizeVertical => SystemCursor::NsResize,
        CursorIcon::Text => SystemCursor::Text,
        CursorIcon::NotAllowed => SystemCursor::NotAllowed,
        CursorIcon::NoDrop => SystemCursor::NotAllowed,
        CursorIcon::Wait => SystemCursor::Wait,
        CursorIcon::Other => SystemCursor::Default,
    }
}

pub fn cursor_kind(icon: CursorIcon) -> (r: SystemCursor)
    ensures
        r == spec_cursor_kind(icon),
{
    match icon {
        CursorIcon::Crosshair => SystemCursor::Crosshair,
        CursorIcon::Default => SystemCursor::Default,
        CursorIcon::Grab => SystemCursor::Pointer,
        CursorIcon::Grabbing => SystemCursor::Move,
        CursorIcon::Move => SystemCursor::Move,
        CursorIcon::PointingHand => SystemCursor::Pointer,
        CursorIcon::ResizeHorizontal => SystemCursor::EwResize,
        CursorIcon::ResizeNeSw => SystemCursor::NeswResize,
        CursorIcon::ResizeNwSe => SystemCursor::NwseResize,
        CursorIcon::ResizeVertical => SystemCursor::NsResize,
        CursorIcon::Text => SystemCursor::Text,
        CursorIcon::NotAllowed => SystemCursor::NotAllowed,
        CursorIcon::NoDrop => SystemCursor::NotAllowed,
        CursorIcon::Wait => SystemCursor::Wait,
        CursorIcon::Other => SystemCursor::Default,
    }
}

/// The cursor manager's state: the native cursor kind the currently installed
/// cursor resource was created for.
#[derive(Clone, Copy, PartialEq, Eq, Structural, Debug)]
pub struct CursorState {
    pub looks: SystemCursor,
}

impl CursorState {
    /// The kind to recreate the native cursor for, or `None` when the
    /// requested appearance already matches the installed cursor.
    pub open spec fn spec_plan(self, icon: CursorIcon) -> Option<SystemCursor> {
        if spec_cursor_kind(icon) == self.looks {
            None
        } else {
            Some(spec_cursor_kind(icon))
        }
    }

    pub fn new() -> (s: CursorState)
        ensures
            s.looks == SystemCursor::Default,
    {
        CursorState { looks: SystemCursor::Default }
    }

    /// Decide whether a requested appearance calls for recreating the native
    /// cursor. Nothing is committed here: the caller creates the native
    /// resource and records the swap with `commit` only on success, so a
    /// failed creation leaves the previous cursor installed.
    pub fn plan(&self, icon: CursorIcon) -> (r: Option<SystemCursor>)
        ensures
            r == self.spec_plan(icon),
    {
        let kind = cursor_kind(icon);
        if kind == self.looks {
            None
        } else {
            Some(kind)
        }
    }

    /// Record that a native cursor of kind `kind` is now installed.
    pub fn commit(&mut self, kind: SystemCursor)
        ensures
            final(self).looks == kind,
    {
        self.looks = kind;
    }
}

/// Law: requesting the same cursor appearance twice in a row recreates the
/// cursor at most once. A request for `icon` plans a recreation exactly when
/// the mapped kind differs from the installed one, and once that kind is
/// installed, a second request for `icon` plans nothing.
pub proof fn lemma_cursor_request_idempotent(s: CursorState, icon: CursorIcon)
    ensures
        s.spec_plan(icon) is None <==> s.looks == spec_cursor_kind(icon),
        (CursorState { looks: spec_cursor_kind(icon) }).spec_plan(icon) is None,
{
}

} // verus!
