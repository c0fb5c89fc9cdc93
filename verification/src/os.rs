use vstd::prelude::*;
use crate::geometry::Rect;
use crate::geometry::ShadowInset;

verus! {

/// Opaque identifier of a native top-level window. It is a weak reference:
/// valid only while the window exists, never dereferenced, and only ever
/// handed to the window-manager capability, which checks liveness first.
#[derive(Clone, Copy, Debug, PartialEq, Eq, Hash, Structural)]
pub struct WindowHandle {
    raw: isize,
}

impl WindowHandle {
    /// The numeric identity of the handle.
    pub closed spec fn id(self) -> int {
        self.raw as int
    }

    /// Wrap a raw window identifier.
    pub fn new(raw: isize) -> (h: WindowHandle)
        ensures
            h.id() == raw as int,
    {
        WindowHandle { raw }
    }

    /// The raw window identifier, for hand-off to a native adapter.
    pub fn raw(self) -> (r: isize)
        ensures
            r as int == self.id(),
    {
        self.raw
    }
}

/// The placement options handed to the window manager with every move.
/// All four suppress side effects that would fight a layout engine issuing
/// many placements in rapid succession.
#[derive(Clone, Copy, Debug, PartialEq, Eq, Structural)]
pub struct PlacementFlags {
    /// Do not change activation state or z-order ownership.
    pub no_activate: bool,
    /// Do not blit a copy of the previous window region (avoids flicker
    /// and repaint cost during a bulk re-tile).
    pub no_copy_bits: bool,
    /// Perform the move asynchronously; the repaint may be deferred.
    pub async_window_pos: bool,
    /// Suppress the pre-change notification the target window would
    /// normally receive, so its own resize handlers cannot contend with
    /// the layout engine's geometry decisions.
    pub no_send_changing: bool,
}

/// The flag set used for every placement issued by this layer.
pub open spec fn tiling_flags() -> PlacementFlags {
    PlacementFlags {
        no_activate: true,
        no_copy_bits: true,
        async_window_pos: true,
        no_send_changing: true,
    }
}

/// Build the flag set used for every placement issued by this layer.
pub fn placement_flags() -> (f: PlacementFlags)
    ensures
        f == tiling_flags(),
{
    PlacementFlags {
        no_activate: true,
        no_copy_bits: true,
        async_window_pos: true,
        no_send_changing: true,
    }
}

/// One call into the window-manager capability, as recorded in its log.
#[derive(Clone, Copy, Debug, PartialEq, Eq, Structural)]
pub enum OsCall {
    /// Liveness query: does the handle still identify a window?
    CheckLive(WindowHandle),
    /// Minimized (iconic) query.
    CheckIconic(WindowHandle),
    /// Clear the window's maximized state.
    Unmaximize(WindowHandle),
    /// Query the window's current drop-shadow inset.
    QueryInset(WindowHandle),
    /// Submit a corrected rectangle under the given placement flags.
    SetPosition(WindowHandle, Rect, PlacementFlags),
    /// Diagnostic query: the window's title text.
    QueryTitle(WindowHandle),
    /// Diagnostic query: the path of the owning executable.
    QueryExePath(WindowHandle),
    /// Force-foreground primitive: attempt to seize keyboard focus.
    ForceForeground(WindowHandle),
}

/// Whether a call can change window state, as opposed to a pure query.
pub open spec fn is_mutation(c: OsCall) -> bool {
    match c {
        OsCall::Unmaximize(_) => true,
        OsCall::SetPosition(_, _, _) => true,
        OsCall::ForceForeground(_) => true,
        _ => false,
    }
}

/// The model of one live window, as the contracts see it: its current
/// state plus the outcome the window manager would give each fallible
/// call against it. An error field of `None` means that call succeeds;
/// `Some(m)` means it fails with description `m`.
pub ghost struct WindowModel {
    /// Whether the window is minimized.
    pub iconic: bool,
    /// Whether the window is maximized.
    pub maximized: bool,
    /// The current drop-shadow inset.
    pub inset: ShadowInset,
    /// The window's title text.
    pub title: Seq<char>,
    /// The path of the owning executable.
    pub exe_path: Seq<char>,
    /// Outcome of clearing the maximized state.
    pub unmaximize_error: Option<Seq<char>>,
    /// Outcome of the shadow-inset query.
    pub inset_error: Option<Seq<char>>,
    /// Outcome of a position submission.
    pub place_error: Option<Seq<char>>,
    /// Outcome of the title query.
    pub title_error: Option<Seq<char>>,
    /// Outcome of the executable-path query.
    pub exe_error: Option<Seq<char>>,
    /// Outcome of the force-foreground primitive.
    pub foreground_error: Option<Seq<char>>,
}

/// The window-manager capability this layer drives.
///
/// Ghost state: which handles are live, the model of each live window, and
/// a log of every call issued so far. Each method appends exactly its own
/// call to the log; queries leave window state unchanged. An implementation
/// is a deterministic stand-in for the operating system's window table, so
/// the placement and focus protocols can be verified, and exercised in
/// tests, against the same contract.
pub trait WindowSystem: Sized {
    /// Whether `h` still identifies a live top-level window.
    spec fn live(&self, h: WindowHandle) -> bool;

    /// The model of the window behind `h`; meaningful only while `live(h)`.
    spec fn win(&self, h: WindowHandle) -> WindowModel;

    /// Every call issued so far, oldest first.
    spec fn log(&self) -> Seq<OsCall>;

    /// Liveness check.
    fn is_window(&mut self, h: WindowHandle) -> (r: bool)
        ensures
            r == old(self).live(h),
            final(self).log() == old(self).log().push(OsCall::CheckLive(h)),
            forall|g: WindowHandle| final(self).live(g) == old(self).live(g),
            forall|g: WindowHandle| final(self).win(g) == old(self).win(g),
    ;

    /// Minimized (iconic) check; callers must have confirmed liveness.
    fn is_iconic(&mut self, h: WindowHandle) -> (r: bool)
        requires
            old(self).live(h),
        ensures
            r == old(self).win(h).iconic,
            final(self).log() == old(self).log().push(OsCall::CheckIconic(h)),
            forall|g: WindowHandle| final(self).live(g) == old(self).live(g),
            forall|g: WindowHandle| final(self).win(g) == old(self).win(g),
    ;

    /// Clear the maximized state; on success the window is no longer
    /// maximized and is otherwise unchanged.
    fn unmaximize(&mut self, h: WindowHandle) -> (r: Result<(), String>)
        requires
            old(self).live(h),
        ensures
            final(self).log() == old(self).log().push(OsCall::Unmaximize(h)),
            forall|g: WindowHandle| final(self).live(g) == old(self).live(g),
            forall|g: WindowHandle| g != h ==> final(self).win(g) == old(self).win(g),
            (match r {
                Ok(()) => old(self).win(h).unmaximize_error is None
                    && final(self).win(h) == (WindowModel {
                        maximized: false,
                        ..old(self).win(h)
                    }),
                Err(m) => old(self).win(h).unmaximize_error == Some(m@)
                    && final(self).win(h) == old(self).win(h),
            }),
    ;

    /// Query the window's current shadow inset.
    fn shadow_inset(&mut self, h: WindowHandle) -> (r: Result<ShadowInset, String>)
        requires
            old(self).live(h),
        ensures
            final(self).log() == old(self).log().push(OsCall::QueryInset(h)),
            forall|g: WindowHandle| final(self).live(g) == old(self).live(g),
            forall|g: WindowHandle| final(self).win(g) == old(self).win(g),
            (match r {
                Ok(s) => old(self).win(h).inset_error is None
                    && s == old(self).win(h).inset,
                Err(m) => old(self).win(h).inset_error == Some(m@),
            }),
    ;

    /// Submit `rect` under `flags`. The move itself (and the rejection of
    /// a protected window) is the window manager's business; no other
    /// window state changes.
    fn set_position(&mut self, h: WindowHandle, rect: &Rect, flags: PlacementFlags)
        -> (r: Result<(), String>)
        requires
            old(self).live(h),
        ensures
            final(self).log() == old(self).log().push(OsCall::SetPosition(h, *rect, flags)),
            forall|g: WindowHandle| final(self).live(g) == old(self).live(g),
            forall|g: WindowHandle| final(self).win(g) == old(self).win(g),
            (match r {
                Ok(()) => old(self).win(h).place_error is None,
                Err(m) => old(self).win(h).place_error == Some(m@),
            }),
    ;

    /// Diagnostic query: the window's title text.
    fn window_title(&mut self, h: WindowHandle) -> (r: Result<String, String>)
        requires
            old(self).live(h),
        ensures
            final(self).log() == old(self).log().push(OsCall::QueryTitle(h)),
            forall|g: WindowHandle| final(self).live(g) == old(self).live(g),
            forall|g: WindowHandle| final(self).win(g) == old(self).win(g),
            (match r {
                Ok(t) => old(self).win(h).title_error is None
                    && t@ == old(self).win(h).title,
                Err(m) => old(self).win(h).title_error == Some(m@),
            }),
    ;

    /// Diagnostic query: the path of the owning executable.
    fn exe_path(&mut self, h: WindowHandle) -> (r: Result<String, String>)
        requires
            old(self).live(h),
        ensures
            final(self).log() == old(self).log().push(OsCall::QueryExePath(h)),
            forall|g: WindowHandle| final(self).live(g) == old(self).live(g),
            forall|g: WindowHandle| final(self).win(g) == old(self).win(g),
            (match r {
                Ok(p) => old(self).win(h).exe_error is None
                    && p@ == old(self).win(h).exe_path,
                Err(m) => old(self).win(h).exe_error == Some(m@),
            }),
    ;

    /// Force-foreground primitive: attempt to seize keyboard focus for the
    /// window despite the foreground lock. How the lock is defeated is the
    /// implementation's business; a refusal surfaces as an error.
    fn force_foreground(&mut self, h: WindowHandle) -> (r: Result<(), String>)
        requires
            old(self).live(h),
        ensures
            final(self).log() == old(self).log().push(OsCall::ForceForeground(h)),
            forall|g: WindowHandle| final(self).live(g) == old(self).live(g),
            forall|g: WindowHandle| final(self).win(g) == old(self).win(g),
            (match r {
                Ok(()) => old(self).win(h).foreground_error is None,
                Err(m) => old(self).win(h).foreground_error == Some(m@),
            }),
    ;
}

} // verus!
