use vstd::prelude::*;
use crate::geometry::ShadowInset;
use crate::os::OsCall;
use crate::os::WindowHandle;
use crate::os::WindowModel;
use crate::os::WindowSystem;

verus! {

/// One simulated window: its current state plus the outcome the fake gives
/// each fallible call against it (`None` means the call succeeds; `Some(m)`
/// means it fails with description `m`).
pub struct FakeWindow {
    /// The handle this window answers to.
    pub handle: WindowHandle,
    /// Whether the window is minimized.
    pub iconic: bool,
    /// Whether the window is maximized.
    pub maximized: bool,
    /// The drop-shadow inset reported for this window.
    pub inset: ShadowInset,
    /// The window's title text.
    pub title: String,
    /// The path of the owning executable.
    pub exe_path: String,
    /// Outcome of clearing the maximized state.
    pub unmaximize_error: Option<String>,
    /// Outcome of the shadow-inset query.
    pub inset_error: Option<String>,
    /// Outcome of a position submission.
    pub place_error: Option<String>,
    /// Outcome of the title query.
    pub title_error: Option<String>,
    /// Outcome of the executable-path query.
    pub exe_error: Option<String>,
    /// Outcome of the force-foreground primitive.
    pub foreground_error: Option<String>,
}

/// The view of an optional error message.
pub open spec fn opt_view(o: Option<String>) -> Option<Seq<char>> {
    match o {
        Some(s) => Some(s@),
        None => None,
    }
}

/// The model a simulated window presents to the contracts.
pub open spec fn model_of(w: FakeWindow) -> WindowModel {
    WindowModel {
        iconic: w.iconic,
        maximized: w.maximized,
        inset: w.inset,
        title: w.title@,
        exe_path: w.exe_path@,
        unmaximize_error: opt_view(w.unmaximize_error),
        inset_error: opt_view(w.inset_error),
        place_error: opt_view(w.place_error),
        title_error: opt_view(w.title_error),
        exe_error: opt_view(w.exe_error),
        foreground_error: opt_view(w.foreground_error),
    }
}

/// The model reported for a handle with no window behind it; the verified
/// protocols never rely on it.
pub open spec fn absent_model() -> WindowModel {
    WindowModel {
        iconic: false,
        maximized: false,
        inset: ShadowInset { top: 0, left: 0, right: 0, bottom: 0 },
        title: Seq::<char>::empty(),
        exe_path: Seq::<char>::empty(),
        unmaximize_error: None,
        inset_error: None,
        place_error: None,
        title_error: None,
        exe_error: None,
        foreground_error: None,
    }
}

/// The first window in `ws` that answers to `h`, if any.
pub open spec fn first_match(ws: Seq<FakeWindow>, h: WindowHandle) -> Option<FakeWindow>
    decreases ws.len(),
{
    if ws.len() == 0 {
        None
    } else if ws[0].handle == h {
        Some(ws[0])
    } else {
        first_match(ws.drop_first(), h)
    }
}

proof fn lemma_first_match_found(ws: Seq<FakeWindow>, h: WindowHandle, i: int)
    requires
        0 <= i < ws.len(),
        forall|j: int| 0 <= j < i ==> ws[j].handle != h,
        ws[i].handle == h,
    ensures
        first_match(ws, h) == Some(ws[i]),
    decreases i,
{
    if i > 0 {
        assert forall|j: int| 0 <= j < i - 1 implies ws.drop_first()[j].handle != h by {
            assert(ws.drop_first()[j] == ws[j + 1]);
        }
        assert(ws.drop_first()[i - 1] == ws[i]);
        lemma_first_match_found(ws.drop_first(), h, i - 1);
    }
}

proof fn lemma_first_match_none(ws: Seq<FakeWindow>, h: WindowHandle)
    requires
        forall|j: int| 0 <= j < ws.len() ==> ws[j].handle != h,
    ensures
        first_match(ws, h) is None,
    decreases ws.len(),
{
    if ws.len() > 0 {
        assert forall|j: int| 0 <= j < ws.drop_first().len() implies ws.drop_first()[j].handle
            != h by {
            assert(ws.drop_first()[j] == ws[j + 1]);
        }
        lemma_first_match_none(ws.drop_first(), h);
    }
}

proof fn lemma_first_match_pointwise(ws: Seq<FakeWindow>, ws2: Seq<FakeWindow>, g: WindowHandle)
    requires
        ws.len() == ws2.len(),
        forall|j: int| 0 <= j < ws.len() ==> ws[j].handle == ws2[j].handle,
        forall|j: int| 0 <= j < ws.len() && ws[j].handle == g ==> ws[j] == ws2[j],
    ensures
        first_match(ws, g) == first_match(ws2, g),
    decreases ws.len(),
{
    if ws.len() > 0 {
        if ws[0].handle == g {
            assert(ws[0] == ws2[0]);
        } else {
            assert forall|j: int| 0 <= j < ws.drop_first().len() implies
                ws.drop_first()[j].handle == ws2.drop_first()[j].handle by {
                assert(ws.drop_first()[j] == ws[j + 1]);
                assert(ws2.drop_first()[j] == ws2[j + 1]);
            }
            assert forall|j: int|
                0 <= j < ws.drop_first().len() && ws.drop_first()[j].handle == g implies
                ws.drop_first()[j] == ws2.drop_first()[j] by {
                assert(ws.drop_first()[j] == ws[j + 1]);
                assert(ws2.drop_first()[j] == ws2[j + 1]);
            }
            lemma_first_match_pointwise(ws.drop_first(), ws2.drop_first(), g);
        }
    }
}

/// An in-memory window manager: a deterministic stand-in for the operating
/// system's window table that records every call issued against it. It is
/// the substitutable implementation the `WindowSystem` contracts are
/// verified against, and the one tests drive.
pub struct FakeWindowSystem {
    /// The simulated windows; a handle answers to the first entry carrying it.
    pub windows: Vec<FakeWindow>,
    /// Every call issued so far, oldest first.
    pub calls: Vec<OsCall>,
}

impl FakeWindowSystem {
    /// An empty window table with an empty call log.
    pub fn new() -> (s: FakeWindowSystem)
        ensures
            s.windows@ == Seq::<FakeWindow>::empty(),
            s.calls@ == Seq::<OsCall>::empty(),
    {
        FakeWindowSystem { windows: Vec::new(), calls: Vec::new() }
    }

    /// Index of the first simulated window answering to `h`, if any.
    fn find(&self, h: WindowHandle) -> (r: Option<usize>)
        ensures
            (match r {
                Some(i) => i < self.windows@.len()
                    && self.windows@[i as int].handle == h
                    && (forall|j: int| 0 <= j < i ==> self.windows@[j].handle != h)
                    && first_match(self.windows@, h) == Some(self.windows@[i as int]),
                None => first_match(self.windows@, h) is None,
            }),
    {
        let mut i: usize = 0;
        while i < self.windows.len()
            invariant
                i <= self.windows@.len(),
                forall|j: int| 0 <= j < i ==> self.windows@[j].handle != h,
            decreases self.windows@.len() - i,
        {
            if self.windows[i].handle == h {
                proof {
                    lemma_first_match_found(self.windows@, h, i as int);
                }
                return Some(i);
            }
            i = i + 1;
        }
        proof {
            lemma_first_match_none(self.windows@, h);
        }
        None
    }
}

impl WindowSystem for FakeWindowSystem {
    open spec fn live(&self, h: WindowHandle) -> bool {
        first_match(self.windows@, h) is Some
    }

    open spec fn win(&self, h: WindowHandle) -> WindowModel {
        match first_match(self.windows@, h) {
            Some(w) => model_of(w),
            None => absent_model(),
        }
    }

    open spec fn log(&self) -> Seq<OsCall> {
        self.calls@
    }

    fn is_window(&mut self, h: WindowHandle) -> (r: bool) {
        self.calls.push(OsCall::CheckLive(h));
        self.find(h).is_some()
    }

    fn is_iconic(&mut self, h: WindowHandle) -> (r: bool) {
        self.calls.push(OsCall::CheckIconic(h));
        match self.find(h) {
            Some(i) => self.windows[i].iconic,
            None => false,
        }
    }

    fn unmaximize(&mut self, h: WindowHandle) -> (r: Result<(), String>) {
        self.calls.push(OsCall::Unmaximize(h));
        let i = match self.find(h) {
            Some(i) => i,
            // never reached: the contract demands a live handle
            None => {
                return Ok(());
            },
        };
        match &self.windows[i].unmaximize_error {
            Some(m) => Err(m.clone()),
            None => {
                let ghost ws0 = self.windows@;
                self.windows[i].maximized = false;
                proof {
                    let ws1 = self.windows@;
                    assert(ws1 == ws0.update(i as int, ws1[i as int]));
                    assert(ws1[i as int].handle == h);
                    lemma_first_match_found(ws1, h, i as int);
                    assert forall|g: WindowHandle| g != h implies first_match(ws1, g)
                        == first_match(ws0, g) by {
                        lemma_first_match_pointwise(ws0, ws1, g);
                    }
                }
                Ok(())
            },
        }
    }

    fn shadow_inset(&mut self, h: WindowHandle) -> (r: Result<ShadowInset, String>) {
        self.calls.push(OsCall::QueryInset(h));
        let i = match self.find(h) {
            Some(i) => i,
            None => {
                return Err(String::new());
            },
        };
        match &self.windows[i].inset_error {
            Some(m) => Err(m.clone()),
            None => Ok(self.windows[i].inset),
        }
    }

    fn set_position(&mut self, h: WindowHandle, rect: &crate::geometry::Rect,
        flags: crate::os::PlacementFlags) -> (r: Result<(), String>) {
        self.calls.push(OsCall::SetPosition(h, *rect, flags));
        let i = match self.find(h) {
            Some(i) => i,
            None => {
                return Ok(());
            },
        };
        match &self.windows[i].place_error {
            Some(m) => Err(m.clone()),
            None => Ok(()),
        }
    }

    fn window_title(&mut self, h: WindowHandle) -> (r: Result<String, String>) {
        self.calls.push(OsCall::QueryTitle(h));
        let i = match self.find(h) {
            Some(i) => i,
            None => {
                return Err(String::new());
            },
        };
        match &self.windows[i].title_error {
            Some(m) => Err(m.clone()),
            None => Ok(self.windows[i].title.clone()),
        }
    }

    fn exe_path(&mut self, h: WindowHandle) -> (r: Result<String, String>) {
        self.calls.push(OsCall::QueryExePath(h));
        let i = match self.find(h) {
            Some(i) => i,
            None => {
                return Err(String::new());
            },
        };
        match &self.windows[i].exe_error {
            Some(m) => Err(m.clone()),
            None => Ok(self.windows[i].exe_path.clone()),
        }
    }

    fn force_foreground(&mut self, h: WindowHandle) -> (r: Result<(), String>) {
        self.calls.push(OsCall::ForceForeground(h));
        let i = match self.find(h) {
            Some(i) => i,
            None => {
                return Ok(());
            },
        };
        match &self.windows[i].foreground_error {
            Some(m) => Err(m.clone()),
            None => Ok(()),
        }
    }
}

} // verus!
