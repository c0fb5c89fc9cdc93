use vstd::prelude::*;
use crate::geometry::Rect;
use crate::geometry::adjust_rect;
use crate::geometry::adjusted_rect;
use crate::geometry::rect_fits;
use crate::os::OsCall;
use crate::os::WindowHandle;
use crate::os::WindowModel;
use crate::os::WindowSystem;
use crate::os::placement_flags;
use crate::os::tiling_flags;

verus! {

/// The calls a placement request issues against a target whose model is
/// `w`, oldest first. A target that is not live, or is minimized, stops
/// the protocol at the guard; a window-manager failure stops it at the
/// failing call; otherwise the corrected rectangle is submitted under the
/// side-effect-suppressing flag set.
pub open spec fn placement_calls(live: bool, w: WindowModel, h: WindowHandle, rect: Rect)
    -> Seq<OsCall> {
    if !live {
        seq![OsCall::CheckLive(h)]
    } else if w.iconic {
        seq![OsCall::CheckLive(h), OsCall::CheckIconic(h)]
    } else if w.unmaximize_error is Some {
        seq![OsCall::CheckLive(h), OsCall::CheckIconic(h), OsCall::Unmaximize(h)]
    } else if w.inset_error is Some {
        seq![
            OsCall::CheckLive(h),
            OsCall::CheckIconic(h),
            OsCall::Unmaximize(h),
            OsCall::QueryInset(h),
        ]
    } else {
        seq![
            OsCall::CheckLive(h),
            OsCall::CheckIconic(h),
            OsCall::Unmaximize(h),
            OsCall::QueryInset(h),
            OsCall::SetPosition(h, adjusted_rect(rect, w.inset), tiling_flags()),
        ]
    }
}

/// The outcome of a placement request: `None` for success, `Some(m)` for
/// the first window-manager failure, with its description. A stale or
/// minimized target is a success, not a failure.
pub open spec fn placement_outcome(live: bool, w: WindowModel) -> Option<Seq<char>> {
    if !live || w.iconic {
        None
    } else if w.unmaximize_error is Some {
        w.unmaximize_error
    } else if w.inset_error is Some {
        w.inset_error
    } else {
        w.place_error
    }
}

/// Move and resize the window behind `handle` to `rect`, corrected for the
/// window's current shadow inset.
///
/// A handle that no longer identifies a live window, or whose window is
/// minimized, resolves to a successful no-op: racing against concurrent
/// window lifecycle changes is normal operation, not a failure. Otherwise
/// the window is un-maximized first, its shadow inset is queried fresh,
/// and the corrected rectangle is submitted under flags that suppress
/// activation, bitmap copying, synchronous repaint and the pre-change
/// notification. Any window-manager rejection past the guard propagates
/// as an error; no partial mutation is retried or recovered.
pub fn set_window_position<W: WindowSystem>(api: &mut W, handle: WindowHandle, rect: Rect)
    -> (result: Result<(), String>)
    requires
        old(api).live(handle) && !old(api).win(handle).iconic
            ==> rect_fits(rect, old(api).win(handle).inset),
    ensures
        final(api).log() == old(api).log()
            + placement_calls(old(api).live(handle), old(api).win(handle), handle, rect),
        (match result {
            Ok(()) => placement_outcome(old(api).live(handle), old(api).win(handle)) is None,
            Err(m) => placement_outcome(old(api).live(handle), old(api).win(handle))
                == Some(m@),
        }),
        forall|g: WindowHandle| final(api).live(g) == old(api).live(g),
        forall|g: WindowHandle| g != handle ==> final(api).win(g) == old(api).win(g),
        final(api).win(handle) == (if old(api).live(handle)
            && !old(api).win(handle).iconic
            && old(api).win(handle).unmaximize_error is None {
            WindowModel { maximized: false, ..old(api).win(handle) }
        } else {
            old(api).win(handle)
        }),
{
    let ghost log0 = api.log();
    let ghost live0 = api.live(handle);
    let ghost w0 = api.win(handle);

    if !api.is_window(handle) {
        proof {
            assert(api.log() =~= log0 + placement_calls(live0, w0, handle, rect));
        }
        return Ok(());
    }
    if api.is_iconic(handle) {
        proof {
            assert(api.log() =~= log0 + placement_calls(live0, w0, handle, rect));
        }
        return Ok(());
    }
    if let Err(m) = api.unmaximize(handle) {
        proof {
            assert(api.log() =~= log0 + placement_calls(live0, w0, handle, rect));
        }
        return Err(m);
    }
    let shadow = match api.shadow_inset(handle) {
        Ok(s) => s,
        Err(m) => {
            proof {
                assert(api.log() =~= log0 + placement_calls(live0, w0, handle, rect));
            }
            return Err(m);
        },
    };
    let corrected = adjust_rect(&rect, &shadow);
    let placed = api.set_position(handle, &corrected, placement_flags());
    proof {
        assert(api.log() =~= log0 + placement_calls(live0, w0, handle, rect));
    }
    match placed {
        Ok(()) => Ok(()),
        Err(m) => Err(m),
    }
}

/// The calls a focus request issues, oldest first. On a live target the
/// diagnostic queries and the force-foreground attempt are all issued,
/// whatever each of them returns; a dead target stops at the guard.
pub open spec fn focus_calls(live: bool, h: WindowHandle) -> Seq<OsCall> {
    if !live {
        seq![OsCall::CheckLive(h)]
    } else {
        seq![
            OsCall::CheckLive(h),
            OsCall::QueryTitle(h),
            OsCall::QueryExePath(h),
            OsCall::ForceForeground(h),
        ]
    }
}

/// The outcome of a focus request: `None` for success, otherwise the first
/// failure among the title query, the executable-path query and the
/// force-foreground primitive, with its description. A stale target is a
/// success, not a failure.
pub open spec fn focus_outcome(live: bool, w: WindowModel) -> Option<Seq<char>> {
    if !live {
        None
    } else if w.title_error is Some {
        w.title_error
    } else if w.exe_error is Some {
        w.exe_error
    } else {
        w.foreground_error
    }
}

/// Ask the window manager to hand the window behind `handle` foreground
/// keyboard focus, defeating the foreground lock if it must.
///
/// A handle that no longer identifies a live window resolves to a
/// successful no-op. Otherwise the diagnostic context for the attempt
/// (window title, owning executable path) is captured first, and the
/// force-foreground primitive is then attempted exactly once, whether or
/// not the diagnostic queries succeeded. No failure past the guard is
/// dropped: the first one propagates as the result, but never before the
/// focus attempt itself has been made.
pub fn request_focus<W: WindowSystem>(api: &mut W, handle: WindowHandle)
    -> (result: Result<(), String>)
    ensures
        final(api).log() == old(api).log() + focus_calls(old(api).live(handle), handle),
        (match result {
            Ok(()) => focus_outcome(old(api).live(handle), old(api).win(handle)) is None,
            Err(m) => focus_outcome(old(api).live(handle), old(api).win(handle)) == Some(m@),
        }),
        forall|g: WindowHandle| final(api).live(g) == old(api).live(g),
        forall|g: WindowHandle| final(api).win(g) == old(api).win(g),
{
    let ghost log0 = api.log();
    let ghost live0 = api.live(handle);

    if !api.is_window(handle) {
        proof {
            assert(api.log() =~= log0 + focus_calls(live0, handle));
        }
        return Ok(());
    }
    let title = api.window_title(handle);
    let exe = api.exe_path(handle);
    let forced = api.force_foreground(handle);
    proof {
        assert(api.log() =~= log0 + focus_calls(live0, handle));
    }
    if let Err(m) = title {
        return Err(m);
    }
    if let Err(m) = exe {
        return Err(m);
    }
    match forced {
        Ok(()) => Ok(()),
        Err(m) => Err(m),
    }
}

} // verus!
