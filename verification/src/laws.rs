use vstd::prelude::*;
use crate::geometry::Rect;
use crate::geometry::ShadowInset;
use crate::geometry::adjusted_rect;
use crate::geometry::rect_fits;
use crate::handler::focus_calls;
use crate::handler::focus_outcome;
use crate::handler::placement_calls;
use crate::handler::placement_outcome;
use crate::os::OsCall;
use crate::os::WindowHandle;
use crate::os::WindowModel;
use crate::os::is_mutation;
use crate::os::tiling_flags;

verus! {

/// Stale-target policy: against a handle that is not live, both a placement
/// and a focus request succeed and issue no mutating call — only the
/// liveness check itself.
pub proof fn lemma_stale_target_is_noop(w: WindowModel, h: WindowHandle, rect: Rect)
    ensures
        placement_outcome(false, w) is None,
        focus_outcome(false, w) is None,
        forall|i: int| 0 <= i < placement_calls(false, w, h, rect).len()
            ==> !is_mutation(#[trigger] placement_calls(false, w, h, rect)[i]),
        forall|i: int| 0 <= i < focus_calls(false, h).len()
            ==> !is_mutation(#[trigger] focus_calls(false, h)[i]),
{
}

/// Minimized-target policy: a placement against a live but minimized window
/// succeeds and issues no mutating call; minimization plays no part in a
/// focus request, whose outcome depends only on liveness and on the
/// diagnostic and force-foreground outcomes.
pub proof fn lemma_minimized_placement_is_noop(w: WindowModel, h: WindowHandle, rect: Rect)
    requires
        w.iconic,
    ensures
        placement_outcome(true, w) is None,
        forall|i: int| 0 <= i < placement_calls(true, w, h, rect).len()
            ==> !is_mutation(#[trigger] placement_calls(true, w, h, rect)[i]),
{
}

/// Minimization cannot change what a focus request does: two window models
/// that differ at most in their minimized state give the same focus
/// outcome (and `focus_calls` takes no window model at all).
pub proof fn lemma_focus_ignores_minimized(live: bool, w1: WindowModel, w2: WindowModel)
    requires
        w1.title_error == w2.title_error,
        w1.exe_error == w2.exe_error,
        w1.foreground_error == w2.foreground_error,
    ensures
        focus_outcome(live, w1) == focus_outcome(live, w2),
{
}

/// Geometry correction: whenever a placement reaches the submission, the
/// submitted rectangle is exactly the requested one with the matching
/// shadow-inset edge added to each of the four edges.
pub proof fn lemma_placement_submits_adjusted_rect(w: WindowModel, h: WindowHandle, rect: Rect)
    requires
        !w.iconic,
        w.unmaximize_error is None,
        w.inset_error is None,
        rect_fits(rect, w.inset),
    ensures
        placement_calls(true, w, h, rect).last()
            == OsCall::SetPosition(h, adjusted_rect(rect, w.inset), tiling_flags()),
        adjusted_rect(rect, w.inset).top == rect.top + w.inset.top,
        adjusted_rect(rect, w.inset).left == rect.left + w.inset.left,
        adjusted_rect(rect, w.inset).right == rect.right + w.inset.right,
        adjusted_rect(rect, w.inset).bottom == rect.bottom + w.inset.bottom,
{
}

/// Call order: past the guard the protocol issues, in this order, the
/// liveness check, the iconic check, the un-maximize, the shadow-inset
/// query and (everything succeeding) the position submission — so the
/// un-maximize always stands strictly before the inset query and before
/// the submission.
pub proof fn lemma_placement_call_order(w: WindowModel, h: WindowHandle, rect: Rect)
    requires
        !w.iconic,
    ensures
        placement_calls(true, w, h, rect)[0] == OsCall::CheckLive(h),
        placement_calls(true, w, h, rect)[1] == OsCall::CheckIconic(h),
        placement_calls(true, w, h, rect)[2] == OsCall::Unmaximize(h),
        w.unmaximize_error is None
            ==> placement_calls(true, w, h, rect)[3] == OsCall::QueryInset(h),
        w.unmaximize_error is None && w.inset_error is None
            ==> placement_calls(true, w, h, rect)[4]
                == OsCall::SetPosition(h, adjusted_rect(rect, w.inset), tiling_flags())
                && placement_calls(true, w, h, rect).len() == 5,
{
}

/// Focus protocol: on a live target the force-foreground primitive is
/// attempted exactly once — at the last position, after both diagnostic
/// queries and regardless of what they returned — and on a dead target it
/// is never attempted.
pub proof fn lemma_focus_attempts_force_once(live: bool, h: WindowHandle)
    ensures
        live ==> focus_calls(live, h)[3] == OsCall::ForceForeground(h),
        live ==> forall|i: int| 0 <= i < focus_calls(live, h).len() && i != 3
            ==> !((#[trigger] focus_calls(live, h)[i]) is ForceForeground),
        !live ==> forall|i: int| 0 <= i < focus_calls(live, h).len()
            ==> !((#[trigger] focus_calls(live, h)[i]) is ForceForeground),
{
}

} // verus!
