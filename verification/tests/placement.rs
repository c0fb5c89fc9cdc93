use window_placement::fake::FakeWindow;
use window_placement::fake::FakeWindowSystem;
use window_placement::geometry::Rect;
use window_placement::geometry::ShadowInset;
use window_placement::geometry::adjust_rect;
use window_placement::handler::set_window_position;
use window_placement::os::OsCall;
use window_placement::os::PlacementFlags;
use window_placement::os::WindowHandle;

fn plain_window(raw: isize) -> FakeWindow {
    FakeWindow {
        handle: WindowHandle::new(raw),
        iconic: false,
        maximized: false,
        inset: ShadowInset { top: 0, left: 0, right: 0, bottom: 0 },
        title: String::new(),
        exe_path: String::new(),
        unmaximize_error: None,
        inset_error: None,
        place_error: None,
        title_error: None,
        exe_error: None,
        foreground_error: None,
    }
}

fn manager(windows: Vec<FakeWindow>) -> FakeWindowSystem {
    FakeWindowSystem { windows, calls: Vec::new() }
}

fn suppressive_flags() -> PlacementFlags {
    PlacementFlags {
        no_activate: true,
        no_copy_bits: true,
        async_window_pos: true,
        no_send_changing: true,
    }
}

#[test]
fn placement_submits_inset_corrected_rect() {
    let h = WindowHandle::new(100);
    let mut w = plain_window(100);
    w.inset = ShadowInset { top: -5, left: -7, right: 7, bottom: 7 };
    let mut api = manager(vec![w]);

    let r = set_window_position(&mut api, h, Rect { top: 100, left: 200, right: 800, bottom: 600 });

    assert_eq!(r, Ok(()));
    assert_eq!(
        api.calls,
        vec![
            OsCall::CheckLive(h),
            OsCall::CheckIconic(h),
            OsCall::Unmaximize(h),
            OsCall::QueryInset(h),
            OsCall::SetPosition(
                h,
                Rect { top: 95, left: 193, right: 807, bottom: 607 },
                suppressive_flags(),
            ),
        ]
    );
}

#[test]
fn placement_on_dead_handle_is_silent_noop() {
    let h = WindowHandle::new(2);
    let mut api = manager(vec![plain_window(1)]);

    let r = set_window_position(&mut api, h, Rect { top: 0, left: 0, right: 50, bottom: 50 });

    assert_eq!(r, Ok(()));
    assert_eq!(api.calls, vec![OsCall::CheckLive(h)]);
    assert!(!api.windows[0].iconic);
    assert!(!api.windows[0].maximized);
}

#[test]
fn placement_on_minimized_window_is_silent_noop() {
    let h = WindowHandle::new(3);
    let mut w = plain_window(3);
    w.iconic = true;
    w.maximized = true;
    let mut api = manager(vec![w]);

    let r = set_window_position(&mut api, h, Rect { top: 10, left: 10, right: 20, bottom: 20 });

    assert_eq!(r, Ok(()));
    assert_eq!(api.calls, vec![OsCall::CheckLive(h), OsCall::CheckIconic(h)]);
    assert!(api.windows[0].maximized, "a minimized target must not be touched");
}

#[test]
fn placement_unmaximizes_before_inset_query_and_submission() {
    let h = WindowHandle::new(4);
    let mut w = plain_window(4);
    w.maximized = true;
    let mut api = manager(vec![w]);

    let r = set_window_position(&mut api, h, Rect { top: 1, left: 2, right: 3, bottom: 4 });

    assert_eq!(r, Ok(()));
    assert!(!api.windows[0].maximized);
    assert_eq!(api.calls[2], OsCall::Unmaximize(h));
    assert_eq!(api.calls[3], OsCall::QueryInset(h));
    assert_eq!(
        api.calls[4],
        OsCall::SetPosition(h, Rect { top: 1, left: 2, right: 3, bottom: 4 }, suppressive_flags())
    );
}

#[test]
fn placement_propagates_unmaximize_failure() {
    let h = WindowHandle::new(5);
    let mut w = plain_window(5);
    w.unmaximize_error = Some(String::from("restore refused"));
    let mut api = manager(vec![w]);

    let r = set_window_position(&mut api, h, Rect { top: 0, left: 0, right: 1, bottom: 1 });

    assert_eq!(r, Err(String::from("restore refused")));
    assert_eq!(
        api.calls,
        vec![OsCall::CheckLive(h), OsCall::CheckIconic(h), OsCall::Unmaximize(h)]
    );
}

#[test]
fn placement_propagates_inset_query_failure() {
    let h = WindowHandle::new(6);
    let mut w = plain_window(6);
    w.inset_error = Some(String::from("no frame bounds"));
    let mut api = manager(vec![w]);

    let r = set_window_position(&mut api, h, Rect { top: 0, left: 0, right: 1, bottom: 1 });

    assert_eq!(r, Err(String::from("no frame bounds")));
    assert_eq!(
        api.calls,
        vec![
            OsCall::CheckLive(h),
            OsCall::CheckIconic(h),
            OsCall::Unmaximize(h),
            OsCall::QueryInset(h),
        ]
    );
}

#[test]
fn placement_propagates_submission_rejection() {
    let h = WindowHandle::new(7);
    let mut w = plain_window(7);
    w.place_error = Some(String::from("access denied"));
    let mut api = manager(vec![w]);

    let r = set_window_position(&mut api, h, Rect { top: 0, left: 0, right: 1, bottom: 1 });

    assert_eq!(r, Err(String::from("access denied")));
    assert_eq!(api.calls.len(), 5);
    assert_eq!(
        api.calls[4],
        OsCall::SetPosition(h, Rect { top: 0, left: 0, right: 1, bottom: 1 }, suppressive_flags())
    );
}

#[test]
fn placement_leaves_other_windows_alone() {
    let h2 = WindowHandle::new(22);
    let mut first = plain_window(21);
    first.maximized = true;
    let mut second = plain_window(22);
    second.maximized = true;
    let mut api = manager(vec![first, second]);

    let r = set_window_position(&mut api, h2, Rect { top: 5, left: 5, right: 9, bottom: 9 });

    assert_eq!(r, Ok(()));
    assert!(api.windows[0].maximized, "the untargeted window must keep its state");
    assert!(!api.windows[1].maximized);
    assert_eq!(api.calls[2], OsCall::Unmaximize(h2));
}

#[test]
fn placement_uses_the_target_windows_own_inset() {
    let h2 = WindowHandle::new(32);
    let mut first = plain_window(31);
    first.inset = ShadowInset { top: 9, left: 9, right: 9, bottom: 9 };
    let mut second = plain_window(32);
    second.inset = ShadowInset { top: 1, left: 1, right: -1, bottom: -1 };
    let mut api = manager(vec![first, second]);

    let r = set_window_position(&mut api, h2, Rect { top: 10, left: 10, right: 90, bottom: 90 });

    assert_eq!(r, Ok(()));
    assert_eq!(
        api.calls[4],
        OsCall::SetPosition(
            h2,
            Rect { top: 11, left: 11, right: 89, bottom: 89 },
            suppressive_flags(),
        )
    );
}

#[test]
fn handle_keeps_its_raw_identifier() {
    let h = WindowHandle::new(-7);
    assert_eq!(h.raw(), -7);
    assert_eq!(h, WindowHandle::new(-7));
    assert_ne!(h, WindowHandle::new(7));
}

#[test]
fn adjust_rect_adds_each_matching_edge() {
    let out = adjust_rect(
        &Rect { top: 10, left: 20, right: 30, bottom: 40 },
        &ShadowInset { top: -1, left: -2, right: 3, bottom: 4 },
    );
    assert_eq!(out, Rect { top: 9, left: 18, right: 33, bottom: 44 });
}
