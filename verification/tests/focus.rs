use window_placement::fake::FakeWindow;
use window_placement::fake::FakeWindowSystem;
use window_placement::geometry::ShadowInset;
use window_placement::handler::request_focus;
use window_placement::os::OsCall;
use window_placement::os::WindowHandle;

fn named_window(raw: isize, title: &str, exe: &str) -> FakeWindow {
    FakeWindow {
        handle: WindowHandle::new(raw),
        iconic: false,
        maximized: false,
        inset: ShadowInset { top: 0, left: 0, right: 0, bottom: 0 },
        title: String::from(title),
        exe_path: String::from(exe),
        unmaximize_error: None,
        inset_error: None,
        place_error: None,
        title_error: None,
        exe_error: None,
        foreground_error: None,
    }
}

fn force_count(calls: &[OsCall], h: WindowHandle) -> usize {
    calls.iter().filter(|c| **c == OsCall::ForceForeground(h)).count()
}

#[test]
fn focus_on_valid_window_forces_foreground_once() {
    let h = WindowHandle::new(40);
    let mut api = FakeWindowSystem {
        windows: vec![named_window(40, "editor", "/bin/editor")],
        calls: Vec::new(),
    };

    let r = request_focus(&mut api, h);

    assert_eq!(r, Ok(()));
    assert_eq!(
        api.calls,
        vec![
            OsCall::CheckLive(h),
            OsCall::QueryTitle(h),
            OsCall::QueryExePath(h),
            OsCall::ForceForeground(h),
        ]
    );
    assert_eq!(force_count(&api.calls, h), 1);
}

#[test]
fn focus_on_dead_handle_is_silent_noop() {
    let h = WindowHandle::new(41);
    let mut api = FakeWindowSystem::new();

    let r = request_focus(&mut api, h);

    assert_eq!(r, Ok(()));
    assert_eq!(api.calls, vec![OsCall::CheckLive(h)]);
    assert_eq!(force_count(&api.calls, h), 0);
}

#[test]
fn focus_error_carries_foreground_denial() {
    let h = WindowHandle::new(42);
    let mut w = named_window(42, "console", "/bin/console");
    w.foreground_error = Some(String::from("permission denied"));
    let mut api = FakeWindowSystem { windows: vec![w], calls: Vec::new() };

    let r = request_focus(&mut api, h);

    assert_eq!(r, Err(String::from("permission denied")));
    assert_eq!(force_count(&api.calls, h), 1);
}

#[test]
fn focus_still_attempted_when_title_query_fails() {
    let h = WindowHandle::new(43);
    let mut w = named_window(43, "", "/bin/tool");
    w.title_error = Some(String::from("no title"));
    let mut api = FakeWindowSystem { windows: vec![w], calls: Vec::new() };

    let r = request_focus(&mut api, h);

    assert_eq!(r, Err(String::from("no title")));
    assert_eq!(force_count(&api.calls, h), 1, "the focus attempt must still be made");
}

#[test]
fn focus_still_attempted_when_exe_query_fails() {
    let h = WindowHandle::new(44);
    let mut w = named_window(44, "viewer", "");
    w.exe_error = Some(String::from("process gone"));
    let mut api = FakeWindowSystem { windows: vec![w], calls: Vec::new() };

    let r = request_focus(&mut api, h);

    assert_eq!(r, Err(String::from("process gone")));
    assert_eq!(force_count(&api.calls, h), 1);
}

#[test]
fn focus_unaffected_by_minimized_state() {
    let h = WindowHandle::new(45);
    let mut w = named_window(45, "tray", "/bin/tray");
    w.iconic = true;
    let mut api = FakeWindowSystem { windows: vec![w], calls: Vec::new() };

    let r = request_focus(&mut api, h);

    assert_eq!(r, Ok(()));
    assert_eq!(
        api.calls,
        vec![
            OsCall::CheckLive(h),
            OsCall::QueryTitle(h),
            OsCall::QueryExePath(h),
            OsCall::ForceForeground(h),
        ]
    );
}
