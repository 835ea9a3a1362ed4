use webgl_vs_webgpu::event::{
    handle_event, AppAction, AppEvent, EventResponse, Platform, SurfaceSize,
    CANVAS_SIZE_NEED_CHANGE,
};

fn action(platform: Platform, event: AppEvent) -> AppAction {
    handle_event(platform, &event, 7).action
}

#[test]
fn close_and_escape_exit_on_both_platforms() {
    for p in [Platform::Native, Platform::Web] {
        assert_eq!(action(p, AppEvent::CloseRequested), AppAction::Exit);
        assert_eq!(
            action(p, AppEvent::KeyboardInput { pressed: true, escape: true }),
            AppAction::Exit
        );
        assert_eq!(
            action(p, AppEvent::KeyboardInput { pressed: false, escape: true }),
            AppAction::Nothing
        );
        assert_eq!(
            action(p, AppEvent::KeyboardInput { pressed: true, escape: false }),
            AppAction::Nothing
        );
    }
}

#[test]
fn minimized_window_is_not_resized() {
    for p in [Platform::Native, Platform::Web] {
        assert_eq!(action(p, AppEvent::Resized { width: 0, height: 600 }), AppAction::Nothing);
        assert_eq!(action(p, AppEvent::Resized { width: 800, height: 0 }), AppAction::Nothing);
    }
}

#[test]
fn resize_tells_the_page_only_on_the_web() {
    assert_eq!(
        action(Platform::Native, AppEvent::Resized { width: 800, height: 600 }),
        AppAction::Resize { width: 800, height: 600, notify_page: false }
    );
    assert_eq!(
        action(Platform::Web, AppEvent::Resized { width: 800, height: 600 }),
        AppAction::Resize { width: 800, height: 600, notify_page: true }
    );
}

#[test]
fn scale_factor_change_resizes_even_to_zero() {
    assert_eq!(
        action(Platform::Native, AppEvent::ScaleFactorChanged { width: 0, height: 0 }),
        AppAction::Resize { width: 0, height: 0, notify_page: false }
    );
    assert_eq!(
        action(Platform::Web, AppEvent::ScaleFactorChanged { width: 1024, height: 768 }),
        AppAction::Resize { width: 1024, height: 768, notify_page: true }
    );
}

#[test]
fn only_the_current_window_is_rendered() {
    assert_eq!(
        handle_event(Platform::Native, &AppEvent::RedrawRequested { window_id: 7 }, 7),
        EventResponse { forward_to_ui: false, action: AppAction::Render { record_frame_stats: false } }
    );
    assert_eq!(
        handle_event(Platform::Web, &AppEvent::RedrawRequested { window_id: 7 }, 7).action,
        AppAction::Render { record_frame_stats: true }
    );
    assert_eq!(
        handle_event(Platform::Web, &AppEvent::RedrawRequested { window_id: 8 }, 7).action,
        AppAction::Nothing
    );
}

#[test]
fn redraw_is_requested_after_every_loop_iteration() {
    for p in [Platform::Native, Platform::Web] {
        assert_eq!(
            handle_event(p, &AppEvent::RedrawEventsCleared, 1),
            EventResponse { forward_to_ui: false, action: AppAction::RequestRedraw }
        );
    }
}

#[test]
fn page_event_fits_the_canvas_on_the_web_only() {
    let ev = || AppEvent::PageEvent { ty: CANVAS_SIZE_NEED_CHANGE.to_string() };
    assert_eq!(action(Platform::Web, ev()), AppAction::FitCanvasToContainer);
    assert_eq!(action(Platform::Native, ev()), AppAction::Nothing);
    assert_eq!(
        action(Platform::Web, AppEvent::PageEvent { ty: "click".to_string() }),
        AppAction::Nothing
    );
    assert_eq!(CANVAS_SIZE_NEED_CHANGE, "canvas_size_need_change");
}

#[test]
fn window_events_reach_the_ui() {
    for ev in [
        AppEvent::CloseRequested,
        AppEvent::KeyboardInput { pressed: true, escape: false },
        AppEvent::Resized { width: 1, height: 1 },
        AppEvent::ScaleFactorChanged { width: 1, height: 1 },
        AppEvent::OtherWindowEvent,
    ] {
        assert!(handle_event(Platform::Native, &ev, 0).forward_to_ui);
    }
    for ev in [
        AppEvent::PageEvent { ty: String::new() },
        AppEvent::RedrawRequested { window_id: 0 },
        AppEvent::RedrawEventsCleared,
        AppEvent::Other,
    ] {
        assert!(!handle_event(Platform::Web, &ev, 0).forward_to_ui);
    }
    assert_eq!(action(Platform::Native, AppEvent::OtherWindowEvent), AppAction::Nothing);
    assert_eq!(action(Platform::Native, AppEvent::Other), AppAction::Nothing);
}

#[test]
fn surface_resize_rebuilds_only_on_change() {
    let mut s = SurfaceSize::new(800, 600);
    assert!(!s.resize(800, 600));
    assert!(s.resize(1024, 768));
    assert_eq!(s, SurfaceSize { width: 1024, height: 768 });
    assert!(!s.resize(1024, 768));
    assert!(s.resize(1024, 600));
    assert_eq!(s.height, 600);
}
