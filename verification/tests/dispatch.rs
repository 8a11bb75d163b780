use pixelframe::dispatch::{dispatch, Action, LoopEvent, WindowMessage};

fn on_ours(message: WindowMessage) -> LoopEvent {
    LoopEvent::Window { ours: true, message }
}

#[test]
fn close_on_our_window_exits() {
    assert_eq!(dispatch(on_ours(WindowMessage::CloseRequested)), Action::Exit);
}

#[test]
fn redraw_request_renders_the_frame() {
    assert_eq!(dispatch(on_ours(WindowMessage::RedrawRequested)), Action::RenderFrame);
}

#[test]
fn loop_start_arms_the_timer() {
    assert_eq!(dispatch(LoopEvent::Init), Action::StartTimer);
}

#[test]
fn timer_fire_drives_one_tick() {
    assert_eq!(dispatch(LoopEvent::TimerFired), Action::Tick);
}

#[test]
fn cursor_motion_is_tracked() {
    assert_eq!(dispatch(on_ours(WindowMessage::CursorMoved)), Action::TrackCursor);
}

#[test]
fn left_press_reports_the_click() {
    assert_eq!(dispatch(on_ours(WindowMessage::LeftMousePressed)), Action::ReportClick);
}

#[test]
fn key_events_are_reported() {
    assert_eq!(dispatch(on_ours(WindowMessage::KeyboardInput)), Action::ReportKey);
}

#[test]
fn resize_rescales_the_surface() {
    assert_eq!(dispatch(on_ours(WindowMessage::Resized)), Action::ResizeSurface);
}

#[test]
fn other_window_events_do_nothing() {
    assert_eq!(dispatch(on_ours(WindowMessage::OtherWindow)), Action::Ignore);
    assert_eq!(dispatch(LoopEvent::Other), Action::Ignore);
}

#[test]
fn foreign_window_events_are_ignored() {
    let messages = [
        WindowMessage::CloseRequested,
        WindowMessage::RedrawRequested,
        WindowMessage::CursorMoved,
        WindowMessage::LeftMousePressed,
        WindowMessage::KeyboardInput,
        WindowMessage::Resized,
        WindowMessage::OtherWindow,
    ];
    for message in messages {
        assert_eq!(dispatch(LoopEvent::Window { ours: false, message }), Action::Ignore);
    }
}
