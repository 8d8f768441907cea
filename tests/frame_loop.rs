use overlay::frame_loop::{FrameClock, FrameLoop, LoopAction, LoopEvent, PaintStatus};

fn run_frame(l: &mut FrameLoop) {
    assert_eq!(l.step(LoopEvent::NewEvents), LoopAction::UpdateTiming);
    assert_eq!(l.step(LoopEvent::EventsCleared), LoopAction::PrepareFrame);
    assert_eq!(l.step(LoopEvent::FramePrepared { ok: true }), LoopAction::RunFrame);
    assert_eq!(l.step(LoopEvent::UpdateDone { keep_running: true }), LoopAction::RequestRedraw);
    assert_eq!(l.step(LoopEvent::RedrawRequested), LoopAction::Paint);
}

#[test]
fn render_stop_on_frame_ten_exits_after_that_paint() {
    let mut l = FrameLoop::new();
    for frame in 1..=10 {
        run_frame(&mut l);
        let keep = frame != 10;
        let a = l.step(LoopEvent::Painted { keep_running: keep, status: PaintStatus::Presented });
        if frame == 10 {
            assert_eq!(a, LoopAction::Exit { code: 0, show_window: false });
        } else {
            assert_eq!(a, LoopAction::Present { show_window: frame == 1 });
        }
    }
    assert!(!l.is_running());
    assert_eq!(l.step(LoopEvent::NewEvents), LoopAction::Ignore);
    assert_eq!(l.step(LoopEvent::RedrawRequested), LoopAction::Ignore);
}

#[test]
fn window_shown_once_on_first_good_paint() {
    let mut l = FrameLoop::new();
    run_frame(&mut l);
    // a broken first paint does not show the window and stops the loop
    let mut broken = l;
    assert_eq!(
        broken.step(LoopEvent::Painted { keep_running: true, status: PaintStatus::SwapFailed }),
        LoopAction::Exit { code: 0, show_window: false }
    );
    assert!(!broken.shown);
    let first = l.step(LoopEvent::Painted { keep_running: true, status: PaintStatus::Presented });
    assert_eq!(first, LoopAction::Present { show_window: true });
    assert!(l.shown);
    run_frame(&mut l);
    let second = l.step(LoopEvent::Painted { keep_running: true, status: PaintStatus::Presented });
    assert_eq!(second, LoopAction::Present { show_window: false });
}

#[test]
fn close_request_exits_immediately() {
    let mut l = FrameLoop::new();
    run_frame(&mut l);
    assert_eq!(l.step(LoopEvent::CloseRequested), LoopAction::Exit { code: 0, show_window: false });
    assert_eq!(
        l.step(LoopEvent::Painted { keep_running: true, status: PaintStatus::Presented }),
        LoopAction::Ignore
    );
    assert!(!l.shown);
    assert_eq!(l.exit_code, Some(0));
}

#[test]
fn update_stop_exits_before_redraw() {
    let mut l = FrameLoop::new();
    assert_eq!(l.step(LoopEvent::EventsCleared), LoopAction::PrepareFrame);
    assert_eq!(l.step(LoopEvent::FramePrepared { ok: true }), LoopAction::RunFrame);
    assert_eq!(
        l.step(LoopEvent::UpdateDone { keep_running: false }),
        LoopAction::Exit { code: 0, show_window: false }
    );
    assert_eq!(l.step(LoopEvent::RedrawRequested), LoopAction::Ignore);
}

#[test]
fn render_failure_overrides_render_hook() {
    let mut l = FrameLoop::new();
    run_frame(&mut l);
    assert_eq!(
        l.step(LoopEvent::Painted { keep_running: true, status: PaintStatus::RenderFailed }),
        LoopAction::Exit { code: 0, show_window: false }
    );
    assert!(!l.is_running());
}

#[test]
fn prepare_failure_exits_with_code_one() {
    let mut l = FrameLoop::new();
    assert_eq!(l.step(LoopEvent::EventsCleared), LoopAction::PrepareFrame);
    assert_eq!(
        l.step(LoopEvent::FramePrepared { ok: false }),
        LoopAction::Exit { code: 1, show_window: false }
    );
    assert_eq!(l.exit_code, Some(1));
}

#[test]
fn other_events_are_forwarded() {
    let mut l = FrameLoop::new();
    assert_eq!(l.step(LoopEvent::Other), LoopAction::Forward);
    assert!(l.is_running());
}

#[test]
fn render_stop_on_first_frame_still_shows() {
    let mut l = FrameLoop::new();
    run_frame(&mut l);
    assert_eq!(
        l.step(LoopEvent::Painted { keep_running: false, status: PaintStatus::Presented }),
        LoopAction::Exit { code: 0, show_window: true }
    );
}

#[test]
fn clock_measures_elapsed_time() {
    let mut c = FrameClock::new(1_000);
    assert_eq!(c.tick(17_667), 16_667);
    assert_eq!(c.last_frame, 17_667);
    assert_eq!(c.tick(17_000), 0);
    assert_eq!(c.last_frame, 17_000);
}
