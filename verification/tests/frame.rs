use escape_time::frame::{
    passes_over, plan_frame, react, Acquisition, FramePlan, Reaction, WindowSignal,
};
use escape_time::viewport::ScreenSize;

#[test]
fn close_request_leaves_the_loop() {
    assert_eq!(react(WindowSignal::CloseRequested), Reaction::Exit);
}

#[test]
fn redraw_request_draws() {
    assert_eq!(react(WindowSignal::RedrawRequested), Reaction::Redraw);
}

#[test]
fn resize_with_area_fits_the_surface() {
    let size = ScreenSize { width: 800, height: 600 };
    assert_eq!(react(WindowSignal::Resized(size)), Reaction::Resize(size));
    let sliver = ScreenSize { width: 1, height: 1 };
    assert_eq!(react(WindowSignal::Resized(sliver)), Reaction::Resize(sliver));
}

#[test]
fn resize_without_area_is_ignored() {
    for (width, height) in [(0, 0), (0, 600), (800, 0)] {
        let size = ScreenSize { width, height };
        assert_eq!(react(WindowSignal::Resized(size)), Reaction::Ignore);
    }
}

#[test]
fn pointer_movement_is_tracked() {
    assert_eq!(react(WindowSignal::CursorMoved), Reaction::TrackCursor);
}

#[test]
fn other_signals_are_ignored() {
    assert_eq!(react(WindowSignal::Other), Reaction::Ignore);
}

#[test]
fn only_a_minimised_window_is_passed_over() {
    assert!(passes_over(Some(true)));
    assert!(!passes_over(Some(false)));
    assert!(!passes_over(None));
}

#[test]
fn acquired_texture_is_drawn() {
    assert_eq!(plan_frame(Acquisition::Acquired), FramePlan::Draw);
}

#[test]
fn outdated_surface_costs_one_frame() {
    assert_eq!(plan_frame(Acquisition::Outdated), FramePlan::Skip);
}

#[test]
fn failed_acquisition_aborts() {
    assert_eq!(plan_frame(Acquisition::Failed), FramePlan::Abort);
}
