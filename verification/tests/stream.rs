use wgc::{
    NativeSize, SessionPhase, StreamAction, StreamEvent, StreamState, WaitOutcome, WgcError,
};

fn size(width: i32, height: i32) -> NativeSize {
    NativeSize { width, height }
}

fn capturing(width: i32, height: i32) -> StreamState {
    StreamState { buffer_size: size(width, height), phase: SessionPhase::Capturing }
}

#[test]
fn new_stream_is_created_at_the_pool_size() {
    let state = StreamState::new(size(800, 600));
    assert_eq!(state.buffer_size, size(800, 600));
    assert_eq!(state.phase, SessionPhase::Created);
    assert!(!state.is_stopped());
}

#[test]
fn start_moves_created_to_capturing() {
    let (next, action) = StreamState::new(size(8, 6)).advance(StreamEvent::Started);
    assert_eq!(next, capturing(8, 6));
    assert_eq!(action, StreamAction::Dequeue);
}

#[test]
fn start_of_a_capturing_session_changes_nothing() {
    let (next, action) = capturing(8, 6).advance(StreamEvent::Started);
    assert_eq!(next, capturing(8, 6));
    assert_eq!(action, StreamAction::Dequeue);
}

#[test]
fn surface_of_pool_size_is_delivered() {
    let state = capturing(1920, 1080);
    let (next, action) = state.advance(StreamEvent::Surface(size(1920, 1080)));
    assert_eq!(action, StreamAction::Deliver);
    assert_eq!(next, state);
}

#[test]
fn surface_of_other_size_is_dropped_and_pool_recreated() {
    let state = capturing(1920, 1080);
    let (next, action) = state.advance(StreamEvent::Surface(size(1280, 720)));
    assert_eq!(action, StreamAction::Recreate(size(1280, 720)));
    assert_eq!(next, state);
}

#[test]
fn surface_differing_in_one_dimension_is_not_delivered() {
    let state = capturing(100, 50);
    assert_eq!(
        state.advance(StreamEvent::Surface(size(100, 51))).1,
        StreamAction::Recreate(size(100, 51))
    );
    assert_eq!(
        state.advance(StreamEvent::Surface(size(99, 50))).1,
        StreamAction::Recreate(size(99, 50))
    );
}

#[test]
fn recreated_pool_has_the_new_size() {
    let (next, action) = capturing(1920, 1080).advance(StreamEvent::Recreated(size(1280, 720)));
    assert_eq!(next, capturing(1280, 720));
    assert_eq!(action, StreamAction::Dequeue);
}

#[test]
fn resize_drops_one_surface_recreates_once_and_delivers_the_next() {
    let mut state = capturing(1920, 1080);
    let mut actions = Vec::new();
    for event in [
        StreamEvent::Surface(size(1920, 1080)),
        StreamEvent::Surface(size(1280, 720)),
        StreamEvent::Recreated(size(1280, 720)),
        StreamEvent::Surface(size(1280, 720)),
    ] {
        let (next, action) = state.advance(event);
        state = next;
        actions.push(action);
    }
    assert_eq!(
        actions,
        vec![
            StreamAction::Deliver,
            StreamAction::Recreate(size(1280, 720)),
            StreamAction::Dequeue,
            StreamAction::Deliver,
        ]
    );
    assert_eq!(state.buffer_size, size(1280, 720));
}

#[test]
fn failed_recreation_keeps_the_pool_size() {
    let state = capturing(1920, 1080);
    let (after_surface, _) = state.advance(StreamEvent::Surface(size(1, 1)));
    let (after_failure, action) = after_surface.advance(StreamEvent::Failed(-5));
    assert_eq!(action, StreamAction::Fail(WgcError::Platform(-5)));
    assert_eq!(after_failure, state);
    assert_eq!(
        after_failure.advance(StreamEvent::Surface(size(1, 1))).1,
        StreamAction::Recreate(size(1, 1))
    );
}

#[test]
fn no_surface_means_wait() {
    let state = capturing(4, 4);
    assert_eq!(state.advance(StreamEvent::NoSurface), (state, StreamAction::Wait));
}

#[test]
fn dispatched_message_means_try_again() {
    let state = capturing(4, 4);
    assert_eq!(state.advance(StreamEvent::Dispatched), (state, StreamAction::Dequeue));
}

#[test]
fn platform_failure_is_reported_and_the_stream_goes_on() {
    let state = capturing(4, 4);
    let (next, action) = state.advance(StreamEvent::Failed(-2005270523));
    assert_eq!(action, StreamAction::Fail(WgcError::Platform(-2005270523)));
    assert_eq!(next, state);
    assert_eq!(next.advance(StreamEvent::Surface(size(4, 4))).1, StreamAction::Deliver);
}

#[test]
fn failed_wait_is_reported_with_its_hresult() {
    let state = capturing(4, 4);
    let (next, action) = state.advance(StreamEvent::WaitFailed(1400));
    assert_eq!(action, StreamAction::Fail(WgcError::Platform(0x8007_0578u32 as i32)));
    assert_eq!(next, state);
}

#[test]
fn source_closed_while_waiting_ends_the_stream() {
    let state = capturing(640, 480);
    let (waiting, action) = state.advance(StreamEvent::NoSurface);
    assert_eq!(action, StreamAction::Wait);
    let (stopped, action) = waiting.advance(WaitOutcome::Quit.to_event());
    assert_eq!(action, StreamAction::End);
    assert_eq!(stopped.phase, SessionPhase::Stopped);
    assert!(stopped.is_stopped());
}

#[test]
fn end_is_final_for_every_event() {
    let (stopped, _) = capturing(640, 480).advance(StreamEvent::Quit);
    for event in [
        StreamEvent::Started,
        StreamEvent::NoSurface,
        StreamEvent::Surface(size(640, 480)),
        StreamEvent::Surface(size(1, 1)),
        StreamEvent::Recreated(size(1, 1)),
        StreamEvent::Failed(-1),
        StreamEvent::Dispatched,
        StreamEvent::WaitFailed(5),
        StreamEvent::Quit,
    ] {
        assert_eq!(stopped.advance(event), (stopped, StreamAction::End));
    }
}

#[test]
fn quit_before_start_stops_the_session() {
    let (stopped, action) = StreamState::new(size(2, 2)).advance(StreamEvent::Quit);
    assert_eq!(action, StreamAction::End);
    assert_eq!(stopped.phase, SessionPhase::Stopped);
    assert_eq!(stopped.advance(StreamEvent::Started), (stopped, StreamAction::End));
}

#[test]
fn dequeue_error_without_failure_code_is_no_surface() {
    assert_eq!(StreamEvent::from_dequeue_error(0), StreamEvent::NoSurface);
    assert_eq!(StreamEvent::from_dequeue_error(1), StreamEvent::NoSurface);
    let empty = windows::core::Error::empty().code().0;
    assert_eq!(StreamEvent::from_dequeue_error(empty), StreamEvent::NoSurface);
}

#[test]
fn dequeue_error_with_failure_code_is_a_failure() {
    assert_eq!(StreamEvent::from_dequeue_error(-1), StreamEvent::Failed(-1));
    assert_eq!(StreamEvent::from_dequeue_error(i32::MIN), StreamEvent::Failed(i32::MIN));
}

#[test]
fn wait_outcomes_map_to_events() {
    assert_eq!(WaitOutcome::Dispatched.to_event(), StreamEvent::Dispatched);
    assert_eq!(WaitOutcome::Quit.to_event(), StreamEvent::Quit);
    assert_eq!(WaitOutcome::Failed(6).to_event(), StreamEvent::WaitFailed(6));
}

#[test]
fn negative_reported_sizes_are_compared_as_reported() {
    let state = capturing(-1, 5);
    assert_eq!(state.advance(StreamEvent::Surface(size(-1, 5))).1, StreamAction::Deliver);
    assert_eq!(
        state.advance(StreamEvent::Surface(size(0, 5))).1,
        StreamAction::Recreate(size(0, 5))
    );
}
