use vk_submit::frame::{
    frame_iteration, apply_flush, AcquireResult, FlushResult, Frame, FrameEvents, FrameFuture,
    LoopState, Pass, RecreateResult, run_passes,
};

fn uneventful() -> FrameEvents {
    FrameEvents {
        recreate: RecreateResult::Recreated,
        acquire: AcquireResult::Acquired { image_index: 0, suboptimal: false },
        flush: FlushResult::Flushed(1),
    }
}

#[test]
fn pass_sequence_is_fixed() {
    let mut frame = Frame::new(FrameFuture::Noop, 0);
    assert_eq!(frame.next_pass(), Some(Pass::Deferred));
    assert_eq!(frame.next_pass(), Some(Pass::Lighting));
    assert_eq!(frame.next_pass(), Some(Pass::Finished(FrameFuture::Noop)));
    assert_eq!(frame.next_pass(), None);
    assert_eq!(frame.next_pass(), None);
}

#[test]
fn finished_pass_carries_dependency() {
    let mut frame = Frame::new(FrameFuture::Flushed(42), 3);
    let passes = run_passes(&mut frame);
    assert_eq!(
        passes,
        vec![Pass::Deferred, Pass::Lighting, Pass::Finished(FrameFuture::Flushed(42))]
    );
    assert_eq!(frame.next_pass(), None);
}

#[test]
fn minimized_window_skips_iteration() {
    let state = LoopState {
        recreate_swapchain: true,
        previous_future: FrameFuture::Flushed(7),
        swapchain_generation: 4,
    };
    let (outcome, passes) = frame_iteration(state, 0, 600, uneventful());
    assert_eq!(outcome.next, state);
    assert!(!outcome.recreated);
    assert!(!outcome.acquired);
    assert!(!outcome.submitted);
    assert!(!outcome.presented);
    assert!(!outcome.fatal);
    assert!(passes.is_empty());

    let (outcome, passes) = frame_iteration(state, 800, 0, uneventful());
    assert_eq!(outcome.next, state);
    assert!(!outcome.acquired && passes.is_empty());
}

#[test]
fn out_of_date_acquire_flags_recreation() {
    let state = LoopState::initial();
    let mut events = uneventful();
    events.acquire = AcquireResult::OutOfDate;

    let (outcome, passes) = frame_iteration(state, 800, 600, events);
    assert!(!outcome.submitted);
    assert!(!outcome.acquired);
    assert!(passes.is_empty());
    assert!(outcome.next.recreate_swapchain);
    assert_eq!(outcome.next.swapchain_generation, 0);

    let (second, _) = frame_iteration(outcome.next, 800, 600, uneventful());
    assert!(second.recreated);
    assert_eq!(second.next.swapchain_generation, 1);
    assert!(second.acquired);
    assert!(!second.next.recreate_swapchain);
}

#[test]
fn extent_unsupported_retries_next_iteration() {
    let state = LoopState {
        recreate_swapchain: true,
        previous_future: FrameFuture::Noop,
        swapchain_generation: 2,
    };
    let mut events = uneventful();
    events.recreate = RecreateResult::ExtentUnsupported;

    let (outcome, passes) = frame_iteration(state, 800, 600, events);
    assert_eq!(outcome.next, state);
    assert!(!outcome.recreated);
    assert!(!outcome.acquired);
    assert!(passes.is_empty());
    assert!(outcome.next.recreate_swapchain);
}

#[test]
fn suboptimal_acquire_still_renders() {
    let state = LoopState::initial();
    let mut events = uneventful();
    events.acquire = AcquireResult::Acquired { image_index: 1, suboptimal: true };
    events.flush = FlushResult::Flushed(5);

    let (outcome, passes) = frame_iteration(state, 800, 600, events);
    assert!(outcome.acquired);
    assert!(outcome.submitted);
    assert!(outcome.presented);
    assert!(outcome.next.recreate_swapchain);
    assert_eq!(outcome.next.previous_future, FrameFuture::Flushed(5));
    assert_eq!(passes.len(), 3);
}

#[test]
fn flush_failure_resets_dependency_future() {
    let state = LoopState {
        recreate_swapchain: false,
        previous_future: FrameFuture::Flushed(9),
        swapchain_generation: 1,
    };

    let next = apply_flush(state, FlushResult::Failed);
    assert_eq!(next.previous_future, FrameFuture::Noop);
    assert!(!next.recreate_swapchain);

    let next = apply_flush(state, FlushResult::OutOfDate);
    assert_eq!(next.previous_future, FrameFuture::Noop);
    assert!(next.recreate_swapchain);

    let next = apply_flush(state, FlushResult::Flushed(11));
    assert_eq!(next.previous_future, FrameFuture::Flushed(11));
}

#[test]
fn flush_error_continues_loop() {
    let state = LoopState::initial();
    let mut events = uneventful();
    events.flush = FlushResult::Failed;

    let (outcome, _) = frame_iteration(state, 800, 600, events);
    assert!(!outcome.fatal);
    assert!(outcome.presented);
    assert_eq!(outcome.next.previous_future, FrameFuture::Noop);
}

#[test]
fn recreate_failure_is_fatal() {
    let state = LoopState {
        recreate_swapchain: true,
        previous_future: FrameFuture::Noop,
        swapchain_generation: 0,
    };
    let mut events = uneventful();
    events.recreate = RecreateResult::Failed;
    let (outcome, _) = frame_iteration(state, 800, 600, events);
    assert!(outcome.fatal);

    let mut acquire_fail = uneventful();
    acquire_fail.acquire = AcquireResult::Failed;
    let (outcome, _) = frame_iteration(LoopState::initial(), 800, 600, acquire_fail);
    assert!(outcome.fatal);
}
