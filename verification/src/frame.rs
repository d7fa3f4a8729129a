//! The frame driver: one iteration of the render loop.
//!
//! The loop state carried from frame to frame is explicit: whether the
//! swapchain must be recreated before the next acquisition, the dependency
//! future inherited from the previous frame, and the generation of the
//! swapchain images. The presentation layer is an external collaborator;
//! what it reports (recreation outcome, acquisition outcome, flush outcome)
//! enters the driver as an event, and the driver's decisions are functions
//! from state and event to next state and action. The surrounding layer
//! performs the device work each decision calls for and hands back the next
//! event.
//!
//! Within a frame, rendering advances through a fixed sequence of passes:
//! `Deferred` (geometry into intermediate attachments), then `Lighting`
//! (light contributions composited onto the final image), then `Finished`,
//! which carries the future representing this frame's submitted work.

use vstd::prelude::*;

verus! {

/// Completion handle carried from one frame to the next: either the
/// already-signaled no-op future, or the future a successful flush returned.
#[derive(Clone, Copy, Debug, PartialEq, Eq, Structural)]
pub enum FrameFuture {
    /// Already signaled; depending on it imposes no wait.
    Noop,
    /// In-flight device work, identified by the flush that produced it.
    Flushed(u64),
}

/// One stage of the per-frame rendering sequence.
#[derive(Clone, Copy, Debug, PartialEq, Eq, Structural)]
pub enum Pass {
    /// Accepts the frame's geometry draws into intermediate attachments.
    Deferred,
    /// Accepts light contributions composited onto the final image.
    Lighting,
    /// All work for the frame has been recorded and submitted; carries the
    /// frame's dependency future.
    Finished(FrameFuture),
}

/// One iteration of the render loop: a cursor over the fixed pass sequence,
/// the dependency future the frame inherited, and the acquired image index.
#[derive(Clone, Copy, Debug, PartialEq, Eq, Structural)]
pub struct Frame {
    /// Future this frame's work must wait on.
    pub dependency: FrameFuture,
    /// Index of the acquired presentable image.
    pub image_index: u32,
    /// Number of passes already produced, at most 3.
    pub num_pass: u8,
}

impl Frame {
    /// The exact sequence of passes a frame produces: `Deferred`, then
    /// `Lighting`, then `Finished` carrying the frame's dependency future.
    pub open spec fn pass_sequence(dependency: FrameFuture) -> Seq<Pass> {
        seq![Pass::Deferred, Pass::Lighting, Pass::Finished(dependency)]
    }

    /// A fresh frame over the given dependency future and acquired image.
    pub fn new(dependency: FrameFuture, image_index: u32) -> (f: Frame)
        ensures
            f.dependency == dependency,
            f.image_index == image_index,
            f.num_pass == 0,
    {
        Frame { dependency, image_index, num_pass: 0 }
    }

    /// Advances the pass state machine by exactly one stage. Each of the
    /// first three calls produces the next element of `pass_sequence`; once
    /// `Finished` has been produced, every further call produces nothing.
    pub fn next_pass(&mut self) -> (p: Option<Pass>)
        ensures
            final(self).dependency == old(self).dependency,
            final(self).image_index == old(self).image_index,
            old(self).num_pass < 3 ==> {
                &&& p == Some(Self::pass_sequence(old(self).dependency)[old(self).num_pass as int])
                &&& final(self).num_pass == old(self).num_pass + 1
            },
            old(self).num_pass >= 3 ==> p is None && final(self).num_pass == old(self).num_pass,
    {
        match self.num_pass {
            0 => {
                self.num_pass = 1;
                Some(Pass::Deferred)
            },
            1 => {
                self.num_pass = 2;
                Some(Pass::Lighting)
            },
            2 => {
                self.num_pass = 3;
                Some(Pass::Finished(self.dependency))
            },
            _ => None,
        }
    }
}

/// Drives a fresh frame's pass state machine to exhaustion and returns the
/// passes produced: exactly `Deferred`, `Lighting`, `Finished`.
pub fn run_passes(frame: &mut Frame) -> (passes: Vec<Pass>)
    requires
        old(frame).num_pass == 0,
    ensures
        passes@ == Frame::pass_sequence(old(frame).dependency),
        final(frame).num_pass == 3,
        final(frame).dependency == old(frame).dependency,
        final(frame).image_index == old(frame).image_index,
{
    let mut passes: Vec<Pass> = Vec::new();
    while frame.num_pass < 3
        invariant
            frame.num_pass <= 3,
            frame.dependency == old(frame).dependency,
            frame.image_index == old(frame).image_index,
            passes@ == Frame::pass_sequence(old(frame).dependency).subrange(
                0,
                frame.num_pass as int,
            ),
        decreases 3 - frame.num_pass,
    {
        match frame.next_pass() {
            Some(p) => {
                passes.push(p);
                proof {
                    assert(passes@ =~= Frame::pass_sequence(old(frame).dependency).subrange(
                        0,
                        frame.num_pass as int,
                    ));
                }
            },
            None => {},
        }
    }
    proof {
        assert(passes@ =~= Frame::pass_sequence(old(frame).dependency));
    }
    passes
}

/// State the render loop carries from one iteration to the next.
#[derive(Clone, Copy, Debug, PartialEq, Eq, Structural)]
pub struct LoopState {
    /// The swapchain images no longer match the surface and must be
    /// recreated before the next acquisition.
    pub recreate_swapchain: bool,
    /// Completion future of the previous frame's work.
    pub previous_future: FrameFuture,
    /// Generation of the swapchain images; bumped on each recreation.
    pub swapchain_generation: u64,
}

impl LoopState {
    /// The state the loop starts in: images current, nothing in flight.
    pub fn initial() -> (s: LoopState)
        ensures
            !s.recreate_swapchain,
            s.previous_future == FrameFuture::Noop,
            s.swapchain_generation == 0,
    {
        LoopState {
            recreate_swapchain: false,
            previous_future: FrameFuture::Noop,
            swapchain_generation: 0,
        }
    }
}

/// What the presentation layer reports when asked to recreate the
/// swapchain images.
#[derive(Clone, Copy, Debug, PartialEq, Eq, Structural)]
pub enum RecreateResult {
    /// New images exist for the current surface extent.
    Recreated,
    /// The current extent is unsupported; try again next iteration.
    ExtentUnsupported,
    /// Any other recreation failure; fatal to the driver.
    Failed,
}

/// What the presentation layer reports when asked to acquire the next
/// presentable image.
#[derive(Clone, Copy, Debug, PartialEq, Eq, Structural)]
pub enum AcquireResult {
    /// An image is available.
    Acquired {
        /// Index of the acquired image.
        image_index: u32,
        /// The surface no longer matches the images exactly; the image is
        /// still usable this frame, but recreation is due.
        suboptimal: bool,
    },
    /// The surface is out of date; no image was acquired.
    OutOfDate,
    /// Any other acquisition failure; fatal to the driver.
    Failed,
}

/// What the device reports when the frame's work is flushed after the
/// present operation was chained.
#[derive(Clone, Copy, Debug, PartialEq, Eq, Structural)]
pub enum FlushResult {
    /// The work was flushed; carries the future of the in-flight chain.
    Flushed(u64),
    /// The surface went out of date; the frame was not presented.
    OutOfDate,
    /// Any other flush failure; reported, and the loop continues.
    Failed,
}

/// The events one loop iteration can consume, in the order the driver asks
/// for them. Branches that end the iteration early consume no later event.
#[derive(Clone, Copy, Debug, PartialEq, Eq, Structural)]
pub struct FrameEvents {
    /// Reported if recreation was flagged.
    pub recreate: RecreateResult,
    /// Reported if an acquisition was performed.
    pub acquire: AcquireResult,
    /// Reported if the frame's work was submitted and flushed.
    pub flush: FlushResult,
}

/// What one loop iteration did, and the state the next iteration starts
/// from.
#[derive(Clone, Copy, Debug, PartialEq, Eq, Structural)]
pub struct FrameOutcome {
    /// State carried into the next iteration.
    pub next: LoopState,
    /// The swapchain images were recreated.
    pub recreated: bool,
    /// An image acquisition succeeded.
    pub acquired: bool,
    /// The frame's work was submitted.
    pub submitted: bool,
    /// A present operation was chained for the acquired image.
    pub presented: bool,
    /// The iteration hit an unrecoverable failure; the driver terminates.
    pub fatal: bool,
}

/// The outcome of an iteration that touched nothing: the state is carried
/// over unchanged.
pub open spec fn spec_skip_outcome(s: LoopState) -> FrameOutcome {
    FrameOutcome {
        next: s,
        recreated: false,
        acquired: false,
        submitted: false,
        presented: false,
        fatal: false,
    }
}

/// The state after the recreation step: images of the next generation,
/// recreation no longer due.
pub open spec fn spec_after_recreate(s: LoopState) -> LoopState {
    LoopState {
        recreate_swapchain: false,
        swapchain_generation: if s.swapchain_generation == u64::MAX {
            0
        } else {
            (s.swapchain_generation + 1) as u64
        },
        ..s
    }
}

/// The state after the acquisition step of a frame that acquired an image:
/// a suboptimal surface flags recreation for the next iteration while this
/// frame still uses the acquired image.
pub open spec fn spec_after_acquire(s: LoopState, suboptimal: bool) -> LoopState {
    LoopState { recreate_swapchain: s.recreate_swapchain || suboptimal, ..s }
}

/// The state after the flush step. On success the flush's future is the
/// next iteration's dependency; an out-of-date surface flags recreation;
/// on any failure the dependency is reset to the fresh no-op future so the
/// loop never stalls on a broken chain.
pub open spec fn spec_after_flush(s: LoopState, r: FlushResult) -> LoopState {
    match r {
        FlushResult::Flushed(id) => LoopState { previous_future: FrameFuture::Flushed(id), ..s },
        FlushResult::OutOfDate => LoopState {
            recreate_swapchain: true,
            previous_future: FrameFuture::Noop,
            ..s
        },
        FlushResult::Failed => LoopState { previous_future: FrameFuture::Noop, ..s },
    }
}

/// The acquisition phase and everything after it, entered with `recreated`
/// saying whether this iteration recreated the images first.
pub open spec fn spec_acquire_phase(s: LoopState, ev: FrameEvents, recreated: bool) -> FrameOutcome {
    match ev.acquire {
        AcquireResult::OutOfDate => FrameOutcome {
            next: LoopState { recreate_swapchain: true, ..s },
            recreated,
            acquired: false,
            submitted: false,
            presented: false,
            fatal: false,
        },
        AcquireResult::Failed => FrameOutcome {
            next: s,
            recreated,
            acquired: false,
            submitted: false,
            presented: false,
            fatal: true,
        },
        AcquireResult::Acquired { image_index, suboptimal } => FrameOutcome {
            next: spec_after_flush(spec_after_acquire(s, suboptimal), ev.flush),
            recreated,
            acquired: true,
            submitted: true,
            presented: true,
            fatal: false,
        },
    }
}

/// One whole loop iteration as a function of the carried state, the surface
/// extent, and the events the collaborators report.
pub open spec fn spec_iteration(
    s: LoopState,
    width: u32,
    height: u32,
    ev: FrameEvents,
) -> FrameOutcome {
    if width == 0 || height == 0 {
        spec_skip_outcome(s)
    } else if s.recreate_swapchain {
        match ev.recreate {
            RecreateResult::ExtentUnsupported => spec_skip_outcome(s),
            RecreateResult::Failed => FrameOutcome {
                next: s,
                recreated: false,
                acquired: false,
                submitted: false,
                presented: false,
                fatal: true,
            },
            RecreateResult::Recreated => spec_acquire_phase(spec_after_recreate(s), ev, true),
        }
    } else {
        spec_acquire_phase(s, ev, false)
    }
}

/// True iff the iteration must be skipped entirely: a minimized window has
/// a surface of zero width or height, and no resource is touched for it.
pub fn frame_skipped(width: u32, height: u32) -> (r: bool)
    ensures
        r == (width == 0 || height == 0),
{
    width == 0 || height == 0
}

/// What the driver does next after the recreation step.
#[derive(Clone, Copy, Debug, PartialEq, Eq, Structural)]
pub enum RecreateAction {
    /// Abort this iteration without modifying state; retry next iteration.
    Retry,
    /// Terminate the driver.
    Fatal,
    /// Go on to acquire an image.
    Proceed,
}

/// Decides from the recreation report: an unsupported extent aborts the
/// iteration with the state unchanged (recreation stays due), any other
/// failure is fatal, and success clears the flag and bumps the image
/// generation.
pub fn apply_recreate(s: LoopState, r: RecreateResult) -> (out: (LoopState, RecreateAction))
    ensures
        r == RecreateResult::ExtentUnsupported ==> out == (s, RecreateAction::Retry),
        r == RecreateResult::Failed ==> out == (s, RecreateAction::Fatal),
        r == RecreateResult::Recreated ==> out == (spec_after_recreate(s), RecreateAction::Proceed),
{
    match r {
        RecreateResult::ExtentUnsupported => (s, RecreateAction::Retry),
        RecreateResult::Failed => (s, RecreateAction::Fatal),
        RecreateResult::Recreated => {
            let generation = if s.swapchain_generation == u64::MAX {
                0
            } else {
                s.swapchain_generation + 1
            };
            (
                LoopState {
                    recreate_swapchain: false,
                    previous_future: s.previous_future,
                    swapchain_generation: generation,
                },
                RecreateAction::Proceed,
            )
        },
    }
}

/// What the driver does next after the acquisition step.
#[derive(Clone, Copy, Debug, PartialEq, Eq, Structural)]
pub enum AcquireAction {
    /// Abort this iteration; recreation has been flagged.
    Abort,
    /// Terminate the driver.
    Fatal,
    /// Render to the acquired image.
    Render {
        /// Index of the acquired image.
        image_index: u32,
    },
}

/// Decides from the acquisition report: an out-of-date surface flags
/// recreation and aborts the iteration with no work submitted, any other
/// failure is fatal, and an acquired image is rendered to this frame even
/// if the surface was suboptimal, which only flags recreation for the next
/// iteration.
pub fn apply_acquire(s: LoopState, r: AcquireResult) -> (out: (LoopState, AcquireAction))
    ensures
        r == AcquireResult::OutOfDate ==> out == (
            (LoopState { recreate_swapchain: true, ..s }),
            AcquireAction::Abort,
        ),
        r == AcquireResult::Failed ==> out == (s, AcquireAction::Fatal),
        r matches AcquireResult::Acquired { image_index, suboptimal } ==> out == (
            spec_after_acquire(s, suboptimal),
            (AcquireAction::Render { image_index }),
        ),
{
    match r {
        AcquireResult::OutOfDate => (
            LoopState {
                recreate_swapchain: true,
                previous_future: s.previous_future,
                swapchain_generation: s.swapchain_generation,
            },
            AcquireAction::Abort,
        ),
        AcquireResult::Failed => (s, AcquireAction::Fatal),
        AcquireResult::Acquired { image_index, suboptimal } => (
            LoopState {
                recreate_swapchain: s.recreate_swapchain || suboptimal,
                previous_future: s.previous_future,
                swapchain_generation: s.swapchain_generation,
            },
            AcquireAction::Render { image_index },
        ),
    }
}

/// Decides from the flush report what dependency future the next iteration
/// starts from; see `spec_after_flush`.
pub fn apply_flush(s: LoopState, r: FlushResult) -> (next: LoopState)
    ensures
        next == spec_after_flush(s, r),
{
    match r {
        FlushResult::Flushed(id) => LoopState {
            recreate_swapchain: s.recreate_swapchain,
            previous_future: FrameFuture::Flushed(id),
            swapchain_generation: s.swapchain_generation,
        },
        FlushResult::OutOfDate => LoopState {
            recreate_swapchain: true,
            previous_future: FrameFuture::Noop,
            swapchain_generation: s.swapchain_generation,
        },
        FlushResult::Failed => LoopState {
            recreate_swapchain: s.recreate_swapchain,
            previous_future: FrameFuture::Noop,
            swapchain_generation: s.swapchain_generation,
        },
    }
}

/// One whole loop iteration over pre-reported events: decides each step,
/// drives a fresh frame's pass state machine to completion when an image
/// was acquired, and returns the outcome together with the passes that
/// were produced (empty when no image was rendered to).
pub fn frame_iteration(s: LoopState, width: u32, height: u32, ev: FrameEvents) -> (out: (
    FrameOutcome,
    Vec<Pass>,
))
    ensures
        out.0 == spec_iteration(s, width, height, ev),
        out.0.acquired ==> out.1@ == Frame::pass_sequence(s.previous_future),
        !out.0.acquired ==> out.1@ == Seq::<Pass>::empty(),
{
    if frame_skipped(width, height) {
        return (
            FrameOutcome {
                next: s,
                recreated: false,
                acquired: false,
                submitted: false,
                presented: false,
                fatal: false,
            },
            Vec::new(),
        );
    }
    let mut state = s;
    let mut recreated = false;
    if state.recreate_swapchain {
        let (recreate_state, action) = apply_recreate(state, ev.recreate);
        match action {
            RecreateAction::Retry => {
                return (
                    FrameOutcome {
                        next: recreate_state,
                        recreated: false,
                        acquired: false,
                        submitted: false,
                        presented: false,
                        fatal: false,
                    },
                    Vec::new(),
                );
            },
            RecreateAction::Fatal => {
                return (
                    FrameOutcome {
                        next: recreate_state,
                        recreated: false,
                        acquired: false,
                        submitted: false,
                        presented: false,
                        fatal: true,
                    },
                    Vec::new(),
                );
            },
            RecreateAction::Proceed => {
                state = recreate_state;
                recreated = true;
            },
        }
    }
    let (acquire_state, action) = apply_acquire(state, ev.acquire);
    match action {
        AcquireAction::Abort => (
            FrameOutcome {
                next: acquire_state,
                recreated,
                acquired: false,
                submitted: false,
                presented: false,
                fatal: false,
            },
            Vec::new(),
        ),
        AcquireAction::Fatal => (
            FrameOutcome {
                next: acquire_state,
                recreated,
                acquired: false,
                submitted: false,
                presented: false,
                fatal: true,
            },
            Vec::new(),
        ),
        AcquireAction::Render { image_index } => {
            let mut frame = Frame::new(acquire_state.previous_future, image_index);
            let passes = run_passes(&mut frame);
            let next = apply_flush(acquire_state, ev.flush);
            (
                FrameOutcome {
                    next,
                    recreated,
                    acquired: true,
                    submitted: true,
                    presented: true,
                    fatal: false,
                },
                passes,
            )
        },
    }
}

/// Law: a minimized window (zero width or height) skips the iteration
/// entirely: nothing is recreated, acquired, submitted or presented, and
/// the loop state, the swapchain generation included, is carried over
/// unchanged.
pub proof fn lemma_minimized_frame_skips(s: LoopState, width: u32, height: u32, ev: FrameEvents)
    requires
        width == 0 || height == 0,
    ensures
        spec_iteration(s, width, height, ev) == spec_skip_outcome(s),
        spec_iteration(s, width, height, ev).next == s,
        !spec_iteration(s, width, height, ev).acquired,
        !spec_iteration(s, width, height, ev).submitted,
{
}

/// Law: when acquisition reports the surface out of date, the iteration
/// submits nothing and flags recreation, such that the next iteration over
/// a nonminimized surface recreates the images before it acquires again.
pub proof fn lemma_out_of_date_acquire_recovers(
    s: LoopState,
    width: u32,
    height: u32,
    ev: FrameEvents,
    width2: u32,
    height2: u32,
    ev2: FrameEvents,
)
    requires
        width != 0,
        height != 0,
        s.recreate_swapchain ==> ev.recreate == RecreateResult::Recreated,
        ev.acquire == AcquireResult::OutOfDate,
        width2 != 0,
        height2 != 0,
    ensures
        !spec_iteration(s, width, height, ev).submitted,
        !spec_iteration(s, width, height, ev).acquired,
        spec_iteration(s, width, height, ev).next.recreate_swapchain,
        ({
            let out2 = spec_iteration(
                spec_iteration(s, width, height, ev).next,
                width2,
                height2,
                ev2,
            );
            &&& out2.recreated == (ev2.recreate == RecreateResult::Recreated)
            &&& (out2.acquired ==> out2.recreated)
        }),
{
}

/// Law: after any flush failure, out of date or otherwise, the dependency
/// future handed to the next iteration is the fresh no-op future, never
/// the failed chain; only a successful flush hands over its future.
pub proof fn lemma_flush_failure_resets_future(s: LoopState, r: FlushResult)
    ensures
        !(r matches FlushResult::Flushed(_)) ==> spec_after_flush(s, r).previous_future
            == FrameFuture::Noop,
        r matches FlushResult::Flushed(id) ==> spec_after_flush(s, r).previous_future
            == FrameFuture::Flushed(id),
{
}

} // verus!
