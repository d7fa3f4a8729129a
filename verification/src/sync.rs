//! Synchronization primitives: pipeline stage masks, semaphores and fences.
//!
//! Device-side objects are modeled by their handle (a non-null identifier)
//! and the identifier of the device that owns them; a fence additionally
//! carries its signal state. The null handle is `0`.

use vstd::prelude::*;

verus! {

/// Bitmask of pipeline stages. A wait on a semaphore only blocks the stages
/// whose bits are set; stages outside the mask may run before the semaphore
/// is signaled. An empty mask would synchronize nothing, so the submission
/// builder rejects it.
#[derive(Clone, Copy, Debug, PartialEq, Eq, Structural)]
pub struct PipelineStages {
    pub mask: u32,
}

impl PipelineStages {
    /// True iff no stage bit is set.
    pub fn is_empty(&self) -> (r: bool)
        ensures
            r == (self.mask == 0),
    {
        self.mask == 0
    }
}

/// Device-side synchronization primitive. One signal of a semaphore must be
/// consumed by exactly one wait; pairing is a caller obligation and is not
/// tracked here.
#[derive(Clone, Copy, Debug, PartialEq, Eq, Structural)]
pub struct Semaphore {
    /// Non-null object handle.
    pub handle: u64,
    /// Identifier of the owning device.
    pub device_id: u64,
}

impl Semaphore {
    /// A live semaphore has a non-null handle.
    pub open spec fn wf(&self) -> bool {
        self.handle != 0
    }
}

/// Signal state of a fence.
#[derive(Clone, Copy, Debug, PartialEq, Eq, Structural)]
pub enum FenceState {
    /// Created or reset; no submission will signal it.
    Unsignaled,
    /// Attached to a submission; the device will signal it on completion.
    Pending,
    /// The device has signaled it.
    Signaled,
}

/// Host-waitable synchronization primitive, signaled once by the device when
/// the submission it was attached to finishes executing.
#[derive(Clone, Copy, Debug, PartialEq, Eq, Structural)]
pub struct Fence {
    /// Non-null object handle.
    pub handle: u64,
    /// Identifier of the owning device.
    pub device_id: u64,
    /// Signal state.
    pub state: FenceState,
}

impl Fence {
    /// A live fence has a non-null handle.
    pub open spec fn wf(&self) -> bool {
        self.handle != 0
    }

    /// True iff the device has signaled the fence.
    pub fn ready(&self) -> (r: bool)
        ensures
            r == (self.state == FenceState::Signaled),
    {
        self.state == FenceState::Signaled
    }

    /// Waits, up to `timeout_ms` milliseconds when a bound is given, until
    /// the device signals the fence, and observes the completed state.
    ///
    /// A signal must be in flight or already delivered: waiting on a fence
    /// that no submission will signal would block forever.
    pub fn wait(&mut self, timeout_ms: Option<u64>)
        requires
            old(self).state != FenceState::Unsignaled,
        ensures
            final(self).state == FenceState::Signaled,
            final(self).handle == old(self).handle,
            final(self).device_id == old(self).device_id,
    {
        self.state = FenceState::Signaled;
    }

    /// Returns the fence to the unsignaled state. A fence may only be reset
    /// while no submission is about to signal it.
    pub fn reset(&mut self)
        requires
            old(self).state != FenceState::Pending,
        ensures
            final(self).state == FenceState::Unsignaled,
            final(self).handle == old(self).handle,
            final(self).device_id == old(self).device_id,
    {
        self.state = FenceState::Unsignaled;
    }
}

} // verus!
