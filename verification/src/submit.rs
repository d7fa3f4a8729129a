//! The submission builder: accumulates wait semaphores with their stage
//! masks, command buffers, signal semaphores and an optional completion
//! fence into one atomic batch, merges independently built batches, and
//! submits the batch to an execution queue.
//!
//! The builder is consumed by value on `submit` and `merge`, so a batch can
//! be neither submitted twice nor extended after submission. All objects a
//! batch refers to must belong to the same device; the builder tracks that
//! device and each operation demands it of the object added.

use crate::device::{CommandBuffer, DeviceError, Queue, SubmitBatch};
use crate::svec::{
    buf_extend, buf_into_vec, buf_list, buf_new, buf_push, sem_extend, sem_into_vec, sem_len,
    sem_list, sem_new, sem_push, stage_extend, stage_into_vec, stage_list, stage_new, stage_push,
    BufList, SemList, StageList,
};
use crate::sync::{Fence, FenceState, PipelineStages, Semaphore};
use vstd::prelude::*;

verus! {

/// True iff an object owned by device `obj_dev` may enter a batch whose
/// objects so far belong to `builder_dev` (`0` while the batch refers to no
/// object).
pub open spec fn compatible_device(builder_dev: u64, obj_dev: u64) -> bool {
    builder_dev == 0 || builder_dev == obj_dev
}

/// The device a batch belongs to after an object owned by `obj_dev` enters
/// a batch that so far belongs to `builder_dev`.
pub open spec fn joined_device(builder_dev: u64, obj_dev: u64) -> u64 {
    if builder_dev == 0 {
        obj_dev
    } else {
        builder_dev
    }
}

/// Not enough memory to accept a submission.
#[derive(Copy, Clone, Debug, PartialEq, Eq, Structural)]
pub enum OomError {
    /// The host ran out of memory.
    OutOfHostMemory,
    /// The device ran out of memory.
    OutOfDeviceMemory,
}

/// Error that can happen when submitting a batch.
#[derive(Copy, Clone, Debug, PartialEq, Eq, Structural)]
pub enum SubmitCommandBufferError {
    /// Not enough memory.
    OomError(OomError),
    /// The connection to the device has been lost.
    DeviceLost,
}

/// The submission error a given device fault surfaces as.
pub open spec fn spec_submit_error(e: DeviceError) -> SubmitCommandBufferError {
    match e {
        DeviceError::OutOfHostMemory => SubmitCommandBufferError::OomError(
            OomError::OutOfHostMemory,
        ),
        DeviceError::OutOfDeviceMemory => SubmitCommandBufferError::OomError(
            OomError::OutOfDeviceMemory,
        ),
        DeviceError::DeviceLost => SubmitCommandBufferError::DeviceLost,
    }
}

impl From<DeviceError> for SubmitCommandBufferError {
    /// Out-of-memory faults surface as `OomError`, a lost device as
    /// `DeviceLost`.
    fn from(err: DeviceError) -> (r: SubmitCommandBufferError) {
        match err {
            DeviceError::OutOfHostMemory => SubmitCommandBufferError::OomError(
                OomError::OutOfHostMemory,
            ),
            DeviceError::OutOfDeviceMemory => SubmitCommandBufferError::OomError(
                OomError::OutOfDeviceMemory,
            ),
            DeviceError::DeviceLost => SubmitCommandBufferError::DeviceLost,
        }
    }
}

impl vstd::std_specs::convert::FromSpecImpl<DeviceError> for SubmitCommandBufferError {
    open spec fn obeys_from_spec() -> bool {
        true
    }

    open spec fn from_spec(e: DeviceError) -> Self {
        spec_submit_error(e)
    }
}

impl SubmitCommandBufferError {
    /// Short description of the error.
    pub fn message(&self) -> (r: &'static str)
        ensures
            (self matches SubmitCommandBufferError::OomError(_)) ==> r@ == "not enough memory"@,
            self is DeviceLost ==> r@ == "the connection to the device has been lost"@,
    {
        match self {
            SubmitCommandBufferError::OomError(_) => "not enough memory",
            SubmitCommandBufferError::DeviceLost => "the connection to the device has been lost",
        }
    }
}

/// Prototype for a submission that executes command buffers.
pub struct SubmitCommandBufferBuilder {
    wait_semaphores: SemList,
    destination_stages: StageList,
    signal_semaphores: SemList,
    command_buffers: BufList,
    fence: u64,
    device: Ghost<u64>,
}

impl SubmitCommandBufferBuilder {
    /// Handles of the semaphores waited on, in the order they were added.
    pub closed spec fn wait_list(&self) -> Seq<u64> {
        sem_list(self.wait_semaphores)
    }

    /// Stage mask of each wait entry, in the same order as `wait_list`.
    pub closed spec fn stage_masks(&self) -> Seq<u32> {
        stage_list(self.destination_stages)
    }

    /// Handles of the semaphores signaled on completion, in the order they
    /// were added.
    pub closed spec fn signal_list(&self) -> Seq<u64> {
        sem_list(self.signal_semaphores)
    }

    /// Handles of the command buffers, in execution order.
    pub closed spec fn buffer_list(&self) -> Seq<u64> {
        buf_list(self.command_buffers)
    }

    /// Handle of the attached fence, or `0` while none is attached.
    pub closed spec fn fence_handle(&self) -> u64 {
        self.fence
    }

    /// The device the batch's objects belong to, or `0` while the batch
    /// refers to no object.
    pub closed spec fn device_id(&self) -> u64 {
        self.device@
    }

    /// The wait-semaphore list and the stage-mask list always have the same
    /// length: each wait entry carries exactly one stage mask.
    pub open spec fn wf(&self) -> bool {
        self.wait_list().len() == self.stage_masks().len()
    }

    /// Builds a new empty `SubmitCommandBufferBuilder`.
    pub fn new() -> (b: SubmitCommandBufferBuilder)
        ensures
            b.wf(),
            b.wait_list() == Seq::<u64>::empty(),
            b.stage_masks() == Seq::<u32>::empty(),
            b.signal_list() == Seq::<u64>::empty(),
            b.buffer_list() == Seq::<u64>::empty(),
            b.fence_handle() == 0,
            b.device_id() == 0,
    {
        SubmitCommandBufferBuilder {
            wait_semaphores: sem_new(),
            destination_stages: stage_new(),
            signal_semaphores: sem_new(),
            command_buffers: buf_new(),
            fence: 0,
            device: Ghost(0),
        }
    }

    /// Returns true if this builder will signal a fence when submitted.
    pub fn has_fence(&self) -> (r: bool)
        ensures
            r == (self.fence_handle() != 0),
    {
        self.fence != 0
    }

    /// Attaches a fence to be signaled when this submission ends.
    ///
    /// The fence must be unsignaled and not already pending, must belong to
    /// the same device as the other objects of the batch, and is marked
    /// pending: the caller must keep it alive until the device signals it.
    pub fn set_fence_signal(&mut self, fence: &mut Fence)
        requires
            old(fence).wf(),
            old(fence).state == FenceState::Unsignaled,
            compatible_device(old(self).device_id(), old(fence).device_id),
        ensures
            final(self).wf() == old(self).wf(),
            final(self).fence_handle() == old(fence).handle,
            final(self).fence_handle() != 0,
            final(self).wait_list() == old(self).wait_list(),
            final(self).stage_masks() == old(self).stage_masks(),
            final(self).signal_list() == old(self).signal_list(),
            final(self).buffer_list() == old(self).buffer_list(),
            final(self).device_id() == joined_device(
                old(self).device_id(),
                old(fence).device_id,
            ),
            final(fence).handle == old(fence).handle,
            final(fence).device_id == old(fence).device_id,
            final(fence).state == FenceState::Pending,
    {
        self.fence = fence.handle;
        fence.state = FenceState::Pending;
        let ghost joined = joined_device(self.device@, fence.device_id);
        self.device = Ghost(joined);
    }

    /// Adds a semaphore to be waited upon before the command buffers are
    /// executed. Only the given `stages` of the command buffers added
    /// afterwards wait upon the semaphore; other stages may execute before
    /// waiting, so an empty mask is rejected.
    ///
    /// The semaphore must belong to the same device as the other objects of
    /// the batch; the caller must keep it alive until the device has at
    /// least begun executing the batch, and no other wait may consume its
    /// signal.
    pub fn add_wait_semaphore(&mut self, semaphore: &Semaphore, stages: PipelineStages)
        requires
            old(self).wf(),
            semaphore.wf(),
            stages.mask != 0,
            compatible_device(old(self).device_id(), semaphore.device_id),
        ensures
            final(self).wf(),
            final(self).wait_list() == old(self).wait_list().push(semaphore.handle),
            final(self).stage_masks() == old(self).stage_masks().push(stages.mask),
            final(self).signal_list() == old(self).signal_list(),
            final(self).buffer_list() == old(self).buffer_list(),
            final(self).fence_handle() == old(self).fence_handle(),
            final(self).device_id() == joined_device(
                old(self).device_id(),
                semaphore.device_id,
            ),
    {
        sem_push(&mut self.wait_semaphores, semaphore.handle);
        stage_push(&mut self.destination_stages, stages.mask);
        let ghost joined = joined_device(self.device@, semaphore.device_id);
        self.device = Ghost(joined);
    }

    /// Adds a command buffer that is executed as part of this submission.
    /// Command buffers execute in the order in which they are added.
    ///
    /// The buffer must belong to the same device as the other objects of
    /// the batch; the caller must keep it alive until the device has
    /// finished executing it.
    pub fn add_command_buffer(&mut self, command_buffer: &CommandBuffer)
        requires
            command_buffer.wf(),
            compatible_device(old(self).device_id(), command_buffer.device_id),
        ensures
            final(self).wf() == old(self).wf(),
            final(self).buffer_list() == old(self).buffer_list().push(command_buffer.handle),
            final(self).wait_list() == old(self).wait_list(),
            final(self).stage_masks() == old(self).stage_masks(),
            final(self).signal_list() == old(self).signal_list(),
            final(self).fence_handle() == old(self).fence_handle(),
            final(self).device_id() == joined_device(
                old(self).device_id(),
                command_buffer.device_id,
            ),
    {
        buf_push(&mut self.command_buffers, command_buffer.handle);
        let ghost joined = joined_device(self.device@, command_buffer.device_id);
        self.device = Ghost(joined);
    }

    /// Returns the number of semaphores to signal: the number of times
    /// `add_signal_semaphore` has been called.
    pub fn num_signal_semaphores(&self) -> (n: usize)
        ensures
            n == self.signal_list().len(),
    {
        sem_len(&self.signal_semaphores)
    }

    /// Adds a semaphore to be signaled at the end of the submission.
    ///
    /// The semaphore must belong to the same device as the other objects of
    /// the batch, must be unsignaled when queue execution reaches this
    /// submission, and must be kept alive until the device has finished
    /// executing it.
    pub fn add_signal_semaphore(&mut self, semaphore: &Semaphore)
        requires
            semaphore.wf(),
            compatible_device(old(self).device_id(), semaphore.device_id),
        ensures
            final(self).wf() == old(self).wf(),
            final(self).signal_list() == old(self).signal_list().push(semaphore.handle),
            final(self).wait_list() == old(self).wait_list(),
            final(self).stage_masks() == old(self).stage_masks(),
            final(self).buffer_list() == old(self).buffer_list(),
            final(self).fence_handle() == old(self).fence_handle(),
            final(self).device_id() == joined_device(
                old(self).device_id(),
                semaphore.device_id,
            ),
    {
        sem_push(&mut self.signal_semaphores, semaphore.handle);
        let ghost joined = joined_device(self.device@, semaphore.device_id);
        self.device = Ghost(joined);
    }

    /// Consumes the builder into the plain batch descriptor a queue (or the
    /// device layer around it) accepts.
    pub fn into_batch(self) -> (b: SubmitBatch)
        requires
            self.wf(),
        ensures
            b.wf(),
            b.wait_semaphores@ == self.wait_list(),
            b.destination_stages@ == self.stage_masks(),
            b.command_buffers@ == self.buffer_list(),
            b.signal_semaphores@ == self.signal_list(),
            b.fence == self.fence_handle(),
    {
        let SubmitCommandBufferBuilder {
            wait_semaphores,
            destination_stages,
            signal_semaphores,
            command_buffers,
            fence,
            device,
        } = self;
        SubmitBatch {
            wait_semaphores: sem_into_vec(wait_semaphores),
            destination_stages: stage_into_vec(destination_stages),
            command_buffers: buf_into_vec(command_buffers),
            signal_semaphores: sem_into_vec(signal_semaphores),
            fence,
        }
    }

    /// Submits the batch to the given queue.
    ///
    /// While the device is healthy the queue accepts the batch and appends
    /// it to its log; otherwise the device's fault is surfaced, out of
    /// memory as `OomError` and a lost device as `DeviceLost`, and the log
    /// is unchanged. Submission is an expensive operation: callers are
    /// expected to merge builders rather than submit one per command
    /// buffer.
    pub fn submit(self, queue: &mut Queue) -> (r: Result<(), SubmitCommandBufferError>)
        requires
            self.wf(),
            compatible_device(self.device_id(), old(queue).device_id),
        ensures
            final(queue).device_id == old(queue).device_id,
            final(queue).fault == old(queue).fault,
            r is Ok <==> old(queue).fault is None,
            old(queue).fault matches Some(d) ==> r == Err::<(), SubmitCommandBufferError>(
                spec_submit_error(d),
            ) && final(queue).submitted@ == old(queue).submitted@,
            old(queue).fault is None ==> {
                &&& final(queue).submitted@.len() == old(queue).submitted@.len() + 1
                &&& final(queue).submitted@.subrange(0, old(queue).submitted@.len() as int) == old(
                    queue,
                ).submitted@
                &&& final(queue).submitted@.last().wait_semaphores@ == self.wait_list()
                &&& final(queue).submitted@.last().destination_stages@ == self.stage_masks()
                &&& final(queue).submitted@.last().command_buffers@ == self.buffer_list()
                &&& final(queue).submitted@.last().signal_semaphores@ == self.signal_list()
                &&& final(queue).submitted@.last().fence == self.fence_handle()
            },
    {
        match queue.fault {
            Some(err) => Err(SubmitCommandBufferError::from(err)),
            None => {
                let batch = self.into_batch();
                queue.submitted.push(batch);
                proof {
                    assert(queue.submitted@.subrange(
                        0,
                        old(queue).submitted@.len() as int,
                    ) =~= old(queue).submitted@);
                }
                Ok(())
            },
        }
    }

    /// Merges this builder with another builder.
    ///
    /// The merged batch waits on this builder's semaphores followed by the
    /// other's, executes this builder's command buffers followed by the
    /// other's, and signals this builder's semaphores followed by the
    /// other's. A submission may carry at most one fence, so at most one of
    /// the two builders may have one attached; the merged batch carries it.
    /// Both builders are consumed.
    pub fn merge(self, other: Self) -> (r: Self)
        requires
            self.wf(),
            other.wf(),
            self.fence_handle() == 0 || other.fence_handle() == 0,
            self.device_id() == 0 || other.device_id() == 0 || self.device_id()
                == other.device_id(),
        ensures
            r.wf(),
            r.wait_list() == self.wait_list() + other.wait_list(),
            r.stage_masks() == self.stage_masks() + other.stage_masks(),
            r.buffer_list() == self.buffer_list() + other.buffer_list(),
            r.signal_list() == self.signal_list() + other.signal_list(),
            r.fence_handle() == (if self.fence_handle() != 0 {
                self.fence_handle()
            } else {
                other.fence_handle()
            }),
            r.device_id() == joined_device(self.device_id(), other.device_id()),
    {
        let SubmitCommandBufferBuilder {
            wait_semaphores: mut waits,
            destination_stages: mut stages,
            signal_semaphores: mut signals,
            command_buffers: mut buffers,
            fence,
            device,
        } = self;
        let SubmitCommandBufferBuilder {
            wait_semaphores: other_waits,
            destination_stages: other_stages,
            signal_semaphores: other_signals,
            command_buffers: other_buffers,
            fence: other_fence,
            device: other_device,
        } = other;
        sem_extend(&mut waits, other_waits);
        stage_extend(&mut stages, other_stages);
        sem_extend(&mut signals, other_signals);
        buf_extend(&mut buffers, other_buffers);
        let merged_fence = if fence == 0 {
            other_fence
        } else {
            fence
        };
        let ghost joined = joined_device(device@, other_device@);
        SubmitCommandBufferBuilder {
            wait_semaphores: waits,
            destination_stages: stages,
            signal_semaphores: signals,
            command_buffers: buffers,
            fence: merged_fence,
            device: Ghost(joined),
        }
    }
}

} // verus!
