//! The device and queue model.
//!
//! A device hands out synchronization objects and command buffers; an
//! execution queue accepts one submission batch per call and either records
//! it or reports the fault the device is in. The queue keeps the ordered log
//! of the batches it accepted, which is the observable device state the
//! submission contracts speak of.

use crate::sync::{Fence, FenceState, Semaphore};
use vstd::prelude::*;

verus! {

/// Pre-recorded sequence of device operations, submitted as a unit.
#[derive(Clone, Copy, Debug, PartialEq, Eq, Structural)]
pub struct CommandBuffer {
    /// Non-null object handle.
    pub handle: u64,
    /// Identifier of the owning device.
    pub device_id: u64,
}

impl CommandBuffer {
    /// A live command buffer has a non-null handle.
    pub open spec fn wf(&self) -> bool {
        self.handle != 0
    }
}

/// Fault a device reports when a submission cannot be accepted.
#[derive(Clone, Copy, Debug, PartialEq, Eq, Structural)]
pub enum DeviceError {
    /// The host ran out of memory.
    OutOfHostMemory,
    /// The device ran out of memory.
    OutOfDeviceMemory,
    /// The connection to the device has been lost.
    DeviceLost,
}

/// One atomic batch as handed to a queue: the wait entries, the command
/// buffers in execution order, the semaphores to signal, and the fence to
/// signal on completion (`0` for none).
#[derive(Debug)]
pub struct SubmitBatch {
    /// Handles of the semaphores to wait on, in order.
    pub wait_semaphores: Vec<u64>,
    /// Stage mask of each wait entry, in the same order.
    pub destination_stages: Vec<u32>,
    /// Handles of the command buffers, in execution order.
    pub command_buffers: Vec<u64>,
    /// Handles of the semaphores to signal on completion, in order.
    pub signal_semaphores: Vec<u64>,
    /// Handle of the fence to signal on completion, or `0` for none.
    pub fence: u64,
}

impl SubmitBatch {
    /// Each wait entry carries exactly one stage mask.
    pub open spec fn wf(&self) -> bool {
        self.wait_semaphores@.len() == self.destination_stages@.len()
    }
}

/// A device, modeled as an identifier plus a cursor from which it hands out
/// fresh object handles.
#[derive(Clone, Copy, Debug, PartialEq, Eq, Structural)]
pub struct Device {
    /// Identifier of this device.
    pub id: u64,
    /// Next handle to hand out; always non-null.
    pub next_handle: u64,
}

impl Device {
    /// Handles are handed out starting from a non-null value.
    pub open spec fn wf(&self) -> bool {
        self.next_handle >= 1
    }

    /// A fresh device with the given identifier.
    pub fn new(id: u64) -> (d: Device)
        ensures
            d.wf(),
            d.id == id,
    {
        Device { id, next_handle: 1 }
    }

    /// Advances the handle cursor, saturating at its maximum.
    fn take_handle(&mut self) -> (h: u64)
        requires
            old(self).wf(),
        ensures
            final(self).wf(),
            final(self).id == old(self).id,
            h != 0,
    {
        let h = self.next_handle;
        if self.next_handle < u64::MAX {
            self.next_handle = self.next_handle + 1;
        }
        h
    }

    /// Creates an unsignaled fence owned by this device.
    pub fn create_fence(&mut self) -> (f: Fence)
        requires
            old(self).wf(),
        ensures
            final(self).wf(),
            final(self).id == old(self).id,
            f.wf(),
            f.device_id == old(self).id,
            f.state == FenceState::Unsignaled,
    {
        let handle = self.take_handle();
        Fence { handle, device_id: self.id, state: FenceState::Unsignaled }
    }

    /// Creates a semaphore owned by this device.
    pub fn create_semaphore(&mut self) -> (s: Semaphore)
        requires
            old(self).wf(),
        ensures
            final(self).wf(),
            final(self).id == old(self).id,
            s.wf(),
            s.device_id == old(self).id,
    {
        let handle = self.take_handle();
        Semaphore { handle, device_id: self.id }
    }

    /// Creates a command buffer owned by this device.
    pub fn create_command_buffer(&mut self) -> (c: CommandBuffer)
        requires
            old(self).wf(),
        ensures
            final(self).wf(),
            final(self).id == old(self).id,
            c.wf(),
            c.device_id == old(self).id,
    {
        let handle = self.take_handle();
        CommandBuffer { handle, device_id: self.id }
    }

    /// Creates an execution queue of this device, healthy and with nothing
    /// submitted yet.
    pub fn create_queue(&self) -> (q: Queue)
        ensures
            q.device_id == self.id,
            q.fault is None,
            q.submitted@.len() == 0,
    {
        Queue { device_id: self.id, fault: None, submitted: Vec::new() }
    }
}

/// Shared entry point through which all submissions to a device serialize.
///
/// `fault` is the condition the device is in: while it is `None` the queue
/// accepts every well-formed batch; otherwise every submission reports that
/// fault. `submitted` is the ordered log of accepted batches.
#[derive(Debug)]
pub struct Queue {
    /// Identifier of the device this queue executes on.
    pub device_id: u64,
    /// Fault the device reports on submission, or `None` while healthy.
    pub fault: Option<DeviceError>,
    /// Ordered log of the batches accepted so far.
    pub submitted: Vec<SubmitBatch>,
}

} // verus!
