//! Submission and synchronization engine for a queue-based command-processing
//! device.
//!
//! The crate has two layers. The submission layer assembles command buffers
//! together with wait/signal semaphores and an optional completion fence into
//! one atomic batch, merges independently built batches, and submits them to
//! an execution queue. The frame layer drives one iteration of a render loop:
//! it decides, from the loop state and the events the presentation layer
//! reports, whether to skip, recreate swapchain images, acquire an image,
//! drive the rendering pass state machine, and how to carry the dependency
//! future into the next iteration.

pub mod device;
pub mod frame;
pub mod submit;
pub mod svec;
pub mod sync;
