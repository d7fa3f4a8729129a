use vk_submit::device::{Device, DeviceError};
use vk_submit::submit::{OomError, SubmitCommandBufferBuilder, SubmitCommandBufferError};
use vk_submit::sync::PipelineStages;

#[test]
fn empty_submit() {
    let device = Device::new(1);
    let mut queue = device.create_queue();
    let builder = SubmitCommandBufferBuilder::new();
    builder.submit(&mut queue).unwrap();
}

#[test]
fn signal_fence() {
    let mut device = Device::new(1);
    let mut queue = device.create_queue();

    let mut fence = device.create_fence();
    assert!(!fence.ready());

    let mut builder = SubmitCommandBufferBuilder::new();
    builder.set_fence_signal(&mut fence);

    builder.submit(&mut queue).unwrap();
    fence.wait(Some(5000));
    assert!(fence.ready());
}

#[test]
fn has_fence() {
    let mut device = Device::new(1);

    let mut fence = device.create_fence();

    let mut builder = SubmitCommandBufferBuilder::new();
    assert!(!builder.has_fence());
    builder.set_fence_signal(&mut fence);
    assert!(builder.has_fence());
}

#[test]
fn merge_one_fence_carries_it() {
    let mut device = Device::new(1);
    let mut fence = device.create_fence();

    let mut fenced = SubmitCommandBufferBuilder::new();
    fenced.set_fence_signal(&mut fence);
    let plain = SubmitCommandBufferBuilder::new();

    let merged = fenced.merge(plain);
    assert!(merged.has_fence());
    let batch = merged.into_batch();
    assert_eq!(batch.fence, fence.handle);

    let mut fence2 = device.create_fence();
    let plain2 = SubmitCommandBufferBuilder::new();
    let mut fenced2 = SubmitCommandBufferBuilder::new();
    fenced2.set_fence_signal(&mut fence2);

    let merged2 = plain2.merge(fenced2);
    assert!(merged2.has_fence());
    assert_eq!(merged2.into_batch().fence, fence2.handle);
}

#[test]
fn merge_concatenates_in_argument_order() {
    let mut device = Device::new(1);
    let buf_a = device.create_command_buffer();
    let buf_b = device.create_command_buffer();
    let buf_c = device.create_command_buffer();
    let sem_a = device.create_semaphore();
    let sem_b = device.create_semaphore();

    let mut first = SubmitCommandBufferBuilder::new();
    first.add_command_buffer(&buf_a);
    first.add_command_buffer(&buf_b);
    first.add_wait_semaphore(&sem_a, PipelineStages { mask: 0x1 });

    let mut second = SubmitCommandBufferBuilder::new();
    second.add_command_buffer(&buf_c);
    second.add_wait_semaphore(&sem_b, PipelineStages { mask: 0x400 });

    let batch = first.merge(second).into_batch();
    assert_eq!(batch.command_buffers, vec![buf_a.handle, buf_b.handle, buf_c.handle]);
    assert_eq!(batch.wait_semaphores, vec![sem_a.handle, sem_b.handle]);
    assert_eq!(batch.destination_stages, vec![0x1, 0x400]);
}

#[test]
fn wait_list_matches_stage_masks() {
    let mut device = Device::new(1);
    let mut builder = SubmitCommandBufferBuilder::new();
    for mask in [0x1u32, 0x2, 0x80, 0x400] {
        let sem = device.create_semaphore();
        builder.add_wait_semaphore(&sem, PipelineStages { mask });
    }
    let batch = builder.into_batch();
    assert_eq!(batch.wait_semaphores.len(), batch.destination_stages.len());
    assert_eq!(batch.destination_stages, vec![0x1, 0x2, 0x80, 0x400]);
}

#[test]
fn num_signal_semaphores_counts_additions() {
    let mut device = Device::new(1);
    let sem_a = device.create_semaphore();
    let sem_b = device.create_semaphore();

    let mut builder = SubmitCommandBufferBuilder::new();
    assert_eq!(builder.num_signal_semaphores(), 0);
    builder.add_signal_semaphore(&sem_a);
    builder.add_signal_semaphore(&sem_b);
    assert_eq!(builder.num_signal_semaphores(), 2);

    let batch = builder.into_batch();
    assert_eq!(batch.signal_semaphores, vec![sem_a.handle, sem_b.handle]);
}

#[test]
fn empty_submit_is_noop_on_device_state() {
    let device = Device::new(1);
    let mut queue = device.create_queue();
    let builder = SubmitCommandBufferBuilder::new();
    assert!(builder.submit(&mut queue).is_ok());
    assert!(queue.fault.is_none());
    assert_eq!(queue.submitted.len(), 1);
    let batch = &queue.submitted[0];
    assert!(batch.wait_semaphores.is_empty());
    assert!(batch.destination_stages.is_empty());
    assert!(batch.command_buffers.is_empty());
    assert!(batch.signal_semaphores.is_empty());
    assert_eq!(batch.fence, 0);
}

#[test]
fn submit_surfaces_out_of_host_memory() {
    let device = Device::new(1);
    let mut queue = device.create_queue();
    queue.fault = Some(DeviceError::OutOfHostMemory);
    let r = SubmitCommandBufferBuilder::new().submit(&mut queue);
    assert_eq!(r, Err(SubmitCommandBufferError::OomError(OomError::OutOfHostMemory)));
    assert_eq!(queue.submitted.len(), 0);
}

#[test]
fn submit_surfaces_out_of_device_memory() {
    let device = Device::new(1);
    let mut queue = device.create_queue();
    queue.fault = Some(DeviceError::OutOfDeviceMemory);
    let r = SubmitCommandBufferBuilder::new().submit(&mut queue);
    assert_eq!(r, Err(SubmitCommandBufferError::OomError(OomError::OutOfDeviceMemory)));
    let err = r.unwrap_err();
    assert_eq!(err.message(), "not enough memory");
}

#[test]
fn submit_surfaces_device_lost() {
    let device = Device::new(1);
    let mut queue = device.create_queue();
    queue.fault = Some(DeviceError::DeviceLost);
    let r = SubmitCommandBufferBuilder::new().submit(&mut queue);
    assert_eq!(r, Err(SubmitCommandBufferError::DeviceLost));
    assert_eq!(r.unwrap_err().message(), "the connection to the device has been lost");
}

#[test]
fn fence_reset_after_wait() {
    let mut device = Device::new(1);
    let mut queue = device.create_queue();
    let mut fence = device.create_fence();

    let mut builder = SubmitCommandBufferBuilder::new();
    builder.set_fence_signal(&mut fence);
    builder.submit(&mut queue).unwrap();

    fence.wait(None);
    assert!(fence.ready());
    fence.reset();
    assert!(!fence.ready());
}
