use transfer_core::buffer::Buffer;
use transfer_core::buffer::BufferType;
use transfer_core::command_buffer::Command;
use transfer_core::device::Device;
use transfer_core::device::QueueType;
use transfer_core::error::TransferError;
use transfer_core::image::Image;
use transfer_core::image::ImageAspect;
use transfer_core::image::ImageCreateInfo;
use transfer_core::image::ImageLayout;
use transfer_core::image::ImageType;
use transfer_core::resource_manager::ResourceManager;
use transfer_core::resource_manager::TARGET_PROCESS_COUNT;
use transfer_core::resource_queue::ResourceQueue;

fn split_device() -> Device {
    Device::new(0, Some(1))
}

fn staged_buffer(device: &mut Device, payload: &[u8]) -> Buffer {
    Buffer::new(device, true, false, BufferType::Vertex, payload)
}

fn staged_image(device: &mut Device, payload: &[u8]) -> Image {
    let info = ImageCreateInfo {
        width: 2,
        height: 2,
        image_type: ImageType::SAMPLED,
        image_layout: ImageLayout::COLOR,
        format: 50,
        aspect: ImageAspect::COLOR,
    };
    Image::new(device, payload, &info, false, true)
}

fn observed_values(manager: &ResourceManager, completed: bool) -> Vec<u64> {
    let mut observed = Vec::new();
    for i in 0..manager.process_count() {
        let expected = manager.process_expected_value(i);
        observed.push(if completed { expected } else { expected - 1 });
    }
    observed
}

#[test]
fn manager_starts_with_standby_pool() {
    let mut device = split_device();
    let manager = ResourceManager::new(&mut device);
    assert_eq!(manager.process_count(), 3);
    for i in 0..3 {
        assert!(!manager.is_process_busy(i));
        assert_eq!(manager.process_expected_value(i), 1);
    }
}

#[test]
fn submitting_an_empty_queue_fails_and_changes_nothing() {
    let mut device = split_device();
    let mut manager = ResourceManager::with_standby_count(&mut device, 2);
    let mut queue = ResourceQueue::new();
    let result = manager.submit_queue(&mut device, &mut queue);
    assert_eq!(result.unwrap_err(), TransferError::EmptyQueue);
    assert_eq!(manager.process_count(), 2);
    assert!(!manager.is_process_busy(0));
    assert!(!manager.is_process_busy(1));
}

#[test]
fn batched_barrier_submission() {
    let mut device = split_device();
    let mut manager = ResourceManager::with_standby_count(&mut device, 1);
    let mut queue = ResourceQueue::new();
    let payload = [0u8; 16];
    let images = [
        staged_image(&mut device, &payload),
        staged_image(&mut device, &payload),
        staged_image(&mut device, &payload),
    ];
    let buffers = [
        staged_buffer(&mut device, &payload),
        staged_buffer(&mut device, &payload),
    ];
    queue.add_copy_ops(vec![
        images[0].get_copy_op().unwrap(),
        buffers[0].get_copy_op().unwrap(),
        images[1].get_copy_op().unwrap(),
        images[2].get_copy_op().unwrap(),
        buffers[1].get_copy_op().unwrap(),
    ]);
    let (index, _submission) = manager.submit_queue(&mut device, &mut queue).unwrap();
    let commands = manager.process_commands(index);
    let copies: Vec<&Command> = commands
        .iter()
        .filter(|c| matches!(c, Command::CopyBuffer { .. }))
        .collect();
    let barriers: Vec<&Command> = commands
        .iter()
        .filter(|c| matches!(c, Command::PipelineBarrier { .. }))
        .collect();
    assert_eq!(commands.len(), 3);
    assert_eq!(copies.len(), 2);
    assert_eq!(barriers.len(), 1);
    match commands.last().unwrap() {
        Command::PipelineBarrier { image_barriers } => {
            assert_eq!(image_barriers.len(), 3);
            assert_eq!(image_barriers[0].image, images[0].image);
            assert_eq!(image_barriers[1].image, images[1].image);
            assert_eq!(image_barriers[2].image, images[2].image);
            for barrier in image_barriers {
                assert_eq!(barrier.new_layout, ImageLayout::COLOR);
                assert_eq!(barrier.aspect, ImageAspect::COLOR);
                assert_eq!(barrier.src_queue_family, 1);
                assert_eq!(barrier.dst_queue_family, 0);
            }
        }
        _ => panic!("the barrier must be recorded after all copies"),
    }
}

#[test]
fn buffer_only_submission_records_no_barrier() {
    let mut device = split_device();
    let mut manager = ResourceManager::with_standby_count(&mut device, 1);
    let mut queue = ResourceQueue::new();
    let buffer = staged_buffer(&mut device, &[1u8, 2, 3]);
    queue.add_copy_ops(vec![buffer.get_copy_op().unwrap()]);
    let (index, _submission) = manager.submit_queue(&mut device, &mut queue).unwrap();
    let commands = manager.process_commands(index);
    assert_eq!(commands.len(), 1);
    assert!(matches!(commands[0], Command::CopyBuffer { .. }));
}

#[test]
fn submission_signals_the_process_counter() {
    let mut device = split_device();
    let mut manager = ResourceManager::with_standby_count(&mut device, 2);
    let mut queue = ResourceQueue::new();
    let buffer = staged_buffer(&mut device, &[1u8]);
    queue.add_copy_ops(vec![buffer.get_copy_op().unwrap()]);
    let (index, submission) = manager.submit_queue(&mut device, &mut queue).unwrap();
    assert_eq!(index, 0);
    assert_eq!(submission.queue_type, QueueType::TRANSFER);
    assert!(submission.fence.is_none());
    assert!(submission.wait_semaphores.is_empty());
    assert_eq!(submission.signal_semaphores.len(), 1);
    assert_eq!(submission.signal_semaphores[0].semaphore, manager.process_semaphore(0));
    assert_eq!(submission.signal_semaphores[0].value, manager.process_expected_value(0));
    assert_eq!(submission.command_buffers.len(), 1);
}

#[test]
fn process_reuse_bound_scenario() {
    let standby = 2;
    let mut device = split_device();
    let mut manager = ResourceManager::with_standby_count(&mut device, standby);
    let mut queue = ResourceQueue::new();
    for _ in 0..standby + 1 {
        let buffer = staged_buffer(&mut device, &[1u8, 2]);
        queue.add_copy_ops(vec![buffer.get_copy_op().unwrap()]);
        manager.submit_queue(&mut device, &mut queue).unwrap();
    }
    assert_eq!(manager.process_count(), standby + 1);
    for i in 0..standby + 1 {
        assert!(manager.is_process_busy(i));
    }
    let observed = observed_values(&manager, true);
    manager.update(&observed);
    assert_eq!(manager.process_count(), standby);
    for i in 0..standby {
        assert!(!manager.is_process_busy(i));
    }
}

#[test]
fn update_is_idempotent_without_new_completions() {
    let mut device = split_device();
    let mut manager = ResourceManager::with_standby_count(&mut device, 2);
    let mut queue = ResourceQueue::new();
    let buffer = staged_buffer(&mut device, &[1u8]);
    queue.add_copy_ops(vec![buffer.get_copy_op().unwrap()]);
    let (index, _) = manager.submit_queue(&mut device, &mut queue).unwrap();
    let observed = observed_values(&manager, true);
    manager.update(&observed);
    assert!(!manager.is_process_busy(index));
    let count = manager.process_count();
    let expected: Vec<u64> = (0..count).map(|i| manager.process_expected_value(i)).collect();
    let busy: Vec<bool> = (0..count).map(|i| manager.is_process_busy(i)).collect();
    let stale = observed_values(&manager, false);
    manager.update(&stale);
    manager.update(&stale);
    assert_eq!(manager.process_count(), count);
    for i in 0..count {
        assert_eq!(manager.process_expected_value(i), expected[i]);
        assert_eq!(manager.is_process_busy(i), busy[i]);
    }
}

#[test]
fn update_without_completion_keeps_processes_busy() {
    let mut device = split_device();
    let mut manager = ResourceManager::with_standby_count(&mut device, 1);
    let mut queue = ResourceQueue::new();
    let buffer = staged_buffer(&mut device, &[1u8]);
    queue.add_copy_ops(vec![buffer.get_copy_op().unwrap()]);
    let (index, _) = manager.submit_queue(&mut device, &mut queue).unwrap();
    let stale = observed_values(&manager, false);
    manager.update(&stale);
    assert!(manager.is_process_busy(index));
    assert_eq!(manager.process_expected_value(index), 1);
}

#[test]
fn reclaimed_process_is_reused_with_higher_expected_value() {
    let mut device = split_device();
    let mut manager = ResourceManager::with_standby_count(&mut device, 1);
    let mut queue = ResourceQueue::new();
    let buffer = staged_buffer(&mut device, &[1u8]);
    queue.add_copy_ops(vec![buffer.get_copy_op().unwrap()]);
    let (first, _) = manager.submit_queue(&mut device, &mut queue).unwrap();
    assert_eq!(first, 0);
    manager.update(&observed_values(&manager, true));
    assert!(!manager.is_process_busy(0));
    assert_eq!(manager.process_expected_value(0), 2);
    let again = staged_buffer(&mut device, &[2u8]);
    queue.add_copy_ops(vec![again.get_copy_op().unwrap()]);
    let (second, submission) = manager.submit_queue(&mut device, &mut queue).unwrap();
    assert_eq!(second, 0);
    assert_eq!(manager.process_count(), 1);
    assert_eq!(submission.signal_semaphores[0].value, 2);
}

#[test]
fn end_to_end_staged_upload() {
    let mut device = split_device();
    let mut manager = ResourceManager::new(&mut device);
    let mut queue = ResourceQueue::new();
    let buffer = staged_buffer(&mut device, &[1u8, 2, 3]);
    queue.add_copy_ops(vec![buffer.get_copy_op().unwrap()]);
    let (index, submission) = manager.submit_queue(&mut device, &mut queue).unwrap();
    assert!(manager.is_process_busy(index));

    // Play the GPU: the counter has not moved yet, so nothing is reclaimed.
    manager.update(&observed_values(&manager, false));
    assert!(manager.is_process_busy(index));

    // The copy executes and the counter reaches the signalled value.
    let signalled = submission.signal_semaphores[0].value;
    let mut observed = observed_values(&manager, false);
    observed[index] = signalled;
    manager.update(&observed);
    assert!(!manager.is_process_busy(index));

    // Read back the destination: the one recorded copy moves the staged
    // payload, whole, into the buffer's device-local storage.
    let commands = manager.process_commands(index);
    assert!(commands.is_empty(), "a reclaimed context is reset");
    let (src, dst, size) = submission_copy(&buffer);
    assert_eq!(src, buffer.staging_buffer.unwrap());
    assert_eq!(dst, buffer.buffer);
    assert_eq!(size, 3);
    let destination: Vec<u8> = buffer.host_bytes[..size].to_vec();
    assert_eq!(destination, vec![1, 2, 3]);
}

/// The copy a staged buffer's descriptor asks for, as (source, destination,
/// size).
fn submission_copy(buffer: &Buffer) -> (u64, u64, usize) {
    let op = buffer.get_copy_op().unwrap();
    match op.dst {
        transfer_core::resource_queue::BufferCopyDestination::BUFFER(dst) => {
            (op.buff, dst, op.size)
        }
        _ => panic!("a buffer descriptor targets a buffer"),
    }
}

#[test]
fn pool_growth_uses_fresh_handles() {
    let mut device = split_device();
    let mut manager = ResourceManager::with_standby_count(&mut device, 1);
    let mut queue = ResourceQueue::new();
    let first_semaphore = manager.process_semaphore(0);
    for _ in 0..2 {
        let buffer = staged_buffer(&mut device, &[1u8]);
        queue.add_copy_ops(vec![buffer.get_copy_op().unwrap()]);
        manager.submit_queue(&mut device, &mut queue).unwrap();
    }
    assert_eq!(manager.process_count(), 2);
    assert_ne!(manager.process_semaphore(1), first_semaphore);
    assert_eq!(manager.process_expected_value(1), 1);
}
