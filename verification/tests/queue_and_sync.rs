use transfer_core::command_buffer::CommandBuffer;
use transfer_core::command_buffer::Command;
use transfer_core::command_buffer::ImageBarrier;
use transfer_core::command_pool::CommandPool;
use transfer_core::device::Device;
use transfer_core::device::QueueType;
use transfer_core::error::TransferError;
use transfer_core::image::ImageAspect;
use transfer_core::image::ImageLayout;
use transfer_core::resource_queue::BufferCopyDestination;
use transfer_core::resource_queue::BufferCopyInfo;
use transfer_core::resource_queue::ResourceQueue;
use transfer_core::sync::BinarySemaphore;
use transfer_core::sync::Fence;
use transfer_core::sync::Semaphore;
use transfer_core::sync::SemaphoreType;
use transfer_core::sync::TimelineSemaphore;

fn descriptor(buff: u64, dst: u64, size: usize) -> BufferCopyInfo {
    BufferCopyInfo {
        buff,
        size,
        dst: BufferCopyDestination::BUFFER(dst),
        signal_semaphores: Vec::new(),
    }
}

#[test]
fn drain_empty_contract() {
    let mut queue = ResourceQueue::new();
    assert_eq!(queue.drain_copy_ops().unwrap_err(), TransferError::EmptyQueue);
    queue.add_copy_ops(vec![descriptor(10, 20, 4)]);
    let drained = queue.drain_copy_ops().unwrap();
    assert_eq!(drained.len(), 1);
    assert_eq!(drained[0].buff, 10);
    assert_eq!(drained[0].size, 4);
    assert_eq!(drained[0].dst, BufferCopyDestination::BUFFER(20));
    assert_eq!(queue.drain_copy_ops().unwrap_err(), TransferError::EmptyQueue);
}

#[test]
fn queue_keeps_insertion_order_across_batches() {
    let mut queue = ResourceQueue::new();
    queue.add_copy_ops(vec![descriptor(1, 2, 1), descriptor(3, 4, 2)]);
    queue.add_copy_ops(vec![descriptor(5, 6, 3)]);
    let drained = queue.drain_copy_ops().unwrap();
    let sources: Vec<u64> = drained.iter().map(|op| op.buff).collect();
    assert_eq!(sources, vec![1, 3, 5]);
}

#[test]
fn semaphore_kinds_and_values() {
    let mut device = Device::new(0, None);
    let timeline = Semaphore::new(&mut device, SemaphoreType::TIMELINE, 7);
    assert_eq!(timeline.get_type(), SemaphoreType::TIMELINE);
    assert_eq!(timeline.get_value(), 7);
    let binary = Semaphore::new(&mut device, SemaphoreType::BINARY, 0);
    assert_eq!(binary.get_type(), SemaphoreType::BINARY);
    assert_ne!(timeline.get_semaphore(), binary.get_semaphore());
    let bare_timeline = TimelineSemaphore::new(&mut device, 3);
    assert_eq!(bare_timeline.get_value(), 3);
    let bare_binary = BinarySemaphore::new(&mut device);
    assert_ne!(bare_binary.get_semaphore(), bare_timeline.get_semaphore());
    let fence = Fence::new(&mut device, true);
    assert!(fence.signaled);
    assert_ne!(fence.get_fence(), bare_binary.get_semaphore());
}

#[test]
fn command_buffer_recording_cycle() {
    let mut cb = CommandBuffer::new(9, false);
    cb.begin(None);
    cb.record_copy_buffer(1, 2, 16);
    cb.record_pipeline_barrier(vec![ImageBarrier {
        image: 5,
        new_layout: ImageLayout::GENERAL,
        aspect: ImageAspect::COLOR,
        src_queue_family: 1,
        dst_queue_family: 0,
    }]);
    cb.end();
    assert_eq!(cb.commands.len(), 2);
    assert!(matches!(cb.commands[0], Command::CopyBuffer { src: 1, dst: 2, size: 16 }));
    cb.reset();
    assert!(cb.commands.is_empty());
    cb.begin(None);
    cb.end();
    assert!(cb.commands.is_empty());
}

#[test]
fn submit_info_clears_semaphore_lists_on_request() {
    let mut cb = CommandBuffer::new(4, false);
    cb.add_wait_semaphores(vec![(100, 8, 2), (101, 16, 3)]);
    cb.add_signal_semaphores(vec![(200, 5)]);
    let kept = cb.get_submit_info(false);
    assert_eq!(kept.wait_semaphores, vec![(100, 2), (101, 3)]);
    assert_eq!(kept.stage_flags, vec![8, 16]);
    assert_eq!(kept.signal_semaphores, vec![(200, 5)]);
    assert_eq!(cb.wait_semaphores.len(), 2);
    let drained = cb.get_submit_info(true);
    assert_eq!(drained.wait_semaphores, vec![(100, 2), (101, 3)]);
    assert_eq!(drained.stage_flags, vec![8, 16]);
    assert!(cb.wait_semaphores.is_empty());
    assert!(cb.signal_semaphores.is_empty());
    assert!(cb.stage_flags.is_empty());
    // A drained context pairs fresh waits with fresh masks from index zero.
    cb.add_wait_semaphores(vec![(102, 32, 7)]);
    let reused = cb.get_submit_info(false);
    assert_eq!(reused.wait_semaphores, vec![(102, 7)]);
    assert_eq!(reused.stage_flags, vec![32]);
}

#[test]
fn submit_buffers_flattens_infos_in_order() {
    let mut first = CommandBuffer::new(11, false);
    first.add_wait_semaphores(vec![(300, 4, 9)]);
    first.add_signal_semaphores(vec![(400, 1)]);
    let mut second = CommandBuffer::new(12, false);
    second.add_signal_semaphores(vec![(401, 2), (402, 3)]);
    let infos = vec![first.get_submit_info(true), second.get_submit_info(true)];
    let submission = CommandBuffer::submit_buffers(Some(77), QueueType::GRAPHICS, &infos);
    assert_eq!(submission.queue_type, QueueType::GRAPHICS);
    assert_eq!(submission.fence, Some(77));
    assert_eq!(submission.command_buffers, vec![11, 12]);
    assert_eq!(submission.wait_semaphores.len(), 1);
    assert_eq!(submission.wait_semaphores[0].semaphore, 300);
    assert_eq!(submission.wait_semaphores[0].value, 9);
    assert_eq!(submission.wait_semaphores[0].stage_mask, 4);
    let signalled: Vec<(u64, u64)> = submission
        .signal_semaphores
        .iter()
        .map(|op| (op.semaphore, op.value))
        .collect();
    assert_eq!(signalled, vec![(400, 1), (401, 2), (402, 3)]);
}

#[test]
fn command_pool_hands_out_sequential_contexts() {
    let mut device = Device::new(2, Some(5));
    let mut pool = CommandPool::new(&mut device, QueueType::TRANSFER, false, true);
    assert_eq!(pool.queue_family_index, 5);
    assert!(pool.individual_reset);
    assert!(!pool.transient);
    let buffers = pool.allocate_command_buffers(false, 3);
    assert_eq!(buffers.len(), 3);
    assert_eq!(buffers[0].command_buffer, 1);
    assert_eq!(buffers[1].command_buffer, 2);
    assert_eq!(buffers[2].command_buffer, 3);
    assert!(buffers.iter().all(|b| !b.secondary && !b.recording && b.commands.is_empty()));
}

#[test]
fn secondary_context_inheritance_info() {
    let cb = CommandBuffer::new(8, true);
    let info = cb.get_inheritance_info(None);
    assert_eq!((info.render_pass, info.subpass, info.framebuffer), (0, 0, 0));
    let with_pass = cb.get_inheritance_info(Some(
        transfer_core::command_buffer::RenderPassInheritanceInfo {
            render_pass: 31,
            subpass: 2,
            framebuffer: 17,
        },
    ));
    assert_eq!(with_pass.render_pass, 31);
    assert_eq!(with_pass.subpass, 2);
    assert_eq!(with_pass.framebuffer, 17);
}
