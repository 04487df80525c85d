use transfer_core::buffer::Buffer;
use transfer_core::buffer::BufferType;
use transfer_core::buffer::ReleaseStep;
use transfer_core::buffer::resource_sharing_mode;
use transfer_core::device::Device;
use transfer_core::device::QueueType;
use transfer_core::device::SharingMode;
use transfer_core::error::TransferError;
use transfer_core::image::Image;
use transfer_core::image::ImageAspect;
use transfer_core::image::ImageCreateInfo;
use transfer_core::image::ImageLayout;
use transfer_core::image::ImageType;
use transfer_core::resource_queue::BufferCopyDestination;

fn split_device() -> Device {
    Device::new(0, Some(1))
}

fn combined_device() -> Device {
    Device::new(0, None)
}

fn sample_image_info() -> ImageCreateInfo {
    ImageCreateInfo {
        width: 4,
        height: 2,
        image_type: ImageType::SAMPLED,
        image_layout: ImageLayout::GENERAL,
        format: 50,
        aspect: ImageAspect::COLOR,
    }
}

#[test]
fn staged_buffer_produces_copy_op_with_payload_size() {
    let mut device = split_device();
    let data = [7u8, 8, 9, 10];
    let buffer = Buffer::new(&mut device, true, false, BufferType::Vertex, &data);
    let op = buffer.get_copy_op().expect("device-local buffer must produce a copy descriptor");
    assert_eq!(op.size, 4);
    assert_eq!(op.buff, buffer.staging_buffer.unwrap());
    assert_eq!(op.dst, BufferCopyDestination::BUFFER(buffer.buffer));
    assert!(op.signal_semaphores.is_empty());
}

#[test]
fn host_visible_buffer_copy_op_fails() {
    let mut device = split_device();
    let data = [1u8, 2];
    let buffer = Buffer::new(&mut device, false, false, BufferType::Uniform, &data);
    assert_eq!(buffer.get_copy_op().unwrap_err(), TransferError::NotStaged);
}

#[test]
fn persistent_mapping_round_trip() {
    let mut device = combined_device();
    let data = [11u8, 22, 33, 44, 55];
    let buffer = Buffer::new(&mut device, false, true, BufferType::Storage, &data);
    assert!(buffer.persistently_mapped);
    assert_eq!(buffer.host_bytes, data.to_vec());
    assert_eq!(buffer.size, 5);
}

#[test]
fn one_shot_buffer_is_not_persistently_mapped() {
    let mut device = combined_device();
    let data = [1u8];
    let buffer = Buffer::new(&mut device, false, false, BufferType::Index, &data);
    assert!(!buffer.persistently_mapped);
    assert_eq!(buffer.host_bytes, vec![1u8]);
}

#[test]
fn staged_buffer_keeps_payload_in_staging() {
    let mut device = split_device();
    let data = [5u8, 6, 7];
    let buffer = Buffer::new(&mut device, true, true, BufferType::Vertex, &data);
    assert!(buffer.persistently_mapped);
    assert!(buffer.staging_buffer.is_some());
    assert_ne!(buffer.buffer, buffer.staging_buffer.unwrap());
    assert_eq!(buffer.host_bytes, data.to_vec());
}

#[test]
fn sharing_mode_concurrent_only_with_distinct_families() {
    assert_eq!(resource_sharing_mode(&split_device()), SharingMode::CONCURRENT);
    assert_eq!(resource_sharing_mode(&combined_device()), SharingMode::EXCLUSIVE);
    assert_eq!(resource_sharing_mode(&Device::new(3, Some(3))), SharingMode::EXCLUSIVE);
}

#[test]
fn buffer_release_order_device_local_persistent() {
    let mut device = split_device();
    let data = [1u8, 2];
    let buffer = Buffer::new(&mut device, true, true, BufferType::Vertex, &data);
    let final_handle = buffer.buffer;
    let staging = buffer.staging_buffer.unwrap();
    let steps = buffer.destroy();
    assert_eq!(
        steps,
        vec![
            ReleaseStep::Unmap { resource: staging },
            ReleaseStep::DestroyBuffer { buffer: staging },
            ReleaseStep::DestroyBuffer { buffer: final_handle },
        ]
    );
}

#[test]
fn buffer_release_order_host_visible() {
    let mut device = combined_device();
    let data = [9u8];
    let one_shot = Buffer::new(&mut device, false, false, BufferType::Uniform, &data);
    let one_shot_handle = one_shot.buffer;
    assert_eq!(
        one_shot.destroy(),
        vec![ReleaseStep::DestroyBuffer { buffer: one_shot_handle }]
    );
    let mapped = Buffer::new(&mut device, false, true, BufferType::Uniform, &data);
    let mapped_handle = mapped.buffer;
    assert_eq!(
        mapped.destroy(),
        vec![
            ReleaseStep::Unmap { resource: mapped_handle },
            ReleaseStep::DestroyBuffer { buffer: mapped_handle },
        ]
    );
}

#[test]
fn image_copy_op_carries_layout_aspect_and_signals() {
    let mut device = split_device();
    let data = [0u8; 32];
    let info = sample_image_info();
    let mut image = Image::new(&mut device, &data, &info, false, true);
    image.set_signal_semaphores(&vec![41, 42]);
    let op = image.get_copy_op().expect("a staged image produces a copy descriptor");
    assert_eq!(op.size, 32);
    assert_eq!(op.buff, image.staging_buf.unwrap());
    assert_eq!(op.signal_semaphores, vec![41, 42]);
    match op.dst {
        BufferCopyDestination::IMAGE(target) => {
            assert_eq!(target.image, image.image);
            assert_eq!(target.layout, ImageLayout::GENERAL);
            assert_eq!(target.aspect, ImageAspect::COLOR);
        }
        BufferCopyDestination::BUFFER(_) => panic!("an image descriptor must target an image"),
    }
}

#[test]
fn host_visible_image_copy_op_fails() {
    // The constructor only produces device-local images, so spell the
    // host-visible case out field by field.
    let image = Image {
        image: 9,
        staging_buf: None,
        host_bytes: vec![1, 2],
        persistently_mapped: false,
        sharing_mode: SharingMode::EXCLUSIVE,
        dimensions: (2, 1),
        size: 2,
        updated_frequently: false,
        on_device_memory: false,
        final_layout: ImageLayout::UNDEFINED,
        aspect: ImageAspect::NONE,
        signal_semaphores: Vec::new(),
    };
    assert_eq!(image.get_copy_op().unwrap_err(), TransferError::NotStaged);
    assert_eq!(image.destroy(), vec![ReleaseStep::DestroyImage { image: 9 }]);
}

#[test]
fn image_keeps_dimensions_and_payload() {
    let mut device = combined_device();
    let data = [3u8, 1, 4, 1, 5, 9, 2, 6];
    let info = sample_image_info();
    let image = Image::new(&mut device, &data, &info, true, true);
    assert_eq!(image.dimensions, (4, 2));
    assert_eq!(image.host_bytes, data.to_vec());
    assert!(image.persistently_mapped);
}

#[test]
fn image_release_order() {
    let mut device = split_device();
    let data = [0u8; 8];
    let info = sample_image_info();
    let image = Image::new(&mut device, &data, &info, true, true);
    let image_handle = image.image;
    let staging = image.staging_buf.unwrap();
    assert_eq!(
        image.destroy(),
        vec![
            ReleaseStep::Unmap { resource: staging },
            ReleaseStep::DestroyBuffer { buffer: staging },
            ReleaseStep::DestroyImage { image: image_handle },
        ]
    );
}

#[test]
fn buffer_with_empty_payload() {
    let mut device = split_device();
    let buffer = Buffer::new(&mut device, true, false, BufferType::Vertex, &[]);
    assert_eq!(buffer.size, 0);
    assert!(buffer.host_bytes.is_empty());
    let op = buffer.get_copy_op().unwrap();
    assert_eq!(op.size, 0);
}

#[test]
fn device_hands_out_distinct_handles() {
    let mut device = split_device();
    let first = Buffer::new(&mut device, true, false, BufferType::Vertex, &[1u8]);
    let second = Buffer::new(&mut device, true, false, BufferType::Vertex, &[2u8]);
    let mut handles = vec![
        first.buffer,
        first.staging_buffer.unwrap(),
        second.buffer,
        second.staging_buffer.unwrap(),
    ];
    handles.sort();
    handles.dedup();
    assert_eq!(handles.len(), 4);
}

#[test]
fn queue_family_indices_resolve_and_deduplicate() {
    let split = split_device();
    assert_eq!(split.get_queue_family_index(QueueType::TRANSFER), 1);
    assert_eq!(split.get_queue_family_index(QueueType::GRAPHICS), 0);
    assert_eq!(
        split.get_queue_family_indices(&vec![QueueType::TRANSFER, QueueType::GRAPHICS]),
        vec![1, 0]
    );
    let combined = combined_device();
    assert_eq!(combined.get_queue_family_index(QueueType::TRANSFER), 0);
    assert_eq!(
        combined.get_queue_family_indices(&vec![QueueType::TRANSFER, QueueType::GRAPHICS]),
        vec![0]
    );
    assert_eq!(
        combined.get_queue_family_indices(&vec![
            QueueType::BOTH,
            QueueType::GRAPHICS,
            QueueType::TRANSFER,
        ]),
        vec![0]
    );
}
