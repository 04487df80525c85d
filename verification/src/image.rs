use vstd::prelude::*;

use crate::buffer::ReleaseStep;
use crate::buffer::copy_bytes;
use crate::command_buffer::copy_vec;
use crate::buffer::resource_sharing_mode;
use crate::device::Device;
use crate::device::SharingMode;
use crate::error::TransferError;
use crate::resource_queue::BufferCopyDestination;
use crate::resource_queue::BufferCopyInfo;

verus! {

/// How the image will be used by shaders and attachments.
#[allow(non_camel_case_types)]
#[derive(Clone, Copy, PartialEq, Eq, Structural, Debug)]
pub enum ImageType {
    SAMPLED,
    STORAGE,
    COLOR,
}

/// The layout the image ends up in after its ownership-transfer barrier.
#[allow(non_camel_case_types)]
#[derive(Clone, Copy, PartialEq, Eq, Structural, Debug)]
pub enum ImageLayout {
    UNDEFINED,
    GENERAL,
    COLOR,
}

/// Which aspect of the image the barrier covers.
#[allow(non_camel_case_types)]
#[derive(Clone, Copy, PartialEq, Eq, Structural, Debug)]
pub enum ImageAspect {
    NONE,
    COLOR,
    DEPTH,
}

/// The image-side half of a copy descriptor: the destination image and the
/// layout and aspect its barrier must establish.
#[derive(Clone, Copy, PartialEq, Eq, Structural, Debug)]
pub struct ImageCopyInfo {
    pub image: u64,
    pub layout: ImageLayout,
    pub aspect: ImageAspect,
}

/// Everything fixed at image creation.
#[derive(Clone, Copy, PartialEq, Eq, Structural, Debug)]
pub struct ImageCreateInfo {
    pub width: u32,
    pub height: u32,
    pub image_type: ImageType,
    pub image_layout: ImageLayout,
    /// Pixel-format token, passed through to the driver unread.
    pub format: u32,
    pub aspect: ImageAspect,
}

/// A staged single-mip 2D image: device-local storage plus the staging
/// allocation its payload waits in until the scheduler copies it over.
/// Only device-local images are supported; `host_bytes` models the contents
/// of the staging allocation.
#[derive(Debug)]
pub struct Image {
    pub image: u64,
    pub staging_buf: Option<u64>,
    pub host_bytes: Vec<u8>,
    pub persistently_mapped: bool,
    pub sharing_mode: SharingMode,
    pub dimensions: (u32, u32),
    pub size: usize,
    pub updated_frequently: bool,
    pub on_device_memory: bool,
    pub final_layout: ImageLayout,
    pub aspect: ImageAspect,
    pub signal_semaphores: Vec<u64>,
}

/// The teardown steps of an image: unmap the persistent mapping if one
/// exists (on the staging allocation for device-local images, on the image's
/// own allocation otherwise), release the staging allocation if one exists,
/// then release the image.
pub open spec fn image_release_steps(image: Image) -> Seq<ReleaseStep> {
    (if image.updated_frequently {
        seq![
            ReleaseStep::Unmap {
                resource: if image.on_device_memory {
                    image.staging_buf->0
                } else {
                    image.image
                },
            },
        ]
    } else {
        Seq::empty()
    }) + (if image.on_device_memory {
        seq![ReleaseStep::DestroyBuffer { buffer: image.staging_buf->0 }]
    } else {
        Seq::empty()
    }) + seq![ReleaseStep::DestroyImage { image: image.image }]
}

impl Image {
    /// Structural invariant: a staging allocation exists exactly for
    /// device-local storage, a persistent mapping exists exactly for
    /// frequently updated images, and the staged bytes match the recorded
    /// size. The constructor only produces device-local images (host-visible
    /// image storage is unimplemented), so every constructed image carries a
    /// staging allocation.
    pub open spec fn wf(self) -> bool {
        &&& self.staging_buf is Some <==> self.on_device_memory
        &&& self.persistently_mapped == self.updated_frequently
        &&& self.host_bytes@.len() == self.size
    }

    /// Creates a device-local image whose payload is staged in a host-visible
    /// allocation; the scheduler later transfers ownership to the graphics
    /// family. Host-visible image storage is an unimplemented case, so
    /// callers must request device-local storage.
    pub fn new(
        device: &mut Device,
        data: &[u8],
        info: &ImageCreateInfo,
        updated_frequently: bool,
        on_device_memory: bool,
    ) -> (image: Image)
        requires
            on_device_memory,
            old(device).can_allocate(2),
        ensures
            image.wf(),
            image.on_device_memory == on_device_memory,
            image.updated_frequently == updated_frequently,
            image.persistently_mapped == updated_frequently,
            image.host_bytes@ == data@,
            image.size == data@.len(),
            image.dimensions == (info.width, info.height),
            image.final_layout == info.image_layout,
            image.aspect == info.aspect,
            image.signal_semaphores@ == Seq::<u64>::empty(),
            image.image == old(device).next_handle,
            image.staging_buf matches Some(s) && s == old(device).next_handle + 1,
            image.sharing_mode is CONCURRENT <==> (old(device).transfer_family matches Some(t)
                && t != old(device).graphics_family),
            final(device).next_handle == old(device).next_handle + 2,
            final(device).graphics_family == old(device).graphics_family,
            final(device).transfer_family == old(device).transfer_family,
    {
        let sharing_mode = resource_sharing_mode(device);
        let image_handle = device.fresh_handle();
        let staging_handle = device.fresh_handle();
        let host_bytes = copy_bytes(data);
        Image {
            image: image_handle,
            staging_buf: Some(staging_handle),
            host_bytes,
            persistently_mapped: updated_frequently,
            sharing_mode,
            dimensions: (info.width, info.height),
            size: data.len(),
            updated_frequently,
            on_device_memory,
            final_layout: info.image_layout,
            aspect: info.aspect,
            signal_semaphores: Vec::new(),
        }
    }

    /// Registers the semaphores the scheduler should signal once this image's
    /// payload has been copied.
    pub fn set_signal_semaphores(&mut self, signal_semaphores: &Vec<u64>)
        ensures
            final(self).signal_semaphores@ == signal_semaphores@,
            final(self).image == old(self).image,
            final(self).staging_buf == old(self).staging_buf,
            final(self).host_bytes == old(self).host_bytes,
            final(self).persistently_mapped == old(self).persistently_mapped,
            final(self).sharing_mode == old(self).sharing_mode,
            final(self).dimensions == old(self).dimensions,
            final(self).size == old(self).size,
            final(self).updated_frequently == old(self).updated_frequently,
            final(self).on_device_memory == old(self).on_device_memory,
            final(self).final_layout == old(self).final_layout,
            final(self).aspect == old(self).aspect,
    {
        self.signal_semaphores = copy_vec(signal_semaphores);
    }

    /// Produces the copy descriptor that moves the staged payload into the
    /// image, carrying the registered signal semaphores. Only device-local
    /// images have anything to copy; requesting a descriptor from a resource
    /// in host-visible storage is the caller error `NotStaged`.
    pub fn get_copy_op(&self) -> (result: Result<BufferCopyInfo, TransferError>)
        requires
            self.wf(),
        ensures
            self.on_device_memory ==> (result matches Ok(op) && op.buff == self.staging_buf->0
                && op.size == self.size && op.dst == BufferCopyDestination::IMAGE(
                ImageCopyInfo { image: self.image, layout: self.final_layout, aspect: self.aspect },
            ) && op.signal_semaphores@ == self.signal_semaphores@),
            !self.on_device_memory ==> (result matches Err(e) && e == TransferError::NotStaged),
    {
        match self.staging_buf {
            Some(staging) => {
                let image_copy_info = ImageCopyInfo {
                    image: self.image,
                    layout: self.final_layout,
                    aspect: self.aspect,
                };
                Ok(
                    BufferCopyInfo {
                        buff: staging,
                        size: self.size,
                        dst: BufferCopyDestination::IMAGE(image_copy_info),
                        signal_semaphores: copy_vec(&self.signal_semaphores),
                    },
                )
            },
            None => Err(TransferError::NotStaged),
        }
    }

    /// Consumes the image and returns its teardown steps in the one order the
    /// allocator accepts: unmap first, then staging, then the image itself.
    pub fn destroy(self) -> (steps: Vec<ReleaseStep>)
        requires
            self.wf(),
        ensures
            steps@ == image_release_steps(self),
    {
        let mut steps: Vec<ReleaseStep> = Vec::new();
        if self.updated_frequently {
            let mapped = match self.staging_buf {
                Some(staging) => staging,
                None => self.image,
            };
            steps.push(ReleaseStep::Unmap { resource: mapped });
        }
        match self.staging_buf {
            Some(staging) => steps.push(ReleaseStep::DestroyBuffer { buffer: staging }),
            None => (),
        }
        steps.push(ReleaseStep::DestroyImage { image: self.image });
        proof {
            assert(steps@ =~= image_release_steps(self));
        }
        steps
    }
}

} // verus!
