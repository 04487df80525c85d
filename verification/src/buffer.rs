use vstd::prelude::*;

use crate::device::Device;
use crate::device::QueueType;
use crate::device::SharingMode;
use crate::error::TransferError;
use crate::resource_queue::BufferCopyDestination;
use crate::resource_queue::BufferCopyInfo;

verus! {

/// What the buffer feeds: vertex fetch, index fetch, uniform reads or storage
/// access.
#[derive(Clone, Copy, PartialEq, Eq, Structural, Debug)]
pub enum BufferType {
    Vertex,
    Index,
    Uniform,
    Storage,
}

/// One step of a resource's teardown, in the order the allocator requires:
/// a persistent mapping is unmapped before its allocation is released, and a
/// staging allocation is released before the final storage.
#[derive(Clone, Copy, PartialEq, Eq, Structural, Debug)]
pub enum ReleaseStep {
    /// Unmap the persistent mapping of the named resource's allocation.
    Unmap { resource: u64 },
    /// Release the named buffer and its allocation.
    DestroyBuffer { buffer: u64 },
    /// Release the named image and its allocation.
    DestroyImage { image: u64 },
}

/// A staged linear buffer. Device-local buffers (`on_device_memory`) pair the
/// final storage with a host-visible staging allocation; host-visible buffers
/// hold the payload directly. `host_bytes` models the contents of whichever
/// allocation is host-visible; frequently updated buffers keep it persistently
/// mapped for their whole lifetime.
#[derive(Debug)]
pub struct Buffer {
    pub buffer: u64,
    pub staging_buffer: Option<u64>,
    pub host_bytes: Vec<u8>,
    pub persistently_mapped: bool,
    pub sharing_mode: SharingMode,
    pub size: usize,
    pub on_device_memory: bool,
    pub updated_frequently: bool,
    pub buffer_type: BufferType,
}

/// The teardown steps of a buffer: unmap the persistent mapping if one exists
/// (on the staging allocation for device-local buffers, on the final storage
/// otherwise), release the staging allocation if one exists, then release the
/// final storage.
pub open spec fn buffer_release_steps(buffer: Buffer) -> Seq<ReleaseStep> {
    (if buffer.updated_frequently {
        seq![
            ReleaseStep::Unmap {
                resource: if buffer.on_device_memory {
                    buffer.staging_buffer->0
                } else {
                    buffer.buffer
                },
            },
        ]
    } else {
        Seq::empty()
    }) + (if buffer.on_device_memory {
        seq![ReleaseStep::DestroyBuffer { buffer: buffer.staging_buffer->0 }]
    } else {
        Seq::empty()
    }) + seq![ReleaseStep::DestroyBuffer { buffer: buffer.buffer }]
}

impl Buffer {
    /// Structural invariant: a staging allocation exists exactly for
    /// device-local storage, a persistent mapping exists exactly for
    /// frequently updated buffers, and the staged bytes match the recorded
    /// size.
    pub open spec fn wf(self) -> bool {
        &&& self.staging_buffer is Some <==> self.on_device_memory
        &&& self.persistently_mapped == self.updated_frequently
        &&& self.host_bytes@.len() == self.size
    }

    /// Creates a buffer with its payload already resident: directly in the
    /// final storage when that is host-visible, otherwise in a fresh staging
    /// allocation that the scheduler later copies into the device-local
    /// storage. Frequently updated buffers map the host-visible allocation
    /// once, persistently; others write it one-shot.
    pub fn new(
        device: &mut Device,
        on_device_memory: bool,
        updated_frequently: bool,
        buffer_type: BufferType,
        data: &[u8],
    ) -> (buffer: Buffer)
        requires
            old(device).can_allocate(2),
        ensures
            buffer.wf(),
            buffer.on_device_memory == on_device_memory,
            buffer.updated_frequently == updated_frequently,
            buffer.persistently_mapped == updated_frequently,
            buffer.buffer_type == buffer_type,
            buffer.host_bytes@ == data@,
            buffer.size == data@.len(),
            buffer.buffer == old(device).next_handle,
            on_device_memory ==> (buffer.staging_buffer matches Some(s) && s == old(
                device,
            ).next_handle + 1),
            buffer.sharing_mode is CONCURRENT <==> (old(device).transfer_family matches Some(t)
                && t != old(device).graphics_family),
            final(device).next_handle == old(device).next_handle + (
            if on_device_memory {
                2int
            } else {
                1int
            }),
            final(device).graphics_family == old(device).graphics_family,
            final(device).transfer_family == old(device).transfer_family,
    {
        let sharing_mode = resource_sharing_mode(device);
        let buffer_handle = device.fresh_handle();
        let staging_buffer = if on_device_memory {
            Some(device.fresh_handle())
        } else {
            None
        };
        let host_bytes = copy_bytes(data);
        Buffer {
            buffer: buffer_handle,
            staging_buffer,
            host_bytes,
            persistently_mapped: updated_frequently,
            sharing_mode,
            size: data.len(),
            on_device_memory,
            updated_frequently,
            buffer_type,
        }
    }

    /// Produces the copy descriptor that moves the staged payload into the
    /// final storage. Only device-local buffers have anything to copy;
    /// requesting a descriptor from a host-visible buffer is the caller error
    /// `NotStaged`.
    pub fn get_copy_op(&self) -> (result: Result<BufferCopyInfo, TransferError>)
        requires
            self.wf(),
        ensures
            self.on_device_memory ==> (result matches Ok(op) && op.buff == self.staging_buffer->0
                && op.size == self.size && op.dst == BufferCopyDestination::BUFFER(self.buffer)
                && op.signal_semaphores@ == Seq::<u64>::empty()),
            !self.on_device_memory ==> (result matches Err(e) && e == TransferError::NotStaged),
    {
        match self.staging_buffer {
            Some(staging) => Ok(
                BufferCopyInfo {
                    buff: staging,
                    size: self.size,
                    dst: BufferCopyDestination::BUFFER(self.buffer),
                    signal_semaphores: Vec::new(),
                },
            ),
            None => Err(TransferError::NotStaged),
        }
    }

    /// Consumes the buffer and returns its teardown steps in the one order
    /// the allocator accepts.
    pub fn destroy(self) -> (steps: Vec<ReleaseStep>)
        requires
            self.wf(),
        ensures
            steps@ == buffer_release_steps(self),
    {
        let mut steps: Vec<ReleaseStep> = Vec::new();
        if self.updated_frequently {
            let mapped = match self.staging_buffer {
                Some(staging) => staging,
                None => self.buffer,
            };
            steps.push(ReleaseStep::Unmap { resource: mapped });
        }
        match self.staging_buffer {
            Some(staging) => steps.push(ReleaseStep::DestroyBuffer { buffer: staging }),
            None => (),
        }
        steps.push(ReleaseStep::DestroyBuffer { buffer: self.buffer });
        proof {
            assert(steps@ =~= buffer_release_steps(self));
        }
        steps
    }
}

/// The sharing mode every staged resource is allocated with: concurrent when
/// the transfer and graphics roles resolve to distinct queue families, else
/// exclusive. Decided once at allocation time and fixed for the resource's
/// lifetime.
pub fn resource_sharing_mode(device: &Device) -> (sharing_mode: SharingMode)
    ensures
        sharing_mode is CONCURRENT <==> (device.transfer_family matches Some(t) && t
            != device.graphics_family),
{
    let mut queue_types: Vec<QueueType> = Vec::new();
    queue_types.push(QueueType::TRANSFER);
    queue_types.push(QueueType::GRAPHICS);
    let family_indices = device.get_queue_family_indices(&queue_types);
    proof {
        let qts = queue_types@;
        let transfer_only = seq![QueueType::TRANSFER];
        assert(qts =~= seq![QueueType::TRANSFER, QueueType::GRAPHICS]);
        assert(qts.drop_last() =~= transfer_only);
        assert(transfer_only.drop_last() =~= Seq::<QueueType>::empty());
        assert(device.resolved_families(Seq::<QueueType>::empty()) =~= Seq::<u32>::empty());
        assert(device.resolved_families(transfer_only) =~= seq![
            device.resolved_family(QueueType::TRANSFER),
        ]);
        let t = device.resolved_family(QueueType::TRANSFER);
        let g = device.resolved_family(QueueType::GRAPHICS);
        let singleton = seq![t];
        assert(singleton.contains(g) ==> t == g) by {
            if singleton.contains(g) {
                let i = choose|i: int| 0 <= i < singleton.len() && singleton[i] == g;
                assert(singleton[i] == g);
            }
        }
        assert(t == g ==> singleton.contains(g)) by {
            if t == g {
                assert(singleton[0] == g);
            }
        }
    }
    if family_indices.len() > 1 {
        SharingMode::CONCURRENT
    } else {
        SharingMode::EXCLUSIVE
    }
}

/// Copies a byte slice into a fresh vector; the verified stand-in for the
/// one-shot and persistent writes into mapped memory.
pub fn copy_bytes(data: &[u8]) -> (out: Vec<u8>)
    ensures
        out@ == data@,
{
    let mut out: Vec<u8> = Vec::new();
    let mut i: usize = 0;
    while i < data.len()
        invariant
            i <= data@.len(),
            out@ == data@.take(i as int),
        decreases data@.len() - i,
    {
        out.push(data[i]);
        proof {
            assert(data@.take(i + 1 as int) =~= data@.take(i as int).push(data@[i as int]));
        }
        i = i + 1;
    }
    proof {
        assert(data@.take(data@.len() as int) =~= data@);
    }
    out
}

} // verus!
