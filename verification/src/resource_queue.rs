use vstd::prelude::*;

use crate::error::TransferError;
use crate::image::ImageCopyInfo;

verus! {

/// Where a staged payload is headed: a raw buffer, or an image together with
/// the layout and aspect its ownership-transfer barrier must establish.
#[allow(non_camel_case_types)]
#[derive(Clone, Copy, PartialEq, Eq, Structural, Debug)]
pub enum BufferCopyDestination {
    BUFFER(u64),
    IMAGE(ImageCopyInfo),
}

/// A pending upload: the staging buffer holding the payload, the payload size
/// in bytes, the destination, and the semaphores to signal once the copy has
/// executed. Immutable once produced; consumed exactly once by the scheduler.
#[derive(Debug)]
pub struct BufferCopyInfo {
    pub buff: u64,
    pub size: usize,
    pub dst: BufferCopyDestination,
    pub signal_semaphores: Vec<u64>,
}

/// Mathematical image of a copy descriptor.
#[verifier::ext_equal]
pub struct BufferCopyInfoView {
    pub buff: u64,
    pub size: usize,
    pub dst: BufferCopyDestination,
    pub signal_semaphores: Seq<u64>,
}

impl View for BufferCopyInfo {
    type V = BufferCopyInfoView;

    open spec fn view(&self) -> BufferCopyInfoView {
        BufferCopyInfoView {
            buff: self.buff,
            size: self.size,
            dst: self.dst,
            signal_semaphores: self.signal_semaphores@,
        }
    }
}

/// The views of a sequence of copy descriptors, in order.
pub open spec fn descriptor_views(descriptors: Seq<BufferCopyInfo>) -> Seq<BufferCopyInfoView> {
    descriptors.map_values(|descriptor: BufferCopyInfo| descriptor@)
}

/// An order-irrelevant, append-only collection of pending copy descriptors,
/// drained atomically by the scheduler.
#[derive(Debug)]
pub struct ResourceQueue {
    pub copy_infos: Vec<BufferCopyInfo>,
}

impl View for ResourceQueue {
    type V = Seq<BufferCopyInfoView>;

    open spec fn view(&self) -> Seq<BufferCopyInfoView> {
        descriptor_views(self.copy_infos@)
    }
}

impl ResourceQueue {
    pub fn new() -> (queue: ResourceQueue)
        ensures
            queue@ == Seq::<BufferCopyInfoView>::empty(),
    {
        let queue = ResourceQueue { copy_infos: Vec::new() };
        proof {
            assert(queue@ =~= Seq::<BufferCopyInfoView>::empty());
        }
        queue
    }

    /// Appends the given descriptors; no ordering guarantee beyond insertion
    /// order, no deduplication.
    pub fn add_copy_ops(&mut self, copy_infos: Vec<BufferCopyInfo>)
        ensures
            final(self)@ == old(self)@ + descriptor_views(copy_infos@),
    {
        let ghost incoming = copy_infos@;
        let mut copy_infos = copy_infos;
        self.copy_infos.append(&mut copy_infos);
        proof {
            assert(self@ =~= old(self)@ + descriptor_views(incoming));
        }
    }

    /// Atomically removes and returns every queued descriptor. Draining an
    /// empty queue is a caller error and is reported as such.
    pub fn drain_copy_ops(&mut self) -> (result: Result<Vec<BufferCopyInfo>, TransferError>)
        ensures
            old(self)@.len() == 0 ==> (result matches Err(e) && e == TransferError::EmptyQueue
                && final(self)@ == old(self)@),
            old(self)@.len() > 0 ==> (result matches Ok(drained) && descriptor_views(drained@)
                == old(self)@ && final(self)@.len() == 0),
    {
        if self.copy_infos.len() == 0 {
            return Err(TransferError::EmptyQueue);
        }
        let mut drained: Vec<BufferCopyInfo> = Vec::new();
        core::mem::swap(&mut drained, &mut self.copy_infos);
        proof {
            assert(self@ =~= Seq::<BufferCopyInfoView>::empty());
        }
        Ok(drained)
    }
}

} // verus!
