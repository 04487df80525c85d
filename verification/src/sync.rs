use vstd::prelude::*;

use crate::device::Device;

verus! {

/// The two progress-counter flavours: a one-shot GPU handshake, or a timeline
/// counter whose monotonically increasing value the host can read without
/// blocking.
#[allow(non_camel_case_types)]
#[derive(Clone, Copy, PartialEq, Eq, Structural, Debug)]
pub enum SemaphoreType {
    BINARY,
    TIMELINE,
}

/// A progress counter. `value` is the counter value as last observed by the
/// host; the live value advances on the GPU and reaches this model only when
/// an observation is fed back in (see `ResourceManager::update`).
#[derive(Debug)]
pub struct Semaphore {
    pub semaphore: u64,
    pub semaphore_type: SemaphoreType,
    pub value: u64,
}

impl Semaphore {
    /// Creates a counter of the requested flavour. `initial_value` is the
    /// starting value of a timeline counter and is ignored by the driver for
    /// binary ones.
    pub fn new(
        device: &mut Device,
        semaphore_type: SemaphoreType,
        initial_value: u64,
    ) -> (semaphore: Semaphore)
        requires
            old(device).can_allocate(1),
        ensures
            semaphore.semaphore == old(device).next_handle,
            semaphore.semaphore_type == semaphore_type,
            semaphore.value == initial_value,
            final(device).next_handle == old(device).next_handle + 1,
            final(device).graphics_family == old(device).graphics_family,
            final(device).transfer_family == old(device).transfer_family,
    {
        let handle = device.fresh_handle();
        Semaphore { semaphore: handle, semaphore_type, value: initial_value }
    }

    pub fn get_semaphore(&self) -> (handle: u64)
        ensures
            handle == self.semaphore,
    {
        self.semaphore
    }

    pub fn get_type(&self) -> (semaphore_type: SemaphoreType)
        ensures
            semaphore_type == self.semaphore_type,
    {
        self.semaphore_type
    }

    /// The counter value as last observed by the host. Only timeline counters
    /// carry a readable value.
    pub fn get_value(&self) -> (value: u64)
        requires
            self.semaphore_type is TIMELINE,
        ensures
            value == self.value,
    {
        self.value
    }
}

/// A one-shot GPU-to-GPU handshake counter.
#[derive(Debug)]
pub struct BinarySemaphore {
    pub semaphore: u64,
}

impl BinarySemaphore {
    pub fn new(device: &mut Device) -> (semaphore: BinarySemaphore)
        requires
            old(device).can_allocate(1),
        ensures
            semaphore.semaphore == old(device).next_handle,
            final(device).next_handle == old(device).next_handle + 1,
            final(device).graphics_family == old(device).graphics_family,
            final(device).transfer_family == old(device).transfer_family,
    {
        let handle = device.fresh_handle();
        BinarySemaphore { semaphore: handle }
    }

    pub fn get_semaphore(&self) -> (handle: u64)
        ensures
            handle == self.semaphore,
    {
        self.semaphore
    }
}

/// A timeline counter on its own, outside the combined `Semaphore` wrapper.
#[derive(Debug)]
pub struct TimelineSemaphore {
    pub semaphore: u64,
    pub value: u64,
}

impl TimelineSemaphore {
    pub fn new(device: &mut Device, initial_value: u64) -> (semaphore: TimelineSemaphore)
        requires
            old(device).can_allocate(1),
        ensures
            semaphore.semaphore == old(device).next_handle,
            semaphore.value == initial_value,
            final(device).next_handle == old(device).next_handle + 1,
            final(device).graphics_family == old(device).graphics_family,
            final(device).transfer_family == old(device).transfer_family,
    {
        let handle = device.fresh_handle();
        TimelineSemaphore { semaphore: handle, value: initial_value }
    }

    pub fn get_semaphore(&self) -> (handle: u64)
        ensures
            handle == self.semaphore,
    {
        self.semaphore
    }

    /// The counter value as last observed by the host.
    pub fn get_value(&self) -> (value: u64)
        ensures
            value == self.value,
    {
        self.value
    }
}

/// A GPU-to-host one-shot signal, used only for full-pipeline drains.
#[derive(Debug)]
pub struct Fence {
    pub fence: u64,
    pub signaled: bool,
}

impl Fence {
    pub fn new(device: &mut Device, signaled: bool) -> (fence: Fence)
        requires
            old(device).can_allocate(1),
        ensures
            fence.fence == old(device).next_handle,
            fence.signaled == signaled,
            final(device).next_handle == old(device).next_handle + 1,
            final(device).graphics_family == old(device).graphics_family,
            final(device).transfer_family == old(device).transfer_family,
    {
        let handle = device.fresh_handle();
        Fence { fence: handle, signaled }
    }

    pub fn get_fence(&self) -> (handle: u64)
        ensures
            handle == self.fence,
    {
        self.fence
    }
}

} // verus!
