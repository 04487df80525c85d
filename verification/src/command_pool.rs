use vstd::prelude::*;

use crate::command_buffer::CommandBuffer;
use crate::device::Device;
use crate::device::QueueType;

verus! {

/// A pool of recordable contexts scoped to one queue role. The pool hands out
/// context handles from its own counter; the flags record whether contexts
/// are short-lived and whether they can be reset individually.
#[derive(Debug)]
pub struct CommandPool {
    pub command_pool: u64,
    pub queue_family_index: u32,
    pub transient: bool,
    pub individual_reset: bool,
    pub next_buffer_handle: u64,
}

impl CommandPool {
    /// True when `n` more context handles can still be handed out.
    pub open spec fn can_allocate(self, n: int) -> bool {
        self.next_buffer_handle + n <= u64::MAX
    }

    pub fn new(
        device: &mut Device,
        queue_type: QueueType,
        short_lived: bool,
        individual_reset: bool,
    ) -> (pool: CommandPool)
        requires
            old(device).can_allocate(1),
        ensures
            pool.command_pool == old(device).next_handle,
            pool.queue_family_index == old(device).resolved_family(queue_type),
            pool.transient == short_lived,
            pool.individual_reset == individual_reset,
            pool.next_buffer_handle == 1,
            final(device).next_handle == old(device).next_handle + 1,
            final(device).graphics_family == old(device).graphics_family,
            final(device).transfer_family == old(device).transfer_family,
    {
        let queue_family_index = device.get_queue_family_index(queue_type);
        let handle = device.fresh_handle();
        CommandPool {
            command_pool: handle,
            queue_family_index,
            transient: short_lived,
            individual_reset,
            next_buffer_handle: 1,
        }
    }

    /// Allocates `count` fresh contexts from this pool, all primary or all
    /// secondary, each empty and ready to begin recording.
    pub fn allocate_command_buffers(&mut self, secondary: bool, count: u32) -> (buffers: Vec<
        CommandBuffer,
    >)
        requires
            old(self).can_allocate(count as int),
        ensures
            buffers@.len() == count,
            forall|k: int|
                0 <= k < count ==> {
                    &&& (#[trigger] buffers@[k]).command_buffer == old(self).next_buffer_handle + k
                    &&& buffers@[k].secondary == secondary
                    &&& !buffers@[k].recording
                    &&& buffers@[k].commands@ == Seq::<crate::command_buffer::Command>::empty()
                    &&& buffers@[k].wait_semaphores@ == Seq::<(u64, u64)>::empty()
                    &&& buffers@[k].stage_flags@ == Seq::<u64>::empty()
                    &&& buffers@[k].signal_semaphores@ == Seq::<(u64, u64)>::empty()
                },
            final(self).next_buffer_handle == old(self).next_buffer_handle + count,
            final(self).command_pool == old(self).command_pool,
            final(self).queue_family_index == old(self).queue_family_index,
            final(self).transient == old(self).transient,
            final(self).individual_reset == old(self).individual_reset,
    {
        let mut buffers: Vec<CommandBuffer> = Vec::new();
        let mut k: u32 = 0;
        while k < count
            invariant
                k <= count,
                old(self).can_allocate(count as int),
                self.next_buffer_handle == old(self).next_buffer_handle + k,
                self.command_pool == old(self).command_pool,
                self.queue_family_index == old(self).queue_family_index,
                self.transient == old(self).transient,
                self.individual_reset == old(self).individual_reset,
                buffers@.len() == k,
                forall|j: int|
                    0 <= j < k ==> {
                        &&& (#[trigger] buffers@[j]).command_buffer == old(
                            self,
                        ).next_buffer_handle + j
                        &&& buffers@[j].secondary == secondary
                        &&& !buffers@[j].recording
                        &&& buffers@[j].commands@ == Seq::<
                            crate::command_buffer::Command,
                        >::empty()
                        &&& buffers@[j].wait_semaphores@ == Seq::<(u64, u64)>::empty()
                        &&& buffers@[j].stage_flags@ == Seq::<u64>::empty()
                        &&& buffers@[j].signal_semaphores@ == Seq::<(u64, u64)>::empty()
                    },
            decreases count - k,
        {
            let handle = self.next_buffer_handle;
            self.next_buffer_handle = self.next_buffer_handle + 1;
            buffers.push(CommandBuffer::new(handle, secondary));
            k = k + 1;
        }
        buffers
    }
}

} // verus!
