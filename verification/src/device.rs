use vstd::prelude::*;

verus! {

/// The class of GPU work a physical execution engine accepts: graphics only,
/// transfer only, or a combined engine that accepts both.
#[allow(non_camel_case_types)]
#[derive(Clone, Copy, PartialEq, Eq, Structural, Debug)]
pub enum QueueType {
    GRAPHICS,
    TRANSFER,
    BOTH,
}

/// Whether a resource is allocated for exclusive use by one queue family or
/// for concurrent use by several.
#[allow(non_camel_case_types)]
#[derive(Clone, Copy, PartialEq, Eq, Structural, Debug)]
pub enum SharingMode {
    EXCLUSIVE,
    CONCURRENT,
}

/// The logical device as the transfer core sees it: the queue-family index
/// resolved for each role, plus a counter handing out fresh handle tokens for
/// objects created through the device.
///
/// The real driver device lives outside the verified core; its owner resolves
/// the family indices once at start-up and mirrors every handle token this
/// model hands out.
pub struct Device {
    /// Index of the family serving graphics work (a combined family in the
    /// single-engine topology).
    pub graphics_family: u32,
    /// Index of the dedicated transfer family, if the hardware exposes one.
    pub transfer_family: Option<u32>,
    /// Next unused handle token.
    pub next_handle: u64,
}

impl Device {
    /// True when `n` more handle tokens can still be handed out.
    pub open spec fn can_allocate(self, n: int) -> bool {
        self.next_handle + n <= u64::MAX
    }

    /// The queue-family index that serves the given role: transfer work goes
    /// to the dedicated transfer family when one exists, everything else (and
    /// transfer work on single-engine hardware) goes to the graphics family.
    pub open spec fn resolved_family(self, queue_type: QueueType) -> u32 {
        if queue_type is TRANSFER && self.transfer_family is Some {
            self.transfer_family->0
        } else {
            self.graphics_family
        }
    }

    /// The distinct family indices serving the given roles, first occurrence
    /// first.
    pub open spec fn resolved_families(self, queue_types: Seq<QueueType>) -> Seq<u32>
        decreases queue_types.len(),
    {
        if queue_types.len() == 0 {
            Seq::empty()
        } else {
            let rest = self.resolved_families(queue_types.drop_last());
            let family = self.resolved_family(queue_types.last());
            if rest.contains(family) {
                rest
            } else {
                rest.push(family)
            }
        }
    }

    pub fn new(graphics_family: u32, transfer_family: Option<u32>) -> (device: Device)
        ensures
            device.graphics_family == graphics_family,
            device.transfer_family == transfer_family,
            device.next_handle == 1,
    {
        Device { graphics_family, transfer_family, next_handle: 1 }
    }

    /// Hands out the next unused handle token.
    pub(crate) fn fresh_handle(&mut self) -> (handle: u64)
        requires
            old(self).can_allocate(1),
        ensures
            handle == old(self).next_handle,
            final(self).next_handle == old(self).next_handle + 1,
            final(self).graphics_family == old(self).graphics_family,
            final(self).transfer_family == old(self).transfer_family,
    {
        let handle = self.next_handle;
        self.next_handle = self.next_handle + 1;
        handle
    }

    /// Resolves one role to its family index.
    pub fn get_queue_family_index(&self, queue_type: QueueType) -> (index: u32)
        ensures
            index == self.resolved_family(queue_type),
    {
        match queue_type {
            QueueType::TRANSFER => match self.transfer_family {
                Some(index) => index,
                None => self.graphics_family,
            },
            _ => self.graphics_family,
        }
    }

    /// The distinct family indices serving the requested roles.
    pub fn get_queue_family_indices(&self, queue_types: &Vec<QueueType>) -> (indices: Vec<u32>)
        ensures
            indices@ == self.resolved_families(queue_types@),
    {
        let mut indices: Vec<u32> = Vec::new();
        let mut i: usize = 0;
        while i < queue_types.len()
            invariant
                i <= queue_types.len(),
                indices@ == self.resolved_families(queue_types@.take(i as int)),
            decreases queue_types.len() - i,
        {
            let family = self.get_queue_family_index(queue_types[i]);
            let already_present = contains_u32(&indices, family);
            if !already_present {
                indices.push(family);
            }
            proof {
                assert(queue_types@.take(i + 1 as int).drop_last() =~= queue_types@.take(
                    i as int,
                ));
                assert(queue_types@.take(i + 1 as int).last() == queue_types@[i as int]);
            }
            i = i + 1;
        }
        proof {
            assert(queue_types@.take(queue_types@.len() as int) =~= queue_types@);
        }
        indices
    }
}

/// Linear membership test on a vector of family indices.
fn contains_u32(values: &Vec<u32>, x: u32) -> (present: bool)
    ensures
        present == values@.contains(x),
{
    let mut i: usize = 0;
    while i < values.len()
        invariant
            i <= values.len(),
            forall|j: int| 0 <= j < i ==> values@[j] != x,
        decreases values.len() - i,
    {
        if values[i] == x {
            return true;
        }
        i = i + 1;
    }
    false
}

} // verus!
