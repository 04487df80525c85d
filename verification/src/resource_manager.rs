use vstd::prelude::*;

use crate::command_buffer::CommandBuffer;
use crate::command_buffer::CommandBufferSubmitInfo;
use crate::command_buffer::CommandBufferView;
use crate::command_buffer::CommandView;
use crate::command_buffer::ImageBarrier;
use crate::command_buffer::SemaphoreSubmitOp;
use crate::command_buffer::Submission;
use crate::command_buffer::all_signal_ops;
use crate::command_buffer::all_wait_ops;
use crate::command_buffer::command_views;
use crate::command_buffer::info_signal_ops;
use crate::command_buffer::info_wait_ops;
use crate::command_buffer::submit_info_views;
use crate::command_pool::CommandPool;
use crate::device::Device;
use crate::device::QueueType;
use crate::error::TransferError;
use crate::resource_queue::BufferCopyDestination;
use crate::resource_queue::BufferCopyInfoView;
use crate::resource_queue::ResourceQueue;
use crate::resource_queue::descriptor_views;
use crate::sync::Semaphore;
use crate::sync::SemaphoreType;

verus! {

/// The standby size of the process pool: how many reusable execution contexts
/// are created up front and kept across load spikes.
pub const TARGET_PROCESS_COUNT: usize = 3;

/// One reusable execution unit: a recordable transfer context paired with its
/// timeline progress counter. `finished_value` is the counter value whose
/// arrival means the last submitted batch has executed; a busy process must
/// not be re-recorded or reset until then.
#[derive(Debug)]
pub struct Process {
    pub command_buffer: CommandBuffer,
    pub semaphore: Semaphore,
    pub finished_value: u64,
    pub busy: bool,
}

/// Mathematical image of a process.
#[verifier::ext_equal]
pub struct ProcessView {
    pub command_buffer: CommandBufferView,
    pub semaphore: Semaphore,
    pub finished_value: u64,
    pub busy: bool,
}

impl View for Process {
    type V = ProcessView;

    open spec fn view(&self) -> ProcessView {
        ProcessView {
            command_buffer: self.command_buffer@,
            semaphore: self.semaphore,
            finished_value: self.finished_value,
            busy: self.busy,
        }
    }
}

/// The views of a process pool, in pool order.
pub open spec fn processes_view(processes: Seq<Process>) -> Seq<ProcessView> {
    processes.map_values(|process: Process| process@)
}

/// Structural invariant of one process: its counter is a timeline counter
/// observed one short of the expected completion value, and its context sits
/// between recordings with no semaphore operations left attached.
pub open spec fn process_wf(process: ProcessView) -> bool {
    &&& process.semaphore.semaphore_type is TIMELINE
    &&& process.finished_value == process.semaphore.value + 1
    &&& !process.command_buffer.recording
    &&& !process.command_buffer.secondary
    &&& process.command_buffer.wait_semaphores.len() == 0
    &&& process.command_buffer.stage_flags.len() == 0
    &&& process.command_buffer.signal_semaphores.len() == 0
}

/// A process as it leaves the pool allocator: fresh context, counter at zero,
/// expecting completion value one.
pub open spec fn fresh_process(cb_handle: u64, sem_handle: u64, busy: bool) -> ProcessView {
    ProcessView {
        command_buffer: CommandBufferView {
            command_buffer: cb_handle,
            secondary: false,
            recording: false,
            commands: Seq::empty(),
            wait_semaphores: Seq::empty(),
            stage_flags: Seq::empty(),
            signal_semaphores: Seq::empty(),
        },
        semaphore: Semaphore {
            semaphore: sem_handle,
            semaphore_type: SemaphoreType::TIMELINE,
            value: 0,
        },
        finished_value: 1,
        busy,
    }
}

/// Whether any process in the pool is free.
pub open spec fn has_free(processes: Seq<ProcessView>) -> bool {
    exists|i: int| 0 <= i < processes.len() && !processes[i].busy
}

/// The index of the first free process; meaningful only when one exists.
pub open spec fn first_free(processes: Seq<ProcessView>) -> int
    decreases processes.len(),
{
    if processes.len() == 0 {
        0
    } else if !processes[0].busy {
        0
    } else {
        1 + first_free(processes.drop_first())
    }
}

/// A process marked busy.
pub open spec fn mark_busy(process: ProcessView) -> ProcessView {
    ProcessView { busy: true, ..process }
}

/// What acquiring a process does to the pool: the first free process is
/// marked busy, or, with none free, exactly one fresh process (with the given
/// context and counter handles) is appended already busy. Returns the new
/// pool and the index of the chosen process.
pub open spec fn acquire_model(processes: Seq<ProcessView>, cb_handle: u64, sem_handle: u64) -> (
    Seq<ProcessView>,
    int,
) {
    if has_free(processes) {
        let i = first_free(processes);
        (processes.update(i, mark_busy(processes[i])), i)
    } else {
        (processes.push(fresh_process(cb_handle, sem_handle, true)), processes.len() as int)
    }
}

/// `first_free` really is the first free index: everything before it is busy.
pub proof fn lemma_first_free(processes: Seq<ProcessView>, i: int)
    requires
        0 <= i < processes.len(),
        !processes[i].busy,
        forall|j: int| 0 <= j < i ==> processes[j].busy,
    ensures
        first_free(processes) == i,
        has_free(processes),
    decreases i,
{
    if i == 0 {
    } else {
        assert(processes.drop_first() =~= processes.subrange(1, processes.len() as int));
        lemma_first_free(processes.drop_first(), i - 1);
    }
}

/// The buffer-to-buffer copies of a batch, one per buffer-destination
/// descriptor, in drain order.
pub open spec fn copy_commands(ops: Seq<BufferCopyInfoView>) -> Seq<CommandView>
    decreases ops.len(),
{
    if ops.len() == 0 {
        Seq::empty()
    } else {
        copy_commands(ops.drop_last()) + (match ops.last().dst {
            BufferCopyDestination::BUFFER(dst) => seq![
                CommandView::CopyBuffer { src: ops.last().buff, dst, size: ops.last().size },
            ],
            BufferCopyDestination::IMAGE(_) => Seq::empty(),
        })
    }
}

/// The ownership-transfer barriers of a batch, one per image descriptor, in
/// drain order: memory-write released, layout undefined to the image's target
/// layout, ownership from the transfer family to the graphics family.
pub open spec fn batch_barriers(
    ops: Seq<BufferCopyInfoView>,
    src_family: u32,
    dst_family: u32,
) -> Seq<ImageBarrier>
    decreases ops.len(),
{
    if ops.len() == 0 {
        Seq::empty()
    } else {
        batch_barriers(ops.drop_last(), src_family, dst_family) + (match ops.last().dst {
            BufferCopyDestination::IMAGE(info) => seq![
                ImageBarrier {
                    image: info.image,
                    new_layout: info.layout,
                    aspect: info.aspect,
                    src_queue_family: src_family,
                    dst_queue_family: dst_family,
                },
            ],
            BufferCopyDestination::BUFFER(_) => Seq::empty(),
        })
    }
}

/// The full command stream of one submission: the buffer copies in drain
/// order, then, exactly when the batch contains an image, one single pipeline
/// barrier carrying every image barrier of the batch.
pub open spec fn recorded_commands(
    ops: Seq<BufferCopyInfoView>,
    src_family: u32,
    dst_family: u32,
) -> Seq<CommandView> {
    copy_commands(ops) + (if batch_barriers(ops, src_family, dst_family).len() > 0 {
        seq![
            CommandView::PipelineBarrier {
                image_barriers: batch_barriers(ops, src_family, dst_family),
            },
        ]
    } else {
        Seq::empty()
    })
}

/// A process right after submitting a batch: the recorded stream sits in its
/// closed context, the semaphore lists are drained again, and counter and
/// expected value are untouched.
pub open spec fn submitted_process(
    process: ProcessView,
    ops: Seq<BufferCopyInfoView>,
    src_family: u32,
    dst_family: u32,
) -> ProcessView {
    ProcessView {
        command_buffer: CommandBufferView {
            commands: recorded_commands(ops, src_family, dst_family),
            ..process.command_buffer
        },
        ..process
    }
}

/// One process after one observation of its counter: on reaching the
/// expected completion value the process is freed, its context is reset, and
/// the expected value moves one higher; otherwise it is untouched.
pub open spec fn complete_step(process: ProcessView, observed: u64) -> ProcessView {
    if observed == process.finished_value {
        ProcessView {
            busy: false,
            finished_value: (observed + 1) as u64,
            semaphore: Semaphore { value: observed, ..process.semaphore },
            command_buffer: CommandBufferView { commands: Seq::empty(), ..process.command_buffer },
        }
    } else {
        process
    }
}

/// Every process after one observation pass.
pub open spec fn complete_all(ps: Seq<ProcessView>, observed: Seq<u64>) -> Seq<ProcessView> {
    Seq::new(ps.len(), |i: int| complete_step(ps[i], observed[i]))
}

/// How many processes the pool holds beyond the standby target.
pub open spec fn pool_excess(len: int, standby: int) -> int {
    if len > standby {
        len - standby
    } else {
        0
    }
}

/// Removes free processes, oldest first, while the removal budget lasts;
/// busy processes always stay.
pub open spec fn compact(ps: Seq<ProcessView>, over: int) -> Seq<ProcessView>
    decreases ps.len(),
{
    if ps.len() == 0 {
        ps
    } else if over > 0 && !ps[0].busy {
        compact(ps.drop_first(), over - 1)
    } else {
        seq![ps[0]] + compact(ps.drop_first(), over)
    }
}

/// What one update pass does to the pool: every process whose counter has
/// reached its expected value is freed and reset, then as many free processes
/// as the pool is over target are removed, oldest first.
pub open spec fn update_model(ps: Seq<ProcessView>, observed: Seq<u64>, standby: int) -> Seq<
    ProcessView,
> {
    compact(complete_all(ps, observed), pool_excess(ps.len() as int, standby))
}

/// With no removal budget, or nothing removable, compaction keeps the pool
/// as it is.
pub proof fn lemma_compact_noop(ps: Seq<ProcessView>, over: int)
    requires
        over == 0 || forall|i: int| 0 <= i < ps.len() ==> (#[trigger] ps[i]).busy,
    ensures
        compact(ps, over) == ps,
    decreases ps.len(),
{
    if ps.len() == 0 {
    } else {
        assert(ps.drop_first() =~= ps.subrange(1, ps.len() as int));
        lemma_compact_noop(ps.drop_first(), over);
        assert(compact(ps, over) =~= ps);
    }
}

/// Compaction removes at most `over` processes, and stops short of that
/// budget only when every surviving process is busy.
pub proof fn lemma_compact_len(ps: Seq<ProcessView>, over: int)
    requires
        over >= 0,
    ensures
        ps.len() - over <= compact(ps, over).len() <= ps.len(),
        compact(ps, over).len() > ps.len() - over ==> forall|i: int|
            0 <= i < compact(ps, over).len() ==> (#[trigger] compact(ps, over)[i]).busy,
    decreases ps.len(),
{
    if ps.len() == 0 {
    } else {
        let tail = ps.drop_first();
        if over > 0 && !ps[0].busy {
            lemma_compact_len(tail, over - 1);
        } else {
            lemma_compact_len(tail, over);
            let r = compact(ps, over);
            assert(r == seq![ps[0]] + compact(tail, over));
            if r.len() > ps.len() - over {
                assert(compact(tail, over).len() > tail.len() - over);
                assert forall|i: int| 0 <= i < r.len() implies (#[trigger] r[i]).busy by {
                    if i == 0 {
                        assert(ps[0].busy || over == 0);
                        assert(over == 0 ==> r.len() == ps.len() > ps.len() - over);
                        if over == 0 {
                            lemma_compact_noop(ps, 0);
                        }
                        assert(ps[0].busy);
                    } else {
                        assert(r[i] == compact(tail, over)[i - 1]);
                    }
                };
            }
        }
    }
}

/// Every process surviving compaction already sat in the pool that went in.
pub proof fn lemma_compact_elements(ps: Seq<ProcessView>, over: int)
    ensures
        forall|i: int|
            0 <= i < compact(ps, over).len() ==> ps.contains(#[trigger] compact(ps, over)[i]),
    decreases ps.len(),
{
    if ps.len() == 0 {
    } else {
        let tail = ps.drop_first();
        lemma_compact_elements(tail, over - 1);
        lemma_compact_elements(tail, over);
        assert forall|i: int| 0 <= i < compact(ps, over).len() implies ps.contains(
            #[trigger] compact(ps, over)[i],
        ) by {
            let r = compact(ps, over);
            if over > 0 && !ps[0].busy {
                assert(r[i] == compact(tail, over - 1)[i]);
                assert(tail.contains(r[i]));
                let j = choose|j: int| 0 <= j < tail.len() && tail[j] == r[i];
                assert(ps[j + 1] == r[i]);
            } else if i == 0 {
                assert(r[0] == ps[0]);
            } else {
                assert(r[i] == compact(tail, over)[i - 1]);
                assert(tail.contains(r[i]));
                let j = choose|j: int| 0 <= j < tail.len() && tail[j] == r[i];
                assert(ps[j + 1] == r[i]);
            }
        };
    }
}

/// Law (completion-detection idempotence): an update pass that observes no
/// counter at its expected value leaves every process, every expected
/// completion value, and the pool size unchanged. After any update pass the
/// pool is in such a state with respect to its own counters, so repeated
/// updates without new completions change nothing.
pub proof fn lemma_update_idempotent(ps: Seq<ProcessView>, observed: Seq<u64>, standby: int)
    requires
        observed.len() == ps.len(),
        forall|i: int| 0 <= i < ps.len() ==> process_wf(#[trigger] ps[i]),
        forall|i: int|
            0 <= i < observed.len() ==> (#[trigger] observed[i]) != ps[i].finished_value,
        ps.len() <= standby || forall|i: int| 0 <= i < ps.len() ==> (#[trigger] ps[i]).busy,
    ensures
        update_model(ps, observed, standby) == ps,
{
    assert(complete_all(ps, observed) =~~= ps);
    lemma_compact_noop(ps, pool_excess(ps.len() as int, standby));
}

/// After one update pass the pool is settled: it is within the standby
/// target, or everything left is busy — so a following pass that observes
/// the same counter values removes nothing more (see
/// `lemma_update_idempotent`).
pub proof fn lemma_update_settles(ps: Seq<ProcessView>, observed: Seq<u64>, standby: int)
    requires
        standby >= 0,
        observed.len() == ps.len(),
        forall|i: int| 0 <= i < ps.len() ==> process_wf(#[trigger] ps[i]),
        forall|i: int| 0 <= i < observed.len() ==> (#[trigger] observed[i]) < u64::MAX,
    ensures
        ({
            let settled = update_model(ps, observed, standby);
            &&& settled.len() <= standby || forall|i: int|
                0 <= i < settled.len() ==> (#[trigger] settled[i]).busy
            &&& forall|i: int| 0 <= i < settled.len() ==> process_wf(#[trigger] settled[i])
            &&& forall|i: int|
                0 <= i < settled.len() ==> (#[trigger] settled[i]).semaphore.value
                    != settled[i].finished_value
        }),
{
    let completed = complete_all(ps, observed);
    let over = pool_excess(ps.len() as int, standby);
    let settled = update_model(ps, observed, standby);
    assert forall|i: int| 0 <= i < completed.len() implies process_wf(#[trigger] completed[i]) by {
        assert(completed[i] == complete_step(ps[i], observed[i]));
    };
    lemma_compact_len(completed, over);
    if settled.len() > standby {
        assert(settled.len() > ps.len() - over);
    }
    lemma_compact_elements(completed, over);
    assert forall|i: int| 0 <= i < settled.len() implies process_wf(#[trigger] settled[i]) by {
        assert(completed.contains(settled[i]));
        let j = choose|j: int| 0 <= j < completed.len() && completed[j] == settled[i];
        assert(process_wf(completed[j]));
    };
}

/// Repeated acquisition: the pool after `handles.len()` acquisitions in a
/// row, each growth step drawing its context and counter handles from the
/// corresponding entry.
pub open spec fn acquire_n(ps: Seq<ProcessView>, handles: Seq<(u64, u64)>) -> Seq<ProcessView>
    decreases handles.len(),
{
    if handles.len() == 0 {
        ps
    } else {
        acquire_model(
            acquire_n(ps, handles.drop_last()),
            handles.last().0,
            handles.last().1,
        ).0
    }
}

/// Acquiring `k <= len` times from an all-free pool marks exactly the first
/// `k` processes busy and grows nothing.
pub proof fn lemma_acquire_n_fills(ps: Seq<ProcessView>, handles: Seq<(u64, u64)>)
    requires
        forall|i: int| 0 <= i < ps.len() ==> !(#[trigger] ps[i]).busy,
        handles.len() <= ps.len(),
    ensures
        acquire_n(ps, handles).len() == ps.len(),
        forall|i: int|
            0 <= i < handles.len() ==> (#[trigger] acquire_n(ps, handles)[i]) == mark_busy(ps[i]),
        forall|i: int|
            handles.len() <= i < ps.len() ==> (#[trigger] acquire_n(ps, handles)[i]) == ps[i],
    decreases handles.len(),
{
    if handles.len() == 0 {
    } else {
        let k = handles.len() - 1;
        lemma_acquire_n_fills(ps, handles.drop_last());
        let prev = acquire_n(ps, handles.drop_last());
        assert(!prev[k].busy);
        lemma_first_free(prev, k);
        assert(acquire_n(ps, handles) =~= prev.update(k, mark_busy(prev[k])));
    }
}

/// Law (process reuse bound): a standby pool of `s` free processes serves
/// `s + 1` overlapping submissions by growing to exactly `s + 1` busy
/// processes; one update pass that observes all of them complete frees them
/// and shrinks the pool back to exactly `s`.
pub proof fn lemma_process_reuse_bound(
    ps: Seq<ProcessView>,
    handles: Seq<(u64, u64)>,
    standby: int,
)
    requires
        standby == ps.len(),
        forall|i: int| 0 <= i < ps.len() ==> !(#[trigger] ps[i]).busy,
        handles.len() == ps.len() + 1,
    ensures
        ({
            let grown = acquire_n(ps, handles);
            let observed = Seq::new(grown.len(), |i: int| grown[i].finished_value);
            let shrunk = update_model(grown, observed, standby);
            &&& grown.len() == ps.len() + 1
            &&& forall|i: int| 0 <= i < grown.len() ==> (#[trigger] grown[i]).busy
            &&& shrunk.len() == standby
            &&& forall|i: int| 0 <= i < shrunk.len() ==> !(#[trigger] shrunk[i]).busy
        }),
{
    let filled = acquire_n(ps, handles.drop_last());
    lemma_acquire_n_fills(ps, handles.drop_last());
    assert(forall|i: int| 0 <= i < filled.len() ==> (#[trigger] filled[i]).busy);
    assert(!has_free(filled));
    let grown = acquire_n(ps, handles);
    assert(grown == filled.push(fresh_process(handles.last().0, handles.last().1, true)));
    let observed = Seq::new(grown.len(), |i: int| grown[i].finished_value);
    let completed = complete_all(grown, observed);
    assert forall|i: int| 0 <= i < completed.len() implies !(#[trigger] completed[i]).busy by {
        assert(completed[i] == complete_step(grown[i], observed[i]));
    };
    let over = pool_excess(grown.len() as int, standby);
    assert(over == 1);
    let shrunk = update_model(grown, observed, standby);
    assert(completed.len() > 0 && !completed[0].busy);
    assert(shrunk == compact(completed.drop_first(), 0));
    lemma_compact_noop(completed.drop_first(), 0);
    assert(shrunk =~= completed.drop_first());
    assert forall|i: int| 0 <= i < shrunk.len() implies !(#[trigger] shrunk[i]).busy by {
        assert(shrunk[i] == completed[i + 1]);
    };
}

/// The scheduler: a pool of reusable processes fed from a dedicated
/// transfer-role command pool, grown on demand and shrunk back toward the
/// standby size as the GPU finishes.
#[derive(Debug)]
pub struct ResourceManager {
    pub command_pool: CommandPool,
    pub processes: Vec<Process>,
    pub standby_count: usize,
}

impl ResourceManager {
    /// Structural invariant: every pooled process is well formed.
    pub open spec fn wf(self) -> bool {
        forall|i: int|
            0 <= i < self.processes@.len() ==> process_wf(#[trigger] self.processes@[i]@)
    }

    /// Creates the scheduler with the standby pool size of the observed
    /// design.
    pub fn new(device: &mut Device) -> (manager: ResourceManager)
        requires
            old(device).can_allocate(1 + TARGET_PROCESS_COUNT),
        ensures
            manager.wf(),
            manager.standby_count == TARGET_PROCESS_COUNT,
            manager.processes@.len() == TARGET_PROCESS_COUNT,
            forall|i: int|
                0 <= i < TARGET_PROCESS_COUNT ==> (#[trigger] manager.processes@[i])@
                    == fresh_process(
                    (1 + i) as u64,
                    (old(device).next_handle + 1 + i) as u64,
                    false,
                ),
            manager.command_pool.command_pool == old(device).next_handle,
            manager.command_pool.queue_family_index == old(device).resolved_family(
                QueueType::TRANSFER,
            ),
            !manager.command_pool.transient,
            manager.command_pool.individual_reset,
            manager.command_pool.next_buffer_handle == 1 + TARGET_PROCESS_COUNT,
            final(device).next_handle == old(device).next_handle + 1 + TARGET_PROCESS_COUNT,
            final(device).graphics_family == old(device).graphics_family,
            final(device).transfer_family == old(device).transfer_family,
    {
        ResourceManager::with_standby_count(device, TARGET_PROCESS_COUNT)
    }

    /// Creates the scheduler with its own transfer-role command pool
    /// (individually resettable, not transient: contexts are reused many
    /// times) and a standby batch of `standby_count` free processes.
    pub fn with_standby_count(device: &mut Device, standby_count: usize) -> (manager:
        ResourceManager)
        requires
            old(device).can_allocate(1 + standby_count),
            standby_count + 1 <= u64::MAX,
        ensures
            manager.wf(),
            manager.standby_count == standby_count,
            manager.processes@.len() == standby_count,
            forall|i: int|
                0 <= i < standby_count ==> (#[trigger] manager.processes@[i])@ == fresh_process(
                    (1 + i) as u64,
                    (old(device).next_handle + 1 + i) as u64,
                    false,
                ),
            manager.command_pool.command_pool == old(device).next_handle,
            manager.command_pool.queue_family_index == old(device).resolved_family(
                QueueType::TRANSFER,
            ),
            !manager.command_pool.transient,
            manager.command_pool.individual_reset,
            manager.command_pool.next_buffer_handle == 1 + standby_count,
            final(device).next_handle == old(device).next_handle + 1 + standby_count,
            final(device).graphics_family == old(device).graphics_family,
            final(device).transfer_family == old(device).transfer_family,
    {
        let mut command_pool = CommandPool::new(device, QueueType::TRANSFER, false, true);
        let processes = ResourceManager::create_processes(device, &mut command_pool, standby_count);
        ResourceManager { command_pool, processes, standby_count }
    }

    /// Allocates `process_count` fresh, free processes from the given pool.
    fn create_processes(
        device: &mut Device,
        command_pool: &mut CommandPool,
        process_count: usize,
    ) -> (processes: Vec<Process>)
        requires
            old(device).can_allocate(process_count as int),
            old(command_pool).can_allocate(process_count as int),
        ensures
            processes@.len() == process_count,
            forall|i: int|
                0 <= i < process_count ==> (#[trigger] processes@[i])@ == fresh_process(
                    (old(command_pool).next_buffer_handle + i) as u64,
                    (old(device).next_handle + i) as u64,
                    false,
                ),
            final(device).next_handle == old(device).next_handle + process_count,
            final(device).graphics_family == old(device).graphics_family,
            final(device).transfer_family == old(device).transfer_family,
            final(command_pool).next_buffer_handle == old(command_pool).next_buffer_handle
                + process_count,
            final(command_pool).command_pool == old(command_pool).command_pool,
            final(command_pool).queue_family_index == old(command_pool).queue_family_index,
            final(command_pool).transient == old(command_pool).transient,
            final(command_pool).individual_reset == old(command_pool).individual_reset,
    {
        let mut processes: Vec<Process> = Vec::new();
        let mut k: usize = 0;
        while k < process_count
            invariant
                k <= process_count,
                old(device).can_allocate(process_count as int),
                old(command_pool).can_allocate(process_count as int),
                device.next_handle == old(device).next_handle + k,
                device.graphics_family == old(device).graphics_family,
                device.transfer_family == old(device).transfer_family,
                command_pool.next_buffer_handle == old(command_pool).next_buffer_handle + k,
                command_pool.command_pool == old(command_pool).command_pool,
                command_pool.queue_family_index == old(command_pool).queue_family_index,
                command_pool.transient == old(command_pool).transient,
                command_pool.individual_reset == old(command_pool).individual_reset,
                processes@.len() == k,
                forall|i: int|
                    0 <= i < k ==> (#[trigger] processes@[i])@ == fresh_process(
                        (old(command_pool).next_buffer_handle + i) as u64,
                        (old(device).next_handle + i) as u64,
                        false,
                    ),
            decreases process_count - k,
        {
            let mut command_buffers = command_pool.allocate_command_buffers(false, 1);
            let command_buffer = command_buffers.remove(0);
            let semaphore = Semaphore::new(device, SemaphoreType::TIMELINE, 0);
            let process = Process { command_buffer, semaphore, finished_value: 1, busy: false };
            proof {
                assert(process@ =~~= fresh_process(
                    (old(command_pool).next_buffer_handle + k) as u64,
                    (old(device).next_handle + k) as u64,
                    false,
                ));
            }
            processes.push(process);
            k = k + 1;
        }
        processes
    }

    /// Picks the first free process and marks it busy; with none free, grows
    /// the pool by exactly one fresh process. Returns the chosen index.
    fn get_free_process(&mut self, device: &mut Device) -> (index: usize)
        requires
            old(self).wf(),
            old(device).can_allocate(1),
            old(self).command_pool.can_allocate(1),
        ensures
            final(self).wf(),
            ({
                let (pool2, chosen) = acquire_model(
                    processes_view(old(self).processes@),
                    old(self).command_pool.next_buffer_handle,
                    old(device).next_handle,
                );
                &&& processes_view(final(self).processes@) == pool2
                &&& index as int == chosen
                &&& index < final(self).processes@.len()
            }),
            has_free(processes_view(old(self).processes@)) ==> *final(device) == *old(device)
                && final(self).command_pool == old(self).command_pool,
            !has_free(processes_view(old(self).processes@)) ==> ({
                &&& final(device).next_handle == old(device).next_handle + 1
                &&& final(device).graphics_family == old(device).graphics_family
                &&& final(device).transfer_family == old(device).transfer_family
                &&& final(self).command_pool.next_buffer_handle == old(
                    self,
                ).command_pool.next_buffer_handle + 1
                &&& final(self).command_pool.command_pool == old(self).command_pool.command_pool
                &&& final(self).command_pool.queue_family_index == old(
                    self,
                ).command_pool.queue_family_index
                &&& final(self).command_pool.transient == old(self).command_pool.transient
                &&& final(self).command_pool.individual_reset == old(
                    self,
                ).command_pool.individual_reset
            }),
            final(self).standby_count == old(self).standby_count,
    {
        let ghost old_views = processes_view(old(self).processes@);
        let mut i: usize = 0;
        while i < self.processes.len()
            invariant
                *self == *old(self),
                old(self).wf(),
                old_views == processes_view(old(self).processes@),
                i <= self.processes.len(),
                forall|j: int| 0 <= j < i ==> old_views[j].busy,
            decreases self.processes.len() - i,
        {
            if !self.processes[i].busy {
                let mut process = self.processes.remove(i);
                process.busy = true;
                self.processes.insert(i, process);
                proof {
                    lemma_first_free(old_views, i as int);
                    assert(processes_view(self.processes@) =~~= old_views.update(
                        i as int,
                        mark_busy(old_views[i as int]),
                    ));
                    assert forall|k: int| 0 <= k < self.processes@.len() implies process_wf(
                        #[trigger] self.processes@[k]@,
                    ) by {
                        assert(self.processes@[k]@ == processes_view(self.processes@)[k]);
                        assert(old_views[k] == old(self).processes@[k]@);
                        assert(process_wf(old(self).processes@[k]@));
                    };
                }
                return i;
            }
            i = i + 1;
        }
        proof {
            assert(!has_free(old_views));
        }
        let mut command_buffers = self.command_pool.allocate_command_buffers(false, 1);
        let command_buffer = command_buffers.remove(0);
        let semaphore = Semaphore::new(device, SemaphoreType::TIMELINE, 0);
        let process = Process { command_buffer, semaphore, finished_value: 1, busy: true };
        let index = self.processes.len();
        proof {
            assert(process@ =~~= fresh_process(
                old(self).command_pool.next_buffer_handle,
                old(device).next_handle,
                true,
            ));
        }
        self.processes.push(process);
        proof {
            assert(processes_view(self.processes@) =~~= old_views.push(
                fresh_process(
                    old(self).command_pool.next_buffer_handle,
                    old(device).next_handle,
                    true,
                ),
            ));
        }
        index
    }

    /// Drains the queue and submits its whole batch on one process: a copy
    /// command per buffer descriptor, recorded in drain order, then a single
    /// batched pipeline barrier transferring every image of the batch from
    /// the transfer family to the graphics family; the submission signals the
    /// process's counter at its expected completion value and carries no
    /// fence. The first free process is used; with none free the pool grows
    /// by exactly one. Returns the chosen index and the submission for the
    /// driver. Draining an empty queue is a caller error, reported with
    /// nothing changed.
    pub fn submit_queue(&mut self, device: &mut Device, queue: &mut ResourceQueue) -> (result:
        Result<(usize, Submission), TransferError>)
        requires
            old(self).wf(),
            old(device).can_allocate(1),
            old(self).command_pool.can_allocate(1),
        ensures
            final(self).wf(),
            final(self).standby_count == old(self).standby_count,
            old(queue)@.len() == 0 ==> ({
                &&& result matches Err(e) && e == TransferError::EmptyQueue
                &&& *final(self) == *old(self)
                &&& *final(device) == *old(device)
                &&& final(queue)@ == old(queue)@
            }),
            old(queue)@.len() > 0 ==> ({
                let ops = old(queue)@;
                let (pool2, chosen) = acquire_model(
                    processes_view(old(self).processes@),
                    old(self).command_pool.next_buffer_handle,
                    old(device).next_handle,
                );
                let src_family = old(device).resolved_family(QueueType::TRANSFER);
                let dst_family = old(device).resolved_family(QueueType::GRAPHICS);
                let chosen_process = pool2[chosen];
                &&& result matches Ok(r) && ({
                    let (index, submission) = r;
                    &&& index as int == chosen
                    &&& processes_view(final(self).processes@) == pool2.update(
                        chosen,
                        submitted_process(chosen_process, ops, src_family, dst_family),
                    )
                    &&& submission.queue_type is TRANSFER
                    &&& submission.fence is None
                    &&& submission.command_buffers@ == seq![
                        chosen_process.command_buffer.command_buffer,
                    ]
                    &&& submission.wait_semaphores@ == Seq::<SemaphoreSubmitOp>::empty()
                    &&& submission.signal_semaphores@ == seq![
                        SemaphoreSubmitOp {
                            semaphore: chosen_process.semaphore.semaphore,
                            value: chosen_process.finished_value,
                            stage_mask: 0,
                        },
                    ]
                })
                &&& final(queue)@.len() == 0
                &&& final(device).graphics_family == old(device).graphics_family
                &&& final(device).transfer_family == old(device).transfer_family
                &&& (has_free(processes_view(old(self).processes@)) ==> ({
                    &&& final(device).next_handle == old(device).next_handle
                    &&& final(self).command_pool == old(self).command_pool
                }))
                &&& (!has_free(processes_view(old(self).processes@)) ==> ({
                    &&& final(device).next_handle == old(device).next_handle + 1
                    &&& final(self).command_pool.next_buffer_handle == old(
                        self,
                    ).command_pool.next_buffer_handle + 1
                    &&& final(self).command_pool.command_pool == old(
                        self,
                    ).command_pool.command_pool
                    &&& final(self).command_pool.queue_family_index == old(
                        self,
                    ).command_pool.queue_family_index
                    &&& final(self).command_pool.transient == old(self).command_pool.transient
                    &&& final(self).command_pool.individual_reset == old(
                        self,
                    ).command_pool.individual_reset
                }))
            }),
    {
        let copy_ops = match queue.drain_copy_ops() {
            Ok(ops) => ops,
            Err(e) => {
                return Err(e);
            },
        };
        let ghost ops = old(queue)@;
        let src_family = device.get_queue_family_index(QueueType::TRANSFER);
        let dst_family = device.get_queue_family_index(QueueType::GRAPHICS);
        let ghost pool_and_chosen = acquire_model(
            processes_view(old(self).processes@),
            old(self).command_pool.next_buffer_handle,
            old(device).next_handle,
        );
        let index = self.get_free_process(device);
        let ghost after_acquire = self.processes@;
        let mut process = self.processes.remove(index);
        let ghost chosen_process = process@;
        proof {
            assert(chosen_process == pool_and_chosen.0[index as int]);
            assert(process_wf(chosen_process));
        }
        process.command_buffer.begin(None);
        let mut image_barriers: Vec<ImageBarrier> = Vec::new();
        let mut i: usize = 0;
        while i < copy_ops.len()
            invariant
                i <= copy_ops.len(),
                ops == descriptor_views(copy_ops@),
                process.command_buffer.recording,
                command_views(process.command_buffer.commands@) == copy_commands(
                    ops.take(i as int),
                ),
                image_barriers@ == batch_barriers(ops.take(i as int), src_family, dst_family),
                process.busy == chosen_process.busy,
                process.semaphore == chosen_process.semaphore,
                process.finished_value == chosen_process.finished_value,
                process.command_buffer.command_buffer
                    == chosen_process.command_buffer.command_buffer,
                process.command_buffer.secondary == chosen_process.command_buffer.secondary,
                process.command_buffer.wait_semaphores@
                    == chosen_process.command_buffer.wait_semaphores,
                process.command_buffer.stage_flags@ == chosen_process.command_buffer.stage_flags,
                process.command_buffer.signal_semaphores@
                    == chosen_process.command_buffer.signal_semaphores,
            decreases copy_ops.len() - i,
        {
            let op = &copy_ops[i];
            proof {
                assert(ops[i as int] == copy_ops@[i as int]@);
            }
            match &op.dst {
                BufferCopyDestination::BUFFER(dst) => {
                    process.command_buffer.record_copy_buffer(op.buff, *dst, op.size);
                },
                BufferCopyDestination::IMAGE(img) => {
                    image_barriers.push(
                        ImageBarrier {
                            image: img.image,
                            new_layout: img.layout,
                            aspect: img.aspect,
                            src_queue_family: src_family,
                            dst_queue_family: dst_family,
                        },
                    );
                },
            }
            proof {
                assert(ops.take(i + 1 as int).drop_last() =~= ops.take(i as int));
                assert(ops.take(i + 1 as int).last() == ops[i as int]);
                assert(command_views(process.command_buffer.commands@) =~~= copy_commands(
                    ops.take(i + 1 as int),
                ));
                assert(image_barriers@ =~= batch_barriers(
                    ops.take(i + 1 as int),
                    src_family,
                    dst_family,
                ));
            }
            i = i + 1;
        }
        proof {
            assert(ops.take(ops.len() as int) =~= ops);
        }
        if image_barriers.len() > 0 {
            process.command_buffer.record_pipeline_barrier(image_barriers);
            proof {
                assert(command_views(process.command_buffer.commands@) =~~= recorded_commands(
                    ops,
                    src_family,
                    dst_family,
                ));
            }
        } else {
            proof {
                assert(command_views(process.command_buffer.commands@) =~~= recorded_commands(
                    ops,
                    src_family,
                    dst_family,
                ));
            }
        }
        process.command_buffer.end();
        let semaphore_handle = process.semaphore.get_semaphore();
        let signal_value = process.finished_value;
        let mut signals: Vec<(u64, u64)> = Vec::new();
        signals.push((semaphore_handle, signal_value));
        process.command_buffer.add_signal_semaphores(signals);
        let submit_info = process.command_buffer.get_submit_info(true);
        let mut submit_infos: Vec<CommandBufferSubmitInfo> = Vec::new();
        submit_infos.push(submit_info);
        proof {
            assert(submit_infos@[0]@.wf());
        }
        let submission = CommandBuffer::submit_buffers(None, QueueType::TRANSFER, &submit_infos);
        proof {
            let infos_v = submit_info_views(submit_infos@);
            assert(infos_v.drop_last() =~= Seq::<
                crate::command_buffer::CommandBufferSubmitInfoView,
            >::empty());
            assert(infos_v.last() == submit_infos@[0]@);
            assert(info_wait_ops(submit_infos@[0]@) =~= Seq::<SemaphoreSubmitOp>::empty());
            assert(info_signal_ops(submit_infos@[0]@) =~= seq![
                SemaphoreSubmitOp {
                    semaphore: chosen_process.semaphore.semaphore,
                    value: chosen_process.finished_value,
                    stage_mask: 0,
                },
            ]);
            assert(all_wait_ops(
                Seq::<crate::command_buffer::CommandBufferSubmitInfoView>::empty(),
            ) == Seq::<SemaphoreSubmitOp>::empty());
            assert(all_signal_ops(
                Seq::<crate::command_buffer::CommandBufferSubmitInfoView>::empty(),
            ) == Seq::<SemaphoreSubmitOp>::empty());
            assert(all_wait_ops(infos_v) =~= Seq::<SemaphoreSubmitOp>::empty());
            assert(all_signal_ops(infos_v) =~= seq![
                SemaphoreSubmitOp {
                    semaphore: chosen_process.semaphore.semaphore,
                    value: chosen_process.finished_value,
                    stage_mask: 0,
                },
            ]);
            assert(submission.command_buffers@ =~= seq![
                chosen_process.command_buffer.command_buffer,
            ]);
        }
        proof {
            assert(process@ =~~= submitted_process(chosen_process, ops, src_family, dst_family));
        }
        self.processes.insert(index, process);
        proof {
            assert(self.processes@ =~= after_acquire.update(index as int, process));
            assert(processes_view(self.processes@) =~~= pool_and_chosen.0.update(
                index as int,
                submitted_process(chosen_process, ops, src_family, dst_family),
            ));
            assert forall|k: int| 0 <= k < self.processes@.len() implies process_wf(
                #[trigger] self.processes@[k]@,
            ) by {
                assert(self.processes@[k]@ == processes_view(self.processes@)[k]);
                if k != index as int {
                    assert(pool_and_chosen.0[k] == after_acquire[k]@);
                    assert(process_wf(after_acquire[k]@));
                }
            };
        }
        Ok((index, submission))
    }

    /// One tick of completion detection: `observed[i]` is the current value
    /// of process `i`'s progress counter, read back from the driver. Every
    /// process whose counter has reached its expected value is freed, its
    /// context individually reset and its expected value advanced; then, if
    /// the pool is over the standby target, that many free processes are
    /// retired, oldest first, so the pool shrinks back toward target.
    pub fn update(&mut self, observed: &Vec<u64>)
        requires
            old(self).wf(),
            observed@.len() == old(self).processes@.len(),
            forall|i: int| 0 <= i < observed@.len() ==> observed@[i] < u64::MAX,
        ensures
            final(self).wf(),
            final(self).standby_count == old(self).standby_count,
            final(self).command_pool == old(self).command_pool,
            processes_view(final(self).processes@) == update_model(
                processes_view(old(self).processes@),
                observed@,
                old(self).standby_count as int,
            ),
    {
        let ghost old_views = processes_view(old(self).processes@);
        let ghost completed = complete_all(old_views, observed@);
        let total = self.processes.len();
        let mut over: usize = if total > self.standby_count {
            total - self.standby_count
        } else {
            0
        };
        let ghost over0 = over as int;
        let mut rest: Vec<Process> = Vec::new();
        core::mem::swap(&mut rest, &mut self.processes);
        let ghost orig = rest@;
        proof {
            assert(processes_view(self.processes@) =~= Seq::<ProcessView>::empty());
            assert(completed.skip(0) =~= completed);
            assert(compact(completed, over0) =~~= processes_view(self.processes@) + compact(
                completed.skip(0),
                over as int,
            ));
        }
        let mut i: usize = 0;
        while rest.len() > 0
            invariant
                i + rest@.len() == total,
                total == orig.len(),
                observed@.len() == orig.len(),
                forall|k: int| 0 <= k < observed@.len() ==> observed@[k] < u64::MAX,
                old_views == processes_view(orig),
                completed == complete_all(old_views, observed@),
                forall|k: int| 0 <= k < orig.len() ==> process_wf(#[trigger] orig[k]@),
                rest@ == orig.skip(i as int),
                compact(completed, over0) == processes_view(self.processes@) + compact(
                    completed.skip(i as int),
                    over as int,
                ),
                self.standby_count == old(self).standby_count,
                self.command_pool == old(self).command_pool,
                forall|k: int|
                    0 <= k < self.processes@.len() ==> process_wf(
                        #[trigger] self.processes@[k]@,
                    ),
            decreases rest@.len(),
        {
            let ghost over_before = over as int;
            let mut process = rest.remove(0);
            proof {
                assert(orig.skip(i as int)[0] == orig[i as int]);
                assert(process@ == old_views[i as int]);
                assert(rest@ =~= orig.skip(i + 1 as int));
                assert(process_wf(orig[i as int]@));
            }
            let observed_value = observed[i];
            if observed_value == process.finished_value {
                process.busy = false;
                process.finished_value = observed_value + 1;
                process.semaphore.value = observed_value;
                process.command_buffer.reset();
            }
            proof {
                assert(process@ =~~= complete_step(old_views[i as int], observed@[i as int]));
                assert(completed[i as int] == complete_step(
                    old_views[i as int],
                    observed@[i as int],
                ));
                assert(completed.skip(i as int)[0] == completed[i as int]);
                assert(completed.skip(i as int).drop_first() =~= completed.skip(i + 1 as int));
                assert(process_wf(process@));
            }
            if !process.busy && over > 0 {
                over = over - 1;
                proof {
                    assert(compact(completed.skip(i as int), over_before) == compact(
                        completed.skip(i + 1 as int),
                        over as int,
                    ));
                    assert(compact(completed, over0) =~~= processes_view(self.processes@)
                        + compact(completed.skip(i + 1 as int), over as int));
                }
            } else {
                let ghost kept_before = processes_view(self.processes@);
                self.processes.push(process);
                proof {
                    assert(processes_view(self.processes@) =~~= kept_before + seq![
                        completed[i as int],
                    ]);
                    assert(compact(completed.skip(i as int), over as int) =~~= seq![
                        completed[i as int],
                    ] + compact(completed.skip(i + 1 as int), over as int));
                    assert(compact(completed, over0) =~~= processes_view(self.processes@)
                        + compact(completed.skip(i + 1 as int), over as int));
                }
            }
            i = i + 1;
        }
        proof {
            assert(completed.skip(total as int) =~= Seq::<ProcessView>::empty());
            assert(compact(Seq::<ProcessView>::empty(), over as int) == Seq::<
                ProcessView,
            >::empty());
            assert(processes_view(self.processes@) =~~= compact(completed, over0));
        }
    }

    /// The number of processes currently pooled.
    pub fn process_count(&self) -> (count: usize)
        ensures
            count == self.processes@.len(),
    {
        self.processes.len()
    }

    /// Whether the process at `index` is busy.
    pub fn is_process_busy(&self, index: usize) -> (busy: bool)
        requires
            index < self.processes@.len(),
        ensures
            busy == self.processes@[index as int]@.busy,
    {
        self.processes[index].busy
    }

    /// The counter value whose arrival will free the process at `index`.
    pub fn process_expected_value(&self, index: usize) -> (value: u64)
        requires
            index < self.processes@.len(),
        ensures
            value == self.processes@[index as int]@.finished_value,
    {
        self.processes[index].finished_value
    }

    /// The progress-counter handle of the process at `index`.
    pub fn process_semaphore(&self, index: usize) -> (handle: u64)
        requires
            index < self.processes@.len(),
        ensures
            handle == self.processes@[index as int]@.semaphore.semaphore,
    {
        self.processes[index].semaphore.get_semaphore()
    }

    /// The context handle of the process at `index`.
    pub fn process_command_buffer(&self, index: usize) -> (handle: u64)
        requires
            index < self.processes@.len(),
        ensures
            handle == self.processes@[index as int]@.command_buffer.command_buffer,
    {
        self.processes[index].command_buffer.command_buffer
    }

    /// The command stream recorded in the context of the process at `index`.
    pub fn process_commands(&self, index: usize) -> (commands: &Vec<
        crate::command_buffer::Command,
    >)
        requires
            index < self.processes@.len(),
        ensures
            command_views(commands@) == self.processes@[index as int]@.command_buffer.commands,
    {
        &self.processes[index].command_buffer.commands
    }
}

} // verus!
