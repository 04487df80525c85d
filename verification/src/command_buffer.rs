use vstd::prelude::*;

use crate::device::QueueType;
use crate::image::ImageAspect;
use crate::image::ImageLayout;

verus! {

/// An ownership-transfer barrier entry for one image: memory-write access is
/// released, the layout moves from undefined to the image's target layout,
/// and ownership passes from the source to the destination queue family.
#[derive(Clone, Copy, PartialEq, Eq, Structural, Debug)]
pub struct ImageBarrier {
    pub image: u64,
    pub new_layout: ImageLayout,
    pub aspect: ImageAspect,
    pub src_queue_family: u32,
    pub dst_queue_family: u32,
}

/// One recorded GPU command of the transfer path.
#[derive(PartialEq, Eq, Debug)]
pub enum Command {
    /// Copy `size` bytes from the start of `src` to the start of `dst`.
    CopyBuffer { src: u64, dst: u64, size: usize },
    /// One pipeline barrier carrying a batch of image barriers.
    PipelineBarrier { image_barriers: Vec<ImageBarrier> },
}

/// Mathematical image of a recorded command.
#[verifier::ext_equal]
pub enum CommandView {
    CopyBuffer { src: u64, dst: u64, size: usize },
    PipelineBarrier { image_barriers: Seq<ImageBarrier> },
}

impl View for Command {
    type V = CommandView;

    open spec fn view(&self) -> CommandView {
        match self {
            Command::CopyBuffer { src, dst, size } => CommandView::CopyBuffer {
                src: *src,
                dst: *dst,
                size: *size,
            },
            Command::PipelineBarrier { image_barriers } => CommandView::PipelineBarrier {
                image_barriers: image_barriers@,
            },
        }
    }
}

/// The views of a sequence of recorded commands, in order.
pub open spec fn command_views(commands: Seq<Command>) -> Seq<CommandView> {
    commands.map_values(|command: Command| command@)
}

/// What a secondary context inherits from the render pass it records inside.
#[derive(Clone, Copy, PartialEq, Eq, Structural, Debug)]
pub struct RenderPassInheritanceInfo {
    pub render_pass: u64,
    pub subpass: u32,
    pub framebuffer: u64,
}

/// The inheritance record handed to the driver when a secondary context
/// begins recording; zero handles when no render-pass state is inherited.
#[derive(Clone, Copy, PartialEq, Eq, Structural, Debug)]
pub struct CommandBufferInheritanceInfo {
    pub render_pass: u64,
    pub subpass: u32,
    pub framebuffer: u64,
}

/// Everything one context contributes to a batched submission: its handle and
/// the semaphore operations attached to it. `stage_flags[i]` is the pipeline
/// stage mask paired with `wait_semaphores[i]`.
#[derive(Debug)]
pub struct CommandBufferSubmitInfo {
    pub command_buffer: u64,
    pub wait_semaphores: Vec<(u64, u64)>,
    pub stage_flags: Vec<u64>,
    pub signal_semaphores: Vec<(u64, u64)>,
}

/// Mathematical image of a submit info.
#[verifier::ext_equal]
pub struct CommandBufferSubmitInfoView {
    pub command_buffer: u64,
    pub wait_semaphores: Seq<(u64, u64)>,
    pub stage_flags: Seq<u64>,
    pub signal_semaphores: Seq<(u64, u64)>,
}

impl View for CommandBufferSubmitInfo {
    type V = CommandBufferSubmitInfoView;

    open spec fn view(&self) -> CommandBufferSubmitInfoView {
        CommandBufferSubmitInfoView {
            command_buffer: self.command_buffer,
            wait_semaphores: self.wait_semaphores@,
            stage_flags: self.stage_flags@,
            signal_semaphores: self.signal_semaphores@,
        }
    }
}

impl CommandBufferSubmitInfoView {
    /// The stage-mask list must pair off with the wait-semaphore list.
    pub open spec fn wf(self) -> bool {
        self.stage_flags.len() == self.wait_semaphores.len()
    }
}

/// The views of a sequence of submit infos, in order.
pub open spec fn submit_info_views(infos: Seq<CommandBufferSubmitInfo>) -> Seq<
    CommandBufferSubmitInfoView,
> {
    infos.map_values(|info: CommandBufferSubmitInfo| info@)
}

/// One semaphore operation inside a submission: the semaphore, the timeline
/// value waited for or signalled, and the pipeline stage mask it applies at
/// (zero for signal operations, which carry no stage in this path).
#[derive(Clone, Copy, PartialEq, Eq, Structural, Debug)]
pub struct SemaphoreSubmitOp {
    pub semaphore: u64,
    pub value: u64,
    pub stage_mask: u64,
}

/// One batched submission against a queue role, ready for the driver: the
/// contexts to execute and the flattened semaphore operations of all of them,
/// optionally gated by a fence.
#[derive(Debug)]
pub struct Submission {
    pub queue_type: QueueType,
    pub fence: Option<u64>,
    pub command_buffers: Vec<u64>,
    pub wait_semaphores: Vec<SemaphoreSubmitOp>,
    pub signal_semaphores: Vec<SemaphoreSubmitOp>,
}

/// The wait operations contributed by one submit info.
pub open spec fn info_wait_ops(info: CommandBufferSubmitInfoView) -> Seq<SemaphoreSubmitOp> {
    Seq::new(
        info.wait_semaphores.len(),
        |i: int|
            SemaphoreSubmitOp {
                semaphore: info.wait_semaphores[i].0,
                value: info.wait_semaphores[i].1,
                stage_mask: info.stage_flags[i],
            },
    )
}

/// The signal operations contributed by one submit info.
pub open spec fn info_signal_ops(info: CommandBufferSubmitInfoView) -> Seq<SemaphoreSubmitOp> {
    Seq::new(
        info.signal_semaphores.len(),
        |i: int|
            SemaphoreSubmitOp {
                semaphore: info.signal_semaphores[i].0,
                value: info.signal_semaphores[i].1,
                stage_mask: 0,
            },
    )
}

/// The wait operations of a whole batch, in submit-info order.
pub open spec fn all_wait_ops(infos: Seq<CommandBufferSubmitInfoView>) -> Seq<SemaphoreSubmitOp>
    decreases infos.len(),
{
    if infos.len() == 0 {
        Seq::empty()
    } else {
        all_wait_ops(infos.drop_last()) + info_wait_ops(infos.last())
    }
}

/// The signal operations of a whole batch, in submit-info order.
pub open spec fn all_signal_ops(infos: Seq<CommandBufferSubmitInfoView>) -> Seq<SemaphoreSubmitOp>
    decreases infos.len(),
{
    if infos.len() == 0 {
        Seq::empty()
    } else {
        all_signal_ops(infos.drop_last()) + info_signal_ops(infos.last())
    }
}

/// A recordable, resettable GPU command stream together with the semaphore
/// operations to attach at submission time. Primary contexts carry no
/// inheritance state; secondary ones receive it when recording begins.
#[derive(Debug)]
pub struct CommandBuffer {
    pub command_buffer: u64,
    pub secondary: bool,
    pub recording: bool,
    pub commands: Vec<Command>,
    pub wait_semaphores: Vec<(u64, u64)>,
    pub stage_flags: Vec<u64>,
    pub signal_semaphores: Vec<(u64, u64)>,
}

/// Mathematical image of a command stream.
#[verifier::ext_equal]
pub struct CommandBufferView {
    pub command_buffer: u64,
    pub secondary: bool,
    pub recording: bool,
    pub commands: Seq<CommandView>,
    pub wait_semaphores: Seq<(u64, u64)>,
    pub stage_flags: Seq<u64>,
    pub signal_semaphores: Seq<(u64, u64)>,
}

impl View for CommandBuffer {
    type V = CommandBufferView;

    open spec fn view(&self) -> CommandBufferView {
        CommandBufferView {
            command_buffer: self.command_buffer,
            secondary: self.secondary,
            recording: self.recording,
            commands: command_views(self.commands@),
            wait_semaphores: self.wait_semaphores@,
            stage_flags: self.stage_flags@,
            signal_semaphores: self.signal_semaphores@,
        }
    }
}

impl CommandBuffer {

    pub fn new(command_buffer: u64, secondary: bool) -> (cb: CommandBuffer)
        ensures
            cb.command_buffer == command_buffer,
            cb.secondary == secondary,
            !cb.recording,
            cb.commands@ == Seq::<Command>::empty(),
            cb.wait_semaphores@ == Seq::<(u64, u64)>::empty(),
            cb.stage_flags@ == Seq::<u64>::empty(),
            cb.signal_semaphores@ == Seq::<(u64, u64)>::empty(),
    {
        CommandBuffer {
            command_buffer,
            secondary,
            recording: false,
            commands: Vec::new(),
            wait_semaphores: Vec::new(),
            stage_flags: Vec::new(),
            signal_semaphores: Vec::new(),
        }
    }

    /// The inheritance record for a secondary context: the given render-pass
    /// state, or zero handles when none is supplied.
    pub fn get_inheritance_info(
        &self,
        render_pass_inheritance_info: Option<RenderPassInheritanceInfo>,
    ) -> (info: CommandBufferInheritanceInfo)
        requires
            self.secondary,
        ensures
            render_pass_inheritance_info matches Some(rp) ==> info
                == (CommandBufferInheritanceInfo {
                render_pass: rp.render_pass,
                subpass: rp.subpass,
                framebuffer: rp.framebuffer,
            }),
            render_pass_inheritance_info is None ==> info == (CommandBufferInheritanceInfo {
                render_pass: 0,
                subpass: 0,
                framebuffer: 0,
            }),
    {
        match render_pass_inheritance_info {
            None => CommandBufferInheritanceInfo { render_pass: 0, subpass: 0, framebuffer: 0 },
            Some(info) => CommandBufferInheritanceInfo {
                render_pass: info.render_pass,
                subpass: info.subpass,
                framebuffer: info.framebuffer,
            },
        }
    }

    /// Opens a fresh recording; any previously recorded commands are
    /// implicitly discarded, as under a pool that allows individual resets.
    /// Beginning an already-open recording is a caller error.
    pub fn begin(&mut self, render_pass_inheritance_info: Option<RenderPassInheritanceInfo>)
        requires
            !old(self).recording,
            old(self).secondary || render_pass_inheritance_info is None,
        ensures
            final(self).recording,
            final(self).commands@ == Seq::<Command>::empty(),
            final(self).command_buffer == old(self).command_buffer,
            final(self).secondary == old(self).secondary,
            final(self).wait_semaphores == old(self).wait_semaphores,
            final(self).stage_flags == old(self).stage_flags,
            final(self).signal_semaphores == old(self).signal_semaphores,
    {
        if self.secondary {
            let _inheritance_info = self.get_inheritance_info(render_pass_inheritance_info);
        }
        self.recording = true;
        self.commands.clear();
    }

    /// Closes the current recording, leaving the recorded commands ready for
    /// submission.
    pub fn end(&mut self)
        requires
            old(self).recording,
        ensures
            !final(self).recording,
            final(self).commands == old(self).commands,
            final(self).command_buffer == old(self).command_buffer,
            final(self).secondary == old(self).secondary,
            final(self).wait_semaphores == old(self).wait_semaphores,
            final(self).stage_flags == old(self).stage_flags,
            final(self).signal_semaphores == old(self).signal_semaphores,
    {
        self.recording = false;
    }

    /// Discards the recorded commands of a closed context so it can be
    /// recorded again (an individual reset, not a pool-wide one).
    pub fn reset(&mut self)
        requires
            !old(self).recording,
        ensures
            !final(self).recording,
            final(self).commands@ == Seq::<Command>::empty(),
            final(self).command_buffer == old(self).command_buffer,
            final(self).secondary == old(self).secondary,
            final(self).wait_semaphores == old(self).wait_semaphores,
            final(self).stage_flags == old(self).stage_flags,
            final(self).signal_semaphores == old(self).signal_semaphores,
    {
        self.commands.clear();
    }

    /// Records one buffer-to-buffer copy.
    pub fn record_copy_buffer(&mut self, src: u64, dst: u64, size: usize)
        requires
            old(self).recording,
        ensures
            final(self).commands@ == old(self).commands@.push(
                Command::CopyBuffer { src, dst, size },
            ),
            final(self).recording,
            final(self).command_buffer == old(self).command_buffer,
            final(self).secondary == old(self).secondary,
            final(self).wait_semaphores == old(self).wait_semaphores,
            final(self).stage_flags == old(self).stage_flags,
            final(self).signal_semaphores == old(self).signal_semaphores,
    {
        self.commands.push(Command::CopyBuffer { src, dst, size });
    }

    /// Records one pipeline barrier carrying the given image barriers.
    pub fn record_pipeline_barrier(&mut self, image_barriers: Vec<ImageBarrier>)
        requires
            old(self).recording,
        ensures
            final(self).commands@ == old(self).commands@.push(
                Command::PipelineBarrier { image_barriers },
            ),
            final(self).recording,
            final(self).command_buffer == old(self).command_buffer,
            final(self).secondary == old(self).secondary,
            final(self).wait_semaphores == old(self).wait_semaphores,
            final(self).stage_flags == old(self).stage_flags,
            final(self).signal_semaphores == old(self).signal_semaphores,
    {
        self.commands.push(Command::PipelineBarrier { image_barriers });
    }

    /// Attaches semaphores to signal at the next submission, as
    /// (semaphore, value) pairs.
    pub fn add_signal_semaphores(&mut self, semaphores: Vec<(u64, u64)>)
        ensures
            final(self).signal_semaphores@ == old(self).signal_semaphores@ + semaphores@,
            final(self).recording == old(self).recording,
            final(self).commands == old(self).commands,
            final(self).command_buffer == old(self).command_buffer,
            final(self).secondary == old(self).secondary,
            final(self).wait_semaphores == old(self).wait_semaphores,
            final(self).stage_flags == old(self).stage_flags,
    {
        let mut semaphores = semaphores;
        self.signal_semaphores.append(&mut semaphores);
    }

    /// Attaches semaphores to wait on at the next submission, as
    /// (semaphore, stage mask, value) triples; the stage masks land in the
    /// paired stage-flag list.
    pub fn add_wait_semaphores(&mut self, semaphores: Vec<(u64, u64, u64)>)
        ensures
            final(self).wait_semaphores@ == old(self).wait_semaphores@ + semaphores@.map_values(
                |s: (u64, u64, u64)| (s.0, s.2),
            ),
            final(self).stage_flags@ == old(self).stage_flags@ + semaphores@.map_values(
                |s: (u64, u64, u64)| s.1,
            ),
            final(self).recording == old(self).recording,
            final(self).commands == old(self).commands,
            final(self).command_buffer == old(self).command_buffer,
            final(self).secondary == old(self).secondary,
            final(self).signal_semaphores == old(self).signal_semaphores,
    {
        let ghost handles_added = semaphores@.map_values(|s: (u64, u64, u64)| (s.0, s.2));
        let ghost stages_added = semaphores@.map_values(|s: (u64, u64, u64)| s.1);
        let mut i: usize = 0;
        while i < semaphores.len()
            invariant
                i <= semaphores.len(),
                handles_added == semaphores@.map_values(|s: (u64, u64, u64)| (s.0, s.2)),
                stages_added == semaphores@.map_values(|s: (u64, u64, u64)| s.1),
                self.wait_semaphores@ == old(self).wait_semaphores@ + handles_added.take(i as int),
                self.stage_flags@ == old(self).stage_flags@ + stages_added.take(i as int),
                self.recording == old(self).recording,
                self.commands == old(self).commands,
                self.command_buffer == old(self).command_buffer,
                self.secondary == old(self).secondary,
                self.signal_semaphores == old(self).signal_semaphores,
            decreases semaphores.len() - i,
        {
            let entry = semaphores[i];
            self.wait_semaphores.push((entry.0, entry.2));
            self.stage_flags.push(entry.1);
            proof {
                assert(handles_added.take(i + 1 as int) =~= handles_added.take(i as int).push(
                    (semaphores@[i as int].0, semaphores@[i as int].2),
                ));
                assert(stages_added.take(i + 1 as int) =~= stages_added.take(i as int).push(
                    semaphores@[i as int].1,
                ));
            }
            i = i + 1;
        }
        proof {
            assert(handles_added.take(semaphores@.len() as int) =~= handles_added);
            assert(stages_added.take(semaphores@.len() as int) =~= stages_added);
            assert(self.wait_semaphores@ =~= old(self).wait_semaphores@ + handles_added);
            assert(self.stage_flags@ =~= old(self).stage_flags@ + stages_added);
        }
    }

    /// This context's contribution to a submission. With `clear_semaphores`
    /// the attached semaphore operations are drained so they are not
    /// submitted again on the next use; each stage mask is half of an
    /// attached wait pair, so the stage-flag list drains with the waits.
    pub fn get_submit_info(&mut self, clear_semaphores: bool) -> (info: CommandBufferSubmitInfo)
        ensures
            info.command_buffer == old(self).command_buffer,
            info.wait_semaphores@ == old(self).wait_semaphores@,
            info.stage_flags@ == old(self).stage_flags@,
            info.signal_semaphores@ == old(self).signal_semaphores@,
            final(self).command_buffer == old(self).command_buffer,
            final(self).secondary == old(self).secondary,
            final(self).recording == old(self).recording,
            final(self).commands == old(self).commands,
            clear_semaphores ==> final(self).wait_semaphores@ == Seq::<(u64, u64)>::empty()
                && final(self).stage_flags@ == Seq::<u64>::empty()
                && final(self).signal_semaphores@ == Seq::<(u64, u64)>::empty(),
            !clear_semaphores ==> final(self).wait_semaphores == old(self).wait_semaphores
                && final(self).stage_flags == old(self).stage_flags
                && final(self).signal_semaphores == old(self).signal_semaphores,
    {
        if clear_semaphores {
            let mut wait_semaphores: Vec<(u64, u64)> = Vec::new();
            let mut stage_flags: Vec<u64> = Vec::new();
            let mut signal_semaphores: Vec<(u64, u64)> = Vec::new();
            core::mem::swap(&mut wait_semaphores, &mut self.wait_semaphores);
            core::mem::swap(&mut stage_flags, &mut self.stage_flags);
            core::mem::swap(&mut signal_semaphores, &mut self.signal_semaphores);
            CommandBufferSubmitInfo {
                command_buffer: self.command_buffer,
                wait_semaphores,
                stage_flags,
                signal_semaphores,
            }
        } else {
            CommandBufferSubmitInfo {
                command_buffer: self.command_buffer,
                wait_semaphores: copy_vec(&self.wait_semaphores),
                stage_flags: copy_vec(&self.stage_flags),
                signal_semaphores: copy_vec(&self.signal_semaphores),
            }
        }
    }

    /// The handle token of the underlying driver context.
    pub fn get_command_buffer(&self) -> (handle: u64)
        ensures
            handle == self.command_buffer,
    {
        self.command_buffer
    }

    /// Batches several contexts' submit infos into a single submission
    /// against one queue role, optionally gated by a fence: the context
    /// handles in order, and the wait and signal operations of all infos
    /// flattened in order.
    pub fn submit_buffers(
        fence: Option<u64>,
        queue_type: QueueType,
        submit_infos: &Vec<CommandBufferSubmitInfo>,
    ) -> (submission: Submission)
        requires
            forall|i: int| 0 <= i < submit_infos@.len() ==> (#[trigger] submit_infos@[i])@.wf(),
        ensures
            submission.queue_type == queue_type,
            submission.fence == fence,
            submission.command_buffers@ == submit_info_views(submit_infos@).map_values(
                |info: CommandBufferSubmitInfoView| info.command_buffer,
            ),
            submission.wait_semaphores@ == all_wait_ops(submit_info_views(submit_infos@)),
            submission.signal_semaphores@ == all_signal_ops(submit_info_views(submit_infos@)),
    {
        let ghost views = submit_info_views(submit_infos@);
        let mut command_buffers: Vec<u64> = Vec::new();
        let mut wait_semaphores: Vec<SemaphoreSubmitOp> = Vec::new();
        let mut signal_semaphores: Vec<SemaphoreSubmitOp> = Vec::new();
        let mut i: usize = 0;
        while i < submit_infos.len()
            invariant
                i <= submit_infos.len(),
                views == submit_info_views(submit_infos@),
                forall|k: int| 0 <= k < submit_infos@.len() ==> (#[trigger] submit_infos@[k])@.wf(),
                command_buffers@ == views.take(i as int).map_values(
                    |info: CommandBufferSubmitInfoView| info.command_buffer,
                ),
                wait_semaphores@ == all_wait_ops(views.take(i as int)),
                signal_semaphores@ == all_signal_ops(views.take(i as int)),
            decreases submit_infos.len() - i,
        {
            let info = &submit_infos[i];
            let ghost wait_before = wait_semaphores@;
            let mut j: usize = 0;
            while j < info.wait_semaphores.len()
                invariant
                    j <= info.wait_semaphores.len(),
                    info == &submit_infos@[i as int],
                    0 <= i < submit_infos@.len(),
                    forall|k: int|
                        0 <= k < submit_infos@.len() ==> (#[trigger] submit_infos@[k])@.wf(),
                    wait_semaphores@ == wait_before + info_wait_ops(info@).take(j as int),
                decreases info.wait_semaphores.len() - j,
            {
                let entry = info.wait_semaphores[j];
                let stage_mask = info.stage_flags[j];
                wait_semaphores.push(
                    SemaphoreSubmitOp { semaphore: entry.0, value: entry.1, stage_mask },
                );
                proof {
                    assert(info_wait_ops(info@).take(j + 1 as int) =~= info_wait_ops(
                        info@,
                    ).take(j as int).push(info_wait_ops(info@)[j as int]));
                }
                j = j + 1;
            }
            proof {
                assert(info_wait_ops(info@).take(info.wait_semaphores@.len() as int)
                    =~= info_wait_ops(info@));
            }
            let ghost signal_before = signal_semaphores@;
            let mut j: usize = 0;
            while j < info.signal_semaphores.len()
                invariant
                    j <= info.signal_semaphores.len(),
                    info == &submit_infos@[i as int],
                    0 <= i < submit_infos@.len(),
                    signal_semaphores@ == signal_before + info_signal_ops(info@).take(j as int),
                decreases info.signal_semaphores.len() - j,
            {
                let entry = info.signal_semaphores[j];
                signal_semaphores.push(
                    SemaphoreSubmitOp { semaphore: entry.0, value: entry.1, stage_mask: 0 },
                );
                proof {
                    assert(info_signal_ops(info@).take(j + 1 as int) =~= info_signal_ops(
                        info@,
                    ).take(j as int).push(info_signal_ops(info@)[j as int]));
                }
                j = j + 1;
            }
            proof {
                assert(info_signal_ops(info@).take(info.signal_semaphores@.len() as int)
                    =~= info_signal_ops(info@));
            }
            command_buffers.push(info.command_buffer);
            proof {
                assert(views.take(i + 1 as int).drop_last() =~= views.take(i as int));
                assert(views.take(i + 1 as int).last() == submit_infos@[i as int]@);
                assert(command_buffers@ =~= views.take(i + 1 as int).map_values(
                    |info: CommandBufferSubmitInfoView| info.command_buffer,
                ));
                assert(wait_semaphores@ =~= all_wait_ops(views.take(i + 1 as int)));
                assert(signal_semaphores@ =~= all_signal_ops(views.take(i + 1 as int)));
            }
            i = i + 1;
        }
        proof {
            assert(views.take(submit_infos@.len() as int) =~= views);
        }
        Submission { queue_type, fence, command_buffers, wait_semaphores, signal_semaphores }
    }
}

/// Copies a vector of plain values.
pub fn copy_vec<T: Copy>(values: &Vec<T>) -> (out: Vec<T>)
    ensures
        out@ == values@,
{
    let mut out: Vec<T> = Vec::new();
    let mut i: usize = 0;
    while i < values.len()
        invariant
            i <= values@.len(),
            out@ == values@.take(i as int),
        decreases values@.len() - i,
    {
        out.push(values[i]);
        proof {
            assert(values@.take(i + 1 as int) =~= values@.take(i as int).push(
                values@[i as int],
            ));
        }
        i = i + 1;
    }
    proof {
        assert(values@.take(values@.len() as int) =~= values@);
    }
    out
}

} // verus!
