//! The protocol of one frame: what is done, and in which order, between two
//! presents.

use vstd::prelude::*;

use crate::render::hal::vulkan::renderer::{lemma_slot_counts_presents, presents, slot_after, FrameEvent};
use crate::render::hal::vulkan::{next_slot, spec_next_slot, FRAME_OVERLAP};

verus! {

/// Number of steps of one frame.
pub const STEPS_PER_FRAME: u64 = 9;

/// A step of the protocol of one frame.
#[derive(Clone, Copy, Debug, PartialEq, Eq, Structural)]
pub enum FrameStep {
    /// Wait until the GPU has finished the work that was last submitted for
    /// the frame slot.
    WaitFence,
    /// Reset the fence of the frame slot.
    ResetFence,
    /// Acquire the next presentable image.
    StartFrame,
    /// Reset the command buffer of the frame slot.
    ResetCommands,
    /// Start recording.
    BeginCommands,
    /// Record the work of the frame.
    Record,
    /// End recording.
    EndCommands,
    /// Submit the command buffer.
    Submit,
    /// Present the image, which moves on to the next frame slot.
    Present,
}

impl FrameStep {
    /// The place of the step in its frame, from 0.
    pub open spec fn spec_index(self) -> int {
        match self {
            FrameStep::WaitFence => 0,
            FrameStep::ResetFence => 1,
            FrameStep::StartFrame => 2,
            FrameStep::ResetCommands => 3,
            FrameStep::BeginCommands => 4,
            FrameStep::Record => 5,
            FrameStep::EndCommands => 6,
            FrameStep::Submit => 7,
            FrameStep::Present => 8,
        }
    }

    /// The step at place `index` of a frame.
    pub open spec fn at(index: int) -> FrameStep {
        if index == 0 {
            FrameStep::WaitFence
        } else if index == 1 {
            FrameStep::ResetFence
        } else if index == 2 {
            FrameStep::StartFrame
        } else if index == 3 {
            FrameStep::ResetCommands
        } else if index == 4 {
            FrameStep::BeginCommands
        } else if index == 5 {
            FrameStep::Record
        } else if index == 6 {
            FrameStep::EndCommands
        } else if index == 7 {
            FrameStep::Submit
        } else {
            FrameStep::Present
        }
    }

    /// The step that follows `self`; the first step of the next frame
    /// follows the last step of a frame.
    pub open spec fn spec_next(self) -> FrameStep {
        FrameStep::at((self.spec_index() + 1) % (STEPS_PER_FRAME as int))
    }

    /// The step that follows `self`.
    #[verifier::when_used_as_spec(spec_next)]
    pub fn next(self) -> (next: FrameStep)
        ensures
            next == self.spec_next(),
    {
        match self {
            FrameStep::WaitFence => FrameStep::ResetFence,
            FrameStep::ResetFence => FrameStep::StartFrame,
            FrameStep::StartFrame => FrameStep::ResetCommands,
            FrameStep::ResetCommands => FrameStep::BeginCommands,
            FrameStep::BeginCommands => FrameStep::Record,
            FrameStep::Record => FrameStep::EndCommands,
            FrameStep::EndCommands => FrameStep::Submit,
            FrameStep::Submit => FrameStep::Present,
            FrameStep::Present => FrameStep::WaitFence,
        }
    }
}

/// The frame slot in which frame number `frame` is recorded, counting frames
/// from 0 and starting in frame slot 0.
pub open spec fn slot_of_frame(frame: nat) -> int {
    (frame % (FRAME_OVERLAP as nat)) as int
}

/// The place of step `step` of frame number `frame` among all the steps of
/// the loop, from 0.
pub open spec fn position(frame: nat, step: FrameStep) -> int {
    frame * (STEPS_PER_FRAME as int) + step.spec_index()
}

/// Where a frame loop stands: the frame slot of the frame that is in the
/// making, and the step that is due.
#[derive(Clone, Copy, Debug, PartialEq, Eq, Structural)]
pub struct FrameLoop {
    slot: usize,
    step: FrameStep,
}

impl FrameLoop {
    /// The frame slot of the frame that is in the making.
    pub closed spec fn spec_slot(&self) -> usize {
        self.slot
    }

    /// The step that is due.
    pub closed spec fn spec_step(&self) -> FrameStep {
        self.step
    }

    /// What holds of every frame loop: its frame slot is one of the ring.
    pub open spec fn wf(&self) -> bool {
        self.spec_slot() < FRAME_OVERLAP
    }

    #[verifier::type_invariant]
    spec fn inv(&self) -> bool {
        self.wf()
    }

    /// Whether the loop stands where a loop stands that has done `done`
    /// steps since its start.
    pub open spec fn stands_at(&self, done: nat) -> bool {
        &&& self.spec_slot() as int == slot_of_frame(done / (STEPS_PER_FRAME as nat))
        &&& self.spec_step() == FrameStep::at((done % (STEPS_PER_FRAME as nat)) as int)
    }

    /// A frame loop at its start: the first step of a frame in frame slot 0
    /// is due.
    pub fn new() -> (frame_loop: FrameLoop)
        ensures
            frame_loop.wf(),
            frame_loop.spec_slot() == 0,
            frame_loop.spec_step() == FrameStep::WaitFence,
            frame_loop.stands_at(0),
    {
        FrameLoop { slot: 0, step: FrameStep::WaitFence }
    }

    /// The frame slot of the frame that is in the making.
    #[verifier::when_used_as_spec(spec_slot)]
    pub fn slot(&self) -> (slot: usize)
        ensures
            slot == self.spec_slot(),
            slot < FRAME_OVERLAP,
    {
        proof {
            use_type_invariant(self);
        }
        self.slot
    }

    /// The step that is due.
    #[verifier::when_used_as_spec(spec_step)]
    pub fn step(&self) -> (step: FrameStep)
        ensures
            step == self.spec_step(),
    {
        self.step
    }

    /// Records that the step that was due has been done: the next step of the
    /// frame is due, or, after the present, the first step of a frame in the
    /// next frame slot.
    pub fn advance(&mut self)
        ensures
            final(self).wf(),
            final(self).spec_step() == old(self).spec_step().spec_next(),
            final(self).spec_slot() as int == if old(self).spec_step() == FrameStep::Present {
                spec_next_slot(old(self).spec_slot() as int)
            } else {
                old(self).spec_slot() as int
            },
            forall|done: nat| old(self).stands_at(done) ==> final(self).stands_at(done + 1),
    {
        proof {
            use_type_invariant(&*self);
        }
        let ghost before = *self;
        if self.step == FrameStep::Present {
            self.slot = next_slot(self.slot);
        }
        self.step = self.step.next();
        proof {
            assert forall|done: nat| before.stands_at(done) implies self.stands_at(done + 1) by {
                lemma_step_follows(done);
            }
        }
    }
}

/// The step at place `done + 1` of the loop follows the step at place `done`,
/// and it belongs to the next frame exactly when the step at place `done` is
/// the present.
pub proof fn lemma_step_follows(done: nat)
    ensures
        FrameStep::at(((done + 1) % (STEPS_PER_FRAME as nat)) as int) == FrameStep::at(
            (done % (STEPS_PER_FRAME as nat)) as int,
        ).spec_next(),
        slot_of_frame((done + 1) / (STEPS_PER_FRAME as nat)) == if FrameStep::at(
            (done % (STEPS_PER_FRAME as nat)) as int,
        ) == FrameStep::Present {
            spec_next_slot(slot_of_frame(done / (STEPS_PER_FRAME as nat)))
        } else {
            slot_of_frame(done / (STEPS_PER_FRAME as nat))
        },
{
    let q = done / 9;
    let r = done % 9;
    if r == 8 {
        assert((done + 1) / 9 == q + 1 && (done + 1) % 9 == 0) by (nonlinear_arith)
            requires
                done + 1 == 9 * (q + 1),
        ;
    } else {
        assert((done + 1) / 9 == q && (done + 1) % 9 == r + 1) by (nonlinear_arith)
            requires
                done == 9 * q + r,
                0 <= r < 8,
        ;
    }
}

/// A frame slot comes round again after `FRAME_OVERLAP` frames and not
/// before: whatever a frame uses of its frame slot (command buffer, fence,
/// semaphores, descriptor set) was last used `FRAME_OVERLAP` frames earlier.
pub proof fn lemma_slot_bounding(frame: nat)
    requires
        frame >= FRAME_OVERLAP,
    ensures
        slot_of_frame(frame) == slot_of_frame((frame - FRAME_OVERLAP) as nat),
        forall|earlier: nat|
            frame - FRAME_OVERLAP < earlier < frame ==> #[trigger] slot_of_frame(earlier)
                != slot_of_frame(frame),
{
}

/// Within every frame the wait on the fence comes before the reset of the
/// fence, which comes before the reset of the command buffer and the start
/// of recording; and the wait comes after the submission of the frame that
/// last used the frame slot. So a command buffer is reused only after the
/// GPU has finished with it.
pub proof fn lemma_wait_precedes_recording(frame: nat)
    ensures
        position(frame, FrameStep::WaitFence) < position(frame, FrameStep::ResetFence),
        position(frame, FrameStep::ResetFence) < position(frame, FrameStep::ResetCommands),
        position(frame, FrameStep::ResetCommands) < position(frame, FrameStep::BeginCommands),
        position(frame, FrameStep::BeginCommands) < position(frame, FrameStep::Submit),
        frame >= FRAME_OVERLAP ==> position((frame - FRAME_OVERLAP) as nat, FrameStep::Submit)
            < position(frame, FrameStep::WaitFence),
{
}

/// A frame loop and a device context that start together stay together: as
/// long as the device context has presented once for each frame that the
/// loop has completed, whatever else happened to it, the frame slot of the
/// loop is the frame slot of the device context.
pub proof fn lemma_loop_and_context_agree(done: nat, events: Seq<FrameEvent>)
    requires
        presents(events) == done / (STEPS_PER_FRAME as nat),
    ensures
        slot_of_frame(done / (STEPS_PER_FRAME as nat)) == slot_after(0, events),
{
    lemma_slot_counts_presents(0, events);
}

} // verus!
