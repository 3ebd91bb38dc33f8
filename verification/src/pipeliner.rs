//! Frame pipeliner: the per-frame slot rotation that bounds how many
//! frames of device work may be in flight.
//!
//! One frame advances through a fixed cycle — wait on the slot's
//! completion fence, acquire a presentable image, record, submit (the
//! submission re-arms the fence), present, advance to the next slot
//! modulo the slot count. The machine here owns the decisions of that
//! cycle: `next_action` says what the device loop must do next, and each
//! `*_done` step takes the loop's report that the action completed. The
//! blocking fence wait is the sole backpressure: a slot's command buffer
//! is never re-recorded until the submission that last used the slot —
//! exactly one slot-count of frames earlier — has retired.

use vstd::prelude::*;

verus! {

/// Where the current frame stands in its cycle.
#[derive(Clone, Copy, Debug, PartialEq, Eq, Structural)]
pub enum FramePhase {
    /// Nothing done yet: the slot's completion fence must be waited on.
    Idle,
    /// The fence wait returned; the slot's previous submission retired.
    FenceWaited,
    /// A presentable image was acquired.
    ImageAcquired { image: u32 },
    /// The slot's command buffer holds the frame's commands.
    Recorded { image: u32 },
    /// The command buffer was submitted; the fence is pending again.
    Submitted { image: u32 },
}

/// One rotating execution context: if `pending` is set, the slot's fence
/// is un-signaled since the submission of that frame.
#[derive(Clone, Copy, Debug)]
pub struct SlotState {
    pub pending: Option<u64>,
}

/// What the device loop must do next. The slot index names which command
/// buffer, fence and semaphores to use; `image` is the acquired
/// presentable image.
#[derive(Clone, Copy, Debug, PartialEq, Eq, Structural)]
pub enum DeviceAction {
    WaitFence { slot: usize },
    AcquireImage { slot: usize },
    RecordCommands { slot: usize, image: u32 },
    SubmitCommands { slot: usize, image: u32 },
    PresentImage { slot: usize, image: u32 },
}

/// The frame pipeliner: `frame` counts frames started since creation, and
/// the slot serving a frame is the frame number modulo the slot count.
pub struct FramePipeliner {
    pub slots: Vec<SlotState>,
    pub frame: u64,
    pub phase: FramePhase,
}

impl FramePipeliner {
    /// Number of frame slots (the bound on frames in flight).
    pub open spec fn slot_count(&self) -> int {
        self.slots@.len() as int
    }

    /// The slot serving the current frame.
    pub open spec fn current_slot(&self) -> int {
        (self.frame as int) % self.slot_count()
    }

    /// What holds of one slot's pending submission: it was submitted by a
    /// frame this slot serves, no longer ago than one full rotation, and
    /// only the current frame itself may still be the one pending.
    pub open spec fn slot_ok(&self, s: int) -> bool {
        match self.slots@[s].pending {
            None => true,
            Some(g) => {
                &&& (g as int) % self.slot_count() == s
                &&& if self.phase is Submitted && s == self.current_slot() {
                    g == self.frame
                } else {
                    g < self.frame && self.frame - g <= self.slot_count()
                }
            },
        }
    }

    /// Machine invariant. Beyond per-slot sanity: between the fence wait
    /// and the submission, the current slot has nothing pending — this is
    /// what makes recording safe — and after the submission exactly the
    /// current frame is pending on it.
    pub open spec fn wf(&self) -> bool {
        &&& self.slots@.len() >= 1
        &&& forall|s: int| 0 <= s < self.slots@.len() ==> #[trigger] self.slot_ok(s)
        &&& match self.phase {
            FramePhase::Idle => true,
            FramePhase::FenceWaited
            | FramePhase::ImageAcquired { .. }
            | FramePhase::Recorded { .. } => self.slots@[self.current_slot()].pending is None,
            FramePhase::Submitted { .. } => self.slots@[self.current_slot()].pending
                == Some(self.frame),
        }
    }

    /// The action the device loop must perform in a given state.
    pub open spec fn action_spec(&self) -> DeviceAction {
        let slot = self.current_slot() as usize;
        match self.phase {
            FramePhase::Idle => DeviceAction::WaitFence { slot },
            FramePhase::FenceWaited => DeviceAction::AcquireImage { slot },
            FramePhase::ImageAcquired { image } => DeviceAction::RecordCommands { slot, image },
            FramePhase::Recorded { image } => DeviceAction::SubmitCommands { slot, image },
            FramePhase::Submitted { image } => DeviceAction::PresentImage { slot, image },
        }
    }

    /// A pipeliner over `slot_count` rotating slots, at frame zero, with
    /// every fence created signaled (nothing pending anywhere).
    pub fn new(slot_count: usize) -> (r: FramePipeliner)
        requires
            slot_count >= 1,
        ensures
            r.wf(),
            r.slots@.len() == slot_count,
            r.frame == 0,
            r.phase is Idle,
            forall|s: int| 0 <= s < slot_count ==> (#[trigger] r.slots@[s].pending) is None,
    {
        let mut slots: Vec<SlotState> = Vec::new();
        let mut i: usize = 0;
        while i < slot_count
            invariant
                i <= slot_count,
                slots@.len() == i,
                forall|s: int| 0 <= s < i ==> (#[trigger] slots@[s].pending) is None,
            decreases slot_count - i,
        {
            slots.push(SlotState { pending: None });
            i = i + 1;
        }
        FramePipeliner { slots, frame: 0, phase: FramePhase::Idle }
    }

    /// The slot serving the current frame.
    pub fn current_slot_index(&self) -> (r: usize)
        requires
            self.wf(),
        ensures
            r as int == self.current_slot(),
    {
        (self.frame % (self.slots.len() as u64)) as usize
    }

    /// What the device loop must do next.
    pub fn next_action(&self) -> (r: DeviceAction)
        requires
            self.wf(),
        ensures
            r == self.action_spec(),
    {
        let slot = self.current_slot_index();
        match self.phase {
            FramePhase::Idle => DeviceAction::WaitFence { slot },
            FramePhase::FenceWaited => DeviceAction::AcquireImage { slot },
            FramePhase::ImageAcquired { image } => DeviceAction::RecordCommands { slot, image },
            FramePhase::Recorded { image } => DeviceAction::SubmitCommands { slot, image },
            FramePhase::Submitted { image } => DeviceAction::PresentImage { slot, image },
        }
    }

    /// The fence wait on the current slot returned. What that wait
    /// retired — when anything was pending at all — was the submission of
    /// exactly one rotation ago: the frame numbered `frame - slot_count`.
    /// After this step the slot is free for re-use.
    pub fn wait_fence_done(&mut self)
        requires
            old(self).wf(),
            old(self).phase is Idle,
        ensures
            final(self).wf(),
            final(self).phase is FenceWaited,
            final(self).frame == old(self).frame,
            final(self).slots@.len() == old(self).slots@.len(),
            final(self).slots@[final(self).current_slot()].pending is None,
            forall|s: int| 0 <= s < old(self).slots@.len() && s != old(self).current_slot()
                ==> final(self).slots@[s] == old(self).slots@[s],
            old(self).slots@[old(self).current_slot()].pending matches Some(g) ==> {
                &&& old(self).frame as int >= old(self).slot_count()
                &&& g as int == old(self).frame as int - old(self).slot_count()
            },
    {
        let slot = self.current_slot_index();
        proof {
            let n = self.slot_count();
            let f = self.frame as int;
            let cur = self.current_slot();
            assert(self.slot_ok(cur));
            if let Some(g) = self.slots@[cur].pending {
                let gi = g as int;
                vstd::arithmetic::div_mod::lemma_fundamental_div_mod(f, n);
                vstd::arithmetic::div_mod::lemma_fundamental_div_mod(gi, n);
                let qf = f / n;
                let qg = gi / n;
                assert(f - gi == n * (qf - qg)) by (nonlinear_arith)
                    requires
                        f == n * qf + f % n,
                        gi == n * qg + gi % n,
                        f % n == gi % n,
                ;
                assert(qf - qg == 1) by (nonlinear_arith)
                    requires
                        0 < n * (qf - qg) <= n,
                        n >= 1,
                ;
                assert(f - gi == n) by (nonlinear_arith)
                    requires
                        f - gi == n * (qf - qg),
                        qf - qg == 1,
                ;
            }
        }
        self.slots[slot] = SlotState { pending: None };
        self.phase = FramePhase::FenceWaited;
        proof {
            assert forall|s: int| 0 <= s < self.slots@.len() implies #[trigger] self.slot_ok(s)
                by {
                assert(old(self).slot_ok(s));
            };
        }
    }

    /// A presentable image was acquired for the current frame. (A failed
    /// acquire is fatal and never reported here: the loop propagates it
    /// and the machine is dropped.)
    pub fn acquire_done(&mut self, image: u32)
        requires
            old(self).wf(),
            old(self).phase is FenceWaited,
        ensures
            final(self).wf(),
            final(self).phase == (FramePhase::ImageAcquired { image }),
            final(self).frame == old(self).frame,
            final(self).slots == old(self).slots,
    {
        self.phase = FramePhase::ImageAcquired { image };
        proof {
            assert forall|s: int| 0 <= s < self.slots@.len() implies #[trigger] self.slot_ok(s)
                by {
                assert(old(self).slot_ok(s));
            };
        }
    }

    /// The frame's commands were recorded into the current slot's command
    /// buffer. Only reachable after this frame's fence wait: the slot's
    /// previous submission has retired, so re-recording the buffer is
    /// safe.
    pub fn record_done(&mut self)
        requires
            old(self).wf(),
            old(self).phase is ImageAcquired,
        ensures
            final(self).wf(),
            final(self).phase == (FramePhase::Recorded {
                image: old(self).phase->ImageAcquired_image,
            }),
            final(self).frame == old(self).frame,
            final(self).slots == old(self).slots,
    {
        match self.phase {
            FramePhase::ImageAcquired { image } => {
                self.phase = FramePhase::Recorded { image };
            },
            _ => {},
        }
        proof {
            assert forall|s: int| 0 <= s < self.slots@.len() implies #[trigger] self.slot_ok(s)
                by {
                assert(old(self).slot_ok(s));
            };
        }
    }

    /// The command buffer was submitted, with the completion fence reset
    /// first: the current frame is now pending on the current slot.
    pub fn submit_done(&mut self)
        requires
            old(self).wf(),
            old(self).phase is Recorded,
        ensures
            final(self).wf(),
            final(self).phase == (FramePhase::Submitted {
                image: old(self).phase->Recorded_image,
            }),
            final(self).frame == old(self).frame,
            final(self).slots@.len() == old(self).slots@.len(),
            final(self).slots@[final(self).current_slot()].pending == Some(old(self).frame),
            forall|s: int| 0 <= s < old(self).slots@.len() && s != old(self).current_slot()
                ==> final(self).slots@[s] == old(self).slots@[s],
    {
        let slot = self.current_slot_index();
        let frame = self.frame;
        match self.phase {
            FramePhase::Recorded { image } => {
                self.slots[slot] = SlotState { pending: Some(frame) };
                self.phase = FramePhase::Submitted { image };
            },
            _ => {},
        }
        proof {
            assert forall|s: int| 0 <= s < self.slots@.len() implies #[trigger] self.slot_ok(s)
                by {
                assert(old(self).slot_ok(s));
            };
        }
    }

    /// The present was queued; the frame is done and the pipeliner
    /// advances to the next frame, which the next slot in the rotation
    /// serves.
    pub fn present_done(&mut self)
        requires
            old(self).wf(),
            old(self).phase is Submitted,
            old(self).frame < u64::MAX,
        ensures
            final(self).wf(),
            final(self).phase is Idle,
            final(self).frame == old(self).frame + 1,
            final(self).slots == old(self).slots,
    {
        proof {
            let n = self.slot_count();
            let f = self.frame as int;
            let post = FramePipeliner {
                slots: self.slots,
                frame: (self.frame + 1) as u64,
                phase: FramePhase::Idle,
            };
            assert forall|s: int| 0 <= s < post.slots@.len() implies #[trigger] post.slot_ok(s)
                by {
                assert(self.slot_ok(s));
                if let Some(g) = post.slots@[s].pending {
                    let gi = g as int;
                    if s != self.current_slot() && f + 1 - gi > n {
                        // Then the pending frame would be exactly one
                        // rotation before f, which is served by the
                        // current slot, not s.
                        assert(f - gi == n);
                        vstd::arithmetic::div_mod::lemma_fundamental_div_mod(f, n);
                        assert(gi == (f / n - 1) * n + f % n) by (nonlinear_arith)
                            requires
                                f == n * (f / n) + f % n,
                                gi == f - n,
                        ;
                        vstd::arithmetic::div_mod::lemma_fundamental_div_mod_converse(
                            gi,
                            n,
                            f / n - 1,
                            f % n,
                        );
                    }
                }
            };
        }
        self.frame = self.frame + 1;
        self.phase = FramePhase::Idle;
    }

    /// The device reported fully idle (the shutdown drain): every slot's
    /// pending submission has retired, so dependent resources may begin
    /// destruction.
    pub fn device_idle_done(&mut self)
        requires
            old(self).wf(),
            old(self).phase is Idle,
        ensures
            final(self).wf(),
            final(self).phase is Idle,
            final(self).frame == old(self).frame,
            final(self).slots@.len() == old(self).slots@.len(),
            forall|s: int| 0 <= s < final(self).slots@.len()
                ==> (#[trigger] final(self).slots@[s].pending) is None,
    {
        let n = self.slots.len();
        let mut i: usize = 0;
        while i < n
            invariant
                i <= n,
                self.slots@.len() == n,
                self.frame == old(self).frame,
                self.phase is Idle,
                self.wf(),
                forall|s: int| 0 <= s < i ==> (#[trigger] self.slots@[s].pending) is None,
            decreases n - i,
        {
            let ghost prev = *self;
            self.slots[i] = SlotState { pending: None };
            i = i + 1;
            proof {
                assert forall|s: int| 0 <= s < self.slots@.len()
                    implies #[trigger] self.slot_ok(s) by {
                    assert(prev.slot_ok(s));
                };
            }
        }
    }
}

/// Law (frame-slot reuse): when a frame `f` is about to wait on its slot
/// — slot `f mod N` over `N` slots — whatever is still pending on that
/// slot is the submission of frame `f - N` and nothing else. Recording
/// into the slot's command buffer happens only after `wait_fence_done`,
/// that is, only after that submission's completion fence signaled.
pub proof fn lemma_slot_reuse(p: FramePipeliner, g: u64)
    requires
        p.wf(),
        p.phase is Idle,
        p.slots@[p.current_slot()].pending == Some(g),
    ensures
        p.frame as int >= p.slot_count(),
        g as int == p.frame as int - p.slot_count(),
{
    let n = p.slot_count();
    let f = p.frame as int;
    let cur = p.current_slot();
    assert(p.slot_ok(cur));
    let gi = g as int;
    vstd::arithmetic::div_mod::lemma_fundamental_div_mod(f, n);
    vstd::arithmetic::div_mod::lemma_fundamental_div_mod(gi, n);
    let qf = f / n;
    let qg = gi / n;
    assert(f - gi == n * (qf - qg)) by (nonlinear_arith)
        requires
            f == n * qf + f % n,
            gi == n * qg + gi % n,
            f % n == gi % n,
    ;
    assert(qf - qg == 1) by (nonlinear_arith)
        requires
            0 < n * (qf - qg) <= n,
            n >= 1,
    ;
}

} // verus!
