//! Per-frame command recording.
//!
//! One `record_frame` call produces the frame's device command list as
//! data: clears for every image with a clear policy, then every pass in
//! list order (bind program, push the constant block, bind the full image
//! array, dispatch), then the copy of the designated final output — the
//! last shared image — onto the presentation target. The caller replays
//! the list onto a real command buffer; no synchronization beyond the
//! listed transitions is inserted between passes, so read-after-write
//! ordering across passes is carried by the declared pass order alone.

use vstd::prelude::*;

use crate::graph::ClearConfig;
use crate::graph::DrawOrchestrator;
use crate::graph::ImageResource;
use crate::graph::ShaderPass;
use crate::store::PipelineEntry;
use crate::store::PipelineKey;
use crate::store::PipelineStore;

verus! {

/// The image-layout states a recorded transition moves between.
#[derive(Clone, Copy, Debug, PartialEq, Eq, Structural)]
pub enum ImageLayoutState {
    Undefined,
    General,
    TransferSrc,
    TransferDst,
    Presentable,
}

/// The constant block pushed before every dispatch: the frame time (raw
/// bits, opaque to the core), and the pass's first input and first output
/// identity, `-1` standing for "none".
#[derive(Clone, Copy, Debug, PartialEq, Eq, Structural)]
pub struct PushConstants {
    pub time_bits: u32,
    pub in_image: i32,
    pub out_image: i32,
}

/// One recorded device command. A frame is a sequence of these, replayed
/// in order onto a command buffer. "Target" is the presentation image the
/// frame ends on; shared images are named by identity.
#[derive(Clone, Copy, Debug, PartialEq, Eq, Structural)]
pub enum RenderOp {
    TransitionImage { image: u32, from: ImageLayoutState, to: ImageLayoutState },
    ClearImage { image: u32, red: u8, green: u8, blue: u8 },
    TransitionTarget { from: ImageLayoutState, to: ImageLayoutState },
    ClearTarget,
    BindProgram { program: u64 },
    PushConstantBlock { constants: PushConstants },
    BindImageArray { count: u32 },
    Dispatch { x: u32, y: u32, z: u32 },
    BlitToTarget { source: u32 },
}

/// First identity of a pass's declared list, or the "none" sentinel.
pub open spec fn first_or_sentinel(ids: Seq<u32>) -> int {
    if ids.len() == 0 {
        -1
    } else {
        ids[0] as int
    }
}

/// Commands that give one image its configured per-frame clear: none
/// without a clear policy; with one, a transition to a transfer-writable
/// state, the clear, and the transition back to general access.
pub open spec fn image_clear_ops(img: ImageResource) -> Seq<RenderOp> {
    match img.clear {
        ClearConfig::NoClear => Seq::empty(),
        ClearConfig::Color(cr, cg, cb) => seq![
            RenderOp::TransitionImage {
                image: img.identity,
                from: ImageLayoutState::General,
                to: ImageLayoutState::TransferDst,
            },
            RenderOp::ClearImage { image: img.identity, red: cr, green: cg, blue: cb },
            RenderOp::TransitionImage {
                image: img.identity,
                from: ImageLayoutState::TransferDst,
                to: ImageLayoutState::General,
            },
        ],
    }
}

/// The clear section of a frame: each image's clear commands, in image-set
/// order.
pub open spec fn clear_ops_spec(images: Seq<ImageResource>) -> Seq<RenderOp>
    decreases images.len(),
{
    if images.len() == 0 {
        Seq::empty()
    } else {
        clear_ops_spec(images.drop_last()) + image_clear_ops(images.last())
    }
}

/// Commands of one scheduled pass: bind its current program, push the
/// constant block, bind the full image array, dispatch with the
/// precomputed size. A pass whose handle no longer names a program is
/// skipped.
pub open spec fn pass_ops(
    p: ShaderPass,
    entries: Map<PipelineKey, PipelineEntry>,
    time_bits: u32,
    image_count: u32,
) -> Seq<RenderOp> {
    if entries.contains_key(p.pipeline_handle) {
        seq![
            RenderOp::BindProgram { program: entries[p.pipeline_handle].program.id },
            RenderOp::PushConstantBlock {
                constants: PushConstants {
                    time_bits,
                    in_image: first_or_sentinel(p.in_images@) as i32,
                    out_image: first_or_sentinel(p.out_images@) as i32,
                },
            },
            RenderOp::BindImageArray { count: image_count },
            RenderOp::Dispatch { x: p.dispatches.x, y: p.dispatches.y, z: p.dispatches.z },
        ]
    } else {
        Seq::empty()
    }
}

/// The compute section of a frame: every pass, in list order.
pub open spec fn pass_ops_seq(
    passes: Seq<ShaderPass>,
    entries: Map<PipelineKey, PipelineEntry>,
    time_bits: u32,
    image_count: u32,
) -> Seq<RenderOp>
    decreases passes.len(),
{
    if passes.len() == 0 {
        Seq::empty()
    } else {
        pass_ops_seq(passes.drop_last(), entries, time_bits, image_count)
            + pass_ops(passes.last(), entries, time_bits, image_count)
    }
}

/// The closing section of a frame: the final output image becomes a
/// transfer source, the target becomes writable and is cleared, the final
/// output is blitted onto it, and both return to their steady-state
/// layouts.
pub open spec fn output_ops_spec(
    last_image: u32,
    target_from: ImageLayoutState,
    target_to: ImageLayoutState,
) -> Seq<RenderOp> {
    seq![
        RenderOp::TransitionImage {
            image: last_image,
            from: ImageLayoutState::General,
            to: ImageLayoutState::TransferSrc,
        },
        RenderOp::TransitionTarget { from: target_from, to: ImageLayoutState::TransferDst },
        RenderOp::ClearTarget,
        RenderOp::BlitToTarget { source: last_image },
        RenderOp::TransitionTarget { from: ImageLayoutState::TransferDst, to: target_to },
        RenderOp::TransitionImage {
            image: last_image,
            from: ImageLayoutState::TransferSrc,
            to: ImageLayoutState::General,
        },
    ]
}

/// Everything one frame records, in order.
pub open spec fn frame_ops_spec(
    orch: DrawOrchestrator,
    entries: Map<PipelineKey, PipelineEntry>,
    time_bits: u32,
    target_from: ImageLayoutState,
    target_to: ImageLayoutState,
) -> Seq<RenderOp> {
    clear_ops_spec(orch.image_resources@)
        + pass_ops_seq(
        orch.passes@,
        entries,
        time_bits,
        orch.image_resources@.len() as u32,
    ) + output_ops_spec(
        (orch.image_resources@.len() - 1) as u32,
        target_from,
        target_to,
    )
}

/// The clear section never copies to the target.
proof fn lemma_clear_ops_no_blit(images: Seq<ImageResource>)
    ensures
        forall|i: int| 0 <= i < clear_ops_spec(images).len()
            ==> !((#[trigger] clear_ops_spec(images)[i]) is BlitToTarget),
    decreases images.len(),
{
    if images.len() > 0 {
        lemma_clear_ops_no_blit(images.drop_last());
    }
}

/// The compute section never copies to the target.
proof fn lemma_pass_ops_no_blit(
    passes: Seq<ShaderPass>,
    entries: Map<PipelineKey, PipelineEntry>,
    time_bits: u32,
    image_count: u32,
)
    ensures
        forall|i: int| 0 <= i < pass_ops_seq(passes, entries, time_bits, image_count).len()
            ==> !((#[trigger] pass_ops_seq(passes, entries, time_bits, image_count)[i])
                is BlitToTarget),
    decreases passes.len(),
{
    if passes.len() > 0 {
        lemma_pass_ops_no_blit(passes.drop_last(), entries, time_bits, image_count);
    }
}

/// First identity of a declared list, or `-1` for an empty list.
fn first_id_or_sentinel(ids: &Vec<u32>) -> (r: i32)
    requires
        ids@.len() > 0 ==> ids@[0] <= 0x7fff_ffff,
    ensures
        r as int == first_or_sentinel(ids@),
{
    if ids.len() == 0 {
        -1
    } else {
        ids[0] as i32
    }
}

impl DrawOrchestrator {
    /// Records one frame against the current store state.
    ///
    /// The result is exactly the frame's command sequence: the clear
    /// section, the pass section in list order (each pass bound to the
    /// program its handle currently names, skipped if the handle names
    /// none), and the closing copy. The one copy to the target takes the
    /// last shared image — the designated final output — as its source,
    /// and no other command copies to the target.
    #[verifier::loop_isolation(false)]
    pub fn record_frame(
        &self,
        store: &PipelineStore,
        time_bits: u32,
        target_from: ImageLayoutState,
        target_to: ImageLayoutState,
    ) -> (ops: Vec<RenderOp>)
        requires
            self.wf(),
            self.image_resources@.len() >= 1,
        ensures
            ops@ == frame_ops_spec(*self, store.entries(), time_bits, target_from, target_to),
            ops@.len() >= 3,
            ops@[ops@.len() - 3] == (RenderOp::BlitToTarget {
                source: (self.image_resources@.len() - 1) as u32,
            }),
            forall|i: int| 0 <= i < ops@.len() - 3
                ==> !((#[trigger] ops@[i]) is BlitToTarget),
            forall|i: int| ops@.len() - 3 < i < ops@.len()
                ==> !((#[trigger] ops@[i]) is BlitToTarget),
    {
        let image_count: u32 = self.image_resources.len() as u32;
        let mut ops: Vec<RenderOp> = Vec::new();

        // Clear section.
        let mut j: usize = 0;
        while j < self.image_resources.len()
            invariant
                j <= self.image_resources@.len(),
                ops@ == clear_ops_spec(self.image_resources@.take(j as int)),
            decreases self.image_resources@.len() - j,
        {
            let img = &self.image_resources[j];
            match img.clear {
                ClearConfig::NoClear => {},
                ClearConfig::Color(cr, cg, cb) => {
                    ops.push(RenderOp::TransitionImage {
                        image: img.identity,
                        from: ImageLayoutState::General,
                        to: ImageLayoutState::TransferDst,
                    });
                    ops.push(RenderOp::ClearImage {
                        image: img.identity,
                        red: cr,
                        green: cg,
                        blue: cb,
                    });
                    ops.push(RenderOp::TransitionImage {
                        image: img.identity,
                        from: ImageLayoutState::TransferDst,
                        to: ImageLayoutState::General,
                    });
                },
            }
            j = j + 1;
            proof {
                let pre = self.image_resources@.take(j - 1);
                let cur = self.image_resources@.take(j as int);
                assert(cur.drop_last() =~= pre);
                assert(cur.last() == self.image_resources@[j - 1]);
            }
        }
        proof {
            assert(self.image_resources@.take(self.image_resources@.len() as int)
                =~= self.image_resources@);
        }

        // Pass section.
        let mut i: usize = 0;
        while i < self.passes.len()
            invariant
                i <= self.passes@.len(),
                ops@ == clear_ops_spec(self.image_resources@) + pass_ops_seq(
                    self.passes@.take(i as int),
                    store.entries(),
                    time_bits,
                    image_count,
                ),
            decreases self.passes@.len() - i,
        {
            let p = &self.passes[i];
            match store.get(p.pipeline_handle) {
                None => {},
                Some(program) => {
                    proof {
                        if p.in_images@.len() > 0 {
                            assert(p.in_images@[0] < self.image_resources@.len());
                        }
                        if p.out_images@.len() > 0 {
                            assert(p.out_images@[0] < self.image_resources@.len());
                        }
                    }
                    ops.push(RenderOp::BindProgram { program: program.id });
                    ops.push(RenderOp::PushConstantBlock {
                        constants: PushConstants {
                            time_bits,
                            in_image: first_id_or_sentinel(&p.in_images),
                            out_image: first_id_or_sentinel(&p.out_images),
                        },
                    });
                    ops.push(RenderOp::BindImageArray { count: image_count });
                    ops.push(RenderOp::Dispatch {
                        x: p.dispatches.x,
                        y: p.dispatches.y,
                        z: p.dispatches.z,
                    });
                },
            }
            i = i + 1;
            proof {
                let pre = self.passes@.take(i - 1);
                let cur = self.passes@.take(i as int);
                assert(cur.drop_last() =~= pre);
                assert(cur.last() == self.passes@[i - 1]);
            }
        }
        proof {
            assert(self.passes@.take(self.passes@.len() as int) =~= self.passes@);
        }

        // Closing copy of the final output onto the target.
        let last_image: u32 = image_count - 1;
        ops.push(RenderOp::TransitionImage {
            image: last_image,
            from: ImageLayoutState::General,
            to: ImageLayoutState::TransferSrc,
        });
        ops.push(RenderOp::TransitionTarget {
            from: target_from,
            to: ImageLayoutState::TransferDst,
        });
        ops.push(RenderOp::ClearTarget);
        ops.push(RenderOp::BlitToTarget { source: last_image });
        ops.push(RenderOp::TransitionTarget {
            from: ImageLayoutState::TransferDst,
            to: target_to,
        });
        ops.push(RenderOp::TransitionImage {
            image: last_image,
            from: ImageLayoutState::TransferSrc,
            to: ImageLayoutState::General,
        });

        proof {
            assert(ops@ =~= frame_ops_spec(
                *self,
                store.entries(),
                time_bits,
                target_from,
                target_to,
            ));
            lemma_clear_ops_no_blit(self.image_resources@);
            lemma_pass_ops_no_blit(
                self.passes@,
                store.entries(),
                time_bits,
                image_count,
            );
        }
        ops
    }
}

} // verus!
