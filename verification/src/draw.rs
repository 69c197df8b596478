//! Frame model and emitted-command model.
//!
//! [`DrawData`] is the per-frame snapshot the renderer consumes: the
//! framebuffer size in pixels, the orthographic projection matrix, and the
//! draw lists with their vertices, indices and sub-commands. Screen
//! coordinates appear as single-precision bit patterns (see
//! [`crate::bits`]), already transformed into framebuffer space by the host
//! (clip rectangle minus display origin, times framebuffer scale, per axis).
//!
//! [`GpuOp`] is one rendering instruction for the host's command buffer.
//! The spec functions below define the exact instruction sequence a frame
//! translates to; the translator is proved to emit it.

use crate::bits::{ceil_px_of, floor_px_of, ge_of, lt_of};
use crate::cache::{resolved_set, set_available};
use crate::textures::TextureId;
use crate::FONT_TEX_ID;
use crate::vertex::DrawVert;
use std::sync::Arc;
use vstd::prelude::*;

verus! {

/// Dimensionality and extent of the target image, as the host reports it.
#[derive(Clone, Copy, Debug, PartialEq, Eq, Structural)]
pub enum ImageDimensions {
    Dim1d { width: u32, array_layers: u32 },
    Dim2d { width: u32, height: u32, array_layers: u32 },
    Dim3d { width: u32, height: u32, depth: u32 },
}

/// One sub-command of a draw list.
#[derive(Clone, Copy, Debug, PartialEq)]
pub enum DrawCmd {
    /// Draw `count` indices, clipped to a rectangle, textured by
    /// `texture_id`. `clip_rect` holds left, top, right, bottom in
    /// framebuffer pixels as bit patterns; `clip_extent` holds the
    /// right-minus-left and bottom-minus-top differences, computed by the
    /// host's floating-point unit on the same transformed rectangle.
    Elements {
        count: usize,
        clip_rect: [u32; 4],
        clip_extent: [u32; 2],
        texture_id: TextureId,
        vtx_offset: usize,
        idx_offset: usize,
    },
    /// Reserved by the UI library; currently nothing to do.
    ResetRenderState,
    /// A host-defined callback; kept in order relative to the draws around
    /// it and handed back to the host for invocation.
    RawCallback,
}

/// One draw list: a vertex buffer, an index buffer and ordered sub-commands.
#[derive(Debug, PartialEq)]
pub struct DrawList {
    pub vtx_buffer: Vec<DrawVert>,
    pub idx_buffer: Vec<u16>,
    pub commands: Vec<DrawCmd>,
}

/// The frame snapshot the renderer consumes. `fb_width` and `fb_height` are
/// display size times framebuffer scale, per axis, as bit patterns;
/// `matrix` is the column-major orthographic projection mapping the display
/// rectangle to clip space, entries as bit patterns.
#[derive(Debug, PartialEq)]
pub struct DrawData {
    pub fb_width: u32,
    pub fb_height: u32,
    pub matrix: [[u32; 4]; 4],
    pub draw_lists: Vec<DrawList>,
}

/// One instruction for the host's command buffer, in the order emitted.
/// `S` is the host's descriptor-set object.
#[derive(Debug, PartialEq)]
pub enum GpuOp<S> {
    /// Begin the render pass on the target image (contents loaded, results
    /// stored).
    BeginRenderPass,
    /// Bind the renderer's fixed graphics pipeline.
    BindPipeline,
    /// Bind `set` at descriptor-set index 0.
    BindDescriptorSet { set: Arc<S> },
    /// Restrict rendering to the given pixel rectangle.
    SetScissor { origin: [u32; 2], dimensions: [u32; 2] },
    /// Viewport over the full framebuffer, origin zero, depth range 0 to 1.
    SetViewport { width: u32, height: u32 },
    /// Bind the vertex buffer uploaded from draw list `list`.
    BindVertexBuffer { list: usize },
    /// Bind the index buffer uploaded from draw list `list`.
    BindIndexBuffer { list: usize },
    /// Push the projection matrix (entries as bit patterns).
    PushConstants { matrix: [[u32; 4]; 4] },
    /// Draw `index_count` indices starting at `first_index`, one instance,
    /// with `vertex_offset` added to each index before vertex lookup.
    DrawIndexed { index_count: u32, first_index: u32, vertex_offset: u32 },
    /// Invoke the host callback of command `command` of draw list `list`.
    RawCallback { list: usize, command: usize },
    /// End the render pass.
    EndRenderPass,
}

/// Whether the frame is worth rendering at all: both framebuffer axes are
/// strictly positive.
pub open spec fn frame_active(data: DrawData) -> bool {
    &&& crate::bits::gt_of(data.fb_width, 0u32)
    &&& crate::bits::gt_of(data.fb_height, 0u32)
}

/// Whether a clip rectangle intersects the framebuffer: its left and top
/// lie before the framebuffer's extent and its right and bottom are at or
/// past zero. A command failing this test is culled.
pub open spec fn cmd_visible(clip_rect: [u32; 4], fb_width: u32, fb_height: u32) -> bool {
    &&& lt_of(clip_rect[0], fb_width)
    &&& lt_of(clip_rect[1], fb_height)
    &&& ge_of(clip_rect[2], 0u32)
    &&& ge_of(clip_rect[3], 0u32)
}

/// The texture a command will bind: present for a visible `Elements`
/// command, absent for everything culled or non-drawing.
pub open spec fn visible_texture_at(data: DrawData, l: int, c: int) -> Option<TextureId> {
    match data.draw_lists[l].commands[c] {
        DrawCmd::Elements { clip_rect, texture_id, .. } => {
            if cmd_visible(clip_rect, data.fb_width, data.fb_height) {
                Some(texture_id)
            } else {
                None
            }
        },
        _ => None,
    }
}

/// The scissor rectangle of a visible command: origin is each lower bound
/// clamped to zero and floored; dimensions are the ceilings of the
/// rectangle's extents.
pub open spec fn scissor_of(clip_rect: [u32; 4], clip_extent: [u32; 2]) -> ([u32; 2], [u32; 2]) {
    ([floor_px_of(clip_rect[0]), floor_px_of(clip_rect[1])],
    [ceil_px_of(clip_extent[0]), ceil_px_of(clip_extent[1])])
}

/// The scissor rectangle of a visible command, computed from the
/// transformed clip rectangle and its extents.
pub fn scissor_px(clip_rect: &[u32; 4], clip_extent: &[u32; 2]) -> (r: ([u32; 2], [u32; 2]))
    ensures
        r == scissor_of(*clip_rect, *clip_extent),
{
    (
        [crate::bits::floor_px(clip_rect[0]), crate::bits::floor_px(clip_rect[1])],
        [crate::bits::ceil_px(clip_extent[0]), crate::bits::ceil_px(clip_extent[1])],
    )
}

/// The instructions one sub-command contributes, given the target extent
/// and the descriptor cache contents the frame ends with.
pub open spec fn cmd_ops<S>(
    data: DrawData,
    tw: u32,
    th: u32,
    cm: Map<usize, Arc<S>>,
    font: Option<Arc<S>>,
    l: int,
    c: int,
) -> Seq<GpuOp<S>> {
    match data.draw_lists[l].commands[c] {
        DrawCmd::Elements { count, clip_rect, clip_extent, texture_id, vtx_offset, idx_offset } => {
            if cmd_visible(clip_rect, data.fb_width, data.fb_height) {
                seq![
                    GpuOp::BindDescriptorSet { set: resolved_set(cm, font, texture_id) },
                    GpuOp::SetScissor {
                        origin: scissor_of(clip_rect, clip_extent).0,
                        dimensions: scissor_of(clip_rect, clip_extent).1,
                    },
                    GpuOp::SetViewport { width: tw, height: th },
                    GpuOp::BindVertexBuffer { list: l as usize },
                    GpuOp::BindIndexBuffer { list: l as usize },
                    GpuOp::PushConstants { matrix: data.matrix },
                    GpuOp::DrawIndexed {
                        index_count: count as u32,
                        first_index: idx_offset as u32,
                        vertex_offset: vtx_offset as u32,
                    },
                ]
            } else {
                Seq::empty()
            }
        },
        DrawCmd::ResetRenderState => Seq::empty(),
        DrawCmd::RawCallback => seq![
            GpuOp::RawCallback { list: l as usize, command: c as usize },
        ],
    }
}

/// The instructions of the first `n` sub-commands of draw list `l`.
pub open spec fn cmds_ops_prefix<S>(
    data: DrawData,
    tw: u32,
    th: u32,
    cm: Map<usize, Arc<S>>,
    font: Option<Arc<S>>,
    l: int,
    n: int,
) -> Seq<GpuOp<S>>
    decreases n,
{
    if n <= 0 {
        Seq::empty()
    } else {
        cmds_ops_prefix(data, tw, th, cm, font, l, n - 1) + cmd_ops(data, tw, th, cm, font, l, n - 1)
    }
}

/// The instructions of all sub-commands of draw list `l`.
pub open spec fn list_ops<S>(
    data: DrawData,
    tw: u32,
    th: u32,
    cm: Map<usize, Arc<S>>,
    font: Option<Arc<S>>,
    l: int,
) -> Seq<GpuOp<S>> {
    cmds_ops_prefix(data, tw, th, cm, font, l, data.draw_lists[l].commands.len() as int)
}

/// The instructions of the first `n` draw lists.
pub open spec fn lists_ops_prefix<S>(
    data: DrawData,
    tw: u32,
    th: u32,
    cm: Map<usize, Arc<S>>,
    font: Option<Arc<S>>,
    n: int,
) -> Seq<GpuOp<S>>
    decreases n,
{
    if n <= 0 {
        Seq::empty()
    } else {
        lists_ops_prefix(data, tw, th, cm, font, n - 1) + list_ops(data, tw, th, cm, font, n - 1)
    }
}

/// The full instruction sequence of an active frame on a two-dimensional
/// target of extent `tw` by `th`: begin the pass, bind the pipeline, the
/// lists' instructions in order, end the pass.
pub open spec fn translate_ops<S>(
    data: DrawData,
    tw: u32,
    th: u32,
    cm: Map<usize, Arc<S>>,
    font: Option<Arc<S>>,
) -> Seq<GpuOp<S>> {
    seq![GpuOp::BeginRenderPass, GpuOp::BindPipeline]
        + lists_ops_prefix(data, tw, th, cm, font, data.draw_lists.len() as int)
        + seq![GpuOp::EndRenderPass]
}

/// Every visible command among the first `n` of draw list `l` has its
/// descriptor available in the cache.
pub open spec fn cmds_prefix_resolvable<S>(
    data: DrawData,
    cm: Map<usize, Arc<S>>,
    font: Option<Arc<S>>,
    l: int,
    n: int,
) -> bool {
    forall|c: int|
        0 <= c < n ==> match #[trigger] visible_texture_at(data, l, c) {
            Some(id) => set_available(cm, font, id),
            None => true,
        }
}

/// Every visible command of the first `n` draw lists has its descriptor
/// available in the cache.
pub open spec fn lists_prefix_resolvable<S>(
    data: DrawData,
    cm: Map<usize, Arc<S>>,
    font: Option<Arc<S>>,
    n: int,
) -> bool {
    forall|l: int|
        0 <= l < n ==> #[trigger] cmds_prefix_resolvable(
            data,
            cm,
            font,
            l,
            data.draw_lists[l].commands.len() as int,
        )
}

/// A cache extension: every entry survives unchanged, and a present font
/// descriptor survives unchanged.
pub open spec fn cache_extends<S>(
    cm1: Map<usize, Arc<S>>,
    font1: Option<Arc<S>>,
    cm2: Map<usize, Arc<S>>,
    font2: Option<Arc<S>>,
) -> bool {
    &&& cm1.submap_of(cm2)
    &&& (font1 is Some ==> font2 == font1)
}

/// Availability is preserved by cache extension.
pub proof fn lemma_available_stable<S>(
    cm1: Map<usize, Arc<S>>,
    font1: Option<Arc<S>>,
    cm2: Map<usize, Arc<S>>,
    font2: Option<Arc<S>>,
    id: TextureId,
)
    requires
        cache_extends(cm1, font1, cm2, font2),
        set_available(cm1, font1, id),
    ensures
        set_available(cm2, font2, id),
        resolved_set(cm2, font2, id) == resolved_set(cm1, font1, id),
{
    if id.0 != FONT_TEX_ID {
        assert(cm1.dom().contains(id.0));
        assert(cm2.contains_key(id.0) && cm2[id.0] == cm1[id.0]);
    }
}

/// A command's instructions do not change when the cache is extended, as
/// long as the descriptor the command needs was already available.
pub proof fn lemma_cmd_ops_stable<S>(
    data: DrawData,
    tw: u32,
    th: u32,
    cm1: Map<usize, Arc<S>>,
    font1: Option<Arc<S>>,
    cm2: Map<usize, Arc<S>>,
    font2: Option<Arc<S>>,
    l: int,
    c: int,
)
    requires
        cache_extends(cm1, font1, cm2, font2),
        visible_texture_at(data, l, c) matches Some(id) ==> set_available(cm1, font1, id),
    ensures
        cmd_ops(data, tw, th, cm2, font2, l, c) == cmd_ops(data, tw, th, cm1, font1, l, c),
{
    match data.draw_lists[l].commands[c] {
        DrawCmd::Elements { clip_rect, texture_id, .. } => {
            if cmd_visible(clip_rect, data.fb_width, data.fb_height) {
                lemma_available_stable(cm1, font1, cm2, font2, texture_id);
                assert(cmd_ops(data, tw, th, cm2, font2, l, c) =~= cmd_ops(
                    data,
                    tw,
                    th,
                    cm1,
                    font1,
                    l,
                    c,
                ));
            }
        },
        _ => {},
    }
}

/// A command prefix's instructions do not change when the cache is
/// extended, as long as each descriptor the prefix needs was already
/// available.
pub proof fn lemma_cmds_prefix_stable<S>(
    data: DrawData,
    tw: u32,
    th: u32,
    cm1: Map<usize, Arc<S>>,
    font1: Option<Arc<S>>,
    cm2: Map<usize, Arc<S>>,
    font2: Option<Arc<S>>,
    l: int,
    n: int,
)
    requires
        cache_extends(cm1, font1, cm2, font2),
        cmds_prefix_resolvable(data, cm1, font1, l, n),
    ensures
        cmds_ops_prefix(data, tw, th, cm2, font2, l, n) == cmds_ops_prefix(
            data,
            tw,
            th,
            cm1,
            font1,
            l,
            n,
        ),
    decreases n,
{
    if n > 0 {
        lemma_cmds_prefix_stable(data, tw, th, cm1, font1, cm2, font2, l, n - 1);
        lemma_cmd_ops_stable(data, tw, th, cm1, font1, cm2, font2, l, n - 1);
    }
}

/// A list prefix's instructions do not change when the cache is extended,
/// as long as each descriptor the prefix needs was already available.
pub proof fn lemma_lists_prefix_stable<S>(
    data: DrawData,
    tw: u32,
    th: u32,
    cm1: Map<usize, Arc<S>>,
    font1: Option<Arc<S>>,
    cm2: Map<usize, Arc<S>>,
    font2: Option<Arc<S>>,
    n: int,
)
    requires
        cache_extends(cm1, font1, cm2, font2),
        lists_prefix_resolvable(data, cm1, font1, n),
    ensures
        lists_ops_prefix(data, tw, th, cm2, font2, n) == lists_ops_prefix(
            data,
            tw,
            th,
            cm1,
            font1,
            n,
        ),
    decreases n,
{
    if n > 0 {
        lemma_lists_prefix_stable(data, tw, th, cm1, font1, cm2, font2, n - 1);
        lemma_cmds_prefix_stable(
            data,
            tw,
            th,
            cm1,
            font1,
            cm2,
            font2,
            n - 1,
            data.draw_lists[n - 1].commands.len() as int,
        );
    }
}

/// Availability of a command prefix's descriptors is preserved by cache
/// extension.
pub proof fn lemma_cmds_prefix_resolvable_stable<S>(
    data: DrawData,
    cm1: Map<usize, Arc<S>>,
    font1: Option<Arc<S>>,
    cm2: Map<usize, Arc<S>>,
    font2: Option<Arc<S>>,
    l: int,
    n: int,
)
    requires
        cache_extends(cm1, font1, cm2, font2),
        cmds_prefix_resolvable(data, cm1, font1, l, n),
    ensures
        cmds_prefix_resolvable(data, cm2, font2, l, n),
{
    assert forall|c: int| 0 <= c < n implies match #[trigger] visible_texture_at(data, l, c) {
        Some(id) => set_available(cm2, font2, id),
        None => true,
    } by {
        match visible_texture_at(data, l, c) {
            Some(id) => {
                lemma_available_stable(cm1, font1, cm2, font2, id);
            },
            None => {},
        }
    }
}

/// Availability of a list prefix's descriptors is preserved by cache
/// extension.
pub proof fn lemma_lists_prefix_resolvable_stable<S>(
    data: DrawData,
    cm1: Map<usize, Arc<S>>,
    font1: Option<Arc<S>>,
    cm2: Map<usize, Arc<S>>,
    font2: Option<Arc<S>>,
    n: int,
)
    requires
        cache_extends(cm1, font1, cm2, font2),
        lists_prefix_resolvable(data, cm1, font1, n),
    ensures
        lists_prefix_resolvable(data, cm2, font2, n),
{
    assert forall|l: int| 0 <= l < n implies #[trigger] cmds_prefix_resolvable(
        data,
        cm2,
        font2,
        l,
        data.draw_lists[l].commands.len() as int,
    ) by {
        lemma_cmds_prefix_resolvable_stable(
            data,
            cm1,
            font1,
            cm2,
            font2,
            l,
            data.draw_lists[l].commands.len() as int,
        );
    }
}

/// Law: a draw command whose clip rectangle lies entirely outside the
/// framebuffer — left at or past the framebuffer's width, top at or past
/// its height, or right or bottom before zero — contributes no
/// instructions at all.
pub proof fn lemma_fully_clipped_cmd_emits_nothing<S>(
    data: DrawData,
    tw: u32,
    th: u32,
    cm: Map<usize, Arc<S>>,
    font: Option<Arc<S>>,
    l: int,
    c: int,
)
    requires
        data.draw_lists[l].commands[c] matches DrawCmd::Elements { clip_rect, .. } && {
            ||| ge_of(clip_rect[0], data.fb_width)
            ||| ge_of(clip_rect[1], data.fb_height)
            ||| lt_of(clip_rect[2], 0u32)
            ||| lt_of(clip_rect[3], 0u32)
        },
    ensures
        cmd_ops(data, tw, th, cm, font, l, c) == Seq::<GpuOp<S>>::empty(),
{
}

} // verus!
