//! The renderer: owns the texture registry, the font-atlas slot and the
//! descriptor cache, and translates one frame of draw data into the exact
//! ordered instruction sequence the host records into its command buffer.

use crate::cache::{arc_clone, resolved_set, set_available, DescriptorSetCache};
use crate::draw::{
    cache_extends, cmd_ops, cmd_visible, cmds_ops_prefix, cmds_prefix_resolvable, frame_active,
    lemma_cmds_prefix_resolvable_stable, lemma_cmds_prefix_stable,
    lemma_lists_prefix_resolvable_stable, lemma_lists_prefix_stable, list_ops, lists_ops_prefix,
    lists_prefix_resolvable, translate_ops, visible_texture_at, DrawCmd, DrawData, GpuOp,
    ImageDimensions,
};
use crate::textures::{TextureId, Textures};
use crate::FONT_TEX_ID;
use std::sync::Arc;
use vstd::prelude::*;

verus! {

/// Errors the renderer itself can diagnose.
#[derive(Clone, Copy, Debug, PartialEq, Eq, Structural)]
pub enum RendererError {
    /// The identifier names no registered texture and is not the font
    /// sentinel; it carries the offending identifier.
    BadTexture(TextureId),
    /// The target image is not two-dimensional; it carries the reported
    /// dimensions.
    BadImageDimensions(ImageDimensions),
}

/// Why a frame translation stopped: a renderer error, or the host's
/// descriptor build function failed with its own error.
#[derive(Debug, PartialEq)]
pub enum DrawError<E> {
    Renderer(RendererError),
    Build(E),
}

/// A descriptor `d` as the build function produces it from texture `tex`.
pub open spec fn entry_built_from<T, S, E, F: Fn(&T) -> Result<Arc<S>, E>>(
    build_fn: F,
    tex: T,
    d: Arc<S>,
) -> bool {
    exists|t: &T| #[trigger] call_ensures(build_fn, (t,), Ok::<Arc<S>, E>(d)) && *t == tex
}

/// Every cache entry in `cm` but not in `pre_cm` was built by `build_fn`
/// from the registered texture of its identifier, and a font descriptor
/// that appeared was built from the font texture.
pub open spec fn new_entries_built<T, S, E, F: Fn(&T) -> Result<Arc<S>, E>>(
    build_fn: F,
    textures: Textures<T>,
    font_texture: T,
    pre_cm: Map<usize, Arc<S>>,
    pre_font: Option<Arc<S>>,
    cm: Map<usize, Arc<S>>,
    font: Option<Arc<S>>,
) -> bool {
    &&& forall|k: usize|
        #[trigger] cm.contains_key(k) && !pre_cm.contains_key(k) ==> textures.spec_map().contains_key(k)
            && entry_built_from(build_fn, textures.spec_map()[k], cm[k])
    &&& (pre_font is None && font is Some ==> entry_built_from(
        build_fn,
        font_texture,
        font.unwrap(),
    ))
}

/// A `Build` error `e` as the build function itself can produce it: some
/// call of the function may return exactly this error.
pub open spec fn build_failed_with<T, S, E, F: Fn(&T) -> Result<Arc<S>, E>>(
    build_fn: F,
    e: E,
) -> bool {
    exists|t: &T| #[trigger] call_ensures(build_fn, (t,), Err::<Arc<S>, E>(e))
}

/// Whether the build function is infallible: its contract admits only
/// successful results.
pub open spec fn build_never_fails<T, S, E, F: Fn(&T) -> Result<Arc<S>, E>>(build_fn: F) -> bool {
    forall|t: &T, r: Result<Arc<S>, E>| #[trigger] call_ensures(build_fn, (t,), r) ==> r is Ok
}

/// Every visible command among the first `n` of draw list `l` names a
/// texture that the state `pre` can resolve: the font sentinel, an already
/// cached identifier, or a registered identifier.
pub open spec fn cmds_prefix_sourced<T, S>(
    data: DrawData,
    pre: Renderer<T, S>,
    l: int,
    n: int,
) -> bool {
    forall|c: int|
        0 <= c < n ==> match #[trigger] visible_texture_at(data, l, c) {
            Some(id) => pre.resolvable(id),
            None => true,
        }
}

/// Every visible command of the first `n` draw lists names a texture that
/// the state `pre` can resolve.
pub open spec fn lists_prefix_sourced<T, S>(data: DrawData, pre: Renderer<T, S>, n: int) -> bool {
    forall|l: int|
        0 <= l < n ==> #[trigger] cmds_prefix_sourced(
            data,
            pre,
            l,
            data.draw_lists[l].commands.len() as int,
        )
}

/// What a translation on an active frame and a two-dimensional target of
/// extent `tw` by `th` delivers. On success the instructions are exactly
/// [`translate_ops`] under the cache the call ends with, every visible
/// command's descriptor is then cached, and every visible command named a
/// texture the starting state could resolve. A `BadTexture` error carries a
/// visible command's identifier that the starting state could not resolve.
/// A `Build` error is one the build function itself returned; none can
/// occur when every visible command's descriptor is already cached, and no
/// renderer error when every visible command is resolvable, so success is
/// owed wherever the build function's contract rules failures out.
pub open spec fn draw_outcome_ok<T, S, E, F: Fn(&T) -> Result<Arc<S>, E>>(
    build_fn: F,
    r: Result<Vec<GpuOp<S>>, DrawError<E>>,
    pre: Renderer<T, S>,
    post: Renderer<T, S>,
    data: DrawData,
    tw: u32,
    th: u32,
) -> bool {
    &&& (lists_prefix_resolvable(
        data,
        pre.spec_cache().spec_map(),
        pre.spec_cache().spec_font(),
        data.draw_lists.len() as int,
    ) ==> r is Ok)
    &&& (lists_prefix_sourced(data, pre, data.draw_lists.len() as int) && build_never_fails(
        build_fn,
    ) ==> !(r matches Err(DrawError::Renderer(_))))
    &&& match r {
        Ok(ops) => {
            &&& ops@ == translate_ops(
                data,
                tw,
                th,
                post.spec_cache().spec_map(),
                post.spec_cache().spec_font(),
            )
            &&& lists_prefix_resolvable(
                data,
                post.spec_cache().spec_map(),
                post.spec_cache().spec_font(),
                data.draw_lists.len() as int,
            )
            &&& lists_prefix_sourced(data, pre, data.draw_lists.len() as int)
        },
        Err(e) => match e {
            DrawError::Renderer(re) => {
                &&& re matches RendererError::BadTexture(id)
                &&& re matches RendererError::BadTexture(id) ==> {
                    &&& id.0 != FONT_TEX_ID
                    &&& !pre.resolvable(id)
                    &&& exists|l: int, c: int|
                        0 <= l < data.draw_lists.len() && 0 <= c
                            < data.draw_lists[l].commands.len()
                            && #[trigger] visible_texture_at(data, l, c) == Some(id)
                }
            },
            DrawError::Build(err) => build_failed_with(build_fn, err),
        },
    }
}

/// The renderer. `T` is the host's texture object (image view plus
/// sampler); `S` is the host's descriptor-set object.
#[verifier::reject_recursive_types(T)]
#[verifier::reject_recursive_types(S)]
pub struct Renderer<T, S> {
    font_texture: T,
    textures: Textures<T>,
    descriptor_set_cache: DescriptorSetCache<S>,
}

impl<T, S> Renderer<T, S> {
    /// The texture registry.
    pub closed spec fn spec_textures(&self) -> Textures<T> {
        self.textures
    }

    /// The font-atlas texture.
    pub closed spec fn spec_font_texture(&self) -> T {
        self.font_texture
    }

    /// The descriptor cache.
    pub closed spec fn spec_cache(&self) -> DescriptorSetCache<S> {
        self.descriptor_set_cache
    }

    /// The registry's allocation discipline holds.
    pub open spec fn wf(&self) -> bool {
        self.spec_textures().wf()
    }

    /// Whether this state can turn `id` into a texture binding: the font
    /// sentinel always can, any other identifier through the cache or the
    /// registry.
    pub open spec fn resolvable(&self, id: TextureId) -> bool {
        ||| id.0 == FONT_TEX_ID
        ||| self.spec_cache().spec_map().contains_key(id.0)
        ||| self.spec_textures().spec_map().contains_key(id.0)
    }

    /// A fresh renderer holding the uploaded font-atlas texture, with an
    /// empty registry and an empty descriptor cache.
    pub fn init(font_texture: T) -> (r: Renderer<T, S>)
        ensures
            r.wf(),
            r.spec_font_texture() == font_texture,
            r.spec_textures().spec_map() == Map::<usize, T>::empty(),
            r.spec_textures().spec_next() == 0,
            r.spec_cache().spec_map() == Map::<usize, Arc<S>>::empty(),
            r.spec_cache().spec_font() is None,
    {
        Renderer {
            font_texture,
            textures: Textures::new(),
            descriptor_set_cache: DescriptorSetCache::new(),
        }
    }

    /// Replaces the font-atlas texture after a reload and drops the cached
    /// font descriptor, so the next frame rebuilds it. User textures and
    /// their cached descriptors are untouched.
    pub fn reload_font_texture(&mut self, font_texture: T)
        ensures
            final(self).spec_font_texture() == font_texture,
            final(self).spec_textures() == old(self).spec_textures(),
            final(self).spec_cache().spec_font() is None,
            final(self).spec_cache().spec_map() == old(self).spec_cache().spec_map(),
    {
        self.descriptor_set_cache.clear_font_texture();
        self.font_texture = font_texture;
    }

    /// Read access to the texture registry.
    pub fn textures(&self) -> (r: &Textures<T>)
        ensures
            *r == self.spec_textures(),
    {
        &self.textures
    }

    /// Mutable access to the texture registry. Because entries may be
    /// replaced or removed through it, every cached user-texture descriptor
    /// is dropped, so no cached binding can outlive the texture it was
    /// built from; the font descriptor is untouched.
    pub fn textures_mut(&mut self) -> (r: &mut Textures<T>)
        ensures
            *r == old(self).spec_textures(),
            final(self).spec_textures() == *final(r),
            final(self).spec_font_texture() == old(self).spec_font_texture(),
            final(self).spec_cache().spec_map() == Map::<usize, Arc<S>>::empty(),
            final(self).spec_cache().spec_font() == old(self).spec_cache().spec_font(),
    {
        self.descriptor_set_cache.clear();
        &mut self.textures
    }

    /// The texture behind an identifier: the font slot for the sentinel,
    /// the registry for everything else, and `BadTexture` for an
    /// identifier neither knows.
    fn lookup_texture<'a>(
        textures: &'a Textures<T>,
        font_texture: &'a T,
        texture_id: TextureId,
    ) -> (r: Result<&'a T, RendererError>)
        ensures
            match r {
                Ok(t) => if texture_id.0 == FONT_TEX_ID {
                    t == font_texture
                } else {
                    textures.spec_map().contains_key(texture_id.0) && *t
                        == textures.spec_map()[texture_id.0]
                },
                Err(e) => {
                    &&& e == RendererError::BadTexture(texture_id)
                    &&& texture_id.0 != FONT_TEX_ID
                    &&& !textures.spec_map().contains_key(texture_id.0)
                },
            },
    {
        if texture_id.id() == FONT_TEX_ID {
            Ok(font_texture)
        } else if let Some(texture) = textures.get(texture_id) {
            Ok(texture)
        } else {
            Err(RendererError::BadTexture(texture_id))
        }
    }

    /// Translates one frame into the instruction sequence the host records.
    ///
    /// A degenerate frame (either framebuffer axis not strictly positive)
    /// yields no instructions; a target that is not two-dimensional is
    /// `BadImageDimensions`. Otherwise the instructions are exactly
    /// [`translate_ops`]: pass begun, pipeline bound, then per visible
    /// command a descriptor bind, scissor, viewport, buffer binds, push
    /// constants and an indexed draw, in the order the lists give them,
    /// and the pass ended. Descriptors are resolved through the cache,
    /// built at most once per identifier by `build_fn` on the texture the
    /// registry holds; an identifier that is neither the sentinel, nor
    /// cached, nor registered stops the translation with `BadTexture`.
    #[verifier::loop_isolation(false)]
    #[verifier::rlimit(100)]
    pub fn draw_commands<F, E>(
        &mut self,
        target: ImageDimensions,
        draw_data: &DrawData,
        build_fn: F,
    ) -> (r: Result<Vec<GpuOp<S>>, DrawError<E>>) where F: Fn(&T) -> Result<Arc<S>, E>
        requires
            old(self).wf(),
            forall|t: &T| #[trigger] call_requires(build_fn, (t,)),
        ensures
            final(self).wf(),
            final(self).spec_textures() == old(self).spec_textures(),
            final(self).spec_font_texture() == old(self).spec_font_texture(),
            cache_extends(
                old(self).spec_cache().spec_map(),
                old(self).spec_cache().spec_font(),
                final(self).spec_cache().spec_map(),
                final(self).spec_cache().spec_font(),
            ),
            new_entries_built(
                build_fn,
                old(self).spec_textures(),
                old(self).spec_font_texture(),
                old(self).spec_cache().spec_map(),
                old(self).spec_cache().spec_font(),
                final(self).spec_cache().spec_map(),
                final(self).spec_cache().spec_font(),
            ),
            !frame_active(*draw_data) ==> *final(self) == *old(self) && (r matches Ok(ops)
                && ops@ == Seq::<GpuOp<S>>::empty()),
            frame_active(*draw_data) ==> match target {
                ImageDimensions::Dim2d { width: tw, height: th, .. } => draw_outcome_ok(
                    build_fn,
                    r,
                    *old(self),
                    *final(self),
                    *draw_data,
                    tw,
                    th,
                ),
                _ => *final(self) == *old(self) && r == Err::<Vec<GpuOp<S>>, DrawError<E>>(
                    DrawError::Renderer(RendererError::BadImageDimensions(target)),
                ),
            },
    {
        if !(crate::bits::gt_bits(draw_data.fb_width, 0) && crate::bits::gt_bits(
            draw_data.fb_height,
            0,
        )) {
            return Ok(Vec::new());
        }
        let (tw, th) = match target {
            ImageDimensions::Dim2d { width, height, .. } => (width, height),
            _ => {
                return Err(DrawError::Renderer(RendererError::BadImageDimensions(target)));
            },
        };

        let mut ops: Vec<GpuOp<S>> = Vec::new();
        ops.push(GpuOp::BeginRenderPass);
        ops.push(GpuOp::BindPipeline);
        proof {
            assert(ops@ =~= seq![GpuOp::<S>::BeginRenderPass, GpuOp::<S>::BindPipeline]
                + lists_ops_prefix(
                *draw_data,
                tw,
                th,
                self.spec_cache().spec_map(),
                self.spec_cache().spec_font(),
                0,
            ));
        }

        let mut l: usize = 0;
        while l < draw_data.draw_lists.len()
            invariant
                l <= draw_data.draw_lists.len(),
                self.wf(),
                self.spec_textures() == old(self).spec_textures(),
                self.spec_font_texture() == old(self).spec_font_texture(),
                cache_extends(
                    old(self).spec_cache().spec_map(),
                    old(self).spec_cache().spec_font(),
                    self.spec_cache().spec_map(),
                    self.spec_cache().spec_font(),
                ),
                new_entries_built(
                    build_fn,
                    old(self).spec_textures(),
                    old(self).spec_font_texture(),
                    old(self).spec_cache().spec_map(),
                    old(self).spec_cache().spec_font(),
                    self.spec_cache().spec_map(),
                    self.spec_cache().spec_font(),
                ),
                ops@ == seq![GpuOp::<S>::BeginRenderPass, GpuOp::<S>::BindPipeline]
                    + lists_ops_prefix(
                    *draw_data,
                    tw,
                    th,
                    self.spec_cache().spec_map(),
                    self.spec_cache().spec_font(),
                    l as int,
                ),
                lists_prefix_resolvable(
                    *draw_data,
                    self.spec_cache().spec_map(),
                    self.spec_cache().spec_font(),
                    l as int,
                ),
                lists_prefix_sourced(*draw_data, *old(self), l as int),
            decreases draw_data.draw_lists.len() - l,
        {
            let list = &draw_data.draw_lists[l];
            let mut c: usize = 0;
            while c < list.commands.len()
                invariant
                    c <= list.commands.len(),
                    self.wf(),
                    self.spec_textures() == old(self).spec_textures(),
                    self.spec_font_texture() == old(self).spec_font_texture(),
                    cache_extends(
                        old(self).spec_cache().spec_map(),
                        old(self).spec_cache().spec_font(),
                        self.spec_cache().spec_map(),
                        self.spec_cache().spec_font(),
                    ),
                    new_entries_built(
                        build_fn,
                        old(self).spec_textures(),
                        old(self).spec_font_texture(),
                        old(self).spec_cache().spec_map(),
                        old(self).spec_cache().spec_font(),
                        self.spec_cache().spec_map(),
                        self.spec_cache().spec_font(),
                    ),
                    ops@ == seq![GpuOp::<S>::BeginRenderPass, GpuOp::<S>::BindPipeline]
                        + lists_ops_prefix(
                        *draw_data,
                        tw,
                        th,
                        self.spec_cache().spec_map(),
                        self.spec_cache().spec_font(),
                        l as int,
                    ) + cmds_ops_prefix(
                        *draw_data,
                        tw,
                        th,
                        self.spec_cache().spec_map(),
                        self.spec_cache().spec_font(),
                        l as int,
                        c as int,
                    ),
                    lists_prefix_resolvable(
                        *draw_data,
                        self.spec_cache().spec_map(),
                        self.spec_cache().spec_font(),
                        l as int,
                    ),
                    cmds_prefix_resolvable(
                        *draw_data,
                        self.spec_cache().spec_map(),
                        self.spec_cache().spec_font(),
                        l as int,
                        c as int,
                    ),
                    lists_prefix_sourced(*draw_data, *old(self), l as int),
                    cmds_prefix_sourced(*draw_data, *old(self), l as int, c as int),
                decreases list.commands.len() - c,
            {
                match &list.commands[c] {
                    DrawCmd::Elements {
                        count,
                        clip_rect,
                        clip_extent,
                        texture_id,
                        idx_offset,
                        vtx_offset,
                    } => {
                        if crate::bits::lt_bits(clip_rect[0], draw_data.fb_width)
                            && crate::bits::lt_bits(clip_rect[1], draw_data.fb_height)
                            && crate::bits::ge_bits(clip_rect[2], 0) && crate::bits::ge_bits(
                            clip_rect[3],
                            0,
                        ) {
                            let set: Arc<S> = match self.descriptor_set_cache.cached(*texture_id) {
                                Some(d) => d,
                                None => {
                                    let tex: &T = match Self::lookup_texture(
                                        &self.textures,
                                        &self.font_texture,
                                        *texture_id,
                                    ) {
                                        Ok(t) => t,
                                        Err(e) => {
                                            proof {
                                                let id = *texture_id;
                                                let pre_cm = old(self).spec_cache().spec_map();
                                                let pre_font = old(self).spec_cache().spec_font();
                                                let cur_cm = self.spec_cache().spec_map();
                                                let cur_font = self.spec_cache().spec_font();
                                                let n = draw_data.draw_lists.len() as int;
                                                let nc = draw_data.draw_lists[l as int].commands.len() as int;
                                                assert(visible_texture_at(
                                                    *draw_data,
                                                    l as int,
                                                    c as int,
                                                ) == Some(id));
                                                assert(!pre_cm.contains_key(id.0)) by {
                                                    if pre_cm.contains_key(id.0) {
                                                        assert(pre_cm.dom().contains(id.0));
                                                    }
                                                }
                                                if lists_prefix_resolvable(*draw_data, pre_cm, pre_font, n) {
                                                    assert(cmds_prefix_resolvable(*draw_data, pre_cm, pre_font, l as int, nc));
                                                    assert(set_available(pre_cm, pre_font, id));
                                                    crate::draw::lemma_available_stable(pre_cm, pre_font, cur_cm, cur_font, id);
                                                    assert(false);
                                                }
                                                if lists_prefix_sourced(*draw_data, *old(self), n) {
                                                    assert(cmds_prefix_sourced(*draw_data, *old(self), l as int, nc));
                                                    assert(old(self).resolvable(id));
                                                    assert(false);
                                                }
                                            }
                                            return Err(DrawError::Renderer(e));
                                        },
                                    };
                                    let built = match build_fn(tex) {
                                        Ok(d) => d,
                                        Err(e) => {
                                            proof {
                                                let id = *texture_id;
                                                let pre_cm = old(self).spec_cache().spec_map();
                                                let pre_font = old(self).spec_cache().spec_font();
                                                let cur_cm = self.spec_cache().spec_map();
                                                let cur_font = self.spec_cache().spec_font();
                                                let n = draw_data.draw_lists.len() as int;
                                                let nc = draw_data.draw_lists[l as int].commands.len() as int;
                                                assert(call_ensures(
                                                    build_fn,
                                                    (tex,),
                                                    Err::<Arc<S>, E>(e),
                                                ));
                                                assert(build_failed_with::<T, S, E, F>(build_fn, e));
                                                assert(visible_texture_at(
                                                    *draw_data,
                                                    l as int,
                                                    c as int,
                                                ) == Some(id));
                                                if lists_prefix_resolvable(*draw_data, pre_cm, pre_font, n) {
                                                    assert(cmds_prefix_resolvable(*draw_data, pre_cm, pre_font, l as int, nc));
                                                    assert(set_available(pre_cm, pre_font, id));
                                                    crate::draw::lemma_available_stable(pre_cm, pre_font, cur_cm, cur_font, id);
                                                    assert(false);
                                                }
                                            }
                                            return Err(DrawError::Build(e));
                                        },
                                    };
                                    let ghost cm1 = self.spec_cache().spec_map();
                                    let ghost font1 = self.spec_cache().spec_font();
                                    self.descriptor_set_cache.store(*texture_id, arc_clone(&built));
                                    proof {
                                        let cm2 = self.spec_cache().spec_map();
                                        let font2 = self.spec_cache().spec_font();
                                        assert(cache_extends(cm1, font1, cm2, font2));
                                        lemma_lists_prefix_stable(
                                            *draw_data,
                                            tw,
                                            th,
                                            cm1,
                                            font1,
                                            cm2,
                                            font2,
                                            l as int,
                                        );
                                        lemma_cmds_prefix_stable(
                                            *draw_data,
                                            tw,
                                            th,
                                            cm1,
                                            font1,
                                            cm2,
                                            font2,
                                            l as int,
                                            c as int,
                                        );
                                        lemma_lists_prefix_resolvable_stable(
                                            *draw_data,
                                            cm1,
                                            font1,
                                            cm2,
                                            font2,
                                            l as int,
                                        );
                                        lemma_cmds_prefix_resolvable_stable(
                                            *draw_data,
                                            cm1,
                                            font1,
                                            cm2,
                                            font2,
                                            l as int,
                                            c as int,
                                        );
                                    }
                                    built
                                },
                            };
                            proof {
                                assert(set_available(
                                    self.spec_cache().spec_map(),
                                    self.spec_cache().spec_font(),
                                    *texture_id,
                                ));
                                assert(set == resolved_set(
                                    self.spec_cache().spec_map(),
                                    self.spec_cache().spec_font(),
                                    *texture_id,
                                ));
                            }
                            ops.push(GpuOp::BindDescriptorSet { set });
                            let (origin, dimensions) = crate::draw::scissor_px(
                                clip_rect,
                                clip_extent,
                            );
                            ops.push(GpuOp::SetScissor { origin, dimensions });
                            ops.push(GpuOp::SetViewport { width: tw, height: th });
                            ops.push(GpuOp::BindVertexBuffer { list: l });
                            ops.push(GpuOp::BindIndexBuffer { list: l });
                            ops.push(GpuOp::PushConstants { matrix: draw_data.matrix });
                            let count_v: usize = *count;
                            let idx_v: usize = *idx_offset;
                            let vtx_v: usize = *vtx_offset;
                            ops.push(
                                GpuOp::DrawIndexed {
                                    index_count: #[verifier::truncate] (count_v as u32),
                                    first_index: #[verifier::truncate] (idx_v as u32),
                                    vertex_offset: #[verifier::truncate] (vtx_v as u32),
                                },
                            );
                        }
                    },
                    DrawCmd::ResetRenderState => {},
                    DrawCmd::RawCallback => {
                        ops.push(GpuOp::RawCallback { list: l, command: c });
                    },
                }
                proof {
                    let cm = self.spec_cache().spec_map();
                    let font = self.spec_cache().spec_font();
                    assert(cmds_ops_prefix(*draw_data, tw, th, cm, font, l as int, c + 1 as int)
                        == cmds_ops_prefix(*draw_data, tw, th, cm, font, l as int, c as int)
                        + cmd_ops(*draw_data, tw, th, cm, font, l as int, c as int));
                    assert(ops@ =~= seq![GpuOp::<S>::BeginRenderPass, GpuOp::<S>::BindPipeline]
                        + lists_ops_prefix(*draw_data, tw, th, cm, font, l as int)
                        + cmds_ops_prefix(*draw_data, tw, th, cm, font, l as int, c + 1 as int));
                    assert forall|ci: int| 0 <= ci < c + 1 implies match #[trigger] visible_texture_at(
                        *draw_data,
                        l as int,
                        ci,
                    ) {
                        Some(id) => set_available(cm, font, id),
                        None => true,
                    } by {
                        if ci < c {
                            assert(cmds_prefix_resolvable(*draw_data, cm, font, l as int, c as int));
                        }
                    }
                    assert forall|ci: int| 0 <= ci < c + 1 implies match #[trigger] visible_texture_at(
                        *draw_data,
                        l as int,
                        ci,
                    ) {
                        Some(id) => old(self).resolvable(id),
                        None => true,
                    } by {
                        if ci < c {
                            assert(cmds_prefix_sourced(*draw_data, *old(self), l as int, c as int));
                        }
                    }
                }
                c = c + 1;
            }
            proof {
                let cm = self.spec_cache().spec_map();
                let font = self.spec_cache().spec_font();
                assert(list_ops(*draw_data, tw, th, cm, font, l as int) == cmds_ops_prefix(
                    *draw_data,
                    tw,
                    th,
                    cm,
                    font,
                    l as int,
                    list.commands.len() as int,
                ));
                assert(lists_ops_prefix(*draw_data, tw, th, cm, font, l + 1 as int)
                    == lists_ops_prefix(*draw_data, tw, th, cm, font, l as int) + list_ops(
                    *draw_data,
                    tw,
                    th,
                    cm,
                    font,
                    l as int,
                ));
                assert forall|li: int| 0 <= li < l + 1 implies #[trigger] cmds_prefix_resolvable(
                    *draw_data,
                    cm,
                    font,
                    li,
                    draw_data.draw_lists[li].commands.len() as int,
                ) by {
                    if li < l {
                        assert(lists_prefix_resolvable(*draw_data, cm, font, l as int));
                    }
                }
                assert forall|li: int| 0 <= li < l + 1 implies #[trigger] cmds_prefix_sourced(
                    *draw_data,
                    *old(self),
                    li,
                    draw_data.draw_lists[li].commands.len() as int,
                ) by {
                    if li < l {
                        assert(lists_prefix_sourced(*draw_data, *old(self), l as int));
                    }
                }
            }
            l = l + 1;
        }
        ops.push(GpuOp::EndRenderPass);
        proof {
            let cm = self.spec_cache().spec_map();
            let font = self.spec_cache().spec_font();
            assert(ops@ =~= translate_ops(*draw_data, tw, th, cm, font));
        }
        Ok(ops)
    }
}

} // verus!
