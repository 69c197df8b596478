//! Frame translation: culling, scissor computation, the end-to-end
//! instruction sequence, and the error paths.

use imgui_vulkano_renderer::draw::scissor_px;
use imgui_vulkano_renderer::{
    DrawCmd, DrawData, DrawError, DrawVert, GpuOp, ImageDimensions, Renderer, RendererError,
    TextureId, FONT_TEX_ID,
};
use std::cell::Cell;
use std::sync::Arc;

const MATRIX: [[u32; 4]; 4] = [[1, 2, 3, 4], [5, 6, 7, 8], [9, 10, 11, 12], [13, 14, 15, 16]];

/// Builds an `Elements` command the way a host does: the clip rectangle is
/// transformed from display space into framebuffer space by the
/// floating-point unit, and the extents are the transformed differences.
fn elements(
    count: usize,
    clip: [f32; 4],
    off: [f32; 2],
    scale: [f32; 2],
    texture_id: TextureId,
    idx_offset: usize,
) -> DrawCmd {
    let r = [
        (clip[0] - off[0]) * scale[0],
        (clip[1] - off[1]) * scale[1],
        (clip[2] - off[0]) * scale[0],
        (clip[3] - off[1]) * scale[1],
    ];
    DrawCmd::Elements {
        count,
        clip_rect: [r[0].to_bits(), r[1].to_bits(), r[2].to_bits(), r[3].to_bits()],
        clip_extent: [(r[2] - r[0]).to_bits(), (r[3] - r[1]).to_bits()],
        texture_id,
        vtx_offset: 0,
        idx_offset,
    }
}

fn quad_vertices() -> Vec<DrawVert> {
    let corners = [[0.0f32, 0.0], [800.0, 0.0], [0.0, 600.0], [800.0, 600.0]];
    corners
        .iter()
        .map(|c| DrawVert {
            pos: [c[0].to_bits(), c[1].to_bits()],
            uv: [0.0f32.to_bits(), 0.0f32.to_bits()],
            col: 0xFFFF_FFFF,
        })
        .collect()
}

fn frame(commands: Vec<DrawCmd>) -> DrawData {
    DrawData {
        fb_width: (800.0f32 * 1.0).to_bits(),
        fb_height: (600.0f32 * 1.0).to_bits(),
        matrix: MATRIX,
        draw_lists: vec![imgui_vulkano_renderer::DrawList {
            vtx_buffer: quad_vertices(),
            idx_buffer: vec![0, 1, 2, 2, 1, 3],
            commands,
        }],
    }
}

const TARGET: ImageDimensions = ImageDimensions::Dim2d { width: 800, height: 600, array_layers: 1 };

#[test]
fn scissor_of_fractional_clip_rect() {
    let cmd = elements(6, [10.4, 20.6, 100.2, 200.9], [0.0, 0.0], [1.0, 1.0], TextureId(0), 0);
    let (clip_rect, clip_extent) = match cmd {
        DrawCmd::Elements { clip_rect, clip_extent, .. } => (clip_rect, clip_extent),
        _ => unreachable!(),
    };
    let (origin, dimensions) = scissor_px(&clip_rect, &clip_extent);
    assert_eq!(origin, [10, 20]);
    assert_eq!(dimensions, [90, 181]);
}

#[test]
fn fully_clipped_command_emits_no_draw() {
    let builds = Cell::new(0u32);
    let mut renderer: Renderer<i32, u64> = Renderer::init(999);
    let data = frame(vec![elements(
        6,
        [-100.0, -100.0, -50.0, -50.0],
        [0.0, 0.0],
        [1.0, 1.0],
        TextureId(42),
        0,
    )]);
    let ops = renderer
        .draw_commands(TARGET, &data, |_: &i32| {
            builds.set(builds.get() + 1);
            Ok::<Arc<u64>, ()>(Arc::new(1))
        })
        .unwrap();
    assert_eq!(ops, vec![GpuOp::BeginRenderPass, GpuOp::BindPipeline, GpuOp::EndRenderPass]);
    assert_eq!(builds.get(), 0);
}

#[test]
fn full_frame_emits_the_exact_sequence() {
    let mut renderer: Renderer<i32, u64> = Renderer::init(999);
    let data = frame(vec![elements(
        6,
        [0.0, 0.0, 800.0, 600.0],
        [0.0, 0.0],
        [1.0, 1.0],
        TextureId(FONT_TEX_ID),
        0,
    )]);
    let ops = renderer
        .draw_commands(TARGET, &data, |t: &i32| {
            assert_eq!(*t, 999, "the font descriptor is built from the font texture");
            Ok::<Arc<u64>, ()>(Arc::new(77))
        })
        .unwrap();
    let expected = vec![
        GpuOp::BeginRenderPass,
        GpuOp::BindPipeline,
        GpuOp::BindDescriptorSet { set: Arc::new(77) },
        GpuOp::SetScissor { origin: [0, 0], dimensions: [800, 600] },
        GpuOp::SetViewport { width: 800, height: 600 },
        GpuOp::BindVertexBuffer { list: 0 },
        GpuOp::BindIndexBuffer { list: 0 },
        GpuOp::PushConstants { matrix: MATRIX },
        GpuOp::DrawIndexed { index_count: 6, first_index: 0, vertex_offset: 0 },
        GpuOp::EndRenderPass,
    ];
    assert_eq!(ops, expected);
}

#[test]
fn unregistered_texture_is_bad_texture() {
    let mut renderer: Renderer<i32, u64> = Renderer::init(999);
    let data = frame(vec![elements(
        6,
        [0.0, 0.0, 800.0, 600.0],
        [0.0, 0.0],
        [1.0, 1.0],
        TextureId(42),
        0,
    )]);
    let r = renderer.draw_commands(TARGET, &data, |_: &i32| Ok::<Arc<u64>, ()>(Arc::new(1)));
    assert_eq!(r, Err(DrawError::Renderer(RendererError::BadTexture(TextureId(42)))));
}

#[test]
fn registered_texture_resolves_and_is_memoized() {
    let builds = Cell::new(0u32);
    let mut renderer: Renderer<i32, u64> = Renderer::init(999);
    let id = renderer.textures_mut().insert(1234);
    let data = frame(vec![elements(6, [0.0, 0.0, 800.0, 600.0], [0.0, 0.0], [1.0, 1.0], id, 0)]);
    let build = |t: &i32| {
        assert_eq!(*t, 1234);
        builds.set(builds.get() + 1);
        Ok::<Arc<u64>, ()>(Arc::new(5))
    };
    let ops1 = renderer.draw_commands(TARGET, &data, build).unwrap();
    let ops2 = renderer.draw_commands(TARGET, &data, build).unwrap();
    assert_eq!(builds.get(), 1, "the descriptor is built once and memoized");
    assert_eq!(ops1, ops2);
}

#[test]
fn registry_mutation_invalidates_user_descriptors_only() {
    let font_builds = Cell::new(0u32);
    let user_builds = Cell::new(0u32);
    let mut renderer: Renderer<i32, u64> = Renderer::init(999);
    let id = renderer.textures_mut().insert(1234);
    let data = frame(vec![
        elements(3, [0.0, 0.0, 800.0, 600.0], [0.0, 0.0], [1.0, 1.0], TextureId(FONT_TEX_ID), 0),
        elements(3, [0.0, 0.0, 800.0, 600.0], [0.0, 0.0], [1.0, 1.0], id, 3),
    ]);
    let build = |t: &i32| {
        if *t == 999 {
            font_builds.set(font_builds.get() + 1);
        } else {
            user_builds.set(user_builds.get() + 1);
        }
        Ok::<Arc<u64>, ()>(Arc::new(*t as u64))
    };
    renderer.draw_commands(TARGET, &data, build).unwrap();
    assert_eq!((font_builds.get(), user_builds.get()), (1, 1));

    renderer.textures_mut();
    renderer.draw_commands(TARGET, &data, build).unwrap();
    assert_eq!((font_builds.get(), user_builds.get()), (1, 2));
}

#[test]
fn font_reload_invalidates_the_font_descriptor_only() {
    let font_builds = Cell::new(0u32);
    let user_builds = Cell::new(0u32);
    let mut renderer: Renderer<i32, u64> = Renderer::init(999);
    let id = renderer.textures_mut().insert(1234);
    let data = frame(vec![
        elements(3, [0.0, 0.0, 800.0, 600.0], [0.0, 0.0], [1.0, 1.0], TextureId(FONT_TEX_ID), 0),
        elements(3, [0.0, 0.0, 800.0, 600.0], [0.0, 0.0], [1.0, 1.0], id, 3),
    ]);
    let build = |t: &i32| {
        if *t == 999 || *t == 1000 {
            font_builds.set(font_builds.get() + 1);
        } else {
            user_builds.set(user_builds.get() + 1);
        }
        Ok::<Arc<u64>, ()>(Arc::new(*t as u64))
    };
    renderer.draw_commands(TARGET, &data, build).unwrap();
    assert_eq!((font_builds.get(), user_builds.get()), (1, 1));

    renderer.reload_font_texture(1000);
    renderer.draw_commands(TARGET, &data, build).unwrap();
    assert_eq!((font_builds.get(), user_builds.get()), (2, 1));
}

#[test]
fn degenerate_frame_emits_nothing() {
    let mut renderer: Renderer<i32, u64> = Renderer::init(999);
    let mut data = frame(vec![elements(
        6,
        [0.0, 0.0, 800.0, 600.0],
        [0.0, 0.0],
        [1.0, 1.0],
        TextureId(FONT_TEX_ID),
        0,
    )]);
    data.fb_width = 0.0f32.to_bits();
    let target = ImageDimensions::Dim3d { width: 8, height: 8, depth: 8 };
    let ops = renderer
        .draw_commands(target, &data, |_: &i32| Ok::<Arc<u64>, ()>(Arc::new(1)))
        .unwrap();
    assert_eq!(ops, vec![]);
}

#[test]
fn non_2d_target_is_bad_image_dimensions() {
    let mut renderer: Renderer<i32, u64> = Renderer::init(999);
    let data = frame(vec![]);
    let target = ImageDimensions::Dim1d { width: 8, array_layers: 1 };
    let r = renderer.draw_commands(target, &data, |_: &i32| Ok::<Arc<u64>, ()>(Arc::new(1)));
    assert_eq!(r, Err(DrawError::Renderer(RendererError::BadImageDimensions(target))));
}

#[test]
fn callbacks_and_resets_keep_their_order() {
    let mut renderer: Renderer<i32, u64> = Renderer::init(999);
    let data = frame(vec![
        DrawCmd::RawCallback,
        DrawCmd::ResetRenderState,
        elements(6, [0.0, 0.0, 800.0, 600.0], [0.0, 0.0], [1.0, 1.0], TextureId(FONT_TEX_ID), 0),
        DrawCmd::RawCallback,
    ]);
    let ops = renderer
        .draw_commands(TARGET, &data, |_: &i32| Ok::<Arc<u64>, ()>(Arc::new(7)))
        .unwrap();
    assert_eq!(ops[2], GpuOp::RawCallback { list: 0, command: 0 });
    assert!(matches!(ops[3], GpuOp::BindDescriptorSet { .. }));
    assert!(matches!(ops[9], GpuOp::DrawIndexed { .. }));
    assert_eq!(ops[10], GpuOp::RawCallback { list: 0, command: 3 });
    assert_eq!(ops[11], GpuOp::EndRenderPass);
    assert_eq!(ops.len(), 12);
}

#[test]
fn scissor_clamps_negative_origins_to_zero() {
    let cmd = elements(6, [-10.5, -20.5, 100.2, 200.9], [0.0, 0.0], [1.0, 1.0], TextureId(0), 0);
    let (clip_rect, clip_extent) = match cmd {
        DrawCmd::Elements { clip_rect, clip_extent, .. } => (clip_rect, clip_extent),
        _ => unreachable!(),
    };
    let (origin, dimensions) = scissor_px(&clip_rect, &clip_extent);
    assert_eq!(origin, [0, 0]);
    assert_eq!(dimensions, [(100.2f32 - -10.5f32).ceil() as u32, (200.9f32 - -20.5f32).ceil()
        as u32]);
}

#[test]
fn two_lists_emit_in_order_with_their_indices() {
    let mut renderer: Renderer<i32, u64> = Renderer::init(999);
    let mut data = frame(vec![elements(
        6,
        [0.0, 0.0, 800.0, 600.0],
        [0.0, 0.0],
        [1.0, 1.0],
        TextureId(FONT_TEX_ID),
        0,
    )]);
    data.draw_lists.push(imgui_vulkano_renderer::DrawList {
        vtx_buffer: quad_vertices(),
        idx_buffer: vec![0, 1, 2],
        commands: vec![
            // culled: entirely left of the framebuffer
            elements(3, [-300.0, 0.0, -200.0, 600.0], [0.0, 0.0], [1.0, 1.0], TextureId(7), 0),
            elements(3, [0.0, 0.0, 400.0, 300.0], [0.0, 0.0], [1.0, 1.0], TextureId(FONT_TEX_ID), 0),
        ],
    });
    let ops = renderer
        .draw_commands(TARGET, &data, |_: &i32| Ok::<Arc<u64>, ()>(Arc::new(9)))
        .unwrap();
    // begin, pipeline, 7 instructions for list 0, 7 for list 1's second
    // command (the first is culled), end
    assert_eq!(ops.len(), 2 + 7 + 7 + 1);
    assert_eq!(ops[5], GpuOp::BindVertexBuffer { list: 0 });
    assert_eq!(ops[6], GpuOp::BindIndexBuffer { list: 0 });
    assert_eq!(ops[12], GpuOp::BindVertexBuffer { list: 1 });
    assert_eq!(ops[13], GpuOp::BindIndexBuffer { list: 1 });
    assert_eq!(
        ops[10],
        GpuOp::SetScissor { origin: [0, 0], dimensions: [400, 300] },
        "list 1's visible command carries its own scissor"
    );
    assert_eq!(ops[16], GpuOp::EndRenderPass);
}

#[test]
fn vertex_offset_is_carried_into_the_draw() {
    let mut renderer: Renderer<i32, u64> = Renderer::init(999);
    let mut data = frame(vec![elements(
        3,
        [0.0, 0.0, 800.0, 600.0],
        [0.0, 0.0],
        [1.0, 1.0],
        TextureId(FONT_TEX_ID),
        3,
    )]);
    match &mut data.draw_lists[0].commands[0] {
        DrawCmd::Elements { vtx_offset, .. } => *vtx_offset = 2,
        _ => unreachable!(),
    }
    let ops = renderer
        .draw_commands(TARGET, &data, |_: &i32| Ok::<Arc<u64>, ()>(Arc::new(7)))
        .unwrap();
    assert_eq!(ops[8], GpuOp::DrawIndexed { index_count: 3, first_index: 3, vertex_offset: 2 });
}

#[test]
fn build_failure_propagates() {
    let mut renderer: Renderer<i32, u64> = Renderer::init(999);
    let data = frame(vec![elements(
        6,
        [0.0, 0.0, 800.0, 600.0],
        [0.0, 0.0],
        [1.0, 1.0],
        TextureId(FONT_TEX_ID),
        0,
    )]);
    let r = renderer.draw_commands(TARGET, &data, |_: &i32| Err::<Arc<u64>, &'static str>("oom"));
    assert_eq!(r, Err(DrawError::Build("oom")));
}
