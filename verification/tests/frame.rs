use bevy_egui::callback::PaintCallbackRegistry;
use bevy_platform::collections::HashSet;
use bevy_egui::draw::{
    frame_fits, CallbackHandle, ClippedPrimitive, Mesh, PaintCallback, Primitive, Vertex,
};
use bevy_egui::extract::{
    extract_egui_camera_view, extract_render_output, CameraContext, CameraView, EguiRenderOutput,
    ExtractAction, RetainedViewEntity, TexturesDelta, EGUI_CAMERA_SUBVIEW,
};
use bevy_egui::graph::{
    get_egui_graph, EguiCameraView, EguiViewTarget, NodeEgui, RunEguiSubgraphOnEguiViewNode,
    SubGraphEgui, SubGraphRun,
};
use bevy_egui::rect::{PixelRect, ViewportInPixels};
use bevy_egui::pipeline::EguiPipelineKey;
use bevy_egui::render_data::{can_prepare, FrameOutcome, RenderTarget, TargetSize};
use bevy_egui::render_targets::EguiRenderData;
use bevy_egui::texture::TextureId;
use bevy_egui::transform::{
    plan_transforms, EguiTransforms, TransformPlan, TransformRequest, TransformTarget,
};

fn triangle(clip_rect: PixelRect) -> ClippedPrimitive {
    ClippedPrimitive {
        clip_rect,
        primitive: Primitive::Mesh(Mesh {
            vertices: vec![Vertex { bytes: [7; 20] }; 3],
            indices: vec![0, 1, 2],
            texture_id: TextureId::Managed(0),
        }),
    }
}

fn key() -> EguiPipelineKey {
    EguiPipelineKey::from_gpu_image(wgpu_types::TextureFormat::Rgba8UnormSrgb)
}

fn camera(width: u32, height: u32) -> Option<RenderTarget> {
    Some(RenderTarget { key: key(), physical_viewport_size: Some(TargetSize { width, height }) })
}

fn visible() -> PixelRect {
    PixelRect::new(0, 0, 100, 100)
}

#[test]
fn ordinary_frames_fit() {
    let jobs = vec![triangle(visible()), triangle(visible())];
    assert!(frame_fits(&jobs, PixelRect::target_bounds(800, 600)));
    assert!(can_prepare(camera(800, 600), &jobs));
    assert!(frame_fits(&Vec::new(), PixelRect::target_bounds(800, 600)));
}

#[test]
fn index_that_would_overflow_does_not_fit() {
    let mut second = triangle(visible());
    if let Primitive::Mesh(mesh) = &mut second.primitive {
        mesh.indices = vec![0, u32::MAX - 2, 1];
    }
    let jobs = vec![triangle(visible()), second];
    let bounds = PixelRect::target_bounds(800, 600);
    assert!(!frame_fits(&jobs, bounds));
    assert!(!can_prepare(camera(800, 600), &jobs));

    let mut second = triangle(visible());
    if let Primitive::Mesh(mesh) = &mut second.primitive {
        mesh.indices = vec![0, u32::MAX - 3, 1];
    }
    assert!(frame_fits(&vec![triangle(visible()), second], bounds));
}

#[test]
fn oversized_geometry_outside_the_target_is_no_obstacle() {
    let mut hidden = triangle(PixelRect::new(900, 900, 950, 950));
    if let Primitive::Mesh(mesh) = &mut hidden.primitive {
        mesh.indices = vec![u32::MAX, u32::MAX, u32::MAX];
    }
    let jobs = vec![triangle(visible()), hidden, triangle(visible())];
    assert!(frame_fits(&jobs, PixelRect::target_bounds(800, 600)));
}

#[test]
fn anything_can_be_prepared_for_a_skipped_frame() {
    let mut bad = triangle(visible());
    if let Primitive::Mesh(mesh) = &mut bad.primitive {
        mesh.indices = vec![u32::MAX];
    }
    let jobs = vec![triangle(visible()), bad];
    assert!(!can_prepare(camera(800, 600), &jobs));
    assert!(can_prepare(camera(0, 600), &jobs));
    assert!(can_prepare(None, &jobs));
    assert!(can_prepare(Some(RenderTarget { key: key(), physical_viewport_size: None }), &jobs));
}

#[test]
fn a_frame_that_does_not_fit_is_refused_and_changes_nothing() {
    let mut bad = triangle(visible());
    if let Primitive::Mesh(mesh) = &mut bad.primitive {
        mesh.indices = vec![u32::MAX];
    }
    let too_much = vec![triangle(visible()), bad];
    let fine = vec![triangle(visible())];

    let mut data = EguiRenderData::new();
    assert_eq!(data.try_prepare(1, 11, camera(800, 600), &too_much), None);
    assert!(data.get(1).is_none());
    assert!(matches!(
        data.try_prepare(1, 11, camera(800, 600), &fine),
        Some(FrameOutcome::Rebuilt(_))
    ));
    data.begin_frame();
    assert_eq!(data.try_prepare(1, 21, camera(800, 600), &too_much), None);
    let state = data.get(1).expect("still there");
    assert_eq!(state.render_entity(), 11);
    assert!(!state.keep());
    assert_eq!(state.draw_commands().len(), 1);
    assert_eq!(data.try_prepare(1, 21, camera(0, 600), &too_much), Some(FrameOutcome::Degenerate));
    assert_eq!(data.try_prepare(1, 21, None, &too_much), Some(FrameOutcome::MissingTarget));
    let state = data.get(1).expect("still there");
    assert_eq!(state.render_entity(), 21);
    assert!(state.keep());
    assert!(state.draw_commands().is_empty());
}

#[test]
fn contexts_are_created_on_first_sight() {
    let mut data = EguiRenderData::new();
    assert!(data.contexts().is_empty());
    assert!(data.get(1).is_none());
    let jobs = vec![triangle(visible())];
    assert!(matches!(data.prepare(1, 11, camera(800, 600), &jobs), FrameOutcome::Rebuilt(_)));
    assert!(matches!(data.prepare(2, 12, camera(800, 600), &jobs), FrameOutcome::Rebuilt(_)));
    assert_eq!(in_order(data.contexts()), vec![1, 2]);
    assert!(data.get(3).is_none());
    let first = data.get(1).expect("context 1 was prepared");
    assert_eq!(first.main_entity(), 1);
    assert_eq!(first.render_entity(), 11);
    assert!(first.keep());
    assert_eq!(first.draw_commands().len(), 1);
    assert_eq!(data.get(2).map(|second| second.render_entity()), Some(12));
}

fn in_order(mut contexts: Vec<u64>) -> Vec<u64> {
    contexts.sort();
    contexts
}

#[test]
fn preparing_again_keeps_one_state_per_context() {
    let mut data = EguiRenderData::new();
    let jobs = vec![triangle(visible())];
    data.prepare(1, 11, camera(800, 600), &jobs);
    data.prepare(1, 21, camera(800, 600), &Vec::new());
    assert_eq!(data.contexts(), vec![1]);
    let state = data.get(1).expect("still there");
    assert_eq!(state.render_entity(), 21);
    assert!(state.draw_commands().is_empty());
    assert_eq!(state.vertex_buffer().map(|h| h.size), Some(64));
}

#[test]
fn contexts_not_seen_for_a_frame_are_forgotten() {
    let mut data = EguiRenderData::new();
    let jobs = vec![triangle(visible())];
    for context in [1, 2, 3] {
        data.prepare(context, context + 10, camera(800, 600), &jobs);
    }
    data.begin_frame();
    assert_eq!(in_order(data.contexts()), vec![1, 2, 3]);
    for context in [1, 2, 3] {
        let state = data.get(context).expect("seen in the frame before");
        assert!(!state.keep());
        assert_eq!(state.render_entity(), context + 10);
        assert_eq!(state.draw_commands().len(), 1);
    }
    data.prepare(1, 11, camera(800, 600), &jobs);
    data.prepare(3, 13, None, &jobs);
    data.begin_frame();
    assert_eq!(in_order(data.contexts()), vec![1, 3]);
    assert!(data.get(2).is_none());
    assert_eq!(data.get(1).map(|state| state.keep()), Some(false));
    assert_eq!(data.get(3).map(|state| state.keep()), Some(false));
    data.begin_frame();
    assert!(data.contexts().is_empty());
}

#[test]
fn pending_updates_come_per_context() {
    let mut registry: PaintCallbackRegistry<&'static str> = PaintCallbackRegistry::new();
    let rect =
        ViewportInPixels { left_px: 1, top_px: 2, from_bottom_px: 3, width_px: 4, height_px: 5 };
    let payload = registry.new_paint_callback(rect, "gizmo");
    assert_eq!(payload, PaintCallback { rect, callback: Some(CallbackHandle { index: 0 }) });
    let jobs = vec![ClippedPrimitive {
        clip_rect: visible(),
        primitive: Primitive::Callback(payload),
    }];
    let mut data = EguiRenderData::new();
    data.prepare(1, 11, camera(800, 600), &Vec::new());
    data.prepare(2, 12, camera(800, 600), &jobs);
    let none = data.pending_updates(1).expect("keyed");
    assert!(none.updates.is_empty());
    let pending = data.pending_updates(2).expect("keyed");
    assert_eq!(pending.render_entity, 12);
    assert_eq!(pending.updates.len(), 1);
    let handle = pending.updates[0].command.callback;
    assert_eq!(registry.get(handle), Some(&"gizmo"));
    assert!(data.pending_updates(2).expect("keyed").updates.is_empty());
    assert!(data.pending_updates(3).is_none());
    assert_eq!(in_order(data.contexts()), vec![1, 2]);
}

#[test]
fn contexts_are_served_in_the_order_given() {
    let mut registry: PaintCallbackRegistry<u8> = PaintCallbackRegistry::new();
    let rect =
        ViewportInPixels { left_px: 0, top_px: 0, from_bottom_px: 0, width_px: 4, height_px: 4 };
    let jobs = vec![ClippedPrimitive {
        clip_rect: visible(),
        primitive: Primitive::Callback(registry.new_paint_callback(rect, 0)),
    }];
    let mut data = EguiRenderData::new();
    data.prepare(1, 11, camera(800, 600), &jobs);
    data.prepare(2, 12, None, &jobs);
    data.prepare(3, 13, camera(800, 600), &jobs);

    let pending = data.pending_updates_in(&vec![3, 9, 2, 1, 3]);
    let served: Vec<(u64, usize)> =
        pending.iter().map(|pending| (pending.render_entity, pending.updates.len())).collect();
    assert_eq!(served, vec![(13, 1), (11, 1), (13, 0)]);
    assert!(data.pending_updates_in(&Vec::new()).is_empty());
}

#[test]
fn registry_hands_out_consecutive_handles() {
    let mut registry: PaintCallbackRegistry<String> = PaintCallbackRegistry::new();
    assert_eq!(registry.len(), 0);
    assert_eq!(registry.register("a".to_string()), CallbackHandle { index: 0 });
    assert_eq!(registry.register("b".to_string()), CallbackHandle { index: 1 });
    assert_eq!(registry.len(), 2);
    assert_eq!(registry.get(CallbackHandle { index: 1 }).map(String::as_str), Some("b"));
    assert_eq!(registry.get(CallbackHandle { index: 2 }), None);
    registry.clear();
    assert_eq!(registry.get(CallbackHandle { index: 0 }), None);
    assert_eq!(registry.register("c".to_string()), CallbackHandle { index: 0 });
}

fn output_with_jobs(n: usize) -> EguiRenderOutput {
    EguiRenderOutput {
        paint_jobs: (0..n).map(|_| triangle(visible())).collect(),
        textures_delta: TexturesDelta { set: vec![TextureId::Managed(0)], free: Vec::new() },
    }
}

fn context(
    main_entity: u64,
    is_active: bool,
    viewport: Option<PixelRect>,
    jobs: usize,
) -> CameraContext {
    CameraContext {
        camera: CameraView {
            main_entity,
            render_entity: main_entity + 100,
            is_active,
            hdr: main_entity % 2 == 0,
            physical_viewport_rect: viewport,
        },
        render_output: output_with_jobs(jobs),
    }
}

#[test]
fn render_output_emptiness() {
    assert!(EguiRenderOutput::new().is_empty());
    assert!(!output_with_jobs(0).is_empty());
    assert!(!output_with_jobs(1).is_empty());
    let only_jobs = EguiRenderOutput {
        paint_jobs: vec![triangle(visible())],
        textures_delta: TexturesDelta { set: Vec::new(), free: Vec::new() },
    };
    assert!(!only_jobs.is_empty());
    let only_free = TexturesDelta { set: Vec::new(), free: vec![TextureId::Managed(1)] };
    assert!(!only_free.is_empty());
}

#[test]
fn extraction_moves_output_of_active_cameras() {
    let viewport = PixelRect::new(10, 20, 810, 620);
    let mut contexts = vec![
        context(1, true, Some(viewport), 2),
        context(2, false, Some(viewport), 3),
        context(3, true, None, 4),
        context(4, true, Some(viewport), 0),
    ];
    let mut live: HashSet<(u64, u32)> = HashSet::new();
    live.insert((99, 0));
    let actions = extract_egui_camera_view(&mut contexts, &mut live);

    assert_eq!(contexts.len(), 4);
    for (k, context) in contexts.iter().enumerate() {
        assert!(context.render_output.is_empty(), "context {k} keeps output");
        assert_eq!(context.camera.main_entity, k as u64 + 1);
        assert_eq!(context.camera.render_entity, k as u64 + 101);
    }
    assert_eq!(live.len(), 2);
    assert!(live.contains(&(1, EGUI_CAMERA_SUBVIEW)));
    assert!(live.contains(&(4, EGUI_CAMERA_SUBVIEW)));
    assert!(!live.contains(&(99, 0)));
    assert_eq!(EGUI_CAMERA_SUBVIEW, 2095931312);

    assert_eq!(actions.len(), 3);
    match &actions[0] {
        ExtractAction::SpawnView(view) => {
            assert_eq!(view.retained_view_entity.main_entity, 1);
            assert_eq!(view.view_target, EguiViewTarget(101));
            assert!(!view.hdr);
            assert_eq!(view.viewport, viewport);
            assert_eq!(view.render_output.paint_jobs.len(), 2);
            assert_eq!(view.render_output.textures_delta.set, vec![TextureId::Managed(0)]);
        }
        other => panic!("expected a view, got {other:?}"),
    }
    match &actions[1] {
        ExtractAction::RemoveCameraView { render_entity } => assert_eq!(*render_entity, 102),
        other => panic!("expected a removal, got {other:?}"),
    }
    match &actions[2] {
        ExtractAction::SpawnView(view) => {
            assert_eq!(view.retained_view_entity.main_entity, 4);
            assert!(view.hdr);
            assert!(view.render_output.paint_jobs.is_empty());
        }
        other => panic!("expected a view, got {other:?}"),
    }
}

#[test]
fn output_of_one_context_is_taken_whatever_the_camera() {
    let camera = CameraView {
        main_entity: 1,
        render_entity: 2,
        is_active: true,
        hdr: true,
        physical_viewport_rect: Some(visible()),
    };
    let mut output = output_with_jobs(2);
    match extract_render_output(camera, &mut output) {
        Some(ExtractAction::SpawnView(view)) => {
            assert_eq!(view.render_output, output_with_jobs(2));
            assert_eq!(
                view.retained_view_entity,
                RetainedViewEntity { main_entity: 1, subview_index: EGUI_CAMERA_SUBVIEW }
            );
        }
        other => panic!("expected a view, got {other:?}"),
    }
    assert!(output.is_empty());

    let mut output = output_with_jobs(2);
    let inactive = CameraView { is_active: false, ..camera };
    assert_eq!(
        extract_render_output(inactive, &mut output),
        Some(ExtractAction::RemoveCameraView { render_entity: 2 })
    );
    assert!(output.is_empty());

    let mut output = output_with_jobs(2);
    let no_viewport = CameraView { physical_viewport_rect: None, ..camera };
    assert_eq!(extract_render_output(no_viewport, &mut output), None);
    assert!(output.is_empty());
}

#[test]
fn extraction_without_contexts_clears_the_live_views() {
    let mut live: HashSet<(u64, u32)> = HashSet::new();
    live.insert((99, 0));
    let actions = extract_egui_camera_view(&mut Vec::new(), &mut live);
    assert!(actions.is_empty());
    assert!(live.is_empty());
}

#[test]
fn extracting_twice_finds_nothing_the_second_time() {
    let mut contexts = vec![context(1, true, Some(visible()), 2)];
    let mut live: HashSet<(u64, u32)> = HashSet::new();
    extract_egui_camera_view(&mut contexts, &mut live);
    let actions = extract_egui_camera_view(&mut contexts, &mut live);
    match &actions[0] {
        ExtractAction::SpawnView(view) => assert!(view.render_output.is_empty()),
        other => panic!("expected a view, got {other:?}"),
    }
}

fn target(main_entity: u64, sized: bool, scale: Option<f32>) -> TransformTarget {
    TransformTarget {
        main_entity,
        physical_target_size: if sized {
            Some(TargetSize { width: 800, height: 600 })
        } else {
            None
        },
        scale_factor_bits: scale.map(f32::to_bits),
    }
}

fn request(main_entity: u64, scale: f32) -> TransformRequest {
    TransformRequest {
        main_entity,
        target_size: TargetSize { width: 800, height: 600 },
        scale_factor_bits: scale.to_bits(),
    }
}

#[test]
fn transforms_are_planned_for_sized_targets() {
    let targets = vec![
        target(1, true, Some(1.0)),
        target(2, false, Some(2.0)),
        target(3, false, None),
        target(4, true, Some(1.5)),
    ];
    assert_eq!(
        plan_transforms(&targets),
        TransformPlan {
            requests: vec![request(1, 1.0), request(4, 1.5)],
            missing_views: Vec::new(),
        }
    );
    assert_eq!(
        plan_transforms(&Vec::new()),
        TransformPlan { requests: Vec::new(), missing_views: Vec::new() }
    );
}

#[test]
fn a_missing_view_costs_only_its_own_target_the_transform() {
    let targets = vec![
        target(1, true, Some(1.0)),
        target(2, true, None),
        target(3, true, Some(2.0)),
        target(4, true, None),
        target(5, false, None),
        target(6, true, Some(0.5)),
    ];
    assert_eq!(
        plan_transforms(&targets),
        TransformPlan {
            requests: vec![request(1, 1.0), request(3, 2.0), request(6, 0.5)],
            missing_views: vec![1, 3],
        }
    );
}

#[test]
fn transform_offsets_are_kept_per_context() {
    let mut transforms = EguiTransforms::new();
    assert_eq!(transforms.offset(1), None);
    transforms.insert(1, 0);
    transforms.insert(2, 256);
    transforms.insert(1, 512);
    assert_eq!(transforms.offset(1), Some(512));
    assert_eq!(transforms.offset(2), Some(256));
    assert_eq!(transforms.offset(3), None);
    transforms.clear();
    assert_eq!(transforms.offset(1), None);
    assert_eq!(transforms.offset(2), None);
}

#[test]
fn transform_bind_group_follows_the_buffer() {
    let mut transforms = EguiTransforms::new();
    assert!(!transforms.rebind(None));
    assert_eq!(transforms.bind_group_buffer(), None);
    assert!(transforms.rebind(Some(7)));
    assert_eq!(transforms.bind_group_buffer(), Some(7));
    assert!(!transforms.rebind(Some(7)));
    assert!(!transforms.rebind(None));
    assert_eq!(transforms.bind_group_buffer(), Some(7));
    assert!(transforms.rebind(Some(8)));
    assert_eq!(transforms.bind_group_buffer(), Some(8));
    transforms.clear();
    assert!(!transforms.rebind(Some(8)));
}

#[test]
fn sub_graph_runs_on_the_linked_view() {
    let node = RunEguiSubgraphOnEguiViewNode;
    assert_eq!(
        node.run(Some(EguiCameraView(77))),
        Some(SubGraphRun { sub_graph: SubGraphEgui, view_entity: 77 })
    );
    assert_eq!(node.run(None), None);
    assert_eq!(get_egui_graph(), vec![NodeEgui::EguiPass]);
}

#[test]
fn a_context_without_key_does_not_stop_the_updates_of_the_others() {
    let mut registry: PaintCallbackRegistry<u8> = PaintCallbackRegistry::new();
    let rect =
        ViewportInPixels { left_px: 0, top_px: 0, from_bottom_px: 0, width_px: 4, height_px: 4 };
    let job = |registry: &mut PaintCallbackRegistry<u8>| ClippedPrimitive {
        clip_rect: visible(),
        primitive: Primitive::Callback(registry.new_paint_callback(rect, 0)),
    };
    let first = vec![job(&mut registry)];
    let second = vec![job(&mut registry), job(&mut registry)];
    let mut data = EguiRenderData::new();
    data.prepare(1, 11, None, &first);
    data.prepare(2, 12, camera(800, 600), &second);
    data.prepare(3, 13, None, &first);
    data.prepare(4, 14, camera(800, 600), &first);

    let mut pending = data.all_pending_updates();
    pending.sort_by_key(|pending| pending.render_entity);
    assert_eq!(pending.len(), 2);
    assert_eq!(pending[0].render_entity, 12);
    assert_eq!(pending[0].key, key());
    assert_eq!(pending[0].target_size, TargetSize { width: 800, height: 600 });
    let handles: Vec<usize> =
        pending[0].updates.iter().map(|update| update.command.callback.index).collect();
    assert_eq!(handles, vec![1, 2]);
    assert_eq!(pending[1].render_entity, 14);
    assert_eq!(pending[1].updates.len(), 1);
    assert!(data.get(1).expect("prepared").key().is_none());
    assert!(data.get(3).expect("prepared").key().is_none());

    let again = data.all_pending_updates();
    assert_eq!(again.len(), 2);
    assert!(again.iter().all(|pending| pending.updates.is_empty()));
    assert!(EguiRenderData::new().all_pending_updates().is_empty());
}
