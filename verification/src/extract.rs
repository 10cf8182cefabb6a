//! The hand-over of a frame's GUI output from the simulation side to the
//! render side.
//!
//! Once per frame, before anything is rebuilt on the render side, the output
//! of every context with a camera is moved out of the simulation-side state,
//! which is left empty for the next frame. For an active camera with a
//! viewport the output travels on to a freshly spawned render-side view; for
//! an inactive camera the link to its GUI view is removed. This is the only
//! place where the two sides meet.

use crate::collections::{set_clear, set_insert, spec_set_contents};
use crate::draw::ClippedPrimitive;
use crate::graph::EguiViewTarget;
use crate::rect::PixelRect;
use crate::texture::TextureId;
use bevy_platform::collections::HashSet;
use vstd::prelude::*;

verus! {

/// Sub-view index that marks a view as the GUI view of a camera, chosen so
/// as not to collide with the camera's own views.
pub const EGUI_CAMERA_SUBVIEW: u32 = 2095931312;

/// Changes to the GUI-managed textures in one frame, by texture.
#[derive(Debug, PartialEq, Eq)]
pub struct TexturesDelta {
    /// Textures that were created or changed.
    pub set: Vec<TextureId>,
    /// Textures that were freed.
    pub free: Vec<TextureId>,
}

/// What a context's frame produced for rendering.
#[derive(Debug, PartialEq, Eq)]
pub struct EguiRenderOutput {
    /// Paint jobs in painter's order.
    pub paint_jobs: Vec<ClippedPrimitive>,
    /// Texture changes.
    pub textures_delta: TexturesDelta,
}

impl TexturesDelta {
    /// No texture changed.
    pub open spec fn spec_is_empty(&self) -> bool {
        self.set@.len() == 0 && self.free@.len() == 0
    }

    /// Whether no texture changed.
    pub fn is_empty(&self) -> (r: bool)
        ensures
            r == self.spec_is_empty(),
    {
        self.set.len() == 0 && self.free.len() == 0
    }
}

impl EguiRenderOutput {
    /// Nothing to paint and no texture changed.
    pub open spec fn spec_is_empty(&self) -> bool {
        self.paint_jobs@.len() == 0 && self.textures_delta.spec_is_empty()
    }

    /// An output with nothing in it.
    pub fn new() -> (r: Self)
        ensures
            r.spec_is_empty(),
    {
        EguiRenderOutput {
            paint_jobs: Vec::new(),
            textures_delta: TexturesDelta { set: Vec::new(), free: Vec::new() },
        }
    }

    /// Whether there is nothing to paint and no texture changed.
    pub fn is_empty(&self) -> (r: bool)
        ensures
            r == self.spec_is_empty(),
    {
        self.paint_jobs.len() == 0 && self.textures_delta.is_empty()
    }
}

/// Identity of a render-side view that stays the same from frame to frame:
/// the simulation-side entity it derives from and a sub-view index.
#[derive(Clone, Copy, Debug, PartialEq, Eq, Hash, Structural)]
pub struct RetainedViewEntity {
    /// The simulation-side entity.
    pub main_entity: u64,
    /// Distinguishes the views that derive from one entity.
    pub subview_index: u32,
}

/// What extraction reads of the camera that a context is drawn through.
#[derive(Clone, Copy, Debug, PartialEq, Eq, Hash, Structural)]
pub struct CameraView {
    /// Simulation-side entity; the identity of the context.
    pub main_entity: u64,
    /// Render-side entity of the camera.
    pub render_entity: u64,
    /// Whether the camera is active.
    pub is_active: bool,
    /// Whether the camera renders to a high dynamic range target.
    pub hdr: bool,
    /// The camera's viewport in physical pixels, where it has one.
    pub physical_viewport_rect: Option<PixelRect>,
}

/// A simulation-side context that is drawn through a camera.
#[derive(Debug, PartialEq, Eq)]
pub struct CameraContext {
    /// The camera.
    pub camera: CameraView,
    /// The frame's output, accumulated on the simulation side.
    pub render_output: EguiRenderOutput,
}

/// The render-side view of a context for one frame.
#[derive(Debug, PartialEq, Eq)]
pub struct ExtractedEguiView {
    /// Stable identity of the view.
    pub retained_view_entity: RetainedViewEntity,
    /// The camera view that the GUI is drawn on.
    pub view_target: EguiViewTarget,
    /// Whether the target has a high dynamic range format.
    pub hdr: bool,
    /// Viewport in physical pixels.
    pub viewport: PixelRect,
    /// The frame's output, moved over from the simulation side.
    pub render_output: EguiRenderOutput,
}

/// One change to the render side.
#[derive(Debug, PartialEq, Eq)]
pub enum ExtractAction {
    /// Remove the link from the camera with this render-side entity to its
    /// GUI view.
    RemoveCameraView {
        /// Render-side entity of the camera.
        render_entity: u64,
    },
    /// Spawn the GUI view and link the camera to it.
    SpawnView(ExtractedEguiView),
}

impl CameraView {
    /// The stable identity of the GUI view of the camera's context.
    pub open spec fn spec_retained_view_entity(self) -> RetainedViewEntity {
        RetainedViewEntity { main_entity: self.main_entity, subview_index: EGUI_CAMERA_SUBVIEW }
    }

    /// The context's view stays alive this frame.
    pub open spec fn spec_is_live(self) -> bool {
        self.is_active && self.physical_viewport_rect is Some
    }

    /// What extraction does on the render side for a context with output
    /// `render_output`: the link to the GUI view is removed for an inactive
    /// camera, a view with the output is spawned for an active camera with a
    /// viewport, and nothing is done for an active camera without one.
    pub open spec fn spec_action(self, render_output: EguiRenderOutput) -> Option<ExtractAction> {
        if !self.is_active {
            Some(ExtractAction::RemoveCameraView { render_entity: self.render_entity })
        } else {
            match self.physical_viewport_rect {
                Some(viewport) => Some(
                    ExtractAction::SpawnView(
                        ExtractedEguiView {
                            retained_view_entity: self.spec_retained_view_entity(),
                            view_target: EguiViewTarget(self.render_entity),
                            hdr: self.hdr,
                            viewport,
                            render_output,
                        },
                    ),
                ),
                None => None,
            }
        }
    }
}

impl CameraContext {
    /// What extraction does on the render side for the context.
    pub open spec fn spec_action(&self) -> Option<ExtractAction> {
        self.camera.spec_action(self.render_output)
    }

    /// The context after extraction: as before, with its output moved out.
    pub open spec fn spec_is_drained_of(&self, before: CameraContext) -> bool {
        self.camera == before.camera && self.render_output.spec_is_empty()
    }
}

/// The render-side changes of a frame: those of each context, in order.
pub open spec fn spec_actions(contexts: Seq<CameraContext>) -> Seq<ExtractAction>
    decreases contexts.len(),
{
    if contexts.len() == 0 {
        Seq::empty()
    } else {
        let rest = spec_actions(contexts.drop_last());
        match contexts.last().spec_action() {
            Some(action) => rest.push(action),
            None => rest,
        }
    }
}

/// The views that stay alive in a frame: those of the active cameras with a
/// viewport, each given by context identity and sub-view index.
pub open spec fn spec_live(contexts: Seq<CameraContext>) -> Set<(u64, u32)>
    decreases contexts.len(),
{
    if contexts.len() == 0 {
        Set::empty()
    } else {
        let rest = spec_live(contexts.drop_last());
        if contexts.last().camera.spec_is_live() {
            rest.insert((contexts.last().camera.main_entity, EGUI_CAMERA_SUBVIEW))
        } else {
            rest
        }
    }
}

/// A view is alive exactly when it is the GUI view of some active camera
/// with a viewport.
pub proof fn lemma_live(contexts: Seq<CameraContext>, view: (u64, u32))
    ensures
        spec_live(contexts).contains(view) <==> view.1 == EGUI_CAMERA_SUBVIEW && exists|k: int|
            0 <= k < contexts.len() && (#[trigger] contexts[k]).camera.spec_is_live()
                && contexts[k].camera.main_entity == view.0,
    decreases contexts.len(),
{
    if contexts.len() > 0 {
        let rest = contexts.drop_last();
        lemma_live(rest, view);
        if spec_live(contexts).contains(view) {
            if spec_live(rest).contains(view) {
                let k = choose|k: int|
                    0 <= k < rest.len() && (#[trigger] rest[k]).camera.spec_is_live()
                        && rest[k].camera.main_entity == view.0;
                assert(contexts[k].camera.spec_is_live());
            } else {
                assert(contexts[contexts.len() - 1].camera.spec_is_live());
            }
        }
        if view.1 == EGUI_CAMERA_SUBVIEW && exists|k: int|
            0 <= k < contexts.len() && (#[trigger] contexts[k]).camera.spec_is_live()
                && contexts[k].camera.main_entity == view.0 {
            let k = choose|k: int|
                0 <= k < contexts.len() && (#[trigger] contexts[k]).camera.spec_is_live()
                    && contexts[k].camera.main_entity == view.0;
            if k < rest.len() {
                assert(rest[k].camera.spec_is_live());
            }
        }
    }
}

/// Moves the frame's output of one context to the render side.
///
/// The output is taken whatever the camera's state, and an empty one is left
/// in its place for the next frame. The result says what to do on the render
/// side; the output travels in it where a view is spawned and is dropped
/// otherwise.
pub fn extract_render_output(camera: CameraView, render_output: &mut EguiRenderOutput) -> (action:
    Option<ExtractAction>)
    ensures
        final(render_output).spec_is_empty(),
        action == camera.spec_action(*old(render_output)),
{
    let mut taken = EguiRenderOutput::new();
    std::mem::swap(render_output, &mut taken);
    if !camera.is_active {
        Some(ExtractAction::RemoveCameraView { render_entity: camera.render_entity })
    } else {
        match camera.physical_viewport_rect {
            Some(viewport) => Some(
                ExtractAction::SpawnView(
                    ExtractedEguiView {
                        retained_view_entity: RetainedViewEntity {
                            main_entity: camera.main_entity,
                            subview_index: EGUI_CAMERA_SUBVIEW,
                        },
                        view_target: EguiViewTarget(camera.render_entity),
                        hdr: camera.hdr,
                        viewport,
                        render_output: taken,
                    },
                ),
            ),
            None => None,
        }
    }
}

/// Moves the frame's output of every context to the render side.
///
/// Every context is left with an empty output, whatever its camera's state.
/// The render-side changes are returned in the order of the contexts, and
/// `live_entities` is replaced by the identities of the views that were
/// spawned.
pub fn extract_egui_camera_view(
    contexts: &mut Vec<CameraContext>,
    live_entities: &mut HashSet<(u64, u32)>,
) -> (actions: Vec<ExtractAction>)
    ensures
        final(contexts)@.len() == old(contexts)@.len(),
        forall|k: int|
            0 <= k < old(contexts)@.len() ==> (#[trigger] final(contexts)@[k]).spec_is_drained_of(
                old(contexts)@[k],
            ),
        actions@ == spec_actions(old(contexts)@),
        spec_set_contents(*final(live_entities)) == spec_live(old(contexts)@),
{
    set_clear(live_entities);
    let mut actions: Vec<ExtractAction> = Vec::new();
    let mut i: usize = 0;
    while i < contexts.len()
        invariant
            i <= contexts@.len(),
            contexts@.len() == old(contexts)@.len(),
            forall|k: int|
                0 <= k < i ==> (#[trigger] contexts@[k]).spec_is_drained_of(old(contexts)@[k]),
            forall|k: int| i <= k < contexts@.len() ==> contexts@[k] == old(contexts)@[k],
            actions@ == spec_actions(old(contexts)@.take(i as int)),
            spec_set_contents(*live_entities) == spec_live(old(contexts)@.take(i as int)),
        decreases contexts@.len() - i,
    {
        proof {
            assert(old(contexts)@.take(i + 1).drop_last() == old(contexts)@.take(i as int));
        }
        let camera = contexts[i].camera;
        match extract_render_output(camera, &mut contexts[i].render_output) {
            Some(action) => {
                actions.push(action);
            },
            None => {},
        }
        if camera.is_active && camera.physical_viewport_rect.is_some() {
            let _ = set_insert(live_entities, (camera.main_entity, EGUI_CAMERA_SUBVIEW));
        }
        i += 1;
    }
    proof {
        assert(old(contexts)@.take(i as int) == old(contexts)@);
    }
    actions
}

} // verus!
