//! The render pass of one context: what is issued to the GPU, and in what
//! order.
//!
//! The pass itself runs against the engine's render graph, outside this
//! crate. What is decided here is the exact sequence of [`PassAction`]s that
//! it performs, from the context's draw commands and the frame's texture
//! table.

use crate::draw::{
    spec_callbacks_of, DrawCommand, DrawPrimitive, PaintCallbackDraw, PostponedUpdate,
};
use crate::rect::PixelRect;
use crate::pipeline::EguiPipelineKey;
use crate::render_data::{
    spec_mesh_index_total, EguiRenderTargetData, RenderTargetModel, TargetSize,
};
use crate::texture::{spec_resolve, EguiTextureBindGroups, EguiTextureId, TextureBinding};
use vstd::prelude::*;

verus! {

/// One thing the render pass does.
#[derive(Clone, Copy, Debug, PartialEq, Eq)]
pub enum PassAction {
    /// Set the viewport to the full target of the given size, set the
    /// pipeline and bind the context's transform.
    Reset {
        /// Width of the target.
        width: u32,
        /// Height of the target.
        height: u32,
    },
    /// Restrict drawing to a rectangle. The rectangle always has area.
    SetScissor {
        /// Left edge.
        x: u32,
        /// Top edge.
        y: u32,
        /// Horizontal extent.
        width: u32,
        /// Vertical extent.
        height: u32,
    },
    /// Bind a texture and the geometry buffers, and draw the range
    /// `start..end` of the index data.
    DrawMesh {
        /// Where the texture is bound.
        binding: TextureBinding,
        /// First index to draw.
        start: u32,
        /// One past the last index to draw.
        end: u32,
    },
    /// The texture of a mesh command is not bound this frame. Nothing is
    /// drawn for the command; the caller may record a diagnostic.
    MissingTexture {
        /// The texture that did not resolve.
        texture: EguiTextureId,
    },
    /// Set the viewport to the callback's rectangle and invoke its `render`.
    Callback {
        /// The callback and where it paints.
        command: PaintCallbackDraw,
        /// Clip rectangle of the command.
        clip_rect: PixelRect,
    },
}

/// Whether viewport and pipeline have to be set again before the command
/// that follows `commands`: at the start of the pass, and after a callback
/// that was invoked.
pub open spec fn spec_dirty_after(commands: Seq<DrawCommand>) -> bool {
    commands.len() == 0 || match commands.last().primitive {
        DrawPrimitive::PaintCallback(cb) => cb.rect.spec_has_area(),
        DrawPrimitive::Egui(_) => false,
    }
}

/// The scissor of a command: its clip rectangle cut to the target.
pub open spec fn spec_scissor(command: DrawCommand, size: TargetSize) -> PassAction {
    let r = command.clip_rect.spec_intersect(size.spec_bounds());
    PassAction::SetScissor {
        x: r.min_x,
        y: r.min_y,
        width: (r.max_x - r.min_x) as u32,
        height: (r.max_y - r.min_y) as u32,
    }
}

/// What the pass does for the command itself, after the scissor is set. A
/// mesh is drawn from `offset` on where its texture resolves, and reported
/// where it does not; a callback is invoked where its rectangle has area.
pub open spec fn spec_body(
    command: DrawCommand,
    offset: nat,
    ids: Seq<EguiTextureId>,
    chunk: Option<nat>,
) -> Seq<PassAction> {
    match command.primitive {
        DrawPrimitive::Egui(draw) => match spec_resolve(ids, chunk, draw.egui_texture) {
            Some(binding) => seq![
                PassAction::DrawMesh {
                    binding,
                    start: offset as u32,
                    end: (offset + draw.vertices_count) as u32,
                },
            ],
            None => seq![PassAction::MissingTexture { texture: draw.egui_texture }],
        },
        DrawPrimitive::PaintCallback(cb) => if cb.rect.spec_has_area() {
            seq![PassAction::Callback { command: cb, clip_rect: command.clip_rect }]
        } else {
            Seq::empty()
        },
    }
}

/// Everything the pass does for one command: a reset where one is due, the
/// scissor, and the command itself.
pub open spec fn spec_step(
    command: DrawCommand,
    dirty: bool,
    offset: nat,
    ids: Seq<EguiTextureId>,
    chunk: Option<nat>,
    size: TargetSize,
) -> Seq<PassAction> {
    let reset = if dirty {
        seq![PassAction::Reset { width: size.width, height: size.height }]
    } else {
        Seq::empty()
    };
    reset + seq![spec_scissor(command, size)] + spec_body(command, offset, ids, chunk)
}

/// The actions of a pass over `commands`. Each command is handled with the
/// index offset that all mesh commands before it add up to, whether they were
/// drawn or not.
pub open spec fn spec_pass(
    commands: Seq<DrawCommand>,
    ids: Seq<EguiTextureId>,
    chunk: Option<nat>,
    size: TargetSize,
) -> Seq<PassAction>
    decreases commands.len(),
{
    if commands.len() == 0 {
        Seq::empty()
    } else {
        let before = commands.drop_last();
        spec_pass(before, ids, chunk, size) + spec_step(
            commands.last(),
            spec_dirty_after(before),
            spec_mesh_index_total(before),
            ids,
            chunk,
            size,
        )
    }
}

/// The actions of the pass of a context. While the pipeline key or one of
/// the two buffers is missing, nothing is done at all.
pub open spec fn spec_plan(data: RenderTargetModel, ids: Seq<EguiTextureId>, chunk: Option<nat>)
    -> Seq<PassAction> {
    if data.key is None || data.vertex_capacity == 0 || data.index_capacity == 0 {
        Seq::empty()
    } else {
        spec_pass(data.draw_commands, ids, chunk, data.target_size)
    }
}

/// The actions of the pass of a context whose pipeline, transform and
/// transform bind group are at hand or not: without them nothing is done.
pub open spec fn spec_plan_when_ready(
    data: RenderTargetModel,
    ids: Seq<EguiTextureId>,
    chunk: Option<nat>,
    ready: bool,
) -> Seq<PassAction> {
    if ready {
        spec_plan(data, ids, chunk)
    } else {
        Seq::empty()
    }
}

/// The callbacks whose `prepare_render` is called before the pass begins:
/// every callback among the commands, once, in the order of the commands.
/// None is called while the pass itself would do nothing.
pub open spec fn spec_prepare_calls(data: RenderTargetModel, ready: bool) -> Seq<PostponedUpdate> {
    if !ready || data.key is None || data.vertex_capacity == 0 || data.index_capacity == 0 {
        Seq::empty()
    } else {
        spec_callbacks_of(data.draw_commands)
    }
}

/// The index counts of the mesh commands add up along the commands.
pub proof fn lemma_mesh_index_total_prefix(commands: Seq<DrawCommand>, k: int)
    requires
        0 <= k <= commands.len(),
    ensures
        spec_mesh_index_total(commands.take(k)) <= spec_mesh_index_total(commands),
    decreases commands.len(),
{
    if k == commands.len() {
        assert(commands.take(k) == commands);
    } else {
        assert(commands.drop_last().take(k) == commands.take(k));
        lemma_mesh_index_total_prefix(commands.drop_last(), k);
    }
}

/// The pass handles the commands one after the other: what it does for the
/// first `k + 1` commands is what it does for the first `k`, followed by the
/// step of command `k`, whose index offset is the sum of the index counts of
/// the mesh commands before it.
pub proof fn lemma_pass_step(
    commands: Seq<DrawCommand>,
    ids: Seq<EguiTextureId>,
    chunk: Option<nat>,
    size: TargetSize,
    k: int,
)
    requires
        0 <= k < commands.len(),
    ensures
        spec_pass(commands.take(k + 1), ids, chunk, size) == spec_pass(
            commands.take(k),
            ids,
            chunk,
            size,
        ) + spec_step(
            commands[k],
            spec_dirty_after(commands.take(k)),
            spec_mesh_index_total(commands.take(k)),
            ids,
            chunk,
            size,
        ),
{
    assert(commands.take(k + 1).drop_last() == commands.take(k));
}

/// What a context's callbacks need for their `update` calls.
#[derive(Debug, PartialEq, Eq)]
pub struct PendingUpdates {
    /// Pipeline key of the context's target.
    pub key: EguiPipelineKey,
    /// Render-side entity of the context's view.
    pub render_entity: u64,
    /// Size of the context's target.
    pub target_size: TargetSize,
    /// The callbacks to update, in painter's order.
    pub updates: Vec<PostponedUpdate>,
}

impl PendingUpdates {
    /// These are the pending updates of a context in state `model`: its key,
    /// its view, its target size and its queued callbacks.
    pub open spec fn spec_is_of(&self, model: RenderTargetModel) -> bool {
        &&& model.key == Some(self.key)
        &&& self.render_entity == model.render_entity
        &&& self.target_size == model.target_size
        &&& self.updates@ == model.postponed_updates
    }
}

/// The render graph node that draws the GUI of a view.
#[derive(Clone, Copy, Debug)]
pub struct EguiPassNode;

impl EguiPassNode {
    /// Creates the node.
    pub fn new() -> Self {
        EguiPassNode
    }

    /// Update phase for one context: hands out the callbacks whose `update`
    /// is due. While the context has no pipeline key nothing is handed out
    /// and the callbacks stay queued.
    pub fn update(&self, data: &mut EguiRenderTargetData) -> (pending: Option<PendingUpdates>)
        ensures
            old(data)@.key is None ==> pending is None && final(data)@ == old(data)@,
            old(data)@.key matches Some(key) ==> {
                &&& final(data)@ == old(data)@.spec_without_postponed()
                &&& pending matches Some(p)
                &&& p.key == key
                &&& p.render_entity == old(data)@.render_entity
                &&& p.target_size == old(data)@.target_size
                &&& p.updates@ == old(data)@.postponed_updates
            },
    {
        match data.key() {
            None => None,
            Some(key) => {
                let render_entity = data.render_entity();
                let target_size = data.target_size();
                let updates = data.take_postponed_updates();
                Some(PendingUpdates { key, render_entity, target_size, updates })
            },
        }
    }

    /// Prepare phase for one context: the callbacks whose `prepare_render`
    /// is to be called before the render pass begins. `ready` tells whether
    /// pipeline, transform and transform bind group of the context are at
    /// hand. Where they are, and the context has a pipeline key and both
    /// buffers, every callback among the commands is handed out once, in
    /// painter's order; mesh commands hand out nothing. Otherwise nothing is
    /// handed out.
    pub fn prepare(&self, data: &EguiRenderTargetData, ready: bool) -> (calls: Vec<PostponedUpdate>)
        ensures
            calls@ == spec_prepare_calls(data@, ready),
    {
        let mut calls: Vec<PostponedUpdate> = Vec::new();
        if !ready || data.key().is_none() || data.vertex_buffer().is_none()
            || data.index_buffer().is_none() {
            return calls;
        }
        let commands = data.draw_commands();
        let mut i: usize = 0;
        proof {
            assert(commands@.take(0) == Seq::<DrawCommand>::empty());
        }
        while i < commands.len()
            invariant
                i <= commands.len(),
                calls@ == spec_callbacks_of(commands@.take(i as int)),
            decreases commands.len() - i,
        {
            proof {
                assert(commands@.take(i + 1).drop_last() == commands@.take(i as int));
            }
            let command = commands[i];
            match command.primitive {
                DrawPrimitive::PaintCallback(callback) => {
                    calls.push(PostponedUpdate { clip_rect: command.clip_rect, command: callback });
                },
                DrawPrimitive::Egui(_) => {},
            }
            i += 1;
        }
        proof {
            assert(commands@.take(i as int) == commands@);
        }
        calls
    }

    /// Execution phase for one context whose pipeline, transform and
    /// transform bind group may be missing: with them the actions are those
    /// of [`EguiPassNode::run`]; without them the context is passed over and
    /// nothing is done, so that the other contexts of the frame are drawn
    /// all the same.
    pub fn run_when_ready(
        &self,
        data: &EguiRenderTargetData,
        textures: &EguiTextureBindGroups,
        ready: bool,
    ) -> (actions: Vec<PassAction>)
        requires
            data.wf(),
            textures.wf(),
        ensures
            actions@ == spec_plan_when_ready(
                data@,
                textures.spec_ids(),
                textures.spec_chunk(),
                ready,
            ),
            forall|k: int|
                0 <= k < actions@.len() ==> (
                #[trigger] actions@[k] matches PassAction::SetScissor { width, height, .. }
                    ==> width > 0 && height > 0),
            forall|k: int|
                0 <= k < actions@.len() ==> (
                #[trigger] actions@[k] matches PassAction::DrawMesh { start, end, .. } ==> start
                    <= end <= data@.index_data.len()),
            forall|k: int|
                0 <= k < actions@.len() ==> (
                #[trigger] actions@[k] matches PassAction::DrawMesh { binding, .. }
                    ==> binding.group < textures.spec_group_ids().len() && 0
                    <= binding.spec_slot()
                    < textures.spec_group_ids()[binding.group as int].len()),
    {
        if ready {
            self.run(data, textures)
        } else {
            Vec::new()
        }
    }

    /// Execution phase for one context: the actions of its render pass.
    ///
    /// Nothing is done while the pipeline key or a geometry buffer is
    /// missing. Otherwise the commands are taken in painter's order. Before
    /// the first command, and after every invoked callback, viewport and
    /// pipeline are reset. Every command sets its scissor. A mesh whose
    /// texture resolves is drawn; one whose texture does not is reported and
    /// skipped, and the index offset moves on all the same. A callback whose
    /// rectangle has area is invoked. Every scissor has area, every draw stays
    /// within the index data, and every binding names a slot of a bind group
    /// of the table.
    pub fn run(&self, data: &EguiRenderTargetData, textures: &EguiTextureBindGroups) -> (actions:
        Vec<PassAction>)
        requires
            data.wf(),
            textures.wf(),
        ensures
            actions@ == spec_plan(data@, textures.spec_ids(), textures.spec_chunk()),
            forall|k: int|
                0 <= k < actions@.len() ==> (#[trigger] actions@[k] matches PassAction::SetScissor {
                    width,
                    height,
                    ..
                } ==> width > 0 && height > 0),
            forall|k: int|
                0 <= k < actions@.len() ==> (#[trigger] actions@[k] matches PassAction::DrawMesh {
                    start,
                    end,
                    ..
                } ==> start <= end <= data@.index_data.len()),
            forall|k: int|
                0 <= k < actions@.len() ==> (#[trigger] actions@[k] matches PassAction::DrawMesh {
                    binding,
                    ..
                } ==> binding.group < textures.spec_group_ids().len() && 0 <= binding.spec_slot()
                    < textures.spec_group_ids()[binding.group as int].len()),
    {
        let mut actions: Vec<PassAction> = Vec::new();
        if data.key().is_none() || data.vertex_buffer().is_none() || data.index_buffer().is_none() {
            return actions;
        }
        let size = data.target_size();
        let bounds = size.bounds();
        let commands = data.draw_commands();
        let ghost ids = textures.spec_ids();
        let ghost chunk = textures.spec_chunk();
        let mut requires_reset = true;
        let mut vertex_offset: u32 = 0;
        let mut i: usize = 0;
        while i < commands.len()
            invariant
                i <= commands.len(),
                textures.wf(),
                ids == textures.spec_ids(),
                chunk == textures.spec_chunk(),
                bounds == size.spec_bounds(),
                commands@ == data@.draw_commands,
                spec_mesh_index_total(commands@) == data@.index_data.len(),
                data@.index_data.len() <= u32::MAX,
                forall|k: int|
                    0 <= k < commands@.len() ==> (#[trigger] commands@[k]).clip_rect.visible_in(
                        bounds,
                    ),
                requires_reset == spec_dirty_after(commands@.take(i as int)),
                vertex_offset == spec_mesh_index_total(commands@.take(i as int)),
                actions@ == spec_pass(commands@.take(i as int), ids, chunk, size),
                forall|k: int|
                    0 <= k < actions@.len() ==> (
                    #[trigger] actions@[k] matches PassAction::SetScissor { width, height, .. }
                        ==> width > 0 && height > 0),
                forall|k: int|
                    0 <= k < actions@.len() ==> (
                    #[trigger] actions@[k] matches PassAction::DrawMesh { start, end, .. }
                        ==> start <= end <= data@.index_data.len()),
                forall|k: int|
                    0 <= k < actions@.len() ==> (
                    #[trigger] actions@[k] matches PassAction::DrawMesh { binding, .. }
                        ==> binding.group < textures.spec_group_ids().len() && 0
                        <= binding.spec_slot()
                        < textures.spec_group_ids()[binding.group as int].len()),
            decreases commands.len() - i,
        {
            let command = commands[i];
            proof {
                lemma_mesh_index_total_prefix(commands@, i + 1);
                assert(commands@.take(i + 1).drop_last() == commands@.take(i as int));
            }
            if requires_reset {
                actions.push(PassAction::Reset { width: size.width, height: size.height });
                requires_reset = false;
            }
            let scissor = command.clip_rect.intersect(bounds);
            actions.push(
                PassAction::SetScissor {
                    x: scissor.min_x,
                    y: scissor.min_y,
                    width: scissor.width(),
                    height: scissor.height(),
                },
            );
            match command.primitive {
                DrawPrimitive::Egui(draw) => {
                    let count: u32 = draw.vertices_count as u32;
                    match textures.resolve(draw.egui_texture) {
                        Some(binding) => {
                            actions.push(
                                PassAction::DrawMesh {
                                    binding,
                                    start: vertex_offset,
                                    end: vertex_offset + count,
                                },
                            );
                        },
                        None => {
                            actions.push(PassAction::MissingTexture { texture: draw.egui_texture });
                        },
                    }
                    vertex_offset = vertex_offset + count;
                },
                DrawPrimitive::PaintCallback(cb) => {
                    if cb.rect.has_area() {
                        requires_reset = true;
                        actions.push(
                            PassAction::Callback { command: cb, clip_rect: command.clip_rect },
                        );
                    }
                },
            }
            i += 1;
        }
        proof {
            assert(commands@.take(i as int) == commands@);
        }
        actions
    }
}

} // verus!
