//! Per-context render state and its rebuild at the start of every frame.
//!
//! [`EguiRenderTargetData`] owns what one context needs for drawing: the
//! frame's draw commands, the vertex and index data they refer to, the
//! capacity of the two GPU buffers, and the paint callbacks whose `update` is
//! still due. [`EguiRenderTargetData::prepare`] rebuilds all of it from the
//! frame's paint jobs; nothing but buffer capacity survives from one frame to
//! the next.

use crate::draw::{
    frame_fits, lemma_command_counts, lemma_data_len, lemma_index_bias, spec_biased, spec_commands, spec_flatten, spec_frame_fits,
    spec_index_count, spec_index_data, spec_postponed, spec_vertex_count, spec_vertex_data,
    ClippedPrimitive, DrawCommand, DrawPrimitive, EguiDraw, PaintCallbackDraw, PostponedUpdate,
    Primitive, Vertex,
};
use crate::geometry::{
    lemma_grown_monotone, lemma_next_power_of_two_of_power, spec_grown, spec_max_capacity,
    spec_next_power_of_two, BufferHandle, GeometryBuffer,
};
use crate::pipeline::EguiPipelineKey;
use crate::rect::PixelRect;
use crate::texture::EguiTextureId;
use vstd::arithmetic::power2::is_pow2;
use vstd::prelude::*;

verus! {

/// Size of a render target in physical pixels.
#[derive(Clone, Copy, Debug, PartialEq, Eq, Hash, Structural)]
pub struct TargetSize {
    /// Width in physical pixels.
    pub width: u32,
    /// Height in physical pixels.
    pub height: u32,
}

impl TargetSize {
    /// The target has no pixel on some axis.
    pub open spec fn spec_is_degenerate(self) -> bool {
        self.width < 1 || self.height < 1
    }

    /// The rectangle from the origin to the size.
    pub open spec fn spec_bounds(self) -> PixelRect {
        PixelRect::spec_target_bounds(self.width, self.height)
    }

    /// Whether the target has no pixel on some axis.
    pub fn is_degenerate(&self) -> (r: bool)
        ensures
            r == self.spec_is_degenerate(),
    {
        self.width < 1 || self.height < 1
    }

    /// The rectangle from the origin to the size.
    pub fn bounds(&self) -> (r: PixelRect)
        ensures
            r == self.spec_bounds(),
    {
        PixelRect::target_bounds(self.width, self.height)
    }
}

/// What the rebuild reads of the target that a context is drawn to.
#[derive(Clone, Copy, Debug, PartialEq, Eq, Hash)]
pub struct RenderTarget {
    /// The pipeline key of the target.
    pub key: EguiPipelineKey,
    /// Size of the target's viewport, where it has one.
    pub physical_viewport_size: Option<TargetSize>,
}

/// What the caller has to do with the GPU buffers after a rebuild.
#[derive(Clone, Copy, Debug, PartialEq, Eq)]
pub struct FrameUpload {
    /// Handle of the vertex buffer to allocate, where the old one is too
    /// small or there is none; `None` where the existing buffer is kept.
    pub new_vertex_buffer: Option<BufferHandle>,
    /// Handle of the index buffer to allocate; `None` where the existing
    /// buffer is kept.
    pub new_index_buffer: Option<BufferHandle>,
    /// Whether vertex and index data are to be written to the buffers: true
    /// when both buffers exist.
    pub upload: bool,
}

/// How a rebuild ended.
#[derive(Clone, Copy, Debug, PartialEq, Eq)]
pub enum FrameOutcome {
    /// The target of the context is not there this frame. Nothing is drawn.
    MissingTarget,
    /// The target has no viewport or one without area. Nothing is drawn and
    /// nothing is uploaded.
    Degenerate,
    /// Commands and geometry were rebuilt.
    Rebuilt(FrameUpload),
}

/// Sum of the index counts of the mesh commands.
pub open spec fn spec_mesh_index_total(commands: Seq<DrawCommand>) -> nat
    decreases commands.len(),
{
    if commands.len() == 0 {
        0
    } else {
        spec_mesh_index_total(commands.drop_last()) + match commands.last().primitive {
            DrawPrimitive::Egui(draw) => draw.vertices_count as nat,
            DrawPrimitive::PaintCallback(_) => 0nat,
        }
    }
}

/// Mathematical content of an [`EguiRenderTargetData`].
pub struct RenderTargetModel {
    /// Whether the context was seen in the current frame.
    pub keep: bool,
    /// Identity of the context, shared by simulation and render side.
    pub main_entity: u64,
    /// Render-side entity of the context's view.
    pub render_entity: u64,
    /// Vertex data of the frame.
    pub vertex_data: Seq<u8>,
    /// Capacity of the vertex buffer in bytes.
    pub vertex_capacity: nat,
    /// Index data of the frame.
    pub index_data: Seq<u32>,
    /// Capacity of the index buffer in bytes.
    pub index_capacity: nat,
    /// Draw commands of the frame.
    pub draw_commands: Seq<DrawCommand>,
    /// Callbacks whose `update` is due.
    pub postponed_updates: Seq<PostponedUpdate>,
    /// Target size of the last rebuild.
    pub target_size: TargetSize,
    /// Pipeline key of the last frame in which the target was there.
    pub key: Option<EguiPipelineKey>,
}

impl RenderTargetModel {
    /// The state is consistent: capacities are zero or powers of two, the
    /// data fits its buffer, the mesh commands cover the index data exactly,
    /// and every command can show inside the target.
    pub open spec fn wf(self) -> bool {
        &&& self.vertex_capacity == 0 || is_pow2(self.vertex_capacity as int)
        &&& self.index_capacity == 0 || is_pow2(self.index_capacity as int)
        &&& self.vertex_data.len() <= self.vertex_capacity
        &&& 4 * self.index_data.len() <= self.index_capacity
        &&& self.index_data.len() <= u32::MAX
        &&& spec_mesh_index_total(self.draw_commands) == self.index_data.len()
        &&& forall|k: int|
            0 <= k < self.draw_commands.len() ==> (
            #[trigger] self.draw_commands[k]).clip_rect.visible_in(self.target_size.spec_bounds())
    }

    /// The state with the frame's commands and data dropped. Buffer
    /// capacities stay.
    pub open spec fn spec_cleared(self) -> RenderTargetModel {
        RenderTargetModel {
            keep: self.keep,
            main_entity: self.main_entity,
            render_entity: self.render_entity,
            vertex_data: Seq::empty(),
            vertex_capacity: self.vertex_capacity,
            index_data: Seq::empty(),
            index_capacity: self.index_capacity,
            draw_commands: Seq::empty(),
            postponed_updates: Seq::empty(),
            target_size: self.target_size,
            key: self.key,
        }
    }

    /// The state after rebuilding for a target of size `size` from the paint
    /// jobs `prims`.
    pub open spec fn spec_rebuilt(self, size: TargetSize, prims: Seq<ClippedPrimitive>)
        -> RenderTargetModel {
        let bounds = size.spec_bounds();
        let vertex_data = spec_vertex_data(prims, bounds);
        let index_data = spec_index_data(prims, bounds);
        RenderTargetModel {
            keep: self.keep,
            main_entity: self.main_entity,
            render_entity: self.render_entity,
            vertex_data,
            vertex_capacity: spec_grown(self.vertex_capacity, vertex_data.len()),
            index_data,
            index_capacity: spec_grown(self.index_capacity, 4 * index_data.len()),
            draw_commands: spec_commands(prims, bounds, self.main_entity),
            postponed_updates: spec_postponed(prims, bounds),
            target_size: size,
            key: self.key,
        }
    }

    /// The state with no callback queued for `update`.
    pub open spec fn spec_without_postponed(self) -> RenderTargetModel {
        RenderTargetModel {
            keep: self.keep,
            main_entity: self.main_entity,
            render_entity: self.render_entity,
            vertex_data: self.vertex_data,
            vertex_capacity: self.vertex_capacity,
            index_data: self.index_data,
            index_capacity: self.index_capacity,
            draw_commands: self.draw_commands,
            postponed_updates: Seq::empty(),
            target_size: self.target_size,
            key: self.key,
        }
    }

    /// The state with the mark of having been seen taken off.
    pub open spec fn spec_unseen(self) -> RenderTargetModel {
        RenderTargetModel {
            keep: false,
            main_entity: self.main_entity,
            render_entity: self.render_entity,
            vertex_data: self.vertex_data,
            vertex_capacity: self.vertex_capacity,
            index_data: self.index_data,
            index_capacity: self.index_capacity,
            draw_commands: self.draw_commands,
            postponed_updates: self.postponed_updates,
            target_size: self.target_size,
            key: self.key,
        }
    }

    /// The state with the context marked as seen and bound to a render
    /// entity.
    pub open spec fn spec_seen(self, render_entity: u64) -> RenderTargetModel {
        RenderTargetModel {
            keep: true,
            main_entity: self.main_entity,
            render_entity,
            vertex_data: self.vertex_data,
            vertex_capacity: self.vertex_capacity,
            index_data: self.index_data,
            index_capacity: self.index_capacity,
            draw_commands: self.draw_commands,
            postponed_updates: self.postponed_updates,
            target_size: self.target_size,
            key: self.key,
        }
    }

    /// The state with the pipeline key set.
    pub open spec fn spec_keyed(self, key: EguiPipelineKey) -> RenderTargetModel {
        RenderTargetModel {
            keep: self.keep,
            main_entity: self.main_entity,
            render_entity: self.render_entity,
            vertex_data: self.vertex_data,
            vertex_capacity: self.vertex_capacity,
            index_data: self.index_data,
            index_capacity: self.index_capacity,
            draw_commands: self.draw_commands,
            postponed_updates: self.postponed_updates,
            target_size: self.target_size,
            key: Some(key),
        }
    }

    /// The state after the frame's rebuild. The context is marked as seen in
    /// every case. Without the target, or with one that has no area,
    /// commands and data are dropped and the buffers left as they are;
    /// otherwise everything is rebuilt from the paint jobs.
    pub open spec fn spec_prepared(
        self,
        render_entity: u64,
        target: Option<RenderTarget>,
        prims: Seq<ClippedPrimitive>,
    ) -> RenderTargetModel {
        let seen = self.spec_seen(render_entity);
        match target {
            None => seen.spec_cleared(),
            Some(found) => {
                let keyed = seen.spec_keyed(found.key);
                match spec_drawable_size(target) {
                    Some(size) => keyed.spec_rebuilt(size, prims),
                    None => keyed.spec_cleared(),
                }
            },
        }
    }

    /// How the frame's rebuild ends, and what it asks of the caller.
    pub open spec fn spec_outcome(
        self,
        target: Option<RenderTarget>,
        prims: Seq<ClippedPrimitive>,
    ) -> FrameOutcome {
        match target {
            None => FrameOutcome::MissingTarget,
            Some(_) => match spec_drawable_size(target) {
                None => FrameOutcome::Degenerate,
                Some(size) => {
                    let after = self.spec_rebuilt(size, prims);
                    FrameOutcome::Rebuilt(
                        FrameUpload {
                            new_vertex_buffer: if after.vertex_capacity != self.vertex_capacity {
                                Some(BufferHandle { size: after.vertex_capacity as usize })
                            } else {
                                None
                            },
                            new_index_buffer: if after.index_capacity != self.index_capacity {
                                Some(BufferHandle { size: after.index_capacity as usize })
                            } else {
                                None
                            },
                            upload: after.vertex_capacity > 0 && after.index_capacity > 0,
                        },
                    )
                },
            },
        }
    }
}

/// The size to draw at: that of the target's viewport, where the target is
/// there and the viewport has area.
pub open spec fn spec_drawable_size(target: Option<RenderTarget>) -> Option<TargetSize> {
    match target {
        Some(found) => match found.physical_viewport_size {
            Some(size) => if size.spec_is_degenerate() {
                None
            } else {
                Some(size)
            },
            None => None,
        },
        None => None,
    }
}

/// The frame's paint jobs can be rebuilt from: either nothing will be drawn,
/// or the geometry fits the buffers and 32-bit indices.
pub open spec fn spec_can_prepare(target: Option<RenderTarget>, prims: Seq<ClippedPrimitive>)
    -> bool {
    match spec_drawable_size(target) {
        Some(size) => spec_frame_fits(prims, size.spec_bounds()),
        None => true,
    }
}

/// Whether the frame's paint jobs can be rebuilt from.
pub fn can_prepare(target: Option<RenderTarget>, paint_jobs: &Vec<ClippedPrimitive>) -> (ok:
    bool)
    ensures
        ok == spec_can_prepare(target, paint_jobs@),
{
    match target {
        Some(found) => match found.physical_viewport_size {
            Some(size) => size.is_degenerate() || frame_fits(paint_jobs, size.bounds()),
            None => true,
        },
        None => true,
    }
}

/// The mesh commands of a frame cover exactly its index data.
pub proof fn lemma_commands_cover_indices(
    prims: Seq<ClippedPrimitive>,
    bounds: PixelRect,
    context: u64,
)
    ensures
        spec_mesh_index_total(spec_commands(prims, bounds, context)) == spec_index_count(
            prims,
            bounds,
        ),
    decreases prims.len(),
{
    if prims.len() > 0 {
        let rest = prims.drop_last();
        lemma_commands_cover_indices(rest, bounds, context);
        let rest_commands = spec_commands(rest, bounds, context);
        if prims.last().spec_is_drawn(bounds) {
            let commands = rest_commands.push(prims.last().spec_command(context));
            assert(commands.drop_last() == rest_commands);
            if let Primitive::Mesh(mesh) = prims.last().primitive {
                assert(mesh.indices.len() == mesh.indices@.len());
            }
        }
    }
}

/// Every command of a frame has a clip rectangle that shows inside the
/// target: primitives clipped away entirely leave no command.
pub proof fn lemma_commands_visible(prims: Seq<ClippedPrimitive>, bounds: PixelRect, context: u64)
    ensures
        forall|k: int|
            0 <= k < spec_commands(prims, bounds, context).len() ==> (#[trigger] spec_commands(
                prims,
                bounds,
                context,
            )[k]).clip_rect.visible_in(bounds),
    decreases prims.len(),
{
    if prims.len() > 0 {
        lemma_commands_visible(prims.drop_last(), bounds, context);
    }
}

/// A primitive whose clip rectangle lies outside the target adds nothing to
/// the frame: no command, no vertex, no index, no callback.
pub proof fn lemma_invisible_adds_nothing(
    prims: Seq<ClippedPrimitive>,
    extra: ClippedPrimitive,
    bounds: PixelRect,
    context: u64,
)
    requires
        !extra.clip_rect.visible_in(bounds),
    ensures
        spec_commands(prims.push(extra), bounds, context) == spec_commands(prims, bounds, context),
        spec_vertex_data(prims.push(extra), bounds) == spec_vertex_data(prims, bounds),
        spec_index_data(prims.push(extra), bounds) == spec_index_data(prims, bounds),
        spec_postponed(prims.push(extra), bounds) == spec_postponed(prims, bounds),
        spec_vertex_count(prims.push(extra), bounds) == spec_vertex_count(prims, bounds),
{
    assert(prims.push(extra).drop_last() == prims);
}

/// A frame for a target whose viewport is missing or has no area leaves no
/// draw command, no vertex and no index, asks for no upload and keeps the
/// buffers as they are.
pub proof fn lemma_degenerate_frame(
    model: RenderTargetModel,
    render_entity: u64,
    target: RenderTarget,
    prims: Seq<ClippedPrimitive>,
)
    requires
        target.physical_viewport_size matches Some(size) ==> size.spec_is_degenerate(),
    ensures
        model.spec_outcome(Some(target), prims) == FrameOutcome::Degenerate,
        ({
            let after = model.spec_prepared(render_entity, Some(target), prims);
            &&& after.draw_commands.len() == 0
            &&& after.postponed_updates.len() == 0
            &&& after.vertex_data.len() == 0
            &&& after.index_data.len() == 0
            &&& after.vertex_capacity == model.vertex_capacity
            &&& after.index_capacity == model.index_capacity
        }),
{
}

/// Byte `k` of an index as it lies in memory: counted from the low end on a
/// little-endian machine and from the high end on a big-endian one.
pub open spec fn spec_index_byte(index: u32, k: int, little_endian: bool) -> u8 {
    let shift = if little_endian {
        8 * k
    } else {
        8 * (3 - k)
    };
    ((index >> (shift as u32)) & 0xff) as u8
}

/// The indices as bytes, four for each index in order.
pub open spec fn spec_index_bytes(indices: Seq<u32>, little_endian: bool) -> Seq<u8> {
    Seq::new(4 * indices.len(), |i: int| spec_index_byte(indices[i / 4], i % 4, little_endian))
}

/// `bytemuck::cast_slice` from `u32` to `u8`, copied into a vector. That
/// function returns the memory of the slice as bytes: four times as many
/// bytes as there are indices, each index in the byte order of the machine,
/// which is little-endian or big-endian. The cast to bytes cannot fail.
#[verifier::external_body]
fn cast_indices(indices: &Vec<u32>) -> (bytes: Vec<u8>)
    ensures
        bytes@ == spec_index_bytes(indices@, true) || bytes@ == spec_index_bytes(indices@, false),
{
    bytemuck::cast_slice::<u32, u8>(indices.as_slice()).to_vec()
}

/// Nothing of a frame's commands and geometry survives into the next frame:
/// two states that agree on the context, the buffer capacities, the pipeline
/// key and the last target size are the same after a rebuild, whatever
/// commands, data and callbacks they held before.
pub proof fn lemma_rebuild_forgets_last_frame(
    first: RenderTargetModel,
    second: RenderTargetModel,
    render_entity: u64,
    target: Option<RenderTarget>,
    prims: Seq<ClippedPrimitive>,
)
    requires
        first.main_entity == second.main_entity,
        first.vertex_capacity == second.vertex_capacity,
        first.index_capacity == second.index_capacity,
        first.key == second.key,
        first.target_size == second.target_size,
    ensures
        first.spec_prepared(render_entity, target, prims) == second.spec_prepared(
            render_entity,
            target,
            prims,
        ),
        first.spec_outcome(target, prims) == second.spec_outcome(target, prims),
{
}

/// Appends the vertices to the vertex data, verbatim.
fn append_vertices(out: &mut Vec<u8>, vertices: &Vec<Vertex>)
    ensures
        final(out)@ == old(out)@ + spec_flatten(vertices@),
{
    let mut v: usize = 0;
    while v < vertices.len()
        invariant
            v <= vertices.len(),
            out@ == old(out)@ + spec_flatten(vertices@.take(v as int)),
        decreases vertices.len() - v,
    {
        let ghost before = out@;
        let bytes = &vertices[v].bytes;
        let mut b: usize = 0;
        while b < 20
            invariant
                b <= 20,
                v < vertices.len(),
                bytes == vertices@[v as int].bytes,
                out@ == before + bytes@.take(b as int),
            decreases 20 - b,
        {
            out.push(bytes[b]);
            b += 1;
        }
        proof {

            assert(vertices@.take(v + 1).drop_last() == vertices@.take(v as int));
        }
        v += 1;
    }
    proof {
        assert(vertices@.take(v as int) == vertices@);
    }
}

/// Appends the indices to the index data, each raised by `base`.
fn append_biased(out: &mut Vec<u32>, indices: &Vec<u32>, base: u32)
    requires
        forall|j: int| 0 <= j < indices@.len() ==> #[trigger] indices@[j] + base <= u32::MAX,
    ensures
        final(out)@ == old(out)@ + spec_biased(indices@, base as nat),
{
    let mut j: usize = 0;
    while j < indices.len()
        invariant
            j <= indices.len(),
            forall|j: int| 0 <= j < indices@.len() ==> #[trigger] indices@[j] + base <= u32::MAX,
            out@ == old(out)@ + spec_biased(indices@, base as nat).take(j as int),
        decreases indices.len() - j,
    {
        out.push(indices[j] + base);
        j += 1;
    }
    proof {
        assert(spec_biased(indices@, base as nat).take(j as int) == spec_biased(
            indices@,
            base as nat,
        ));
    }
}

/// Everything one context needs for drawing a frame.
#[derive(Debug)]
pub struct EguiRenderTargetData {
    keep: bool,
    main_entity: u64,
    render_entity: u64,
    vertex_data: Vec<u8>,
    vertex_buffer: GeometryBuffer,
    index_data: Vec<u32>,
    index_buffer: GeometryBuffer,
    draw_commands: Vec<DrawCommand>,
    postponed_updates: Vec<PostponedUpdate>,
    target_size: TargetSize,
    key: Option<EguiPipelineKey>,
}

impl View for EguiRenderTargetData {
    type V = RenderTargetModel;

    closed spec fn view(&self) -> RenderTargetModel {
        RenderTargetModel {
            keep: self.keep,
            main_entity: self.main_entity,
            render_entity: self.render_entity,
            vertex_data: self.vertex_data@,
            vertex_capacity: self.vertex_buffer.spec_capacity(),
            index_data: self.index_data@,
            index_capacity: self.index_buffer.spec_capacity(),
            draw_commands: self.draw_commands@,
            postponed_updates: self.postponed_updates@,
            target_size: self.target_size,
            key: self.key,
        }
    }
}

impl EguiRenderTargetData {
    /// The state is consistent; see [`RenderTargetModel::wf`].
    pub open spec fn wf(&self) -> bool {
        self@.wf()
    }

    /// State of a context that has not drawn yet: no commands, no data, no
    /// buffers.
    pub fn new(main_entity: u64) -> (data: Self)
        ensures
            data.wf(),
            data@ == (RenderTargetModel {
                keep: false,
                main_entity,
                render_entity: 0,
                vertex_data: Seq::empty(),
                vertex_capacity: 0,
                index_data: Seq::empty(),
                index_capacity: 0,
                draw_commands: Seq::empty(),
                postponed_updates: Seq::empty(),
                target_size: TargetSize { width: 0, height: 0 },
                key: None,
            }),
    {
        EguiRenderTargetData {
            keep: false,
            main_entity,
            render_entity: 0,
            vertex_data: Vec::new(),
            vertex_buffer: GeometryBuffer::new(),
            index_data: Vec::new(),
            index_buffer: GeometryBuffer::new(),
            draw_commands: Vec::new(),
            postponed_updates: Vec::new(),
            target_size: TargetSize { width: 0, height: 0 },
            key: None,
        }
    }

    /// Drops the frame's commands and data. Buffer capacities stay.
    fn clear(&mut self)
        requires
            old(self).wf(),
        ensures
            final(self)@ == old(self)@.spec_cleared(),
            final(self).wf(),
    {
        self.draw_commands.clear();
        self.vertex_data.clear();
        self.index_data.clear();
        self.postponed_updates.clear();
    }

    /// Whether the context was seen in the current frame.
    pub fn keep(&self) -> (r: bool)
        ensures
            r == self@.keep,
    {
        self.keep
    }

    /// Identity of the context.
    pub fn main_entity(&self) -> (r: u64)
        ensures
            r == self@.main_entity,
    {
        self.main_entity
    }

    /// Render-side entity of the context's view.
    pub fn render_entity(&self) -> (r: u64)
        ensures
            r == self@.render_entity,
    {
        self.render_entity
    }

    /// Target size of the last rebuild.
    pub fn target_size(&self) -> (r: TargetSize)
        ensures
            r == self@.target_size,
    {
        self.target_size
    }

    /// Pipeline key of the last frame in which the target was there.
    pub fn key(&self) -> (r: Option<EguiPipelineKey>)
        ensures
            r == self@.key,
    {
        self.key
    }

    /// The frame's draw commands, in painter's order.
    pub fn draw_commands(&self) -> (r: &Vec<DrawCommand>)
        ensures
            r@ == self@.draw_commands,
    {
        &self.draw_commands
    }

    /// The frame's vertex data.
    pub fn vertex_data(&self) -> (r: &Vec<u8>)
        ensures
            r@ == self@.vertex_data,
    {
        &self.vertex_data
    }

    /// The frame's index data.
    pub fn index_data(&self) -> (r: &Vec<u32>)
        ensures
            r@ == self@.index_data,
    {
        &self.index_data
    }

    /// The frame's index data as the bytes to upload: every index in the
    /// byte order of the machine. They fit the index buffer.
    pub fn index_bytes(&self) -> (bytes: Vec<u8>)
        requires
            self.wf(),
        ensures
            bytes@ == spec_index_bytes(self@.index_data, true) || bytes@ == spec_index_bytes(
                self@.index_data,
                false,
            ),
            bytes@.len() == 4 * self@.index_data.len(),
            bytes@.len() <= self@.index_capacity,
    {
        cast_indices(&self.index_data)
    }

    /// Handle of the vertex buffer, or `None` while there is none.
    pub fn vertex_buffer(&self) -> (r: Option<BufferHandle>)
        ensures
            r.is_some() <==> self@.vertex_capacity > 0,
            r matches Some(handle) ==> handle.size == self@.vertex_capacity,
    {
        self.vertex_buffer.handle()
    }

    /// Handle of the index buffer, or `None` while there is none.
    pub fn index_buffer(&self) -> (r: Option<BufferHandle>)
        ensures
            r.is_some() <==> self@.index_capacity > 0,
            r matches Some(handle) ==> handle.size == self@.index_capacity,
    {
        self.index_buffer.handle()
    }

    /// Takes the mark off and tells whether the context was seen in the
    /// frame before, that is whether its state is to stay.
    pub fn retire(&mut self) -> (seen: bool)
        ensures
            seen == old(self)@.keep,
            final(self)@ == old(self)@.spec_unseen(),
    {
        let seen = self.keep;
        self.keep = false;
        seen
    }

    /// Hands out the callbacks whose `update` is due, in painter's order, and
    /// leaves none queued. Everything else stays as it is.
    pub fn take_postponed_updates(&mut self) -> (updates: Vec<PostponedUpdate>)
        ensures
            updates@ == old(self)@.postponed_updates,
            final(self)@ == old(self)@.spec_without_postponed(),
    {
        let mut updates: Vec<PostponedUpdate> = Vec::new();
        std::mem::swap(&mut self.postponed_updates, &mut updates);
        updates
    }

    /// Rebuilds the context's commands and geometry for a frame, as
    /// [`EguiRenderTargetData::prepare`] does, where the frame's geometry
    /// fits 32-bit indices and the buffers. Where it does not, nothing
    /// changes and `None` is returned.
    pub fn try_prepare(
        &mut self,
        render_entity: u64,
        target: Option<RenderTarget>,
        paint_jobs: &Vec<ClippedPrimitive>,
    ) -> (outcome: Option<FrameOutcome>)
        requires
            old(self).wf(),
        ensures
            final(self).wf(),
            spec_can_prepare(target, paint_jobs@) ==> final(self)@ == old(self)@.spec_prepared(
                render_entity,
                target,
                paint_jobs@,
            ) && outcome == Some(old(self)@.spec_outcome(target, paint_jobs@)),
            !spec_can_prepare(target, paint_jobs@) ==> final(self)@ == old(self)@ && outcome
                is None,
    {
        if can_prepare(target, paint_jobs) {
            Some(self.prepare(render_entity, target, paint_jobs))
        } else {
            None
        }
    }

    /// Rebuilds the context's commands and geometry for a frame.
    ///
    /// The context is marked as seen. Without a target, or with a viewport
    /// that is missing or has no area, the frame is skipped: commands and
    /// data are dropped and the buffers stay untouched. Otherwise every paint
    /// job whose clip rectangle shows inside the target is taken in order:
    /// a mesh adds its vertices verbatim and its indices raised by the number
    /// of vertices before them, and becomes a mesh command; a callback
    /// becomes a callback command and is queued for `update`. Paint jobs
    /// clipped away entirely, and callbacks without a runnable payload, add
    /// nothing. At the end the buffers are grown to fit the data.
    pub fn prepare(
        &mut self,
        render_entity: u64,
        target: Option<RenderTarget>,
        paint_jobs: &Vec<ClippedPrimitive>,
    ) -> (outcome: FrameOutcome)
        requires
            old(self).wf(),
            spec_can_prepare(target, paint_jobs@),
        ensures
            final(self).wf(),
            final(self)@ == old(self)@.spec_prepared(render_entity, target, paint_jobs@),
            outcome == old(self)@.spec_outcome(target, paint_jobs@),
    {
        self.keep = true;
        self.render_entity = render_entity;
        let found = match target {
            Some(found) => found,
            None => {
                self.clear();
                return FrameOutcome::MissingTarget;
            },
        };
        self.key = Some(found.key);
        let size = match found.physical_viewport_size {
            Some(size) => size,
            None => {
                self.clear();
                return FrameOutcome::Degenerate;
            },
        };
        if size.is_degenerate() {
            self.clear();
            return FrameOutcome::Degenerate;
        }
        let bounds = size.bounds();
        let context = self.main_entity;
        self.clear();
        self.target_size = size;

        let ghost start = self@;
        let mut index_offset: u32 = 0;
        let mut i: usize = 0;
        while i < paint_jobs.len()
            invariant
                i <= paint_jobs.len(),
                bounds == size.spec_bounds(),
                spec_frame_fits(paint_jobs@, bounds),
                index_offset == spec_vertex_count(paint_jobs@.take(i as int), bounds),
                self.draw_commands@ == spec_commands(paint_jobs@.take(i as int), bounds, context),
                self.vertex_data@ == spec_vertex_data(paint_jobs@.take(i as int), bounds),
                self.index_data@ == spec_index_data(paint_jobs@.take(i as int), bounds),
                self.postponed_updates@ == spec_postponed(paint_jobs@.take(i as int), bounds),
                self.keep == start.keep,
                self.main_entity == start.main_entity,
                self.render_entity == start.render_entity,
                self.vertex_buffer.spec_capacity() == start.vertex_capacity,
                self.index_buffer.spec_capacity() == start.index_capacity,
                self.vertex_buffer.wf(),
                self.index_buffer.wf(),
                self.target_size == size,
                self.key == start.key,
            decreases paint_jobs.len() - i,
        {
            let job = &paint_jobs[i];
            proof {
                let next = paint_jobs@.take(i + 1);
                assert(next.drop_last() == paint_jobs@.take(i as int));
                crate::draw::lemma_frame_fits_prefix(paint_jobs@, bounds, i + 1);
            }
            if !job.clip_rect.intersect(bounds).is_empty() {
                match &job.primitive {
                    Primitive::Callback(cb) => {
                        match cb.callback {
                            Some(callback) => {
                                let command = PaintCallbackDraw { callback, rect: cb.rect };
                                self.postponed_updates.push(
                                    PostponedUpdate { clip_rect: job.clip_rect, command },
                                );
                                self.draw_commands.push(
                                    DrawCommand {
                                        clip_rect: job.clip_rect,
                                        primitive: DrawPrimitive::PaintCallback(command),
                                    },
                                );
                            },
                            None => {},
                        }
                    },
                    Primitive::Mesh(mesh) => {
                        append_vertices(&mut self.vertex_data, &mesh.vertices);
                        append_biased(&mut self.index_data, &mesh.indices, index_offset);
                        index_offset = index_offset + mesh.vertices.len() as u32;
                        self.draw_commands.push(
                            DrawCommand {
                                clip_rect: job.clip_rect,
                                primitive: DrawPrimitive::Egui(
                                    EguiDraw {
                                        vertices_count: mesh.indices.len(),
                                        egui_texture: EguiTextureId::scoped(
                                            context,
                                            mesh.texture_id,
                                        ),
                                    },
                                ),
                            },
                        );
                    },
                }
            }
            i += 1;
        }
        proof {
            assert(paint_jobs@.take(i as int) == paint_jobs@);
            lemma_data_len(paint_jobs@, bounds);
            lemma_commands_cover_indices(paint_jobs@, bounds, context);
            lemma_commands_visible(paint_jobs@, bounds, context);
            lemma_fits_bounds(paint_jobs@, bounds);
        }
        let vertex_grows = self.vertex_data.len() > self.vertex_buffer.capacity();
        let vertex_handle = self.vertex_buffer.ensure_capacity(self.vertex_data.len());
        let index_bytes: usize = self.index_data.len() * 4;
        let index_grows = index_bytes > self.index_buffer.capacity();
        let index_handle = self.index_buffer.ensure_capacity(index_bytes);
        let upload = self.vertex_buffer.capacity() > 0 && self.index_buffer.capacity() > 0;
        proof {
            crate::geometry::lemma_grown_monotone(
                start.vertex_capacity,
                self.vertex_data@.len(),
            );
            crate::geometry::lemma_grown_monotone(
                start.index_capacity,
                4 * self.index_data@.len(),
            );
        }
        FrameOutcome::Rebuilt(
            FrameUpload {
                new_vertex_buffer: if vertex_grows {
                    vertex_handle
                } else {
                    None
                },
                new_index_buffer: if index_grows {
                    index_handle
                } else {
                    None
                },
                upload,
            },
        )
    }
}

/// In a frame that is drawn, whatever its paint jobs: the mesh commands are
/// as many as the meshes that show inside the target, the callback commands
/// as many as the callbacks that are drawn, and there is no other command.
pub proof fn lemma_frame_command_counts(
    model: RenderTargetModel,
    render_entity: u64,
    target: Option<RenderTarget>,
    prims: Seq<ClippedPrimitive>,
)
    requires
        spec_drawable_size(target) is Some,
    ensures
        ({
            let bounds = spec_drawable_size(target)->Some_0.spec_bounds();
            let commands = model.spec_prepared(render_entity, target, prims).draw_commands;
            &&& commands.filter(|c: DrawCommand| c.primitive is Egui).len() == prims.filter(
                |p: ClippedPrimitive| p.spec_is_visible_mesh(bounds),
            ).len()
            &&& commands.filter(|c: DrawCommand| c.primitive is PaintCallback).len()
                == prims.filter(|p: ClippedPrimitive| p.spec_is_drawn_callback(bounds)).len()
            &&& commands.len() == prims.filter(|p: ClippedPrimitive| p.spec_is_drawn(bounds)).len()
        }),
{
    let bounds = spec_drawable_size(target)->Some_0.spec_bounds();
    lemma_command_counts(prims, bounds, model.main_entity);
}

/// In a frame that is drawn and fits 32-bit indices, index `j` of the
/// visible mesh at position `k` stands in the index data after the indices
/// of the visible meshes before it, raised by the number of their vertices.
/// Primitives that are clipped away and callbacks add nothing to either
/// count.
pub proof fn lemma_frame_index_bias(
    model: RenderTargetModel,
    render_entity: u64,
    target: Option<RenderTarget>,
    prims: Seq<ClippedPrimitive>,
    k: int,
    j: int,
)
    requires
        spec_drawable_size(target) is Some,
        spec_can_prepare(target, prims),
        0 <= k < prims.len(),
        prims[k].spec_is_visible_mesh(spec_drawable_size(target)->Some_0.spec_bounds()),
        prims[k].primitive matches Primitive::Mesh(mesh) && 0 <= j < mesh.indices@.len(),
    ensures
        prims[k].primitive matches Primitive::Mesh(mesh) && {
            let bounds = spec_drawable_size(target)->Some_0.spec_bounds();
            let index_data = model.spec_prepared(render_entity, target, prims).index_data;
            let at = spec_index_count(prims.take(k), bounds) + j;
            &&& at < index_data.len()
            &&& index_data[at] == mesh.indices@[j] + spec_vertex_count(prims.take(k), bounds)
        },
{
    let bounds = spec_drawable_size(target)->Some_0.spec_bounds();
    lemma_index_bias(prims, bounds, k, j);
}

/// A frame whose data fits the buffers that are there leaves both buffers
/// as they are and asks for no new one, and so does the same frame again.
pub proof fn lemma_frame_reuses_buffers(
    model: RenderTargetModel,
    render_entity: u64,
    target: Option<RenderTarget>,
    prims: Seq<ClippedPrimitive>,
)
    requires
        spec_drawable_size(target) is Some,
        20 * spec_vertex_count(prims, spec_drawable_size(target)->Some_0.spec_bounds())
            <= model.vertex_capacity,
        4 * spec_index_count(prims, spec_drawable_size(target)->Some_0.spec_bounds())
            <= model.index_capacity,
    ensures
        ({
            let after = model.spec_prepared(render_entity, target, prims);
            let again = after.spec_prepared(render_entity, target, prims);
            &&& after.vertex_capacity == model.vertex_capacity
            &&& after.index_capacity == model.index_capacity
            &&& model.spec_outcome(target, prims) matches FrameOutcome::Rebuilt(upload)
                && upload.new_vertex_buffer is None && upload.new_index_buffer is None
            &&& again.vertex_capacity == model.vertex_capacity
            &&& again.index_capacity == model.index_capacity
            &&& after.spec_outcome(target, prims) matches FrameOutcome::Rebuilt(upload)
                && upload.new_vertex_buffer is None && upload.new_index_buffer is None
        }),
{
    let bounds = spec_drawable_size(target)->Some_0.spec_bounds();
    lemma_data_len(prims, bounds);
}

/// A frame whose data does not fit a buffer grows it to the least power of
/// two that fits: to the requirement itself where that is a power of two.
/// A buffer never shrinks.
pub proof fn lemma_frame_grows_buffers(
    model: RenderTargetModel,
    render_entity: u64,
    target: Option<RenderTarget>,
    prims: Seq<ClippedPrimitive>,
)
    requires
        spec_drawable_size(target) is Some,
    ensures
        ({
            let bounds = spec_drawable_size(target)->Some_0.spec_bounds();
            let after = model.spec_prepared(render_entity, target, prims);
            let vertex_bytes = 20 * spec_vertex_count(prims, bounds);
            let index_bytes = 4 * spec_index_count(prims, bounds);
            &&& after.vertex_capacity >= model.vertex_capacity
            &&& after.index_capacity >= model.index_capacity
            &&& vertex_bytes > model.vertex_capacity ==> after.vertex_capacity
                == spec_next_power_of_two(vertex_bytes)
            &&& index_bytes > model.index_capacity ==> after.index_capacity
                == spec_next_power_of_two(index_bytes)
            &&& vertex_bytes > model.vertex_capacity && is_pow2(vertex_bytes as int)
                ==> after.vertex_capacity == vertex_bytes
            &&& index_bytes > model.index_capacity && is_pow2(index_bytes as int)
                ==> after.index_capacity == index_bytes
        }),
{
    let bounds = spec_drawable_size(target)->Some_0.spec_bounds();
    lemma_data_len(prims, bounds);
    let vertex_bytes = 20 * spec_vertex_count(prims, bounds);
    let index_bytes = 4 * spec_index_count(prims, bounds);
    lemma_grown_monotone(model.vertex_capacity, vertex_bytes);
    lemma_grown_monotone(model.index_capacity, index_bytes);
    if is_pow2(vertex_bytes as int) {
        lemma_next_power_of_two_of_power(vertex_bytes);
    }
    if is_pow2(index_bytes as int) {
        lemma_next_power_of_two_of_power(index_bytes);
    }
}

/// In a frame that fits, the data stays within what the buffers can hold and
/// what 32-bit indices can address.
pub proof fn lemma_fits_bounds(prims: Seq<ClippedPrimitive>, bounds: PixelRect)
    requires
        spec_frame_fits(prims, bounds),
    ensures
        spec_vertex_count(prims, bounds) <= u32::MAX,
        spec_index_count(prims, bounds) <= u32::MAX,
        20 * spec_vertex_count(prims, bounds) <= spec_max_capacity(),
        4 * spec_index_count(prims, bounds) <= spec_max_capacity(),
    decreases prims.len(),
{
    if prims.len() > 0 {
        lemma_fits_bounds(prims.drop_last(), bounds);
    }
}

} // verus!
