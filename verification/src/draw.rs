//! From the GUI library's paint jobs to draw commands.
//!
//! Each frame the GUI library hands every context a sequence of
//! [`ClippedPrimitive`]s in painter's order. This module says which of them
//! are drawn, what draw command each becomes, and what the shared vertex and
//! index data of the context hold. The executable counterpart is
//! [`crate::render_data::EguiRenderTargetData::prepare`].

use crate::geometry::{max_capacity, spec_max_capacity};
use crate::rect::{PixelRect, ViewportInPixels};
use crate::texture::{EguiTextureId, TextureId};
use vstd::prelude::*;

verus! {

/// One vertex as the GPU reads it: position, texture coordinates and colour,
/// 20 bytes in all, copied verbatim.
#[derive(Clone, Copy, Debug, PartialEq, Eq)]
pub struct Vertex {
    /// The vertex in its GPU layout.
    pub bytes: [u8; 20],
}

/// Textured triangles of one paint job.
#[derive(Debug, PartialEq, Eq)]
pub struct Mesh {
    /// The vertices.
    pub vertices: Vec<Vertex>,
    /// Indices into `vertices`, three per triangle.
    pub indices: Vec<u32>,
    /// The texture the triangles are drawn with.
    pub texture_id: TextureId,
}

/// Names a paint callback in the arena that the caller keeps for the frame.
#[derive(Clone, Copy, Debug, PartialEq, Eq, Hash, Structural)]
pub struct CallbackHandle {
    /// Position of the callback in the arena.
    pub index: usize,
}

/// A request for custom drawing at one point of the paint order.
#[derive(Clone, Copy, Debug, PartialEq, Eq)]
pub struct PaintCallback {
    /// Where the callback paints, in physical pixels.
    pub rect: ViewportInPixels,
    /// The callback, or `None` where the payload is not of a kind this
    /// renderer can run.
    pub callback: Option<CallbackHandle>,
}

/// What a paint job draws.
#[derive(Debug, PartialEq, Eq)]
pub enum Primitive {
    /// Textured triangles.
    Mesh(Mesh),
    /// Custom drawing.
    Callback(PaintCallback),
}

/// One paint job: what to draw, and the rectangle outside which nothing of
/// it may show. The rectangle is in physical pixels.
#[derive(Debug, PartialEq, Eq)]
pub struct ClippedPrimitive {
    /// Clip rectangle in physical pixels.
    pub clip_rect: PixelRect,
    /// What to draw.
    pub primitive: Primitive,
}

/// Draw of a range of the context's index data with one texture.
#[derive(Clone, Copy, Debug, PartialEq, Eq, Hash, Structural)]
pub struct EguiDraw {
    /// Number of indices to draw.
    pub vertices_count: usize,
    /// Texture to draw with.
    pub egui_texture: EguiTextureId,
}

/// Invocation of a paint callback.
#[derive(Clone, Copy, Debug, PartialEq, Eq, Hash, Structural)]
pub struct PaintCallbackDraw {
    /// The callback to invoke.
    pub callback: CallbackHandle,
    /// Where it paints: the rectangle the primitive came with, not the clip
    /// rectangle.
    pub rect: ViewportInPixels,
}

/// The two kinds of draw command.
#[derive(Clone, Copy, Debug, PartialEq, Eq, Hash, Structural)]
pub enum DrawPrimitive {
    /// Textured triangles.
    Egui(EguiDraw),
    /// Custom drawing.
    PaintCallback(PaintCallbackDraw),
}

/// One step of a context's drawing, in painter's order.
#[derive(Clone, Copy, Debug, PartialEq, Eq, Hash, Structural)]
pub struct DrawCommand {
    /// Clip rectangle in physical pixels, as the primitive had it.
    pub clip_rect: PixelRect,
    /// What to draw.
    pub primitive: DrawPrimitive,
}

/// A paint callback whose `update` is still to be called this frame.
#[derive(Clone, Copy, Debug, PartialEq, Eq, Hash, Structural)]
pub struct PostponedUpdate {
    /// Clip rectangle of the primitive.
    pub clip_rect: PixelRect,
    /// The callback and where it paints.
    pub command: PaintCallbackDraw,
}

impl ClippedPrimitive {
    /// A mesh some pixel of which can show inside `bounds`.
    pub open spec fn spec_is_visible_mesh(self, bounds: PixelRect) -> bool {
        self.clip_rect.visible_in(bounds) && self.primitive is Mesh
    }

    /// A callback that this renderer can run and some pixel of whose clip
    /// rectangle lies inside `bounds`.
    pub open spec fn spec_is_drawn_callback(self, bounds: PixelRect) -> bool {
        &&& self.clip_rect.visible_in(bounds)
        &&& self.primitive matches Primitive::Callback(cb)
        &&& cb.callback is Some
    }

    /// The primitive becomes a draw command.
    pub open spec fn spec_is_drawn(self, bounds: PixelRect) -> bool {
        self.spec_is_visible_mesh(bounds) || self.spec_is_drawn_callback(bounds)
    }

    /// The draw command of a drawn primitive of context `context`.
    pub open spec fn spec_command(self, context: u64) -> DrawCommand {
        match self.primitive {
            Primitive::Mesh(mesh) => DrawCommand {
                clip_rect: self.clip_rect,
                primitive: DrawPrimitive::Egui(
                    EguiDraw {
                        vertices_count: mesh.indices@.len() as usize,
                        egui_texture: EguiTextureId::spec_scoped(context, mesh.texture_id),
                    },
                ),
            },
            Primitive::Callback(cb) => DrawCommand {
                clip_rect: self.clip_rect,
                primitive: DrawPrimitive::PaintCallback(
                    PaintCallbackDraw { callback: cb.callback.unwrap(), rect: cb.rect },
                ),
            },
        }
    }

    /// Number of vertices the primitive adds to the context's vertex data.
    pub open spec fn spec_vertex_len(self, bounds: PixelRect) -> nat {
        match self.primitive {
            Primitive::Mesh(mesh) => if self.clip_rect.visible_in(bounds) {
                mesh.vertices@.len()
            } else {
                0
            },
            Primitive::Callback(_) => 0,
        }
    }

    /// Number of indices the primitive adds to the context's index data.
    pub open spec fn spec_index_len(self, bounds: PixelRect) -> nat {
        match self.primitive {
            Primitive::Mesh(mesh) => if self.clip_rect.visible_in(bounds) {
                mesh.indices@.len()
            } else {
                0
            },
            Primitive::Callback(_) => 0,
        }
    }
}

/// The vertices laid end to end, 20 bytes each.
pub open spec fn spec_flatten(vertices: Seq<Vertex>) -> Seq<u8>
    decreases vertices.len(),
{
    if vertices.len() == 0 {
        Seq::empty()
    } else {
        spec_flatten(vertices.drop_last()) + vertices.last().bytes@
    }
}

/// The indices of a mesh, each raised by `base`: the number of vertices that
/// stand before the mesh's own in the shared vertex data.
pub open spec fn spec_biased(indices: Seq<u32>, base: nat) -> Seq<u32> {
    Seq::new(indices.len(), |j: int| (indices[j] + base) as u32)
}

/// The draw commands of a frame: one for each drawn primitive, in order.
pub open spec fn spec_commands(prims: Seq<ClippedPrimitive>, bounds: PixelRect, context: u64)
    -> Seq<DrawCommand>
    decreases prims.len(),
{
    if prims.len() == 0 {
        Seq::empty()
    } else {
        let rest = spec_commands(prims.drop_last(), bounds, context);
        if prims.last().spec_is_drawn(bounds) {
            rest.push(prims.last().spec_command(context))
        } else {
            rest
        }
    }
}

/// The callbacks of a frame whose `update` is to be called: one for each
/// drawn callback primitive, in order.
pub open spec fn spec_postponed(prims: Seq<ClippedPrimitive>, bounds: PixelRect) -> Seq<
    PostponedUpdate,
>
    decreases prims.len(),
{
    if prims.len() == 0 {
        Seq::empty()
    } else {
        let rest = spec_postponed(prims.drop_last(), bounds);
        let p = prims.last();
        match p.primitive {
            Primitive::Callback(cb) => if p.spec_is_drawn_callback(bounds) {
                rest.push(
                    PostponedUpdate {
                        clip_rect: p.clip_rect,
                        command: PaintCallbackDraw {
                            callback: cb.callback.unwrap(),
                            rect: cb.rect,
                        },
                    },
                )
            } else {
                rest
            },
            Primitive::Mesh(_) => rest,
        }
    }
}

/// Number of vertices in the vertex data of a frame: those of its visible
/// meshes. Primitives that are not drawn add nothing.
pub open spec fn spec_vertex_count(prims: Seq<ClippedPrimitive>, bounds: PixelRect) -> nat
    decreases prims.len(),
{
    if prims.len() == 0 {
        0
    } else {
        spec_vertex_count(prims.drop_last(), bounds) + prims.last().spec_vertex_len(bounds)
    }
}

/// Number of indices in the index data of a frame: those of its visible
/// meshes.
pub open spec fn spec_index_count(prims: Seq<ClippedPrimitive>, bounds: PixelRect) -> nat
    decreases prims.len(),
{
    if prims.len() == 0 {
        0
    } else {
        spec_index_count(prims.drop_last(), bounds) + prims.last().spec_index_len(bounds)
    }
}

/// The vertex data of a frame: the vertices of its visible meshes, verbatim
/// and in order.
pub open spec fn spec_vertex_data(prims: Seq<ClippedPrimitive>, bounds: PixelRect) -> Seq<u8>
    decreases prims.len(),
{
    if prims.len() == 0 {
        Seq::empty()
    } else {
        let rest = spec_vertex_data(prims.drop_last(), bounds);
        let p = prims.last();
        match p.primitive {
            Primitive::Mesh(mesh) => if p.clip_rect.visible_in(bounds) {
                rest + spec_flatten(mesh.vertices@)
            } else {
                rest
            },
            Primitive::Callback(_) => rest,
        }
    }
}

/// The index data of a frame: the indices of its visible meshes in order,
/// those of each mesh raised by the number of vertices of the visible meshes
/// before it.
pub open spec fn spec_index_data(prims: Seq<ClippedPrimitive>, bounds: PixelRect) -> Seq<u32>
    decreases prims.len(),
{
    if prims.len() == 0 {
        Seq::empty()
    } else {
        let rest = spec_index_data(prims.drop_last(), bounds);
        let p = prims.last();
        match p.primitive {
            Primitive::Mesh(mesh) => if p.clip_rect.visible_in(bounds) {
                rest + spec_biased(mesh.indices@, spec_vertex_count(prims.drop_last(), bounds))
            } else {
                rest
            },
            Primitive::Callback(_) => rest,
        }
    }
}

/// The last primitive of `prims` can be added to the geometry before it:
/// vertex and index counts stay within 32 bits, every raised index does, and
/// the byte sizes stay within what a buffer can grow to.
pub open spec fn spec_last_fits(prims: Seq<ClippedPrimitive>, bounds: PixelRect) -> bool
    recommends
        prims.len() > 0,
{
    let p = prims.last();
    match p.primitive {
        Primitive::Mesh(mesh) => p.clip_rect.visible_in(bounds) ==> {
            &&& spec_vertex_count(prims, bounds) <= u32::MAX
            &&& spec_index_count(prims, bounds) <= u32::MAX
            &&& 20 * spec_vertex_count(prims, bounds) <= spec_max_capacity()
            &&& 4 * spec_index_count(prims, bounds) <= spec_max_capacity()
            &&& forall|j: int|
                0 <= j < mesh.indices@.len() ==> #[trigger] mesh.indices@[j] + spec_vertex_count(
                    prims.drop_last(),
                    bounds,
                ) <= u32::MAX
        },
        Primitive::Callback(_) => true,
    }
}

/// The geometry of the frame fits its buffers and 32-bit indices: every
/// primitive can be added to what stands before it.
pub open spec fn spec_frame_fits(prims: Seq<ClippedPrimitive>, bounds: PixelRect) -> bool
    decreases prims.len(),
{
    prims.len() == 0 || (spec_frame_fits(prims.drop_last(), bounds) && spec_last_fits(
        prims,
        bounds,
    ))
}

/// The flattened vertices take 20 bytes each.
pub proof fn lemma_flatten_len(vertices: Seq<Vertex>)
    ensures
        spec_flatten(vertices).len() == 20 * vertices.len(),
    decreases vertices.len(),
{

    if vertices.len() > 0 {
        lemma_flatten_len(vertices.drop_last());
    }
}

/// Vertex and index data are as long as the counts say.
pub proof fn lemma_data_len(prims: Seq<ClippedPrimitive>, bounds: PixelRect)
    ensures
        spec_vertex_data(prims, bounds).len() == 20 * spec_vertex_count(prims, bounds),
        spec_index_data(prims, bounds).len() == spec_index_count(prims, bounds),
    decreases prims.len(),
{
    if prims.len() > 0 {
        lemma_data_len(prims.drop_last(), bounds);
        match prims.last().primitive {
            Primitive::Mesh(mesh) => {
                lemma_flatten_len(mesh.vertices@);
            },
            Primitive::Callback(_) => {},
        }
    }
}

/// A frame that fits does so at every prefix.
pub proof fn lemma_frame_fits_prefix(prims: Seq<ClippedPrimitive>, bounds: PixelRect, k: int)
    requires
        0 <= k <= prims.len(),
        spec_frame_fits(prims, bounds),
    ensures
        spec_frame_fits(prims.take(k), bounds),
    decreases prims.len(),
{
    if k == prims.len() {
        assert(prims.take(k) == prims);
    } else {
        assert(prims.drop_last().take(k) == prims.take(k));
        lemma_frame_fits_prefix(prims.drop_last(), bounds, k);
    }
}

/// Every visible mesh becomes exactly one mesh command and every drawn
/// callback exactly one callback command; nothing else becomes a command.
pub proof fn lemma_command_counts(prims: Seq<ClippedPrimitive>, bounds: PixelRect, context: u64)
    ensures
        spec_commands(prims, bounds, context).filter(
            |c: DrawCommand| c.primitive is Egui,
        ).len() == prims.filter(|p: ClippedPrimitive| p.spec_is_visible_mesh(bounds)).len(),
        spec_commands(prims, bounds, context).filter(
            |c: DrawCommand| c.primitive is PaintCallback,
        ).len() == prims.filter(|p: ClippedPrimitive| p.spec_is_drawn_callback(bounds)).len(),
        spec_commands(prims, bounds, context).len() == prims.filter(
            |p: ClippedPrimitive| p.spec_is_drawn(bounds),
        ).len(),
    decreases prims.len(),
{
    reveal(Seq::filter);
    let is_mesh = |c: DrawCommand| c.primitive is Egui;
    let is_callback = |c: DrawCommand| c.primitive is PaintCallback;
    if prims.len() > 0 {
        let rest = prims.drop_last();
        lemma_command_counts(rest, bounds, context);
        let rest_commands = spec_commands(rest, bounds, context);
        if prims.last().spec_is_drawn(bounds) {
            let commands = rest_commands.push(prims.last().spec_command(context));
            assert(commands.drop_last() == rest_commands);
            assert(commands.filter(is_mesh).len() == rest_commands.filter(is_mesh).len() + (
            if prims.last().spec_is_visible_mesh(bounds) {
                1nat
            } else {
                0nat
            }));
            assert(commands.filter(is_callback).len() == rest_commands.filter(is_callback).len()
                + (if prims.last().spec_is_drawn_callback(bounds) {
                1nat
            } else {
                0nat
            }));
        }
    }
}

/// Position among the primitives of the one behind command `k`.
pub open spec fn spec_source(prims: Seq<ClippedPrimitive>, bounds: PixelRect, k: int) -> int
    decreases prims.len(),
{
    if prims.len() == 0 {
        -1
    } else if k < spec_commands(prims.drop_last(), bounds, 0).len() {
        spec_source(prims.drop_last(), bounds, k)
    } else {
        prims.len() - 1
    }
}

/// The number of commands does not depend on the context.
pub proof fn lemma_commands_len(
    prims: Seq<ClippedPrimitive>,
    bounds: PixelRect,
    first: u64,
    second: u64,
)
    ensures
        spec_commands(prims, bounds, first).len() == spec_commands(prims, bounds, second).len(),
    decreases prims.len(),
{
    if prims.len() > 0 {
        lemma_commands_len(prims.drop_last(), bounds, first, second);
    }
}

/// Every command is that of a drawn primitive.
pub proof fn lemma_command_source(
    prims: Seq<ClippedPrimitive>,
    bounds: PixelRect,
    context: u64,
    k: int,
)
    requires
        0 <= k < spec_commands(prims, bounds, context).len(),
    ensures
        0 <= spec_source(prims, bounds, k) < prims.len(),
        prims[spec_source(prims, bounds, k)].spec_is_drawn(bounds),
        spec_commands(prims, bounds, context)[k] == prims[spec_source(
            prims,
            bounds,
            k,
        )].spec_command(context),
    decreases prims.len(),
{
    let rest = prims.drop_last();
    lemma_commands_len(rest, bounds, context, 0);
    if k < spec_commands(rest, bounds, context).len() {
        lemma_command_source(rest, bounds, context, k);
    }
}

/// The commands keep painter's order: of two commands, the earlier one is
/// that of the earlier primitive.
pub proof fn lemma_commands_keep_order(
    prims: Seq<ClippedPrimitive>,
    bounds: PixelRect,
    context: u64,
    a: int,
    b: int,
)
    requires
        0 <= a < b < spec_commands(prims, bounds, context).len(),
    ensures
        0 <= spec_source(prims, bounds, a) < spec_source(prims, bounds, b) < prims.len(),
    decreases prims.len(),
{
    let rest = prims.drop_last();
    lemma_commands_len(rest, bounds, context, 0);
    if b < spec_commands(rest, bounds, context).len() {
        lemma_commands_keep_order(rest, bounds, context, a, b);
    } else {
        lemma_command_source(rest, bounds, context, a);
    }
}

/// The callbacks among the commands, each with the clip rectangle of its
/// command, in order.
pub open spec fn spec_callbacks_of(commands: Seq<DrawCommand>) -> Seq<PostponedUpdate>
    decreases commands.len(),
{
    if commands.len() == 0 {
        Seq::empty()
    } else {
        let rest = spec_callbacks_of(commands.drop_last());
        match commands.last().primitive {
            DrawPrimitive::PaintCallback(command) => rest.push(
                PostponedUpdate { clip_rect: commands.last().clip_rect, command },
            ),
            DrawPrimitive::Egui(_) => rest,
        }
    }
}

/// The callbacks queued for `update` are exactly the callbacks among the
/// draw commands, in the order of the commands.
pub proof fn lemma_postponed_follow_commands(
    prims: Seq<ClippedPrimitive>,
    bounds: PixelRect,
    context: u64,
)
    ensures
        spec_postponed(prims, bounds) == spec_callbacks_of(spec_commands(prims, bounds, context)),
    decreases prims.len(),
{
    if prims.len() > 0 {
        let rest = prims.drop_last();
        lemma_postponed_follow_commands(rest, bounds, context);
        let rest_commands = spec_commands(rest, bounds, context);
        if prims.last().spec_is_drawn(bounds) {
            let commands = rest_commands.push(prims.last().spec_command(context));
            assert(commands.drop_last() == rest_commands);
        }
    }
}

/// The bias added to the indices of a visible mesh is the number of vertices
/// of the visible meshes before it in the frame: in the index data, index `j`
/// of the mesh at position `k` stands after the indices of the visible meshes
/// before it and holds the mesh's own index raised by that number.
pub proof fn lemma_index_bias(prims: Seq<ClippedPrimitive>, bounds: PixelRect, k: int, j: int)
    requires
        spec_frame_fits(prims, bounds),
        0 <= k < prims.len(),
        prims[k].spec_is_visible_mesh(bounds),
        prims[k].primitive matches Primitive::Mesh(mesh) && 0 <= j < mesh.indices@.len(),
    ensures
        prims[k].primitive matches Primitive::Mesh(mesh) && {
            let at = spec_index_count(prims.take(k), bounds) + j;
            &&& at < spec_index_data(prims, bounds).len()
            &&& spec_index_data(prims, bounds)[at] == mesh.indices@[j] + spec_vertex_count(
                prims.take(k),
                bounds,
            )
        },
    decreases prims.len(),
{
    let rest = prims.drop_last();
    lemma_data_len(rest, bounds);
    if k < prims.len() - 1 {
        assert(rest.take(k) == prims.take(k));
        lemma_index_bias(rest, bounds, k, j);
    }
}

/// Whether the geometry of the frame fits its buffers and 32-bit indices.
/// Callers that cannot rule out oversized frames test this before a rebuild.
pub fn frame_fits(paint_jobs: &Vec<ClippedPrimitive>, bounds: PixelRect) -> (fits: bool)
    ensures
        fits == spec_frame_fits(paint_jobs@, bounds),
{
    let cap = max_capacity();
    let mut vertex_count: u32 = 0;
    let mut index_count: u32 = 0;
    let mut i: usize = 0;
    while i < paint_jobs.len()
        invariant
            i <= paint_jobs.len(),
            cap == spec_max_capacity(),
            vertex_count == spec_vertex_count(paint_jobs@.take(i as int), bounds),
            index_count == spec_index_count(paint_jobs@.take(i as int), bounds),
            spec_frame_fits(paint_jobs@.take(i as int), bounds),
        decreases paint_jobs.len() - i,
    {
        let job = &paint_jobs[i];
        let ghost next = paint_jobs@.take(i + 1);
        proof {
            assert(next.drop_last() == paint_jobs@.take(i as int));
            if spec_frame_fits(paint_jobs@, bounds) {
                lemma_frame_fits_prefix(paint_jobs@, bounds, i + 1);
            }
        }
        if !job.clip_rect.intersect(bounds).is_empty() {
            match &job.primitive {
                Primitive::Mesh(mesh) => {
                    let vertices = mesh.vertices.len();
                    let indices = mesh.indices.len();
                    if vertices > (u32::MAX - vertex_count) as usize {
                        return false;
                    }
                    if indices > (u32::MAX - index_count) as usize {
                        return false;
                    }
                    let new_vertex_count: u32 = vertex_count + vertices as u32;
                    let new_index_count: u32 = index_count + indices as u32;
                    if new_vertex_count as u64 * 20 > cap as u64 {
                        return false;
                    }
                    if new_index_count as u64 * 4 > cap as u64 {
                        return false;
                    }
                    let limit: u32 = u32::MAX - vertex_count;
                    let mut j: usize = 0;
                    while j < indices
                        invariant
                            j <= indices,
                            indices == mesh.indices@.len(),
                            limit == u32::MAX - vertex_count,
                            next.len() > 0,
                            next.last().clip_rect.visible_in(bounds),
                            next.last().primitive == Primitive::Mesh(*mesh),
                            vertex_count == spec_vertex_count(next.drop_last(), bounds),
                            spec_frame_fits(paint_jobs@, bounds) ==> spec_frame_fits(next, bounds),
                            forall|k: int|
                                0 <= k < j ==> #[trigger] mesh.indices@[k] + vertex_count
                                    <= u32::MAX,
                        decreases indices - j,
                    {
                        if mesh.indices[j] > limit {
                            return false;
                        }
                        j += 1;
                    }
                    vertex_count = new_vertex_count;
                    index_count = new_index_count;
                },
                Primitive::Callback(_) => {},
            }
        }
        i += 1;
    }
    proof {
        assert(paint_jobs@.take(i as int) == paint_jobs@);
    }
    true
}

} // verus!
