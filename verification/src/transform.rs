//! Per-context screen transforms: who gets one, and where it lies in the
//! uniform buffer.
//!
//! The transform values themselves are computed in floating point outside
//! this crate. Here it is decided, every frame anew, which contexts get a
//! transform, and the offset of each in the shared uniform buffer is kept for
//! the render pass to bind.

use crate::collections::{map_clear, map_get, map_insert, map_new, spec_map_contents};
use crate::render_data::TargetSize;
use bevy_platform::collections::HashMap;
use vstd::prelude::*;

verus! {

/// A render target that may need a transform this frame.
#[derive(Clone, Copy, Debug, PartialEq, Eq, Hash, Structural)]
pub struct TransformTarget {
    /// Identity of the context.
    pub main_entity: u64,
    /// Size of the target in physical pixels, where it is known.
    pub physical_target_size: Option<TargetSize>,
    /// Bit pattern of the scale factor of the context's view, where the view
    /// is there.
    pub scale_factor_bits: Option<u32>,
}

/// A transform to compute and place in the uniform buffer.
#[derive(Clone, Copy, Debug, PartialEq, Eq, Hash, Structural)]
pub struct TransformRequest {
    /// Identity of the context.
    pub main_entity: u64,
    /// Size of the target in physical pixels.
    pub target_size: TargetSize,
    /// Bit pattern of the scale factor.
    pub scale_factor_bits: u32,
}

/// The transforms of a frame.
#[derive(Debug, PartialEq, Eq)]
pub struct TransformPlan {
    /// The transforms to compute, in the order of the targets.
    pub requests: Vec<TransformRequest>,
    /// Positions of the targets that have a size but whose view is missing.
    /// Each of them goes without a transform this frame; the others are not
    /// affected.
    pub missing_views: Vec<usize>,
}

impl TransformTarget {
    /// The target has a size but the view that holds its scale factor is
    /// missing.
    pub open spec fn spec_is_missing_view(self) -> bool {
        self.physical_target_size is Some && self.scale_factor_bits is None
    }

    /// The transform to compute for the target, where it has a size and a
    /// scale factor.
    pub open spec fn spec_request(self) -> Option<TransformRequest> {
        match (self.physical_target_size, self.scale_factor_bits) {
            (Some(target_size), Some(scale_factor_bits)) => Some(
                TransformRequest { main_entity: self.main_entity, target_size, scale_factor_bits },
            ),
            _ => None,
        }
    }
}

/// The transforms of a frame: one for each target with a size and a view, in
/// order.
pub open spec fn spec_requests(targets: Seq<TransformTarget>) -> Seq<TransformRequest>
    decreases targets.len(),
{
    if targets.len() == 0 {
        Seq::empty()
    } else {
        let rest = spec_requests(targets.drop_last());
        match targets.last().spec_request() {
            Some(request) => rest.push(request),
            None => rest,
        }
    }
}

/// The positions of the targets with a size whose view is missing, in order.
pub open spec fn spec_missing_views(targets: Seq<TransformTarget>) -> Seq<usize>
    decreases targets.len(),
{
    if targets.len() == 0 {
        Seq::empty()
    } else {
        let rest = spec_missing_views(targets.drop_last());
        if targets.last().spec_is_missing_view() {
            rest.push((targets.len() - 1) as usize)
        } else {
            rest
        }
    }
}

/// Number of targets with a size.
pub open spec fn spec_sized_count(targets: Seq<TransformTarget>) -> nat
    decreases targets.len(),
{
    if targets.len() == 0 {
        0
    } else {
        spec_sized_count(targets.drop_last()) + (if targets.last().physical_target_size
            is Some {
            1nat
        } else {
            0nat
        })
    }
}

/// Every target with a size either gets a transform or is listed as missing
/// its view, and no target is both: a missing view costs only its own target
/// the transform.
pub proof fn lemma_every_sized_target_is_planned(targets: Seq<TransformTarget>)
    ensures
        spec_requests(targets).len() + spec_missing_views(targets).len() == spec_sized_count(
            targets,
        ),
    decreases targets.len(),
{
    if targets.len() > 0 {
        lemma_every_sized_target_is_planned(targets.drop_last());
    }
}

/// Decides the transforms of a frame.
pub fn plan_transforms(targets: &Vec<TransformTarget>) -> (plan: TransformPlan)
    ensures
        plan.requests@ == spec_requests(targets@),
        plan.missing_views@ == spec_missing_views(targets@),
{
    let mut requests: Vec<TransformRequest> = Vec::new();
    let mut missing_views: Vec<usize> = Vec::new();
    let mut i: usize = 0;
    proof {
        assert(targets@.take(0) == Seq::<TransformTarget>::empty());
    }
    while i < targets.len()
        invariant
            i <= targets@.len(),
            requests@ == spec_requests(targets@.take(i as int)),
            missing_views@ == spec_missing_views(targets@.take(i as int)),
        decreases targets@.len() - i,
    {
        let target = targets[i];
        proof {
            assert(targets@.take(i + 1).drop_last() == targets@.take(i as int));
        }
        match target.physical_target_size {
            Some(target_size) => match target.scale_factor_bits {
                Some(scale_factor_bits) => {
                    requests.push(
                        TransformRequest {
                            main_entity: target.main_entity,
                            target_size,
                            scale_factor_bits,
                        },
                    );
                },
                None => {
                    missing_views.push(i);
                },
            },
            None => {},
        }
        i += 1;
    }
    proof {
        assert(targets@.take(i as int) == targets@);
    }
    TransformPlan { requests, missing_views }
}

/// Mathematical content of an [`EguiTransforms`].
pub struct TransformsModel {
    /// Offset of each context's transform in the uniform buffer.
    pub offsets: Map<u64, u32>,
    /// The buffer that the transform bind group was made for.
    pub bind_group_buffer: Option<u32>,
}

/// Where the transforms of the frame lie.
#[derive(Debug)]
pub struct EguiTransforms {
    offsets: HashMap<u64, u32>,
    bind_group_buffer: Option<u32>,
}

impl View for EguiTransforms {
    type V = TransformsModel;

    closed spec fn view(&self) -> TransformsModel {
        TransformsModel {
            offsets: spec_map_contents(self.offsets),
            bind_group_buffer: self.bind_group_buffer,
        }
    }
}

impl EguiTransforms {
    /// No transform yet, and no bind group.
    pub fn new() -> (r: Self)
        ensures
            r@.offsets == Map::<u64, u32>::empty(),
            r@.bind_group_buffer is None,
    {
        EguiTransforms { offsets: map_new(), bind_group_buffer: None }
    }

    /// Forgets the offsets of the frame before. The bind group stays.
    pub fn clear(&mut self)
        ensures
            final(self)@.offsets == Map::<u64, u32>::empty(),
            final(self)@.bind_group_buffer == old(self)@.bind_group_buffer,
    {
        map_clear(&mut self.offsets);
    }

    /// Records where the transform of a context lies. A second offset for the
    /// same context replaces the first.
    pub fn insert(&mut self, main_entity: u64, offset: u32)
        ensures
            final(self)@.offsets == old(self)@.offsets.insert(main_entity, offset),
            final(self)@.bind_group_buffer == old(self)@.bind_group_buffer,
    {
        let _ = map_insert(&mut self.offsets, main_entity, offset);
    }

    /// Where the transform of a context lies, if it has one this frame.
    pub fn offset(&self, main_entity: u64) -> (r: Option<u32>)
        ensures
            r == (if self@.offsets.contains_key(main_entity) {
                Some(self@.offsets[main_entity])
            } else {
                None
            }),
    {
        map_get(&self.offsets, main_entity)
    }

    /// The buffer that the transform bind group was made for.
    pub fn bind_group_buffer(&self) -> (r: Option<u32>)
        ensures
            r == self@.bind_group_buffer,
    {
        self.bind_group_buffer
    }

    /// Tells whether the transform bind group has to be made anew for the
    /// uniform buffer of this frame, and remembers the buffer if so. A bind
    /// group is needed when there is a buffer and the bind group at hand was
    /// made for another one, or there is none.
    pub fn rebind(&mut self, buffer: Option<u32>) -> (needed: bool)
        ensures
            needed == (buffer is Some && buffer != old(self)@.bind_group_buffer),
            final(self)@.offsets == old(self)@.offsets,
            final(self)@.bind_group_buffer == (if buffer is Some {
                buffer
            } else {
                old(self)@.bind_group_buffer
            }),
    {
        match buffer {
            Some(id) => {
                let stale = match self.bind_group_buffer {
                    Some(cached) => cached != id,
                    None => true,
                };
                self.bind_group_buffer = Some(id);
                stale
            },
            None => false,
        }
    }
}

} // verus!
