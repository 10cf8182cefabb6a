//! The render state of all contexts, keyed by context identity.
//!
//! A context that was not seen during a frame is forgotten at the start of
//! the next one, together with its buffers.

use crate::collections::{
    spec_target_contents, targets_get, targets_insert, targets_keys, targets_new, targets_remove,
    targets_retain_seen,
};
use crate::draw::ClippedPrimitive;
use crate::render_data::{
    can_prepare, spec_can_prepare, EguiRenderTargetData, FrameOutcome, RenderTarget,
    RenderTargetModel,
};
use crate::render_pass::{EguiPassNode, PendingUpdates};
use bevy_platform::collections::HashMap;
use vstd::prelude::*;
use vstd::seq_lib::seq_to_set_is_finite;

verus! {

/// The states that stay at the start of a frame: those of the contexts seen
/// in the frame before, each with its mark taken off.
pub open spec fn spec_retained(models: Map<u64, RenderTargetModel>) -> Map<
    u64,
    RenderTargetModel,
> {
    Map::new(
        |context: u64| models.contains_key(context) && models[context].keep,
        |context: u64| models[context].spec_unseen(),
    )
}

/// The state of a context after the update phase: with a pipeline key it has
/// handed out its queued callbacks; without one it is as it was.
pub open spec fn spec_updated(model: RenderTargetModel) -> RenderTargetModel {
    if model.key is Some {
        model.spec_without_postponed()
    } else {
        model
    }
}

/// The states after the update phase of all contexts.
pub open spec fn spec_all_updated(models: Map<u64, RenderTargetModel>) -> Map<
    u64,
    RenderTargetModel,
> {
    Map::new(
        |context: u64| models.contains_key(context),
        |context: u64| spec_updated(models[context]),
    )
}

/// The states after the update phase of one context. A name without a state
/// changes nothing.
pub open spec fn spec_updated_one(models: Map<u64, RenderTargetModel>, context: u64) -> Map<
    u64,
    RenderTargetModel,
> {
    if models.contains_key(context) {
        models.insert(context, spec_updated(models[context]))
    } else {
        models
    }
}

/// The states after the update phase of the contexts named in `order`, one
/// after the other.
pub open spec fn spec_updated_in(models: Map<u64, RenderTargetModel>, order: Seq<u64>) -> Map<
    u64,
    RenderTargetModel,
>
    decreases order.len(),
{
    if order.len() == 0 {
        models
    } else {
        spec_updated_one(spec_updated_in(models, order.drop_last()), order.last())
    }
}

/// The states in which the contexts named in `order` hand out their
/// callbacks, one after the other: for each name that has a state with a
/// pipeline key, that state at the time its turn comes.
pub open spec fn spec_served(models: Map<u64, RenderTargetModel>, order: Seq<u64>) -> Seq<
    RenderTargetModel,
>
    decreases order.len(),
{
    if order.len() == 0 {
        Seq::empty()
    } else {
        let before = spec_updated_in(models, order.drop_last());
        let rest = spec_served(models, order.drop_last());
        if before.contains_key(order.last()) && before[order.last()].key is Some {
            rest.push(before[order.last()])
        } else {
            rest
        }
    }
}

/// `order` names the contexts that have a state: every one of them, and none
/// twice.
pub open spec fn spec_lists(models: Map<u64, RenderTargetModel>, order: Seq<u64>) -> bool {
    &&& forall|i: int| 0 <= i < order.len() ==> models.contains_key(#[trigger] order[i])
    &&& forall|context: u64| models.contains_key(context) ==> order.contains(context)
    &&& order.no_duplicates()
}

/// `order` names the contexts that have a state with a pipeline key: every
/// one of them, and none twice.
pub open spec fn spec_lists_keyed(models: Map<u64, RenderTargetModel>, order: Seq<u64>) -> bool {
    &&& forall|i: int|
        0 <= i < order.len() ==> models.contains_key(#[trigger] order[i])
            && models[order[i]].key is Some
    &&& forall|context: u64|
        models.contains_key(context) && models[context].key is Some ==> order.contains(context)
    &&& order.no_duplicates()
}

/// The contexts that have a state with a pipeline key.
pub open spec fn spec_keyed_contexts(models: Map<u64, RenderTargetModel>) -> Set<u64> {
    Set::new(|context: u64| models.contains_key(context) && models[context].key is Some)
}

/// The names in `order` that have a state with a pipeline key, in order.
pub open spec fn spec_keyed(models: Map<u64, RenderTargetModel>, order: Seq<u64>) -> Seq<u64>
    decreases order.len(),
{
    if order.len() == 0 {
        Seq::empty()
    } else {
        let rest = spec_keyed(models, order.drop_last());
        if models.contains_key(order.last()) && models[order.last()].key is Some {
            rest.push(order.last())
        } else {
            rest
        }
    }
}

/// The keyed names of `order` are names of `order`, and every keyed name of
/// `order` is among them.
pub proof fn lemma_keyed(models: Map<u64, RenderTargetModel>, order: Seq<u64>)
    ensures
        forall|j: int|
            0 <= j < spec_keyed(models, order).len() ==> order.contains(
                #[trigger] spec_keyed(models, order)[j],
            ) && models.contains_key(spec_keyed(models, order)[j]) && models[spec_keyed(
                models,
                order,
            )[j]].key is Some,
        forall|i: int|
            0 <= i < order.len() && models.contains_key(#[trigger] order[i])
                && models[order[i]].key is Some ==> spec_keyed(models, order).contains(order[i]),
        order.no_duplicates() ==> spec_keyed(models, order).no_duplicates(),
    decreases order.len(),
{
    if order.len() > 0 {
        let rest = order.drop_last();
        lemma_keyed(models, rest);
        let keyed = spec_keyed(models, order);
        let keyed_rest = spec_keyed(models, rest);
        assert forall|j: int| 0 <= j < keyed.len() implies order.contains(#[trigger] keyed[j])
            && models.contains_key(keyed[j]) && models[keyed[j]].key is Some by {
            if j < keyed_rest.len() {
                assert(rest.contains(keyed_rest[j]));
            }
        }
        assert forall|i: int|
            0 <= i < order.len() && models.contains_key(#[trigger] order[i])
                && models[order[i]].key is Some implies keyed.contains(order[i]) by {
            if i < rest.len() {
                let j = choose|j: int| 0 <= j < keyed_rest.len() && keyed_rest[j] == rest[i];
                assert(keyed[j] == order[i]);
            } else {
                assert(keyed[keyed.len() - 1] == order[i]);
            }
        }
        if order.no_duplicates() {
            assert forall|a: int, b: int| 0 <= a < keyed.len() && 0 <= b < keyed.len() && a
                != b implies keyed[a] != keyed[b] by {
                if a < keyed_rest.len() {
                    assert(rest.contains(keyed_rest[a]));
                }
                if b < keyed_rest.len() {
                    assert(rest.contains(keyed_rest[b]));
                }
            }
        }
    }
}

/// Serving contexts one after the other leaves every context in the table,
/// and changes the state of a context only when its turn comes.
pub proof fn lemma_updated_in(models: Map<u64, RenderTargetModel>, order: Seq<u64>)
    ensures
        forall|context: u64|
            models.contains_key(context) <==> #[trigger] spec_updated_in(
                models,
                order,
            ).contains_key(context),
        forall|context: u64|
            models.contains_key(context) ==> #[trigger] spec_updated_in(models, order)[context]
                == (if order.contains(context) {
                spec_updated(models[context])
            } else {
                models[context]
            }),
    decreases order.len(),
{
    if order.len() > 0 {
        let rest = order.drop_last();
        lemma_updated_in(models, rest);
        assert forall|context: u64| models.contains_key(context) implies #[trigger] spec_updated_in(
            models,
            order,
        )[context] == (if order.contains(context) {
            spec_updated(models[context])
        } else {
            models[context]
        }) by {
            if context != order.last() && !rest.contains(context) && order.contains(context) {
                let i = choose|i: int| 0 <= i < order.len() && order[i] == context;
                assert(rest[i] == context);
            }
        }
    }
}

/// Where no context is named twice, each keyed context that is named hands
/// out the callbacks that it had queued before the update phase began.
pub proof fn lemma_served(models: Map<u64, RenderTargetModel>, order: Seq<u64>)
    requires
        order.no_duplicates(),
    ensures
        spec_served(models, order).len() == spec_keyed(models, order).len(),
        forall|j: int|
            0 <= j < spec_served(models, order).len() ==> #[trigger] spec_served(models, order)[j]
                == models[spec_keyed(models, order)[j]],
    decreases order.len(),
{
    if order.len() > 0 {
        let rest = order.drop_last();
        lemma_served(models, rest);
        lemma_updated_in(models, rest);
    }
}

/// Render state of every context.
#[derive(Debug)]
pub struct EguiRenderData {
    targets: HashMap<u64, EguiRenderTargetData>,
}

impl View for EguiRenderData {
    type V = Map<u64, RenderTargetModel>;

    closed spec fn view(&self) -> Map<u64, RenderTargetModel> {
        Map::new(
            |context: u64| spec_target_contents(self.targets).contains_key(context),
            |context: u64| spec_target_contents(self.targets)[context]@,
        )
    }
}

impl EguiRenderData {
    /// Every state is consistent and stands under the identity of its
    /// context.
    pub open spec fn wf(&self) -> bool {
        forall|context: u64| #[trigger]
            self@.contains_key(context) ==> self@[context].wf() && self@[context].main_entity
                == context
    }

    /// No context yet.
    pub fn new() -> (data: Self)
        ensures
            data.wf(),
            data@ == Map::<u64, RenderTargetModel>::empty(),
    {
        EguiRenderData { targets: targets_new() }
    }

    /// The contexts that have a state, each once, in the order in which the
    /// table is walked.
    pub fn contexts(&self) -> (order: Vec<u64>)
        ensures
            spec_lists(self@, order@),
            self@.dom().finite(),
            order@.len() == self@.len(),
    {
        let order = targets_keys(&self.targets);
        proof {
            order@.unique_seq_to_set();
            seq_to_set_is_finite(order@);
            assert(order@.to_set() =~= self@.dom());
            assert forall|context: u64| self@.contains_key(context) implies order@.contains(
                context,
            ) by {
                let i = choose|i: int| 0 <= i < order@.len() && #[trigger] order@[i] == context;
                assert(order@[i] == context);
            }
        }
        order
    }

    /// Starts a frame: forgets the contexts that were not seen in the frame
    /// before and takes the mark off the others.
    pub fn begin_frame(&mut self)
        requires
            old(self).wf(),
        ensures
            final(self).wf(),
            final(self)@ == spec_retained(old(self)@),
    {
        targets_retain_seen(&mut self.targets);
    }

    /// The state of a context, where it has one.
    pub fn get(&self, main_entity: u64) -> (r: Option<&EguiRenderTargetData>)
        ensures
            match r {
                Some(data) => self@.contains_key(main_entity) && data@ == self@[main_entity],
                None => !self@.contains_key(main_entity),
            },
    {
        targets_get(&self.targets, main_entity)
    }

    /// Rebuilds the state of a context for the frame, creating it where the
    /// context is new; see [`EguiRenderTargetData::prepare`]. The states of
    /// the other contexts stay as they are.
    pub fn prepare(
        &mut self,
        main_entity: u64,
        render_entity: u64,
        target: Option<RenderTarget>,
        paint_jobs: &Vec<ClippedPrimitive>,
    ) -> (outcome: FrameOutcome)
        requires
            old(self).wf(),
            spec_can_prepare(target, paint_jobs@),
        ensures
            final(self).wf(),
            final(self)@ == old(self)@.insert(
                main_entity,
                spec_state(old(self)@, main_entity).spec_prepared(
                    render_entity,
                    target,
                    paint_jobs@,
                ),
            ),
            outcome == spec_state(old(self)@, main_entity).spec_outcome(target, paint_jobs@),
    {
        let ghost before = self@;
        let mut data = match targets_remove(&mut self.targets, main_entity) {
            Some(data) => data,
            None => EguiRenderTargetData::new(main_entity),
        };
        let outcome = data.prepare(render_entity, target, paint_jobs);
        let _ = targets_insert(&mut self.targets, main_entity, data);
        proof {
            assert(self@ =~= before.insert(
                main_entity,
                spec_state(before, main_entity).spec_prepared(render_entity, target, paint_jobs@),
            ));
        }
        outcome
    }

    /// Rebuilds the state of a context for the frame, as
    /// [`EguiRenderData::prepare`] does, where the frame's geometry fits
    /// 32-bit indices and the buffers. Where it does not, nothing changes,
    /// no state is created, and `None` is returned.
    pub fn try_prepare(
        &mut self,
        main_entity: u64,
        render_entity: u64,
        target: Option<RenderTarget>,
        paint_jobs: &Vec<ClippedPrimitive>,
    ) -> (outcome: Option<FrameOutcome>)
        requires
            old(self).wf(),
        ensures
            final(self).wf(),
            spec_can_prepare(target, paint_jobs@) ==> final(self)@ == old(self)@.insert(
                main_entity,
                spec_state(old(self)@, main_entity).spec_prepared(
                    render_entity,
                    target,
                    paint_jobs@,
                ),
            ) && outcome == Some(
                spec_state(old(self)@, main_entity).spec_outcome(target, paint_jobs@),
            ),
            !spec_can_prepare(target, paint_jobs@) ==> final(self)@ == old(self)@ && outcome
                is None,
    {
        if can_prepare(target, paint_jobs) {
            Some(self.prepare(main_entity, render_entity, target, paint_jobs))
        } else {
            None
        }
    }

    /// Update phase for one context; see [`EguiPassNode::update`]. A context
    /// without a state, or without a pipeline key, hands out nothing. The
    /// states of the other contexts stay as they are.
    pub fn pending_updates(&mut self, main_entity: u64) -> (pending: Option<PendingUpdates>)
        ensures
            final(self)@ == spec_updated_one(old(self)@, main_entity),
            old(self).wf() ==> final(self).wf(),
            pending is Some <==> old(self)@.contains_key(main_entity)
                && old(self)@[main_entity].key is Some,
            pending matches Some(p) ==> p.spec_is_of(old(self)@[main_entity]),
    {
        match targets_remove(&mut self.targets, main_entity) {
            Some(data) => {
                let mut data = data;
                let pending = EguiPassNode::new().update(&mut data);
                let _ = targets_insert(&mut self.targets, main_entity, data);
                pending
            },
            None => None,
        }
    }

    /// Update phase for the contexts named in `order`, one after the other:
    /// each that has a pipeline key hands out the callbacks whose `update`
    /// is due. A context without key, or a name without a state, hands out
    /// nothing and keeps what it has queued; the contexts after it are
    /// served all the same.
    pub fn pending_updates_in(&mut self, order: &Vec<u64>) -> (pending: Vec<PendingUpdates>)
        ensures
            final(self)@ == spec_updated_in(old(self)@, order@),
            old(self).wf() ==> final(self).wf(),
            pending@.len() == spec_served(old(self)@, order@).len(),
            forall|j: int|
                0 <= j < pending@.len() ==> (#[trigger] pending@[j]).spec_is_of(
                    spec_served(old(self)@, order@)[j],
                ),
    {
        let mut pending: Vec<PendingUpdates> = Vec::new();
        let ghost before = self@;
        let mut i: usize = 0;
        while i < order.len()
            invariant
                i <= order@.len(),
                before == old(self)@,
                old(self).wf() ==> self.wf(),
                self@ == spec_updated_in(before, order@.take(i as int)),
                pending@.len() == spec_served(before, order@.take(i as int)).len(),
                forall|j: int|
                    0 <= j < pending@.len() ==> (#[trigger] pending@[j]).spec_is_of(
                        spec_served(before, order@.take(i as int))[j],
                    ),
            decreases order@.len() - i,
        {
            proof {
                assert(order@.take(i + 1).drop_last() == order@.take(i as int));
            }
            match self.pending_updates(order[i]) {
                Some(updates) => {
                    pending.push(updates);
                },
                None => {},
            }
            i += 1;
        }
        proof {
            assert(order@.take(i as int) == order@);
        }
        pending
    }

    /// Update phase for all contexts: every context with a pipeline key
    /// hands out, once, the callbacks whose `update` is due. A context
    /// without key hands out nothing and keeps what it has queued; the
    /// others are served all the same. The contexts are served in the order
    /// in which the table is walked.
    pub fn all_pending_updates(&mut self) -> (pending: Vec<PendingUpdates>)
        ensures
            final(self)@ == spec_all_updated(old(self)@),
            old(self).wf() ==> final(self).wf(),
            pending@.len() == spec_keyed_contexts(old(self)@).len(),
            exists|served: Seq<u64>| #[trigger]
                spec_lists_keyed(old(self)@, served) && pending@.len() == served.len()
                    && forall|j: int|
                    0 <= j < pending@.len() ==> (#[trigger] pending@[j]).spec_is_of(
                        old(self)@[served[j]],
                    ),
    {
        let order = self.contexts();
        let ghost before = self@;
        let pending = self.pending_updates_in(&order);
        proof {
            lemma_updated_in(before, order@);
            lemma_served(before, order@);
            lemma_keyed(before, order@);
            let served = spec_keyed(before, order@);
            assert forall|context: u64|
                before.contains_key(context) && before[context].key is Some implies served.contains(
                context,
            ) by {
                assert(order@.contains(context));
                let i = choose|i: int| 0 <= i < order@.len() && order@[i] == context;
                assert(served.contains(order@[i]));
            }
            assert(spec_lists_keyed(before, served));
            served.unique_seq_to_set();
            assert(served.to_set() =~= spec_keyed_contexts(before));
        }
        pending
    }
}

/// The state that a frame starts from: that of the context, or where it has
/// none yet, the state of a context that has not drawn.
pub open spec fn spec_state(models: Map<u64, RenderTargetModel>, main_entity: u64)
    -> RenderTargetModel {
    if models.contains_key(main_entity) {
        models[main_entity]
    } else {
        spec_fresh(main_entity)
    }
}

/// The state of a context that has not drawn yet.
pub open spec fn spec_fresh(main_entity: u64) -> RenderTargetModel {
    RenderTargetModel {
        keep: false,
        main_entity,
        render_entity: 0,
        vertex_data: Seq::empty(),
        vertex_capacity: 0,
        index_data: Seq::empty(),
        index_capacity: 0,
        draw_commands: Seq::empty(),
        postponed_updates: Seq::empty(),
        target_size: crate::render_data::TargetSize { width: 0, height: 0 },
        key: None,
    }
}

} // verus!
