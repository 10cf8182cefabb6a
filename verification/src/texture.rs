//! Texture identities and the table that binds them for drawing.
//!
//! A mesh names its texture by a [`TextureId`] that is local to the GUI
//! context that produced it. Draw commands carry an [`EguiTextureId`], which
//! adds the context for GUI-managed textures so that several contexts can
//! share one table. [`EguiTextureBindGroups`] is that table, rebuilt every
//! frame from the textures whose GPU image can be resolved at that moment.

use crate::collections::{bindings_get, bindings_insert, bindings_new, spec_binding_contents};
use bevy_platform::collections::HashMap;
use itertools::Itertools;
use vstd::arithmetic::div_mod::{
    lemma_div_is_ordered, lemma_div_plus_one, lemma_fundamental_div_mod,
};
use vstd::prelude::*;

verus! {

/// Texture of a mesh, as the GUI library names it within one context.
#[derive(Clone, Copy, Debug, PartialEq, Eq, Hash, Structural)]
pub enum TextureId {
    /// Allocated and painted by the GUI library; the number is scoped to the
    /// context.
    Managed(u64),
    /// Registered by the host; the number is global.
    User(u64),
}

/// Texture of a draw command, unique over all contexts.
#[derive(Clone, Copy, Debug, PartialEq, Eq, Hash, Structural)]
pub enum EguiTextureId {
    /// GUI-managed texture of the context with the given identity.
    Managed(u64, u64),
    /// Host-registered texture.
    User(u64),
}

impl EguiTextureId {
    /// The table-wide identity of texture `id` of context `context`.
    pub open spec fn spec_scoped(context: u64, id: TextureId) -> EguiTextureId {
        match id {
            TextureId::Managed(n) => EguiTextureId::Managed(context, n),
            TextureId::User(n) => EguiTextureId::User(n),
        }
    }

    /// The numbers under which the texture is looked up: whether it is
    /// GUI-managed, its context (zero for a host texture), and its number.
    pub open spec fn spec_key(self) -> (bool, u64, u64) {
        match self {
            EguiTextureId::Managed(context, n) => (true, context, n),
            EguiTextureId::User(n) => (false, 0, n),
        }
    }

    /// The numbers under which the texture is looked up.
    pub fn key(self) -> (r: (bool, u64, u64))
        ensures
            r == self.spec_key(),
    {
        match self {
            EguiTextureId::Managed(context, n) => (true, context, n),
            EguiTextureId::User(n) => (false, 0, n),
        }
    }

    /// Scopes a mesh's texture to its context: managed textures get the
    /// context's identity, host textures stay global.
    pub fn scoped(context: u64, id: TextureId) -> (r: EguiTextureId)
        ensures
            r == Self::spec_scoped(context, id),
    {
        match id {
            TextureId::Managed(n) => EguiTextureId::Managed(context, n),
            TextureId::User(n) => EguiTextureId::User(n),
        }
    }
}

/// Where a texture is bound: which bind group, and for array bind groups the
/// position inside the array.
#[derive(Clone, Copy, Debug, PartialEq, Eq, Hash, Structural)]
pub struct TextureBinding {
    /// Index of the bind group among those of the table.
    pub group: usize,
    /// Position in the bind group's array; `None` for a bind group that holds
    /// a single texture.
    pub offset: Option<u32>,
}

impl TextureBinding {
    /// Position of the texture inside its bind group: the offset, or 0 in a
    /// bind group that holds a single texture.
    pub open spec fn spec_slot(self) -> int {
        match self.offset {
            Some(offset) => offset as int,
            None => 0,
        }
    }
}

/// One texture offered to the table, with whether its GPU image can be
/// resolved this frame.
#[derive(Clone, Copy, Debug, PartialEq, Eq)]
pub struct TextureCandidate {
    /// The texture.
    pub id: EguiTextureId,
    /// Whether the backing GPU image is available right now.
    pub resolvable: bool,
}

/// The identities of the resolvable candidates, in order.
pub open spec fn spec_resolvable_ids(candidates: Seq<TextureCandidate>) -> Seq<EguiTextureId>
    decreases candidates.len(),
{
    if candidates.len() == 0 {
        Seq::empty()
    } else {
        let rest = spec_resolvable_ids(candidates.drop_last());
        if candidates.last().resolvable {
            rest.push(candidates.last().id)
        } else {
            rest
        }
    }
}

/// Binding of the texture at position `i` among the bound textures: with
/// arrays of `n` textures, array `i / n` at offset `i % n`; without, bind
/// group `i` of its own.
pub open spec fn spec_binding_at(i: nat, chunk: Option<nat>) -> TextureBinding {
    match chunk {
        Some(n) => TextureBinding { group: (i / n) as usize, offset: Some((i % n) as u32) },
        None => TextureBinding { group: i as usize, offset: None },
    }
}

/// Binding of `id` in a table over `ids`: that of its last occurrence, and
/// `None` where it does not occur.
pub open spec fn spec_resolve(ids: Seq<EguiTextureId>, chunk: Option<nat>, id: EguiTextureId)
    -> Option<TextureBinding>
    decreases ids.len(),
{
    if ids.len() == 0 {
        None
    } else if ids.last() == id {
        Some(spec_binding_at((ids.len() - 1) as nat, chunk))
    } else {
        spec_resolve(ids.drop_last(), chunk, id)
    }
}

/// The lookup table over `ids`: each texture's key with its binding, a later
/// occurrence of a texture taking the place of an earlier one.
pub open spec fn spec_bindings(ids: Seq<EguiTextureId>, chunk: Option<nat>) -> Map<
    (bool, u64, u64),
    TextureBinding,
>
    decreases ids.len(),
{
    if ids.len() == 0 {
        Map::empty()
    } else {
        spec_bindings(ids.drop_last(), chunk).insert(
            ids.last().spec_key(),
            spec_binding_at((ids.len() - 1) as nat, chunk),
        )
    }
}

/// Looking a texture up in the table over `ids` gives the binding of its
/// last occurrence.
pub proof fn lemma_bindings_resolve(ids: Seq<EguiTextureId>, chunk: Option<nat>, id: EguiTextureId)
    ensures
        spec_resolve(ids, chunk, id) == (if spec_bindings(ids, chunk).contains_key(
            id.spec_key(),
        ) {
            Some(spec_bindings(ids, chunk)[id.spec_key()])
        } else {
            None
        }),
    decreases ids.len(),
{
    if ids.len() > 0 {
        lemma_bindings_resolve(ids.drop_last(), chunk, id);
    }
}

/// Where a texture resolves, its binding is that of a position at which it
/// stands.
pub proof fn lemma_resolve_position(ids: Seq<EguiTextureId>, chunk: Option<nat>, id: EguiTextureId)
    -> (i: int)
    requires
        spec_resolve(ids, chunk, id) is Some,
    ensures
        0 <= i < ids.len(),
        ids[i] == id,
        spec_resolve(ids, chunk, id) == Some(spec_binding_at(i as nat, chunk)),
    decreases ids.len(),
{
    if ids.last() == id {
        ids.len() - 1
    } else {
        lemma_resolve_position(ids.drop_last(), chunk, id)
    }
}

/// Number of chunks of `size` that `len` items fill, the last one possibly
/// only in part.
pub open spec fn spec_chunk_count(len: nat, size: nat) -> nat {
    ((len + size - 1) / size as int) as nat
}

/// The `k`-th chunk of `size` items of `s`; the last chunk is shorter where
/// the items run out.
pub open spec fn spec_chunk<T>(s: Seq<T>, size: nat, k: int) -> Seq<T> {
    let end = if (k + 1) * size <= s.len() {
        (k + 1) * size
    } else {
        s.len() as int
    };
    s.subrange(k * size, end)
}

/// The textures of each bind group of a table over `ids`: chunks of `n` with
/// arrays, one texture each without.
pub open spec fn spec_groups(ids: Seq<EguiTextureId>, chunk: Option<nat>) -> Seq<
    Seq<EguiTextureId>,
> {
    match chunk {
        Some(n) => Seq::new(spec_chunk_count(ids.len(), n), |k: int| spec_chunk(ids, n, k)),
        None => Seq::new(ids.len(), |k: int| seq![ids[k]]),
    }
}

/// `itertools::Itertools::chunks` over the items of a vector, each chunk
/// collected. As that crate documents, every chunk holds `size` items but the
/// last, which is shorter where the items run out; no chunk is empty. The
/// call panics for a `size` of zero, which `requires` leaves out.
#[verifier::external_body]
fn chunks_of(ids: Vec<EguiTextureId>, size: usize) -> (r: Vec<Vec<EguiTextureId>>)
    requires
        size > 0,
    ensures
        r@.len() == spec_chunk_count(ids@.len(), size as nat),
        forall|k: int|
            0 <= k < r@.len() ==> (#[trigger] r@[k])@ == spec_chunk(ids@, size as nat, k),
{
    let chunked = ids.into_iter().chunks(size);
    let mut out: Vec<Vec<EguiTextureId>> = Vec::new();
    for chunk in &chunked {
        out.push(chunk.collect());
    }
    out
}

/// Maps textures to their bindings for one frame.
#[derive(Debug)]
pub struct EguiTextureBindGroups {
    ids: Vec<EguiTextureId>,
    groups: Vec<Vec<EguiTextureId>>,
    bindings: HashMap<(bool, u64, u64), TextureBinding>,
    chunk: Option<u32>,
}

impl EguiTextureBindGroups {
    /// The bound textures, in the order in which they were offered.
    pub closed spec fn spec_ids(&self) -> Seq<EguiTextureId> {
        self.ids@
    }

    /// Size of the texture arrays, or `None` where every texture has a bind
    /// group of its own.
    pub closed spec fn spec_chunk(&self) -> Option<nat> {
        match self.chunk {
            Some(n) => Some(n as nat),
            None => None,
        }
    }

    /// The textures of each bind group.
    pub closed spec fn spec_group_ids(&self) -> Seq<Seq<EguiTextureId>> {
        Seq::new(self.groups@.len(), |k: int| self.groups@[k]@)
    }

    /// The lookup table: the binding under each texture's key.
    pub closed spec fn spec_lookup(&self) -> Map<(bool, u64, u64), TextureBinding> {
        spec_binding_contents(self.bindings)
    }

    /// The bind groups and the lookup table are those that the bound
    /// textures and the array size call for, and the array size is not zero.
    pub open spec fn wf(&self) -> bool {
        &&& self.spec_chunk() != Some(0nat)
        &&& self.spec_group_ids() == spec_groups(self.spec_ids(), self.spec_chunk())
        &&& self.spec_lookup() == spec_bindings(self.spec_ids(), self.spec_chunk())
    }

    /// An empty table: nothing resolves.
    pub fn new() -> (t: Self)
        ensures
            t.wf(),
            t.spec_ids() == Seq::<EguiTextureId>::empty(),
            t.spec_chunk() == None::<nat>,
    {
        let t = EguiTextureBindGroups {
            ids: Vec::new(),
            groups: Vec::new(),
            bindings: bindings_new(),
            chunk: None,
        };
        assert(t.spec_group_ids() =~~= spec_groups(t.spec_ids(), t.spec_chunk()));
        t
    }

    /// Builds the table for one frame from the textures on offer. Only the
    /// resolvable ones are bound. With `bindless` set to an array size, the
    /// bound textures are laid out in arrays of that size in the order
    /// offered; without it, each gets a bind group of its own.
    pub fn build(candidates: &Vec<TextureCandidate>, bindless: Option<u32>) -> (t: Self)
        requires
            bindless != Some(0u32),
        ensures
            t.wf(),
            t.spec_ids() == spec_resolvable_ids(candidates@),
            t.spec_chunk() == match bindless {
                Some(n) => Some(n as nat),
                None => None,
            },
    {
        let mut ids: Vec<EguiTextureId> = Vec::new();
        let mut i: usize = 0;
        while i < candidates.len()
            invariant
                i <= candidates.len(),
                ids@ == spec_resolvable_ids(candidates@.take(i as int)),
            decreases candidates.len() - i,
        {
            proof {
                assert(candidates@.take(i + 1).drop_last() == candidates@.take(i as int));
            }
            if candidates[i].resolvable {
                ids.push(candidates[i].id);
            }
            i += 1;
        }
        proof {
            assert(candidates@.take(i as int) == candidates@);
        }
        let groups = match bindless {
            Some(n) => chunks_of(ids.clone(), n as usize),
            None => Self::singletons(&ids),
        };
        let bindings = Self::lookup_table(&ids, bindless);
        let t = EguiTextureBindGroups { ids, groups, bindings, chunk: bindless };
        assert(t.spec_group_ids() =~~= spec_groups(t.spec_ids(), t.spec_chunk()));
        t
    }

    /// Binding of the texture at position `i` among the bound textures.
    fn binding_at(i: usize, bindless: Option<u32>) -> (binding: TextureBinding)
        requires
            bindless != Some(0u32),
        ensures
            binding == spec_binding_at(
                i as nat,
                match bindless {
                    Some(n) => Some(n as nat),
                    None => None,
                },
            ),
    {
        match bindless {
            Some(n) => {
                let size: usize = n as usize;
                TextureBinding { group: i / size, offset: Some((i % size) as u32) }
            },
            None => TextureBinding { group: i, offset: None },
        }
    }

    /// The lookup table over the bound textures.
    fn lookup_table(ids: &Vec<EguiTextureId>, bindless: Option<u32>) -> (bindings: HashMap<
        (bool, u64, u64),
        TextureBinding,
    >)
        requires
            bindless != Some(0u32),
        ensures
            spec_binding_contents(bindings) == spec_bindings(
                ids@,
                match bindless {
                    Some(n) => Some(n as nat),
                    None => None,
                },
            ),
    {
        let ghost chunk: Option<nat> = match bindless {
            Some(n) => Some(n as nat),
            None => None,
        };
        let mut bindings = bindings_new();
        let mut i: usize = 0;
        while i < ids.len()
            invariant
                i <= ids.len(),
                bindless != Some(0u32),
                chunk == (match bindless {
                    Some(n) => Some(n as nat),
                    None => None,
                }),
                spec_binding_contents(bindings) == spec_bindings(ids@.take(i as int), chunk),
            decreases ids.len() - i,
        {
            proof {
                assert(ids@.take(i + 1).drop_last() == ids@.take(i as int));
            }
            let _ = bindings_insert(&mut bindings, ids[i].key(), Self::binding_at(i, bindless));
            i += 1;
        }
        proof {
            assert(ids@.take(i as int) == ids@);
        }
        bindings
    }

    /// One group per texture.
    fn singletons(ids: &Vec<EguiTextureId>) -> (groups: Vec<Vec<EguiTextureId>>)
        ensures
            groups@.len() == ids@.len(),
            forall|k: int| 0 <= k < groups@.len() ==> (#[trigger] groups@[k])@ == seq![ids@[k]],
    {
        let mut groups: Vec<Vec<EguiTextureId>> = Vec::new();
        let mut i: usize = 0;
        while i < ids.len()
            invariant
                i <= ids.len(),
                groups@.len() == i,
                forall|k: int| 0 <= k < i ==> (#[trigger] groups@[k])@ == seq![ids@[k]],
            decreases ids.len() - i,
        {
            let mut group: Vec<EguiTextureId> = Vec::new();
            group.push(ids[i]);
            groups.push(group);
            i += 1;
        }
        groups
    }

    /// Number of bind groups the table calls for.
    pub fn group_count(&self) -> (n: usize)
        ensures
            n == self.spec_group_ids().len(),
    {
        self.groups.len()
    }

    /// The textures of bind group `group`, in array order.
    pub fn group(&self, group: usize) -> (ids: &Vec<EguiTextureId>)
        requires
            group < self.spec_group_ids().len(),
        ensures
            ids@ == self.spec_group_ids()[group as int],
    {
        &self.groups[group]
    }

    /// Number of bound textures.
    pub fn len(&self) -> (n: usize)
        ensures
            n == self.spec_ids().len(),
    {
        self.ids.len()
    }

    /// Looks up the binding of a texture. A texture that was offered more
    /// than once resolves to its last binding; one that was not bound this
    /// frame resolves to `None`, which is an ordinary outcome.
    pub fn resolve(&self, id: EguiTextureId) -> (r: Option<TextureBinding>)
        requires
            self.wf(),
        ensures
            r == spec_resolve(self.spec_ids(), self.spec_chunk(), id),
            r.is_some() <==> self.spec_ids().contains(id),
            r matches Some(binding) ==> {
                &&& binding.group < self.spec_group_ids().len()
                &&& 0 <= binding.spec_slot() < self.spec_group_ids()[binding.group as int].len()
                &&& self.spec_group_ids()[binding.group as int][binding.spec_slot()] == id
            },
    {
        let r = bindings_get(&self.bindings, id.key());
        let count: usize = self.ids.len();
        proof {
            lemma_resolve_some_iff_contains(self.spec_ids(), self.spec_chunk(), id);
            lemma_bindings_resolve(self.spec_ids(), self.spec_chunk(), id);
            if r is Some {
                let i = lemma_resolve_position(self.spec_ids(), self.spec_chunk(), id);
                lemma_binding_in_group(self.spec_ids(), self.spec_chunk(), i);
                if let Some(size) = self.spec_chunk() {
                    let n = size as int;
                    assert(0 <= i / n <= i && 0 <= i % n < n) by (nonlinear_arith)
                        requires
                            0 <= i,
                            n > 0,
                    ;
                    assert(i < count);
                }
            }
        }
        r
    }
}

/// The bind group and slot that [`spec_binding_at`] gives the texture at
/// position `i` hold that texture.
pub proof fn lemma_binding_in_group(ids: Seq<EguiTextureId>, chunk: Option<nat>, i: int)
    requires
        0 <= i < ids.len(),
        chunk != Some(0nat),
    ensures
        ({
            let group = match chunk {
                Some(n) => i / (n as int),
                None => i,
            };
            let slot = match chunk {
                Some(n) => i % (n as int),
                None => 0,
            };
            &&& 0 <= group < spec_groups(ids, chunk).len()
            &&& 0 <= slot < spec_groups(ids, chunk)[group].len()
            &&& spec_groups(ids, chunk)[group][slot] == ids[i]
        }),
{
    match chunk {
        Some(size) => {
            let n = size as int;
            let len = ids.len() as int;
            let group = i / n;
            lemma_fundamental_div_mod(i, n);
            lemma_div_is_ordered(i, len - 1, n);
            lemma_div_plus_one(len - 1, n);
            assert(n * group == group * n) by (nonlinear_arith);
            assert((group + 1) * n == group * n + n) by (nonlinear_arith);
        },
        None => {},
    }
}

/// A texture resolves exactly when it is among the bound textures.
pub proof fn lemma_resolve_some_iff_contains(
    ids: Seq<EguiTextureId>,
    chunk: Option<nat>,
    id: EguiTextureId,
)
    ensures
        spec_resolve(ids, chunk, id).is_some() <==> ids.contains(id),
    decreases ids.len(),
{
    if ids.len() > 0 && ids.last() != id {
        lemma_resolve_some_iff_contains(ids.drop_last(), chunk, id);
        if ids.contains(id) {
            let j = choose|j: int| 0 <= j < ids.len() && ids[j] == id;
            assert(ids.drop_last()[j] == id);
        }
    }
}

/// A candidate's texture is bound exactly when some resolvable candidate
/// offers it.
pub proof fn lemma_resolvable_ids_contains(candidates: Seq<TextureCandidate>, id: EguiTextureId)
    ensures
        spec_resolvable_ids(candidates).contains(id) <==> exists|j: int|
            0 <= j < candidates.len() && (#[trigger] candidates[j]).resolvable && candidates[j].id
                == id,
    decreases candidates.len(),
{
    if candidates.len() > 0 {
        let rest = candidates.drop_last();
        lemma_resolvable_ids_contains(rest, id);
        let ids = spec_resolvable_ids(candidates);
        let rest_ids = spec_resolvable_ids(rest);
        if exists|j: int|
            0 <= j < candidates.len() && (#[trigger] candidates[j]).resolvable && candidates[j].id
                == id {
            let j = choose|j: int|
                0 <= j < candidates.len() && (#[trigger] candidates[j]).resolvable
                    && candidates[j].id == id;
            if j == candidates.len() - 1 {
                assert(ids[ids.len() - 1] == id);
            } else {
                assert(rest[j].resolvable && rest[j].id == id);
                let k = choose|k: int| 0 <= k < rest_ids.len() && rest_ids[k] == id;
                assert(ids[k] == id);
            }
        }
    }
}

} // verus!
