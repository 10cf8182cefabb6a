//! The hash collections of `bevy_platform`, as far as this crate uses them:
//! a map from context identities to numbers, a map from textures to their
//! bindings, a map from images to texture numbers, a map of the textures of
//! the contexts, a map of their render states, and a set of view identities.
//!
//! The collections are kept as they are and seen through what they hold. The
//! functions here hand each call on to the collection; their contracts say
//! what the call does to the contents, as the collection's documentation
//! gives it. What a table holds has a name of its own for each kind of
//! entry, and so has each call on it.

use crate::managed_textures::EguiManagedTexture;
use crate::render_data::EguiRenderTargetData;
use crate::texture::TextureBinding;
use crate::user_textures::ManagedTexture;
use bevy_platform::collections::{HashMap, HashSet};
use bevy_platform::hash::FixedHasher;
use vstd::prelude::*;

verus! {

/// `bevy_platform::hash::FixedHasher`, the hasher that the collections use
/// unless told otherwise.
#[verifier::external_type_specification]
#[verifier::external_body]
pub struct ExFixedHasher(FixedHasher);

/// `bevy_platform::collections::HashMap`. Values are opaque here; what a map
/// holds is given by the function below that is named after its entries.
#[verifier::external_type_specification]
#[verifier::external_body]
#[verifier::reject_recursive_types(K)]
#[verifier::reject_recursive_types(V)]
#[verifier::reject_recursive_types(S)]
pub struct ExHashMap<K, V, S>(HashMap<K, V, S>);

/// `bevy_platform::collections::HashSet`. Values are opaque here; what a set
/// of pairs holds is given by [`spec_set_contents`].
#[verifier::external_type_specification]
#[verifier::external_body]
#[verifier::reject_recursive_types(T)]
#[verifier::reject_recursive_types(S)]
pub struct ExHashSet<T, S>(HashSet<T, S>);

/// The entries of a map from context identities to numbers.
pub uninterp spec fn spec_map_contents(table: HashMap<u64, u32>) -> Map<u64, u32>;

/// The entries of a map of bindings.
pub uninterp spec fn spec_binding_contents(
    table: HashMap<(bool, u64, u64), TextureBinding>,
) -> Map<(bool, u64, u64), TextureBinding>;

/// The entries of a map of texture numbers.
pub uninterp spec fn spec_number_contents(table: HashMap<(bool, u128), u64>) -> Map<
    (bool, u128),
    u64,
>;

/// The entries of a map of textures.
pub uninterp spec fn spec_texture_contents(
    table: HashMap<(u64, u64), EguiManagedTexture>,
) -> Map<(u64, u64), EguiManagedTexture>;

/// The entries of a map of render states.
pub uninterp spec fn spec_target_contents(table: HashMap<u64, EguiRenderTargetData>) -> Map<
    u64,
    EguiRenderTargetData,
>;

/// The elements of a set.
pub uninterp spec fn spec_set_contents(elements: HashSet<(u64, u32)>) -> Set<(u64, u32)>;

/// `HashMap::new`: a map without entries.
#[verifier::external_body]
pub(crate) fn map_new() -> (table: HashMap<u64, u32>)
    ensures
        spec_map_contents(table) == (Map::<u64, u32>::empty()),
{
    HashMap::new()
}

/// `HashMap::clear`: removes all entries.
#[verifier::external_body]
pub(crate) fn map_clear(table: &mut HashMap<u64, u32>)
    ensures
        spec_map_contents(*final(table)) == (Map::<u64, u32>::empty()),
{
    table.clear();
}

/// `HashMap::insert`: puts the value under the key, in place of the value
/// that was there, which is returned.
#[verifier::external_body]
pub(crate) fn map_insert(table: &mut HashMap<u64, u32>, key: u64, value: u32) -> (previous: Option<
    u32,
>)
    ensures
        spec_map_contents(*final(table)) == spec_map_contents(*old(table)).insert(key, value),
        previous == (if spec_map_contents(*old(table)).contains_key(key) {
            Some(spec_map_contents(*old(table))[key])
        } else {
            None
        }),
{
    table.insert(key, value)
}

/// `HashMap::get`: the value under the key, if there is one.
#[verifier::external_body]
pub(crate) fn map_get(table: &HashMap<u64, u32>, key: u64) -> (value: Option<u32>)
    ensures
        value == (if spec_map_contents(*table).contains_key(key) {
            Some(spec_map_contents(*table)[key])
        } else {
            None
        }),
{
    table.get(&key).copied()
}

/// `HashMap::new`: a map without entries.
#[verifier::external_body]
pub(crate) fn bindings_new() -> (table: HashMap<(bool, u64, u64), TextureBinding>)
    ensures
        spec_binding_contents(table) == (Map::<(bool, u64, u64), TextureBinding>::empty()),
{
    HashMap::new()
}

/// `HashMap::insert`: puts the value under the key, in place of the value
/// that was there, which is returned.
#[verifier::external_body]
pub(crate) fn bindings_insert(
    table: &mut HashMap<(bool, u64, u64), TextureBinding>,
    key: (bool, u64, u64),
    value: TextureBinding,
) -> (previous: Option<TextureBinding>)
    ensures
        spec_binding_contents(*final(table)) == spec_binding_contents(*old(table)).insert(
            key,
            value,
        ),
        previous == (if spec_binding_contents(*old(table)).contains_key(key) {
            Some(spec_binding_contents(*old(table))[key])
        } else {
            None
        }),
{
    table.insert(key, value)
}

/// `HashMap::get`: the value under the key, if there is one.
#[verifier::external_body]
pub(crate) fn bindings_get(
    table: &HashMap<(bool, u64, u64), TextureBinding>,
    key: (bool, u64, u64),
) -> (value: Option<TextureBinding>)
    ensures
        value == (if spec_binding_contents(*table).contains_key(key) {
            Some(spec_binding_contents(*table)[key])
        } else {
            None
        }),
{
    table.get(&key).copied()
}

/// `HashMap::new`: a map without entries.
#[verifier::external_body]
pub(crate) fn numbers_new() -> (table: HashMap<(bool, u128), u64>)
    ensures
        spec_number_contents(table) == (Map::<(bool, u128), u64>::empty()),
{
    HashMap::new()
}

/// `HashMap::clone`: a map with the same entries.
#[verifier::external_body]
pub(crate) fn numbers_clone(table: &HashMap<(bool, u128), u64>) -> (copy: HashMap<
    (bool, u128),
    u64,
>)
    ensures
        spec_number_contents(copy) == spec_number_contents(*table),
{
    table.clone()
}

/// `HashMap::insert`: puts the value under the key, in place of the value
/// that was there, which is returned.
#[verifier::external_body]
pub(crate) fn numbers_insert(table: &mut HashMap<(bool, u128), u64>, key: (bool, u128), value: u64)
    -> (previous: Option<u64>)
    ensures
        spec_number_contents(*final(table)) == spec_number_contents(*old(table)).insert(
            key,
            value,
        ),
        previous == (if spec_number_contents(*old(table)).contains_key(key) {
            Some(spec_number_contents(*old(table))[key])
        } else {
            None
        }),
{
    table.insert(key, value)
}

/// `HashMap::remove`: takes the entry under the key out of the map and
/// returns its value, if there was one.
#[verifier::external_body]
pub(crate) fn numbers_remove(table: &mut HashMap<(bool, u128), u64>, key: (bool, u128)) -> (removed:
    Option<u64>)
    ensures
        spec_number_contents(*final(table)) == spec_number_contents(*old(table)).remove(key),
        removed == (if spec_number_contents(*old(table)).contains_key(key) {
            Some(spec_number_contents(*old(table))[key])
        } else {
            None
        }),
{
    table.remove(&key)
}

/// `HashMap::get`: the value under the key, if there is one.
#[verifier::external_body]
pub(crate) fn numbers_get(table: &HashMap<(bool, u128), u64>, key: (bool, u128)) -> (value: Option<
    u64,
>)
    ensures
        value == (if spec_number_contents(*table).contains_key(key) {
            Some(spec_number_contents(*table)[key])
        } else {
            None
        }),
{
    table.get(&key).copied()
}

/// `HashMap::iter`, collected: every entry of the map once, as a pair of key
/// and value. Nothing is said of the order, which is that of the walk.
#[verifier::external_body]
pub(crate) fn numbers_entries(table: &HashMap<(bool, u128), u64>) -> (entries: Vec<
    ((bool, u128), u64),
>)
    ensures
        (forall|i: int|
            0 <= i < entries@.len() ==> spec_number_contents(*table).contains_key(
                (#[trigger] entries@[i]).0,
            ) && spec_number_contents(*table)[entries@[i].0] == entries@[i].1),
        (forall|key: (bool, u128)|
            spec_number_contents(*table).contains_key(key) ==> exists|i: int|
                0 <= i < entries@.len() && (#[trigger] entries@[i]).0 == key),
        (forall|i: int, j: int|
            0 <= i < j < entries@.len() ==> (#[trigger] entries@[i]).0 != (
            #[trigger] entries@[j]).0),
{
    table.iter().map(|(key, value)| (*key, *value)).collect()
}

/// `HashMap::new`: a map without entries.
#[verifier::external_body]
pub(crate) fn textures_new() -> (table: HashMap<(u64, u64), EguiManagedTexture>)
    ensures
        spec_texture_contents(table) == (Map::<(u64, u64), EguiManagedTexture>::empty()),
{
    HashMap::new()
}

/// `HashMap::insert`: puts the value under the key, in place of the value
/// that was there, which is returned.
#[verifier::external_body]
pub(crate) fn textures_insert(
    table: &mut HashMap<(u64, u64), EguiManagedTexture>,
    key: (u64, u64),
    value: EguiManagedTexture,
) -> (previous: Option<EguiManagedTexture>)
    ensures
        spec_texture_contents(*final(table)) == spec_texture_contents(*old(table)).insert(
            key,
            value,
        ),
        previous == (if spec_texture_contents(*old(table)).contains_key(key) {
            Some(spec_texture_contents(*old(table))[key])
        } else {
            None
        }),
{
    table.insert(key, value)
}

/// `HashMap::remove`: takes the entry under the key out of the map and
/// returns its value, if there was one.
#[verifier::external_body]
pub(crate) fn textures_remove(
    table: &mut HashMap<(u64, u64), EguiManagedTexture>,
    key: (u64, u64),
) -> (removed: Option<EguiManagedTexture>)
    ensures
        spec_texture_contents(*final(table)) == spec_texture_contents(*old(table)).remove(key),
        removed == (if spec_texture_contents(*old(table)).contains_key(key) {
            Some(spec_texture_contents(*old(table))[key])
        } else {
            None
        }),
{
    table.remove(&key)
}

/// `HashMap::get`: the value under the key, if there is one.
#[verifier::external_body]
pub(crate) fn textures_get(table: &HashMap<(u64, u64), EguiManagedTexture>, key: (u64, u64)) -> (value:
    Option<&EguiManagedTexture>)
    ensures
        value == (if spec_texture_contents(*table).contains_key(key) {
            Some(&spec_texture_contents(*table)[key])
        } else {
            None
        }),
{
    table.get(&key)
}

/// `HashMap::iter`, collected: every entry of the map once, as the two
/// numbers of its key and the image asset of its texture. Nothing is said of
/// the order, which is that of the walk.
#[verifier::external_body]
pub(crate) fn textures_assets(table: &HashMap<(u64, u64), EguiManagedTexture>) -> (entries: Vec<
    ManagedTexture,
>)
    ensures
        (forall|i: int|
            0 <= i < entries@.len() ==> spec_texture_contents(*table).contains_key(
                ((#[trigger] entries@[i]).context, entries@[i].texture_id),
            ) && spec_texture_contents(*table)[(entries@[i].context, entries@[i].texture_id)].handle
                == entries@[i].image),
        (forall|key: (u64, u64)|
            spec_texture_contents(*table).contains_key(key) ==> exists|i: int|
                0 <= i < entries@.len() && (#[trigger] entries@[i]).context == key.0
                    && entries@[i].texture_id == key.1),
        (forall|i: int, j: int|
            0 <= i < j < entries@.len() ==> !((#[trigger] entries@[i]).context == (
            #[trigger] entries@[j]).context && entries@[i].texture_id == entries@[j].texture_id)),
{
    table.iter().map(
        |(key, texture)| ManagedTexture {
            context: key.0,
            texture_id: key.1,
            image: texture.handle,
        },
    ).collect()
}

/// `HashMap::new`: a map without entries.
#[verifier::external_body]
pub(crate) fn targets_new() -> (table: HashMap<u64, EguiRenderTargetData>)
    ensures
        spec_target_contents(table) == (Map::<u64, EguiRenderTargetData>::empty()),
{
    HashMap::new()
}

/// `HashMap::insert`: puts the value under the key, in place of the value
/// that was there, which is returned.
#[verifier::external_body]
pub(crate) fn targets_insert(
    table: &mut HashMap<u64, EguiRenderTargetData>,
    key: u64,
    value: EguiRenderTargetData,
) -> (previous: Option<EguiRenderTargetData>)
    ensures
        spec_target_contents(*final(table)) == spec_target_contents(*old(table)).insert(
            key,
            value,
        ),
        previous == (if spec_target_contents(*old(table)).contains_key(key) {
            Some(spec_target_contents(*old(table))[key])
        } else {
            None
        }),
{
    table.insert(key, value)
}

/// `HashMap::remove`: takes the entry under the key out of the map and
/// returns its value, if there was one.
#[verifier::external_body]
pub(crate) fn targets_remove(table: &mut HashMap<u64, EguiRenderTargetData>, key: u64) -> (removed:
    Option<EguiRenderTargetData>)
    ensures
        spec_target_contents(*final(table)) == spec_target_contents(*old(table)).remove(key),
        removed == (if spec_target_contents(*old(table)).contains_key(key) {
            Some(spec_target_contents(*old(table))[key])
        } else {
            None
        }),
{
    table.remove(&key)
}

/// `HashMap::get`: the value under the key, if there is one.
#[verifier::external_body]
pub(crate) fn targets_get(table: &HashMap<u64, EguiRenderTargetData>, key: u64) -> (value: Option<
    &EguiRenderTargetData,
>)
    ensures
        value == (if spec_target_contents(*table).contains_key(key) {
            Some(&spec_target_contents(*table)[key])
        } else {
            None
        }),
{
    table.get(&key)
}

/// `HashMap::keys`, collected: every key of the map once. Nothing is said of
/// the order, which is that of the walk.
#[verifier::external_body]
pub(crate) fn targets_keys(table: &HashMap<u64, EguiRenderTargetData>) -> (keys: Vec<u64>)
    ensures
        (forall|i: int|
            0 <= i < keys@.len() ==> spec_target_contents(*table).contains_key(#[trigger] keys@[i])),
        (forall|key: u64|
            spec_target_contents(*table).contains_key(key) ==> exists|i: int|
                0 <= i < keys@.len() && #[trigger] keys@[i] == key),
        (forall|i: int, j: int|
            0 <= i < j < keys@.len() ==> #[trigger] keys@[i] != #[trigger] keys@[j]),
{
    table.keys().copied().collect()
}

/// `HashMap::retain` with [`EguiRenderTargetData::retire`] as the predicate:
/// the map calls it once on every value and keeps the entries for which it
/// answers `true`. So the entries that stay are those whose state was
/// marked as seen, each as `retire` leaves it: with the mark taken off.
#[verifier::external_body]
pub(crate) fn targets_retain_seen(table: &mut HashMap<u64, EguiRenderTargetData>)
    ensures
        (forall|key: u64|
            spec_target_contents(*final(table)).contains_key(key) <==> spec_target_contents(
                *old(table),
            ).contains_key(key) && spec_target_contents(*old(table))[key]@.keep),
        (forall|key: u64| #[trigger]
            spec_target_contents(*final(table)).contains_key(key) ==> spec_target_contents(
                *final(table),
            )[key]@ == spec_target_contents(*old(table))[key]@.spec_unseen()),
{
    table.retain(|_, data| data.retire());
}

/// `HashSet::new`: a set without elements.
#[verifier::external_body]
pub(crate) fn set_new() -> (elements: HashSet<(u64, u32)>)
    ensures
        spec_set_contents(elements) == Set::<(u64, u32)>::empty(),
{
    HashSet::new()
}

/// `HashSet::clear`: removes all elements.
#[verifier::external_body]
pub(crate) fn set_clear(elements: &mut HashSet<(u64, u32)>)
    ensures
        spec_set_contents(*final(elements)) == Set::<(u64, u32)>::empty(),
{
    elements.clear();
}

/// `HashSet::insert`: adds the element and tells whether it was new.
#[verifier::external_body]
pub(crate) fn set_insert(elements: &mut HashSet<(u64, u32)>, element: (u64, u32)) -> (added: bool)
    ensures
        spec_set_contents(*final(elements)) == spec_set_contents(*old(elements)).insert(element),
        added == !spec_set_contents(*old(elements)).contains(element),
{
    elements.insert(element)
}

} // verus!
