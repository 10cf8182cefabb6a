//! Textures that the host registers for use in the GUI.
//!
//! Every registered image gets a texture number. Numbers of removed images
//! are put on a free list and handed out again before any new number is.

use crate::collections::{
    numbers_clone, numbers_entries, numbers_get, numbers_insert, numbers_new, numbers_remove,
    spec_number_contents,
};
use crate::texture::{EguiTextureId, TextureId};
use bevy_platform::collections::HashMap;
use vstd::prelude::*;
use vstd::seq_lib::seq_to_set_is_finite;

verus! {

/// Identity of an image asset.
#[derive(Clone, Copy, Debug, PartialEq, Eq, Hash, Structural)]
pub enum ImageId {
    /// Runtime identity: the bits of the asset's index.
    Index {
        /// Generation and slot of the asset.
        bits: u64,
    },
    /// Identity that is stable across runs.
    Uuid {
        /// The identifier.
        uuid: u128,
    },
}

impl ImageId {
    /// The numbers under which the image is looked up: whether its identity
    /// is a stable one, and the identity.
    pub open spec fn spec_key(self) -> (bool, u128) {
        match self {
            ImageId::Index { bits } => (false, bits as u128),
            ImageId::Uuid { uuid } => (true, uuid),
        }
    }

    /// The pair is the key of an image.
    pub open spec fn spec_is_key(key: (bool, u128)) -> bool {
        key.0 || key.1 <= u64::MAX
    }

    /// The image that a key stands for.
    pub open spec fn spec_of_key(key: (bool, u128)) -> ImageId {
        if key.0 {
            ImageId::Uuid { uuid: key.1 }
        } else {
            ImageId::Index { bits: key.1 as u64 }
        }
    }

    /// The numbers under which the image is looked up.
    pub fn key(self) -> (r: (bool, u128))
        ensures
            r == self.spec_key(),
            Self::spec_is_key(r),
            Self::spec_of_key(r) == self,
    {
        match self {
            ImageId::Index { bits } => (false, bits as u128),
            ImageId::Uuid { uuid } => (true, uuid),
        }
    }

    /// The image that a key stands for.
    pub fn of_key(key: (bool, u128)) -> (r: ImageId)
        requires
            Self::spec_is_key(key),
        ensures
            r == Self::spec_of_key(key),
            r.spec_key() == key,
    {
        if key.0 {
            ImageId::Uuid { uuid: key.1 }
        } else {
            ImageId::Index { bits: key.1 as u64 }
        }
    }
}

/// A registered image and its texture number.
#[derive(Clone, Copy, Debug, PartialEq, Eq, Hash, Structural)]
pub struct UserTexture {
    /// The image.
    pub image: ImageId,
    /// Its texture number.
    pub id: u64,
}

/// A texture and the image behind it.
#[derive(Clone, Copy, Debug, PartialEq, Eq, Hash, Structural)]
pub struct TextureHandle {
    /// The texture.
    pub texture: EguiTextureId,
    /// The image.
    pub image: ImageId,
}

/// A GUI-managed texture of one context and the image behind it.
#[derive(Clone, Copy, Debug, PartialEq, Eq, Hash, Structural)]
pub struct ManagedTexture {
    /// Identity of the context.
    pub context: u64,
    /// Texture number within the context.
    pub texture_id: u64,
    /// The image.
    pub image: ImageId,
}

/// Mathematical content of an [`EguiUserTextures`].
pub struct UserTexturesModel {
    /// The texture number of each registered image.
    pub numbers: Map<ImageId, u64>,
    /// Numbers to hand out next, the last one first. The first entry is a
    /// number that was never handed out.
    pub free_list: Seq<u64>,
}

impl UserTexturesModel {
    /// Texture number of an image, where it is registered.
    pub open spec fn spec_image_id(self, image: ImageId) -> Option<u64> {
        if self.numbers.contains_key(image) {
            Some(self.numbers[image])
        } else {
            None
        }
    }

    /// No number is in use twice or both in use and free, and the free list
    /// starts with a number above all others.
    pub open spec fn wf(self) -> bool {
        &&& self.free_list.len() >= 1
        &&& forall|a: ImageId, b: ImageId|
            self.numbers.contains_key(a) && self.numbers.contains_key(b) && a != b
                ==> #[trigger] self.numbers[a] != #[trigger] self.numbers[b]
        &&& forall|a: int, b: int|
            0 <= a < b < self.free_list.len() ==> #[trigger] self.free_list[a]
                != #[trigger] self.free_list[b]
        &&& forall|a: ImageId, b: int|
            self.numbers.contains_key(a) && 0 <= b < self.free_list.len()
                ==> #[trigger] self.numbers[a] != #[trigger] self.free_list[b]
        &&& forall|a: ImageId|
            self.numbers.contains_key(a) ==> #[trigger] self.numbers[a] < self.free_list[0]
        &&& forall|b: int|
            1 <= b < self.free_list.len() ==> #[trigger] self.free_list[b] < self.free_list[0]
    }

    /// A number is left for the image: it is registered already, or the free
    /// list holds a number that can be handed out.
    pub open spec fn spec_can_add(self, image: ImageId) -> bool {
        ||| self.numbers.contains_key(image)
        ||| self.free_list.len() > 1
        ||| self.free_list.len() == 1 && self.free_list[0] < u64::MAX
    }

    /// The state after registering an image that is new: it gets the last
    /// number of the free list, and where that empties the list, the next
    /// number takes its place.
    pub open spec fn spec_added(self, image: ImageId) -> UserTexturesModel {
        let id = self.free_list.last();
        UserTexturesModel {
            numbers: self.numbers.insert(image, id),
            free_list: if self.free_list.len() == 1 {
                seq![(id + 1) as u64]
            } else {
                self.free_list.drop_last()
            },
        }
    }

    /// The state after removing a registered image: its number goes onto the
    /// free list.
    pub open spec fn spec_removed(self, image: ImageId) -> UserTexturesModel {
        UserTexturesModel {
            numbers: self.numbers.remove(image),
            free_list: self.free_list.push(self.numbers[image]),
        }
    }

    /// `entries` lists the registered images: each with its number, every
    /// one of them, and none twice.
    pub open spec fn spec_lists(self, entries: Seq<UserTexture>) -> bool {
        &&& forall|i: int|
            0 <= i < entries.len() ==> self.numbers.contains_key((#[trigger] entries[i]).image)
                && self.numbers[entries[i].image] == entries[i].id
        &&& forall|image: ImageId|
            self.numbers.contains_key(image) ==> exists|i: int|
                0 <= i < entries.len() && (#[trigger] entries[i]).image == image
        &&& forall|i: int, j: int|
            0 <= i < j < entries.len() ==> (#[trigger] entries[i]).image != (
            #[trigger] entries[j]).image
    }
}

/// Two different registered images never share a texture number.
pub proof fn lemma_numbers_are_unique(
    model: UserTexturesModel,
    first: ImageId,
    second: ImageId,
)
    requires
        model.wf(),
        first != second,
        model.spec_image_id(first) is Some,
        model.spec_image_id(second) is Some,
    ensures
        model.spec_image_id(first) != model.spec_image_id(second),
{
}

/// The host's textures.
#[derive(Debug)]
pub struct EguiUserTextures {
    numbers: HashMap<(bool, u128), u64>,
    free_list: Vec<u64>,
}

impl View for EguiUserTextures {
    type V = UserTexturesModel;

    closed spec fn view(&self) -> UserTexturesModel {
        UserTexturesModel {
            numbers: Map::new(
                |image: ImageId| spec_number_contents(self.numbers).contains_key(image.spec_key()),
                |image: ImageId| spec_number_contents(self.numbers)[image.spec_key()],
            ),
            free_list: self.free_list@,
        }
    }
}

impl Clone for EguiUserTextures {
    /// A copy with the same images, numbers and free list.
    fn clone(&self) -> (r: Self)
        ensures
            r@ == self@,
            self.wf() ==> r.wf(),
    {
        EguiUserTextures {
            numbers: numbers_clone(&self.numbers),
            free_list: self.free_list.clone(),
        }
    }
}

impl EguiUserTextures {
    /// Every key of the table is the key of an image.
    pub closed spec fn spec_keyed_by_images(&self) -> bool {
        forall|key: (bool, u128)| #[trigger]
            spec_number_contents(self.numbers).contains_key(key) ==> ImageId::spec_is_key(key)
    }

    /// The state is consistent; see [`UserTexturesModel::wf`].
    pub open spec fn wf(&self) -> bool {
        self@.wf() && self.spec_keyed_by_images()
    }

    /// No image registered; the first number to hand out is 0.
    pub fn new() -> (r: Self)
        ensures
            r.wf(),
            r@.numbers == Map::<ImageId, u64>::empty(),
            r@.free_list == seq![0u64],
    {
        let mut free_list: Vec<u64> = Vec::new();
        free_list.push(0);
        EguiUserTextures { numbers: numbers_new(), free_list }
    }

    /// Whether a number is left for the image.
    pub fn can_add(&self, image: ImageId) -> (r: bool)
        requires
            self.wf(),
        ensures
            r == self@.spec_can_add(image),
    {
        match numbers_get(&self.numbers, image.key()) {
            Some(_) => true,
            None => self.free_list.len() > 1 || self.free_list[0] < u64::MAX,
        }
    }

    /// Registers an image and returns its texture. An image that is
    /// registered already keeps its number and nothing changes.
    pub fn add_image(&mut self, image: ImageId) -> (r: TextureId)
        requires
            old(self).wf(),
            old(self)@.spec_can_add(image),
        ensures
            final(self).wf(),
            match old(self)@.spec_image_id(image) {
                Some(id) => r == TextureId::User(id) && final(self)@ == old(self)@,
                None => r == TextureId::User(old(self)@.free_list.last()) && final(self)@ == old(
                    self,
                )@.spec_added(image),
            },
            final(self)@.spec_image_id(image) == Some(r->User_0),
    {
        let key = image.key();
        match numbers_get(&self.numbers, key) {
            Some(id) => {
                return TextureId::User(id);
            },
            None => {},
        }
        let ghost before = self@;
        let id = self.free_list.pop().unwrap();
        if self.free_list.len() == 0 {
            self.free_list.push(id + 1);
        }
        let _ = numbers_insert(&mut self.numbers, key, id);
        proof {
            let after = self@;
            assert(after.free_list =~= before.spec_added(image).free_list);
            assert(after.numbers =~= before.spec_added(image).numbers);
        }
        TextureId::User(id)
    }

    /// Removes an image and returns the texture it had. Its number is free
    /// for the next registration.
    pub fn remove_image(&mut self, image: ImageId) -> (r: Option<TextureId>)
        requires
            old(self).wf(),
        ensures
            final(self).wf(),
            match old(self)@.spec_image_id(image) {
                Some(id) => r == Some(TextureId::User(id)) && final(self)@ == old(
                    self,
                )@.spec_removed(image),
                None => r is None && final(self)@ == old(self)@,
            },
            final(self)@.spec_image_id(image) is None,
    {
        let ghost before = self@;
        match numbers_remove(&mut self.numbers, image.key()) {
            Some(id) => {
                self.free_list.push(id);
                proof {
                    assert(self@.numbers =~= before.spec_removed(image).numbers);
                }
                Some(TextureId::User(id))
            },
            None => {
                proof {
                    assert(self@.numbers =~= before.numbers);
                }
                None
            },
        }
    }

    /// The texture of a registered image.
    pub fn image_id(&self, image: ImageId) -> (r: Option<TextureId>)
        ensures
            r == match self@.spec_image_id(image) {
                Some(id) => Some(TextureId::User(id)),
                None => None,
            },
    {
        match numbers_get(&self.numbers, image.key()) {
            Some(id) => Some(TextureId::User(id)),
            None => None,
        }
    }

    /// The registered images with their numbers, in the order in which the
    /// table is walked.
    pub fn entries(&self) -> (entries: Vec<UserTexture>)
        requires
            self.wf(),
        ensures
            self@.spec_lists(entries@),
            self@.numbers.dom().finite(),
            entries@.len() == self@.numbers.len(),
    {
        let pairs = numbers_entries(&self.numbers);
        let mut entries: Vec<UserTexture> = Vec::new();
        let mut i: usize = 0;
        while i < pairs.len()
            invariant
                i <= pairs@.len(),
                entries@.len() == i,
                forall|k: int|
                    0 <= k < pairs@.len() ==> ImageId::spec_is_key((#[trigger] pairs@[k]).0),
                forall|k: int|
                    0 <= k < i ==> (#[trigger] entries@[k]).image.spec_key() == pairs@[k].0
                        && entries@[k].id == pairs@[k].1,
            decreases pairs@.len() - i,
        {
            let (key, id) = pairs[i];
            entries.push(UserTexture { image: ImageId::of_key(key), id });
            i += 1;
        }
        proof {
            assert forall|image: ImageId| self@.numbers.contains_key(image) implies exists|i: int|
                0 <= i < entries@.len() && (#[trigger] entries@[i]).image == image by {
                let k = choose|k: int|
                    0 <= k < pairs@.len() && (#[trigger] pairs@[k]).0 == image.spec_key();
                assert(entries@[k].image == image);
            }
            let images = entries@.map_values(|entry: UserTexture| entry.image);
            images.unique_seq_to_set();
            seq_to_set_is_finite(images);
            assert forall|image: ImageId| self@.numbers.contains_key(image) implies images.contains(
                image,
            ) by {
                let k = choose|k: int| 0 <= k < entries@.len() && entries@[k].image == image;
                assert(images[k] == image);
            }
            assert(images.to_set() =~= self@.numbers.dom());
        }
        entries
    }
}

/// The textures of a frame with their images: the GUI-managed ones, in
/// order, then those of the host.
pub open spec fn spec_handles(managed: Seq<ManagedTexture>, user: Seq<UserTexture>) -> Seq<
    TextureHandle,
> {
    Seq::new(
        managed.len(),
        |k: int|
            TextureHandle {
                texture: EguiTextureId::Managed(managed[k].context, managed[k].texture_id),
                image: managed[k].image,
            },
    ) + Seq::new(
        user.len(),
        |k: int| TextureHandle { texture: EguiTextureId::User(user[k].id), image: user[k].image },
    )
}

/// Lists the GUI-managed textures and the given host textures with the
/// images behind them.
pub fn handles_of(managed: &Vec<ManagedTexture>, user: &Vec<UserTexture>) -> (r: Vec<TextureHandle>)
    ensures
        r@ == spec_handles(managed@, user@),
{
    let mut out: Vec<TextureHandle> = Vec::new();
    let mut i: usize = 0;
    while i < managed.len()
        invariant
            i <= managed@.len(),
            out@ == spec_handles(managed@, user@).take(i as int),
        decreases managed@.len() - i,
    {
        let m = managed[i];
        out.push(
            TextureHandle {
                texture: EguiTextureId::Managed(m.context, m.texture_id),
                image: m.image,
            },
        );
        i += 1;
    }
    let mut j: usize = 0;
    while j < user.len()
        invariant
            j <= user@.len(),
            out@ == spec_handles(managed@, user@).take(managed@.len() + j),
        decreases user@.len() - j,
    {
        let u = user[j];
        out.push(TextureHandle { texture: EguiTextureId::User(u.id), image: u.image });
        j += 1;
    }
    out
}

/// Lists all textures of a frame with the images behind them: the
/// GUI-managed ones, in order, then the registered host textures, in the
/// order in which their table is walked.
pub fn handles(managed: &Vec<ManagedTexture>, user: &EguiUserTextures) -> (r: Vec<TextureHandle>)
    requires
        user.wf(),
    ensures
        exists|entries: Seq<UserTexture>| #[trigger]
            user@.spec_lists(entries) && r@ == spec_handles(managed@, entries),
{
    let entries = user.entries();
    handles_of(managed, &entries)
}

} // verus!
