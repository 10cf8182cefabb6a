//! The textures that the GUI library allocates and paints itself.
//!
//! Each belongs to one context and is named by a number within it. The
//! library sends whole images and, for textures it sent before, patches.

use crate::collections::{
    spec_texture_contents, textures_assets, textures_get, textures_insert, textures_new,
    textures_remove,
};
use crate::image::ColorImage;
use crate::texture::TextureId;
use crate::user_textures::{ImageId, ManagedTexture};
use bevy_platform::collections::HashMap;
use vstd::prelude::*;
use vstd::seq_lib::seq_to_set_is_finite;

verus! {

/// A GUI-managed texture.
#[derive(Debug, PartialEq, Eq)]
pub struct EguiManagedTexture {
    /// The image asset that holds the texture for rendering.
    pub handle: ImageId,
    /// The texture in full, so that patches can be applied to it.
    pub color_image: ColorImage,
}

impl EguiManagedTexture {
    /// The texture is `before` with `image` copied into it at `pos`: asset
    /// and size are those of `before`, and so are the pixels outside the
    /// patch.
    pub open spec fn spec_is_patch_of(
        &self,
        before: EguiManagedTexture,
        pos: (usize, usize),
        image: &ColorImage,
    ) -> bool {
        &&& self.handle == before.handle
        &&& self.color_image.width == before.color_image.width
        &&& self.color_image.height == before.color_image.height
        &&& self.color_image.pixels@ == before.color_image.spec_updated(pos.0, pos.1, image)
    }
}

/// How a texture change sent by the GUI library was taken.
#[derive(Clone, Copy, Debug, PartialEq, Eq, Hash, Structural)]
pub enum TextureUpdate {
    /// The change names a host texture; those are not kept here.
    NotManaged,
    /// The image is that of a new texture or replaces an old one in full.
    Full,
    /// The image was copied into the texture.
    Patched,
    /// The patch names a texture that is not there. Nothing changed.
    Missing,
}

/// A texture change sent by the GUI library.
#[derive(Debug, PartialEq, Eq)]
pub enum TextureChange {
    /// A whole image, for a new texture or in place of an old one.
    Full {
        /// The image.
        image: ColorImage,
        /// The image asset that holds it for rendering.
        handle: ImageId,
    },
    /// An image to copy into the texture that is there.
    Patch {
        /// Column and row of the patch's top-left corner in the texture.
        pos: (usize, usize),
        /// The patch.
        image: ColorImage,
    },
}

impl TextureChange {
    /// The image that the change carries.
    pub open spec fn spec_image(&self) -> ColorImage {
        match *self {
            TextureChange::Full { image, .. } => image,
            TextureChange::Patch { image, .. } => image,
        }
    }
}

/// `listed` names the textures of `textures`: each with its image asset,
/// every one of them, and none twice.
pub open spec fn spec_lists(
    textures: Map<(u64, u64), EguiManagedTexture>,
    listed: Seq<ManagedTexture>,
) -> bool {
    &&& forall|i: int|
        0 <= i < listed.len() ==> textures.contains_key(
            ((#[trigger] listed[i]).context, listed[i].texture_id),
        ) && textures[(listed[i].context, listed[i].texture_id)].handle == listed[i].image
    &&& forall|key: (u64, u64)|
        textures.contains_key(key) ==> exists|i: int|
            0 <= i < listed.len() && (#[trigger] listed[i]).context == key.0
                && listed[i].texture_id == key.1
    &&& forall|i: int, j: int|
        0 <= i < j < listed.len() ==> !((#[trigger] listed[i]).context == (
        #[trigger] listed[j]).context && listed[i].texture_id == listed[j].texture_id)
}

/// The GUI-managed textures of all contexts, each under the identity of its
/// context and its number within the context.
#[derive(Debug)]
pub struct EguiManagedTextures {
    textures: HashMap<(u64, u64), EguiManagedTexture>,
}

impl View for EguiManagedTextures {
    type V = Map<(u64, u64), EguiManagedTexture>;

    closed spec fn view(&self) -> Map<(u64, u64), EguiManagedTexture> {
        spec_texture_contents(self.textures)
    }
}

impl EguiManagedTextures {
    /// Every image has a pixel for every position.
    pub open spec fn wf(&self) -> bool {
        forall|key: (u64, u64)| #[trigger]
            self@.contains_key(key) ==> self@[key].color_image.wf()
    }

    /// The patch `image` at `pos` can be applied to the texture it names:
    /// the texture is not there, or the patch lies inside it.
    pub open spec fn spec_patch_fits(
        &self,
        context: u64,
        texture_id: u64,
        pos: (usize, usize),
        image: &ColorImage,
    ) -> bool {
        self@.contains_key((context, texture_id)) ==> self@[(
            context,
            texture_id,
        )].color_image.spec_region_fits(pos.0, pos.1, image)
    }

    /// No texture.
    pub fn new() -> (r: Self)
        ensures
            r.wf(),
            r@ == Map::<(u64, u64), EguiManagedTexture>::empty(),
    {
        EguiManagedTextures { textures: textures_new() }
    }

    /// The texture with the given context and number.
    pub fn get(&self, context: u64, texture_id: u64) -> (r: Option<&EguiManagedTexture>)
        ensures
            match r {
                Some(texture) => self@.contains_key((context, texture_id)) && *texture == self@[(
                    context,
                    texture_id,
                )],
                None => !self@.contains_key((context, texture_id)),
            },
    {
        textures_get(&self.textures, (context, texture_id))
    }

    /// Puts a texture under the given context and number, in place of the one
    /// that was there, if any. The other textures stay as they are.
    pub fn insert(&mut self, context: u64, texture_id: u64, texture: EguiManagedTexture)
        requires
            old(self).wf(),
            texture.color_image.wf(),
        ensures
            final(self).wf(),
            final(self)@ == old(self)@.insert((context, texture_id), texture),
    {
        let _ = textures_insert(&mut self.textures, (context, texture_id), texture);
    }

    /// Takes out the texture with the given context and number.
    pub fn remove(&mut self, context: u64, texture_id: u64) -> (r: Option<EguiManagedTexture>)
        requires
            old(self).wf(),
        ensures
            final(self).wf(),
            final(self)@ == old(self)@.remove((context, texture_id)),
            r == (if old(self)@.contains_key((context, texture_id)) {
                Some(old(self)@[(context, texture_id)])
            } else {
                None
            }),
    {
        textures_remove(&mut self.textures, (context, texture_id))
    }

    /// Whether a patch can be applied; see
    /// [`EguiManagedTextures::spec_patch_fits`].
    pub fn patch_fits(&self, context: u64, texture_id: u64, pos: (usize, usize), image: &ColorImage)
        -> (r: bool)
        ensures
            r == self.spec_patch_fits(context, texture_id, pos, image),
    {
        match textures_get(&self.textures, (context, texture_id)) {
            Some(texture) => texture.color_image.region_fits(pos.0, pos.1, image),
            None => true,
        }
    }

    /// Takes a texture change sent by the GUI library for a context.
    ///
    /// Changes to host textures are passed over. A whole image is kept under
    /// the texture's number together with its asset. A patch is copied into
    /// the texture that is there, whose asset stays, and where there is none
    /// the change is reported as missing.
    pub fn apply(&mut self, context: u64, id: TextureId, change: TextureChange) -> (update:
        TextureUpdate)
        requires
            old(self).wf(),
            change.spec_image().wf(),
            id matches TextureId::Managed(texture_id) ==> (change matches TextureChange::Patch {
                pos,
                image,
            } ==> old(self).spec_patch_fits(context, texture_id, pos, &image)),
        ensures
            final(self).wf(),
            match id {
                TextureId::User(_) => update == TextureUpdate::NotManaged && final(self)@
                    == old(self)@,
                TextureId::Managed(texture_id) => match change {
                    TextureChange::Full { image, handle } => {
                        &&& update == TextureUpdate::Full
                        &&& final(self)@ == old(self)@.insert(
                            (context, texture_id),
                            EguiManagedTexture { handle, color_image: image },
                        )
                    },
                    TextureChange::Patch { pos, image } => if old(self)@.contains_key(
                        (context, texture_id),
                    ) {
                        &&& update == TextureUpdate::Patched
                        &&& final(self)@ == old(self)@.insert(
                            (context, texture_id),
                            final(self)@[(context, texture_id)],
                        )
                        &&& final(self)@[(context, texture_id)].spec_is_patch_of(
                            old(self)@[(context, texture_id)],
                            pos,
                            &image,
                        )
                    } else {
                        update == TextureUpdate::Missing && final(self)@ == old(self)@
                    },
                },
            },
    {
        let texture_id = match id {
            TextureId::Managed(texture_id) => texture_id,
            TextureId::User(_) => {
                return TextureUpdate::NotManaged;
            },
        };
        let ghost before = self@;
        match change {
            TextureChange::Full { image, handle } => {
                self.insert(context, texture_id, EguiManagedTexture { handle, color_image: image });
                TextureUpdate::Full
            },
            TextureChange::Patch { pos, image } => match textures_remove(
                &mut self.textures,
                (context, texture_id),
            ) {
                None => TextureUpdate::Missing,
                Some(texture) => {
                    let mut texture = texture;
                    texture.color_image.update_rect(pos.0, pos.1, &image);
                    let _ = textures_insert(&mut self.textures, (context, texture_id), texture);
                    proof {
                        assert(self@ =~= before.insert(
                            (context, texture_id),
                            self@[(context, texture_id)],
                        ));
                    }
                    TextureUpdate::Patched
                },
            },
        }
    }

    /// Sets the image asset of a texture. Nothing happens where the texture
    /// is not there.
    pub fn set_handle(&mut self, context: u64, texture_id: u64, handle: ImageId) -> (found: bool)
        requires
            old(self).wf(),
        ensures
            final(self).wf(),
            found == old(self)@.contains_key((context, texture_id)),
            final(self)@ == (if found {
                old(self)@.insert(
                    (context, texture_id),
                    EguiManagedTexture {
                        handle,
                        color_image: old(self)@[(context, texture_id)].color_image,
                    },
                )
            } else {
                old(self)@
            }),
    {
        let ghost before = self@;
        match textures_remove(&mut self.textures, (context, texture_id)) {
            Some(texture) => {
                let _ = textures_insert(
                    &mut self.textures,
                    (context, texture_id),
                    EguiManagedTexture { handle, color_image: texture.color_image },
                );
                proof {
                    assert(self@ =~= before.insert(
                        (context, texture_id),
                        EguiManagedTexture {
                            handle,
                            color_image: before[(context, texture_id)].color_image,
                        },
                    ));
                }
                true
            },
            None => false,
        }
    }

    /// The textures with their image assets, for the render side, in the
    /// order in which the table is walked.
    pub fn extract(&self) -> (r: Vec<ManagedTexture>)
        ensures
            spec_lists(self@, r@),
            self@.dom().finite(),
            r@.len() == self@.len(),
    {
        let r = textures_assets(&self.textures);
        proof {
            let names = r@.map_values(|t: ManagedTexture| (t.context, t.texture_id));
            names.unique_seq_to_set();
            seq_to_set_is_finite(names);
            assert forall|key: (u64, u64)| self@.contains_key(key) implies names.contains(key) by {
                let k = choose|k: int|
                    0 <= k < r@.len() && (#[trigger] r@[k]).context == key.0 && r@[k].texture_id
                        == key.1;
                assert(names[k] == key);
            }
            assert(names.to_set() =~= self@.dom());
        }
        r
    }
}

} // verus!
