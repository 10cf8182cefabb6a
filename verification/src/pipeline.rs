//! The key that selects the render pipeline variant for a target.

use vstd::prelude::*;
use wgpu_types::TextureFormat;

verus! {

/// `wgpu_types::TextureFormat`, the format of a texture's texels. Values are
/// carried through this crate unread.
#[verifier::external_type_specification]
#[verifier::external_body]
pub struct ExTextureFormat(TextureFormat);

/// The kind of target that a context renders to.
#[derive(Debug, PartialEq, Eq, Hash, Clone, Copy, Structural)]
pub enum EguiRenderTargetType {
    /// A window.
    Window,
    /// An image.
    Image,
}

/// Selects the render pipeline variant for a context's target.
#[derive(Debug, PartialEq, Eq, Hash, Clone, Copy)]
pub struct EguiPipelineKey {
    /// Format of the texture that is rendered to.
    pub texture_format: TextureFormat,
    /// The kind of target.
    pub render_target_type: EguiRenderTargetType,
}

/// What `wgpu_types::TextureFormat::add_srgb_suffix` gives for a format: the
/// sRGB variant of a format that has one, and the format itself otherwise.
pub uninterp spec fn spec_add_srgb_suffix(format: TextureFormat) -> TextureFormat;

/// `wgpu_types::TextureFormat::add_srgb_suffix`. Its result depends on the
/// format alone and is named by [`spec_add_srgb_suffix`]; formats are not
/// read in this crate, so nothing more is said of it.
#[verifier::external_body]
fn add_srgb_suffix(format: TextureFormat) -> (r: TextureFormat)
    ensures
        r == spec_add_srgb_suffix(format),
{
    format.add_srgb_suffix()
}

impl EguiPipelineKey {
    /// The key for rendering to a window with the given swap chain format,
    /// in its sRGB variant. A window without swap chain format has no key.
    pub fn from_extracted_window(swap_chain_texture_format: Option<TextureFormat>) -> (key: Option<
        Self,
    >)
        ensures
            key == (match swap_chain_texture_format {
                Some(format) => Some(
                    EguiPipelineKey {
                        texture_format: spec_add_srgb_suffix(format),
                        render_target_type: EguiRenderTargetType::Window,
                    },
                ),
                None => None,
            }),
    {
        match swap_chain_texture_format {
            Some(format) => Some(
                EguiPipelineKey {
                    texture_format: add_srgb_suffix(format),
                    render_target_type: EguiRenderTargetType::Window,
                },
            ),
            None => None,
        }
    }

    /// The key for rendering to an image of the given format, in its sRGB
    /// variant.
    pub fn from_gpu_image(texture_format: TextureFormat) -> (key: Self)
        ensures
            key == (EguiPipelineKey {
                texture_format: spec_add_srgb_suffix(texture_format),
                render_target_type: EguiRenderTargetType::Image,
            }),
    {
        EguiPipelineKey {
            texture_format: add_srgb_suffix(texture_format),
            render_target_type: EguiRenderTargetType::Image,
        }
    }
}

} // verus!
