use bevy_egui::image::{Color32, ColorImage};
use bevy_egui::managed_textures::{
    EguiManagedTexture, EguiManagedTextures, TextureChange, TextureUpdate,
};
use bevy_egui::output::{
    needs_redraw, open_url_target, CursorIcons, EguiGlobalSettings, RepaintState, UrlTarget,
    DEFAULT_CURSOR_ICON,
};
use bevy_egui::texture::TextureId;
use bevy_egui::user_textures::{ImageId, ManagedTexture};

fn image(width: usize, height: usize, first: u32) -> ColorImage {
    ColorImage {
        width,
        height,
        pixels: (0..width * height).map(|i| Color32 { rgba: first + i as u32 }).collect(),
    }
}

fn values(image: &ColorImage) -> Vec<u32> {
    image.pixels.iter().map(|p| p.rgba).collect()
}

#[test]
fn patch_is_copied_into_place() {
    let mut dest = image(4, 3, 0);
    let src = image(2, 2, 100);
    assert!(dest.region_fits(1, 1, &src));
    dest.update_rect(1, 1, &src);
    assert_eq!(values(&dest), vec![0, 1, 2, 3, 4, 100, 101, 7, 8, 102, 103, 11]);
    assert_eq!((dest.width, dest.height), (4, 3));
}

#[test]
fn patch_at_the_far_corner() {
    let mut dest = image(3, 3, 0);
    let src = image(1, 2, 50);
    assert!(dest.region_fits(2, 1, &src));
    dest.update_rect(2, 1, &src);
    assert_eq!(values(&dest), vec![0, 1, 2, 3, 4, 50, 6, 7, 51]);
}

#[test]
fn patch_of_the_whole_image() {
    let mut dest = image(3, 2, 0);
    let src = image(3, 2, 10);
    dest.update_rect(0, 0, &src);
    assert_eq!(dest, src);
}

#[test]
fn empty_patch_changes_nothing() {
    let mut dest = image(3, 2, 0);
    dest.update_rect(3, 2, &image(0, 0, 0));
    dest.update_rect(1, 1, &image(2, 0, 0));
    dest.update_rect(1, 1, &image(0, 1, 0));
    assert_eq!(dest, image(3, 2, 0));
}

#[test]
fn images_need_a_pixel_for_every_position() {
    assert!(image(4, 3, 0).is_wf());
    assert!(image(0, 0, 0).is_wf());
    assert!(image(0, 7, 0).is_wf());
    let mut short = image(4, 3, 0);
    short.pixels.pop();
    assert!(!short.is_wf());
    let huge = ColorImage { width: usize::MAX, height: 2, pixels: Vec::new() };
    assert!(!huge.is_wf());
}

#[test]
fn patches_that_stick_out_do_not_fit() {
    let dest = image(4, 3, 0);
    assert!(dest.region_fits(2, 1, &image(2, 2, 0)));
    assert!(!dest.region_fits(3, 1, &image(2, 2, 0)));
    assert!(!dest.region_fits(2, 2, &image(2, 2, 0)));
    assert!(!dest.region_fits(5, 0, &image(0, 0, 0)));
    assert!(!dest.region_fits(0, 0, &image(5, 1, 0)));
    assert!(!dest.region_fits(usize::MAX, 0, &image(2, 1, 0)));
}

const HANDLE: ImageId = ImageId::Index { bits: 1 };
const OTHER_HANDLE: ImageId = ImageId::Index { bits: 2 };

#[test]
fn whole_images_are_kept_per_context() {
    let mut textures = EguiManagedTextures::new();
    assert_eq!(
        textures.apply(1, TextureId::Managed(0), TextureChange::Full { image: image(2, 2, 0), handle: HANDLE }),
        TextureUpdate::Full
    );
    assert_eq!(
        textures.apply(2, TextureId::Managed(0), TextureChange::Full { image: image(1, 1, 9), handle: OTHER_HANDLE }),
        TextureUpdate::Full
    );
    assert_eq!(textures.extract().len(), 2);
    assert_eq!(
        textures.get(1, 0),
        Some(&EguiManagedTexture { handle: HANDLE, color_image: image(2, 2, 0) })
    );
    assert_eq!(
        textures.get(2, 0),
        Some(&EguiManagedTexture { handle: OTHER_HANDLE, color_image: image(1, 1, 9) })
    );
    assert_eq!(textures.get(1, 1), None);
    assert_eq!(
        textures.apply(1, TextureId::Managed(0), TextureChange::Full { image: image(3, 1, 5), handle: OTHER_HANDLE }),
        TextureUpdate::Full
    );
    assert_eq!(textures.extract().len(), 2);
    assert_eq!(
        textures.get(1, 0),
        Some(&EguiManagedTexture { handle: OTHER_HANDLE, color_image: image(3, 1, 5) })
    );
}

#[test]
fn patches_change_the_kept_image_and_keep_its_asset() {
    let mut textures = EguiManagedTextures::new();
    textures.apply(1, TextureId::Managed(3), TextureChange::Full { image: image(3, 2, 0), handle: HANDLE });
    let patch = image(2, 1, 70);
    assert!(textures.patch_fits(1, 3, (1, 1), &patch));
    assert!(!textures.patch_fits(1, 3, (2, 1), &patch));
    assert_eq!(
        textures.apply(1, TextureId::Managed(3), TextureChange::Patch { pos: (1, 1), image: patch }),
        TextureUpdate::Patched
    );
    let kept = textures.get(1, 3).expect("still there");
    assert_eq!(kept.handle, HANDLE);
    assert_eq!(values(&kept.color_image), vec![0, 1, 2, 3, 70, 71]);
    assert!(textures.set_handle(1, 3, OTHER_HANDLE));
    assert_eq!(textures.get(1, 3).map(|t| t.handle), Some(OTHER_HANDLE));
    assert!(!textures.set_handle(1, 4, OTHER_HANDLE));
}

#[test]
fn patch_of_a_missing_texture_is_reported() {
    let mut textures = EguiManagedTextures::new();
    let patch = image(2, 1, 70);
    assert!(textures.patch_fits(1, 3, (9, 9), &patch));
    assert_eq!(
        textures.apply(1, TextureId::Managed(3), TextureChange::Patch { pos: (9, 9), image: patch }),
        TextureUpdate::Missing
    );
    assert_eq!(textures.extract().len(), 0);
}

#[test]
fn host_textures_are_passed_over() {
    let mut textures = EguiManagedTextures::new();
    assert_eq!(
        textures.apply(1, TextureId::User(3), TextureChange::Full { image: image(2, 1, 70), handle: HANDLE }),
        TextureUpdate::NotManaged
    );
    assert_eq!(textures.extract().len(), 0);
}

#[test]
fn freed_textures_are_taken_out() {
    let mut textures = EguiManagedTextures::new();
    textures.apply(1, TextureId::Managed(0), TextureChange::Full { image: image(1, 1, 0), handle: HANDLE });
    textures.apply(1, TextureId::Managed(1), TextureChange::Full { image: image(1, 1, 1), handle: OTHER_HANDLE });
    assert_eq!(
        textures.remove(1, 0),
        Some(EguiManagedTexture { handle: HANDLE, color_image: image(1, 1, 0) })
    );
    assert_eq!(textures.remove(1, 0), None);
    assert_eq!(textures.remove(2, 1), None);
    assert_eq!(textures.extract().len(), 1);
    assert_eq!(
        textures.extract(),
        vec![ManagedTexture { context: 1, texture_id: 1, image: OTHER_HANDLE }]
    );
}

#[test]
fn every_texture_is_handed_to_the_render_side_once() {
    let mut textures = EguiManagedTextures::new();
    for context in 1..4u64 {
        for number in 0..5u64 {
            let handle = ImageId::Index { bits: context * 10 + number };
            textures.apply(
                context,
                TextureId::Managed(number),
                TextureChange::Full { image: image(1, 1, 0), handle },
            );
        }
    }
    textures.remove(2, 3);
    let mut listed = textures.extract();
    listed.sort_by_key(|texture| (texture.context, texture.texture_id));
    let mut expected = Vec::new();
    for context in 1..4u64 {
        for number in 0..5u64 {
            if (context, number) != (2, 3) {
                expected.push(ManagedTexture {
                    context,
                    texture_id: number,
                    image: ImageId::Index { bits: context * 10 + number },
                });
            }
        }
    }
    assert_eq!(listed, expected);
}

#[test]
fn link_targets() {
    let named = "frame".to_string();
    assert_eq!(open_url_target(true, None), UrlTarget::Blank);
    assert_eq!(open_url_target(true, Some(&named)), UrlTarget::Blank);
    assert_eq!(open_url_target(false, None), UrlTarget::Current);
    assert_eq!(open_url_target(false, Some(&named)), UrlTarget::Named("frame".to_string()));
}

#[test]
fn redraw_needs_a_repaint_request_and_something_to_paint() {
    let state = |requested_repaint, output_is_empty| RepaintState {
        requested_repaint,
        output_is_empty,
    };
    assert!(!needs_redraw(&Vec::new()));
    assert!(!needs_redraw(&vec![state(true, true), state(false, false), state(false, true)]));
    assert!(needs_redraw(&vec![state(true, true), state(true, false)]));
    assert!(needs_redraw(&vec![state(true, false)]));
}

#[test]
fn cursor_is_only_set_when_the_icon_changes() {
    let mut icons = CursorIcons::new();
    assert!(!icons.update(1, DEFAULT_CURSOR_ICON));
    assert!(icons.update(1, 5));
    assert!(!icons.update(1, 5));
    assert!(icons.update(2, 5));
    assert!(icons.update(1, DEFAULT_CURSOR_ICON));
    assert!(!icons.update(1, DEFAULT_CURSOR_ICON));
    assert_eq!(DEFAULT_CURSOR_ICON, 0);
}

#[test]
fn global_settings_default() {
    assert!(EguiGlobalSettings::default().enable_focused_context_updates);
}
