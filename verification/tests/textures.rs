use bevy_egui::texture::{
    EguiTextureBindGroups, EguiTextureId, TextureBinding, TextureCandidate, TextureId,
};
use bevy_egui::user_textures::{
    handles, handles_of, EguiUserTextures, ImageId, ManagedTexture, TextureHandle, UserTexture,
};

fn user(n: u64) -> EguiTextureId {
    EguiTextureId::User(n)
}

fn offered(ids: &[EguiTextureId]) -> Vec<TextureCandidate> {
    ids.iter().map(|id| TextureCandidate { id: *id, resolvable: true }).collect()
}

#[test]
fn managed_textures_are_scoped_by_context() {
    assert_eq!(EguiTextureId::scoped(4, TextureId::Managed(9)), EguiTextureId::Managed(4, 9));
    assert_eq!(EguiTextureId::scoped(5, TextureId::Managed(9)), EguiTextureId::Managed(5, 9));
    assert_ne!(
        EguiTextureId::scoped(4, TextureId::Managed(9)),
        EguiTextureId::scoped(5, TextureId::Managed(9))
    );
}

#[test]
fn user_textures_are_global() {
    assert_eq!(EguiTextureId::scoped(4, TextureId::User(9)), EguiTextureId::User(9));
    assert_eq!(
        EguiTextureId::scoped(4, TextureId::User(9)),
        EguiTextureId::scoped(5, TextureId::User(9))
    );
}

#[test]
fn empty_table_resolves_nothing() {
    let table = EguiTextureBindGroups::new();
    assert_eq!(table.len(), 0);
    assert_eq!(table.group_count(), 0);
    assert_eq!(table.resolve(user(0)), None);
}

#[test]
fn one_bind_group_per_texture() {
    let ids = [user(10), EguiTextureId::Managed(1, 0), user(11)];
    let table = EguiTextureBindGroups::build(&offered(&ids), None);
    assert_eq!(table.len(), 3);
    assert_eq!(table.group_count(), 3);
    for (i, id) in ids.iter().enumerate() {
        assert_eq!(table.resolve(*id), Some(TextureBinding { group: i, offset: None }));
        assert_eq!(table.group(i), &vec![*id]);
    }
    assert_eq!(table.resolve(user(12)), None);
    assert_eq!(table.resolve(EguiTextureId::Managed(2, 0)), None);
}

#[test]
fn unresolvable_textures_are_left_out() {
    let candidates = vec![
        TextureCandidate { id: user(1), resolvable: true },
        TextureCandidate { id: user(2), resolvable: false },
        TextureCandidate { id: user(3), resolvable: true },
    ];
    let table = EguiTextureBindGroups::build(&candidates, None);
    assert_eq!(table.len(), 2);
    assert_eq!(table.resolve(user(1)), Some(TextureBinding { group: 0, offset: None }));
    assert_eq!(table.resolve(user(2)), None);
    assert_eq!(table.resolve(user(3)), Some(TextureBinding { group: 1, offset: None }));
}

#[test]
fn bindless_arrays_chunk_the_textures() {
    let ids: Vec<EguiTextureId> = (0..5).map(user).collect();
    let table = EguiTextureBindGroups::build(&offered(&ids), Some(2));
    assert_eq!(table.group_count(), 3);
    assert_eq!(table.group(0), &vec![user(0), user(1)]);
    assert_eq!(table.group(1), &vec![user(2), user(3)]);
    assert_eq!(table.group(2), &vec![user(4)]);
    let expected = [(0, 0), (0, 1), (1, 0), (1, 1), (2, 0)];
    for (i, (group, offset)) in expected.iter().enumerate() {
        assert_eq!(
            table.resolve(user(i as u64)),
            Some(TextureBinding { group: *group, offset: Some(*offset) })
        );
    }
    assert_eq!(table.resolve(user(5)), None);
}

#[test]
fn bindless_arrays_that_divide_evenly_have_no_empty_chunk() {
    let ids: Vec<EguiTextureId> = (0..6).map(user).collect();
    let table = EguiTextureBindGroups::build(&offered(&ids), Some(3));
    assert_eq!(table.group_count(), 2);
    assert_eq!(table.group(0), &vec![user(0), user(1), user(2)]);
    assert_eq!(table.group(1), &vec![user(3), user(4), user(5)]);
    assert_eq!(table.resolve(user(5)), Some(TextureBinding { group: 1, offset: Some(2) }));
}

#[test]
fn bindless_array_larger_than_the_textures() {
    let ids: Vec<EguiTextureId> = (0..3).map(user).collect();
    let table = EguiTextureBindGroups::build(&offered(&ids), Some(16));
    assert_eq!(table.group_count(), 1);
    assert_eq!(table.group(0), &ids);
    assert_eq!(table.resolve(user(2)), Some(TextureBinding { group: 0, offset: Some(2) }));
}

#[test]
fn bindless_arrays_of_one() {
    let ids: Vec<EguiTextureId> = (0..3).map(user).collect();
    let table = EguiTextureBindGroups::build(&offered(&ids), Some(1));
    assert_eq!(table.group_count(), 3);
    assert_eq!(table.resolve(user(2)), Some(TextureBinding { group: 2, offset: Some(0) }));
}

#[test]
fn bindless_without_textures_has_no_group() {
    let table = EguiTextureBindGroups::build(&Vec::new(), Some(4));
    assert_eq!(table.group_count(), 0);
    assert_eq!(table.resolve(user(0)), None);
}

#[test]
fn bindless_skips_unresolvable_before_chunking() {
    let candidates = vec![
        TextureCandidate { id: user(1), resolvable: false },
        TextureCandidate { id: user(2), resolvable: true },
        TextureCandidate { id: user(3), resolvable: true },
        TextureCandidate { id: user(4), resolvable: false },
        TextureCandidate { id: user(5), resolvable: true },
    ];
    let table = EguiTextureBindGroups::build(&candidates, Some(2));
    assert_eq!(table.group_count(), 2);
    assert_eq!(table.group(0), &vec![user(2), user(3)]);
    assert_eq!(table.group(1), &vec![user(5)]);
    assert_eq!(table.resolve(user(5)), Some(TextureBinding { group: 1, offset: Some(0) }));
    assert_eq!(table.resolve(user(1)), None);
}

#[test]
fn texture_offered_twice_resolves_to_its_last_binding() {
    let table = EguiTextureBindGroups::build(&offered(&[user(1), user(2), user(1)]), None);
    assert_eq!(table.resolve(user(1)), Some(TextureBinding { group: 2, offset: None }));
    let table = EguiTextureBindGroups::build(&offered(&[user(1), user(2), user(1)]), Some(2));
    assert_eq!(table.resolve(user(1)), Some(TextureBinding { group: 1, offset: Some(0) }));
}

fn image(n: u64) -> ImageId {
    ImageId::Index { bits: n }
}

#[test]
fn first_images_get_numbers_from_zero() {
    let mut textures = EguiUserTextures::new();
    assert_eq!(textures.add_image(image(100)), TextureId::User(0));
    assert_eq!(textures.add_image(image(101)), TextureId::User(1));
    assert_eq!(textures.add_image(ImageId::Uuid { uuid: 7 }), TextureId::User(2));
    assert_eq!(textures.entries().len(), 3);
    assert_eq!(textures.image_id(image(101)), Some(TextureId::User(1)));
    assert_eq!(textures.image_id(ImageId::Uuid { uuid: 7 }), Some(TextureId::User(2)));
    assert_eq!(textures.image_id(image(102)), None);
}

#[test]
fn adding_an_image_again_keeps_its_number() {
    let mut textures = EguiUserTextures::new();
    assert_eq!(textures.add_image(image(100)), TextureId::User(0));
    assert_eq!(textures.add_image(image(100)), TextureId::User(0));
    assert_eq!(textures.entries().len(), 1);
    assert_eq!(textures.add_image(image(101)), TextureId::User(1));
}

#[test]
fn removed_numbers_are_handed_out_again() {
    let mut textures = EguiUserTextures::new();
    for n in 0..4 {
        assert_eq!(textures.add_image(image(n)), TextureId::User(n));
    }
    assert_eq!(textures.remove_image(image(1)), Some(TextureId::User(1)));
    assert_eq!(textures.remove_image(image(2)), Some(TextureId::User(2)));
    assert_eq!(textures.remove_image(image(2)), None);
    assert_eq!(textures.image_id(image(1)), None);
    assert_eq!(textures.image_id(image(3)), Some(TextureId::User(3)));
    assert_eq!(textures.add_image(image(50)), TextureId::User(2));
    assert_eq!(textures.add_image(image(51)), TextureId::User(1));
    assert_eq!(textures.add_image(image(52)), TextureId::User(4));
    assert_eq!(textures.add_image(image(53)), TextureId::User(5));
}

#[test]
fn removing_an_unknown_image_changes_nothing() {
    let mut textures = EguiUserTextures::new();
    assert_eq!(textures.remove_image(image(9)), None);
    assert_eq!(textures.add_image(image(9)), TextureId::User(0));
}

#[test]
fn numbers_stay_unique_over_many_changes() {
    let mut textures = EguiUserTextures::new();
    let mut live: Vec<(u64, TextureId)> = Vec::new();
    for step in 0..200u64 {
        let n = (step * 7) % 23;
        if step % 3 == 2 {
            let removed = textures.remove_image(image(n));
            let known = live.iter().position(|(img, _)| *img == n);
            assert_eq!(removed, known.map(|k| live[k].1));
            if let Some(k) = known {
                live.remove(k);
            }
        } else {
            assert!(textures.can_add(image(n)));
            let id = textures.add_image(image(n));
            match live.iter().find(|(img, _)| *img == n) {
                Some((_, old)) => assert_eq!(id, *old),
                None => {
                    assert!(live.iter().all(|(_, other)| *other != id));
                    live.push((n, id));
                }
            }
        }
        assert_eq!(textures.entries().len(), live.len());
    }
}

#[test]
fn clone_keeps_the_registry() {
    let mut textures = EguiUserTextures::new();
    textures.add_image(image(1));
    textures.add_image(image(2));
    textures.remove_image(image(1));
    let mut copy = textures.clone();
    assert_eq!(copy.image_id(image(2)), Some(TextureId::User(1)));
    assert_eq!(copy.add_image(image(3)), TextureId::User(0));
    assert_eq!(textures.image_id(image(3)), None);
}

#[test]
fn handles_list_managed_then_user_textures() {
    let mut textures = EguiUserTextures::new();
    textures.add_image(image(70));
    textures.add_image(image(71));
    textures.add_image(ImageId::Uuid { uuid: 1 << 100 });
    let managed = vec![
        ManagedTexture { context: 3, texture_id: 0, image: image(10) },
        ManagedTexture { context: 4, texture_id: 0, image: image(11) },
    ];
    let listed = handles(&managed, &textures);
    assert_eq!(
        listed[..2],
        [
            TextureHandle { texture: EguiTextureId::Managed(3, 0), image: image(10) },
            TextureHandle { texture: EguiTextureId::Managed(4, 0), image: image(11) },
        ]
    );
    let mut of_the_host = listed[2..].to_vec();
    of_the_host.sort_by_key(|handle| match handle.texture {
        EguiTextureId::User(n) => n,
        EguiTextureId::Managed(_, n) => n,
    });
    assert_eq!(
        of_the_host,
        vec![
            TextureHandle { texture: EguiTextureId::User(0), image: image(70) },
            TextureHandle { texture: EguiTextureId::User(1), image: image(71) },
            TextureHandle { texture: EguiTextureId::User(2), image: ImageId::Uuid { uuid: 1 << 100 } },
        ]
    );
    assert!(handles(&Vec::new(), &EguiUserTextures::new()).is_empty());
}

#[test]
fn a_texture_is_looked_up_by_kind_context_and_number() {
    assert_eq!(EguiTextureId::Managed(4, 9).key(), (true, 4, 9));
    assert_eq!(EguiTextureId::User(9).key(), (false, 0, 9));
    let table = EguiTextureBindGroups::build(
        &offered(&[EguiTextureId::Managed(0, 9), user(9), EguiTextureId::Managed(9, 0)]),
        Some(2),
    );
    assert_eq!(table.resolve(user(9)), Some(TextureBinding { group: 0, offset: Some(1) }));
    assert_eq!(
        table.resolve(EguiTextureId::Managed(9, 0)),
        Some(TextureBinding { group: 1, offset: Some(0) })
    );
    assert_eq!(table.resolve(EguiTextureId::Managed(9, 9)), None);
}

#[test]
fn handles_of_keeps_the_order_of_the_host_textures_it_is_given() {
    let managed = vec![ManagedTexture { context: 3, texture_id: 5, image: image(10) }];
    let of_the_host = vec![
        UserTexture { image: image(71), id: 1 },
        UserTexture { image: image(70), id: 0 },
    ];
    assert_eq!(
        handles_of(&managed, &of_the_host),
        vec![
            TextureHandle { texture: EguiTextureId::Managed(3, 5), image: image(10) },
            TextureHandle { texture: EguiTextureId::User(1), image: image(71) },
            TextureHandle { texture: EguiTextureId::User(0), image: image(70) },
        ]
    );
}

#[test]
fn the_entries_are_the_registered_images_each_once() {
    let mut textures = EguiUserTextures::new();
    for n in 0..20 {
        textures.add_image(image(n));
    }
    for n in 0..10 {
        textures.remove_image(image(2 * n));
    }
    let mut entries = textures.entries();
    entries.sort_by_key(|entry| entry.id);
    let expected: Vec<UserTexture> =
        (0..10).map(|n| UserTexture { image: image(2 * n + 1), id: 2 * n + 1 }).collect();
    assert_eq!(entries, expected);
}

#[test]
fn an_image_keeps_its_identity_through_its_key() {
    for id in [image(0), image(u64::MAX), ImageId::Uuid { uuid: 0 }, ImageId::Uuid { uuid: u128::MAX }] {
        assert_eq!(ImageId::of_key(id.key()), id);
    }
    assert_ne!(image(0).key(), ImageId::Uuid { uuid: 0 }.key());
    assert_eq!(image(5).key(), (false, 5));
    assert_eq!(ImageId::Uuid { uuid: 5 }.key(), (true, 5));
}

#[test]
fn every_binding_names_the_slot_that_holds_its_texture() {
    let ids: Vec<EguiTextureId> =
        (0..11).map(|n| if n % 3 == 0 { EguiTextureId::Managed(n, 1) } else { user(n) }).collect();
    for bindless in [None, Some(1), Some(2), Some(4), Some(11), Some(64)] {
        let table = EguiTextureBindGroups::build(&offered(&ids), bindless);
        for id in &ids {
            let binding = table.resolve(*id).expect("offered and resolvable");
            assert!(binding.group < table.group_count());
            let slot = binding.offset.unwrap_or(0) as usize;
            assert_eq!(table.group(binding.group)[slot], *id, "with {bindless:?}");
            assert_eq!(binding.offset.is_some(), bindless.is_some());
        }
    }
}
