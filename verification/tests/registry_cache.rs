//! The texture registry and the descriptor cache.

use imgui_vulkano_renderer::{DescriptorSetCache, TextureId, Textures, FONT_TEX_ID};
use std::cell::Cell;
use std::sync::Arc;

#[test]
fn insert_then_get_returns_the_texture() {
    let mut reg: Textures<&'static str> = Textures::new();
    let id = reg.insert("stone");
    assert_eq!(reg.get(id), Some(&"stone"));
}

#[test]
fn insert_ids_distinct_and_never_sentinel() {
    let mut reg: Textures<u32> = Textures::new();
    let mut ids = Vec::new();
    for i in 0..16u32 {
        let id = reg.insert(i);
        assert_ne!(id.0, FONT_TEX_ID);
        assert!(!ids.contains(&id));
        ids.push(id);
    }
    for (i, id) in ids.iter().enumerate() {
        assert_eq!(reg.get(*id), Some(&(i as u32)));
    }
}

#[test]
fn enumeration_lists_the_registered_ids_in_order() {
    let mut reg: Textures<u32> = Textures::new();
    let a = reg.insert(1);
    let b = reg.insert(2);
    let c = reg.insert(3);
    reg.remove(b);
    assert_eq!(reg.ids(), vec![a, c]);
}

#[test]
fn unknown_and_removed_ids_are_not_found() {
    let mut reg: Textures<u32> = Textures::new();
    let id = reg.insert(7);
    assert_eq!(reg.get(TextureId(id.0 + 1)), None);
    assert_eq!(reg.get(TextureId(FONT_TEX_ID)), None);
    assert_eq!(reg.remove(id), Some(7));
    assert_eq!(reg.get(id), None);
    assert_eq!(reg.remove(id), None);
}

#[test]
fn get_or_insert_builds_at_most_once_per_id() {
    let mut cache: DescriptorSetCache<u64> = DescriptorSetCache::new();
    let builds = Cell::new(0u32);
    let id = TextureId(3);

    let first = cache
        .get_or_insert(id, |_| {
            builds.set(builds.get() + 1);
            Ok::<Arc<u64>, ()>(Arc::new(11))
        })
        .unwrap();
    assert_eq!(*first, 11);
    assert_eq!(builds.get(), 1);

    let second = cache
        .get_or_insert(id, |_| {
            builds.set(builds.get() + 1);
            Ok::<Arc<u64>, ()>(Arc::new(99))
        })
        .unwrap();
    assert_eq!(*second, 11);
    assert_eq!(builds.get(), 1);
}

#[test]
fn clear_forces_rebuild_of_user_entries() {
    let mut cache: DescriptorSetCache<u64> = DescriptorSetCache::new();
    let builds = Cell::new(0u32);
    let id = TextureId(5);
    let build = |_| {
        builds.set(builds.get() + 1);
        Ok::<Arc<u64>, ()>(Arc::new(1))
    };
    cache.get_or_insert(id, build).unwrap();
    cache.get_or_insert(id, build).unwrap();
    assert_eq!(builds.get(), 1);
    cache.clear();
    cache.get_or_insert(id, build).unwrap();
    assert_eq!(builds.get(), 2);
}

#[test]
fn clear_font_texture_rebuilds_only_the_font_entry() {
    let mut cache: DescriptorSetCache<u64> = DescriptorSetCache::new();
    let font_builds = Cell::new(0u32);
    let user_builds = Cell::new(0u32);
    let font_id = TextureId(FONT_TEX_ID);
    let user_id = TextureId(2);
    let font_build = |_| {
        font_builds.set(font_builds.get() + 1);
        Ok::<Arc<u64>, ()>(Arc::new(10))
    };
    let user_build = |_| {
        user_builds.set(user_builds.get() + 1);
        Ok::<Arc<u64>, ()>(Arc::new(20))
    };

    cache.get_or_insert(font_id, font_build).unwrap();
    cache.get_or_insert(user_id, user_build).unwrap();
    assert_eq!((font_builds.get(), user_builds.get()), (1, 1));

    cache.clear_font_texture();
    cache.get_or_insert(font_id, font_build).unwrap();
    cache.get_or_insert(user_id, user_build).unwrap();
    assert_eq!((font_builds.get(), user_builds.get()), (2, 1));
}

#[test]
fn failed_build_is_not_stored() {
    let mut cache: DescriptorSetCache<u64> = DescriptorSetCache::new();
    let builds = Cell::new(0u32);
    let id = TextureId(4);
    let err = cache.get_or_insert(id, |_| {
        builds.set(builds.get() + 1);
        Err::<Arc<u64>, &'static str>("boom")
    });
    assert_eq!(err, Err("boom"));
    let ok = cache.get_or_insert(id, |_| {
        builds.set(builds.get() + 1);
        Ok::<Arc<u64>, &'static str>(Arc::new(5))
    });
    assert_eq!(*ok.unwrap(), 5);
    assert_eq!(builds.get(), 2);
}
