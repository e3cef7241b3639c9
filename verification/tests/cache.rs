use uber_effect::texture_cache::{
    TextureCache, TextureDescriptor, TextureFormat, RETENTION_FRAMES,
    TEXTURE_USAGE_RENDER_ATTACHMENT, TEXTURE_USAGE_SAMPLED,
};

fn descriptor(width: u32, height: u32) -> TextureDescriptor {
    TextureDescriptor {
        width,
        height,
        format: TextureFormat::R8Unorm,
        usage: TEXTURE_USAGE_RENDER_ATTACHMENT | TEXTURE_USAGE_SAMPLED,
    }
}

#[test]
fn same_descriptor_twice_returns_same_resource() {
    let mut cache = TextureCache::new(100);
    let d = descriptor(800, 600);
    let first = cache.get(&d);
    let second = cache.get(&d);
    assert_eq!(second, first);
    assert_eq!(cache.hits, 1);
    assert_eq!(cache.entries.len(), 1);
}

#[test]
fn different_size_returns_distinct_resource() {
    let mut cache = TextureCache::new(0);
    let a = cache.get(&descriptor(800, 600));
    let b = cache.get(&descriptor(1024, 768));
    assert_ne!(a.texture, b.texture);
    assert_ne!(a.default_view, b.default_view);
    assert_eq!(cache.hits, 0);
    assert_eq!(cache.entries.len(), 2);
}

#[test]
fn different_format_returns_distinct_resource() {
    let mut cache = TextureCache::new(0);
    let a = cache.get(&descriptor(800, 600));
    let mut rgba = descriptor(800, 600);
    rgba.format = TextureFormat::Rgba8Unorm;
    let b = cache.get(&rgba);
    assert_ne!(a.texture, b.texture);
}

#[test]
fn next_frame_reuses_texture_as_a_hit() {
    let mut cache = TextureCache::new(0);
    let d = descriptor(800, 600);
    let first = cache.get(&d);
    let next_id_after_first = cache.next_id;
    cache.update();
    let second = cache.get(&d);
    assert_eq!(second, first);
    assert_eq!(cache.hits, 1);
    // No allocation happened in the second frame.
    assert_eq!(cache.next_id, next_id_after_first);
}

#[test]
fn untouched_entry_is_released_after_retention_window() {
    let mut cache = TextureCache::new(0);
    let d = descriptor(320, 200);
    let first = cache.get(&d);
    for _ in 0..RETENTION_FRAMES {
        cache.update();
    }
    assert!(cache.entries.is_empty());
    let again = cache.get(&d);
    assert_ne!(again.texture, first.texture);
    assert_eq!(cache.hits, 0);
}

#[test]
fn touched_entry_survives_sweeps() {
    let mut cache = TextureCache::new(0);
    let d = descriptor(320, 200);
    let first = cache.get(&d);
    for _ in 0..10 {
        cache.update();
        assert_eq!(cache.get(&d), first);
    }
    assert_eq!(cache.hits, 10);
}
