//! The descriptor-keyed texture cache that backs per-view off-screen targets.
//!
//! Textures and their sampling views are opaque GPU resources, carried as
//! numeric handles. The cache keys each allocated texture by its full
//! descriptor (size, format, usage): requesting a descriptor that is already
//! cached returns the same handles and counts a hit; a new descriptor
//! allocates fresh handles. An end-of-frame sweep ages every entry and
//! releases those that no request has touched for the retention window.

use vstd::prelude::*;

verus! {

/// Usage bit: the texture can be sampled by a shader.
pub const TEXTURE_USAGE_SAMPLED: u32 = 4;

/// Usage bit: the texture can be the color target of a render pass.
pub const TEXTURE_USAGE_RENDER_ATTACHMENT: u32 = 16;

/// Number of end-of-frame sweeps an untouched entry survives before release.
pub const RETENTION_FRAMES: u32 = 3;

/// Pixel format of a texture.
#[derive(Clone, Copy, Debug, PartialEq, Eq, Structural)]
pub enum TextureFormat {
    R8Unorm,
    Rgba8Unorm,
}

/// Everything that identifies a texture allocation: the cache key.
#[derive(Clone, Copy, Debug, PartialEq, Eq, Structural)]
pub struct TextureDescriptor {
    pub width: u32,
    pub height: u32,
    pub format: TextureFormat,
    pub usage: u32,
}

/// A texture handle and the handle of its default sampling view.
#[derive(Clone, Copy, Debug, PartialEq, Eq, Structural)]
pub struct CachedTexture {
    pub texture: u64,
    pub default_view: u64,
}

/// One cache slot: the key, the handles, and how many end-of-frame sweeps
/// have passed since the last request for this key.
#[derive(Clone, Copy, Debug, PartialEq, Eq, Structural)]
pub struct TextureCacheEntry {
    pub descriptor: TextureDescriptor,
    pub texture: u64,
    pub default_view: u64,
    pub frames_since_use: u32,
}

/// The mathematical state of a cache: its entries in insertion order, the
/// next unused handle, and how many requests were answered from the cache.
pub struct CacheModel {
    pub entries: Seq<TextureCacheEntry>,
    pub next_id: u64,
    pub hits: u64,
}

/// Well-formedness: descriptors are unique keys, handles are unique, every
/// view handle is its texture handle plus one, all handles are below
/// `next_id`, and no entry has outlived the retention window.
pub open spec fn cache_model_wf(c: CacheModel) -> bool {
    &&& forall|i: int, j: int|
        0 <= i < j < c.entries.len() ==> c.entries[i].descriptor != c.entries[j].descriptor
    &&& forall|i: int, j: int|
        0 <= i < j < c.entries.len() ==> c.entries[i].texture != c.entries[j].texture
    &&& forall|i: int|
        0 <= i < c.entries.len() ==> c.entries[i].default_view == c.entries[i].texture + 1
            && c.entries[i].default_view < c.next_id
    &&& forall|i: int|
        0 <= i < c.entries.len() ==> c.entries[i].frames_since_use < RETENTION_FRAMES
}

/// Whether some entry is keyed by `d`.
pub open spec fn cache_model_contains(c: CacheModel, d: TextureDescriptor) -> bool {
    exists|i: int| 0 <= i < c.entries.len() && c.entries[i].descriptor == d
}

/// The index of the entry keyed by `d` (unique under well-formedness).
pub open spec fn cache_model_index_of(c: CacheModel, d: TextureDescriptor) -> int {
    choose|i: int| 0 <= i < c.entries.len() && c.entries[i].descriptor == d
}

/// What a request does to the cache: on a hit, reset the entry's age and
/// count the hit; on a miss, append a fresh entry with two new handles.
/// Returns the new cache and the handles handed out.
pub open spec fn spec_get(c: CacheModel, d: TextureDescriptor) -> (CacheModel, CachedTexture) {
    if cache_model_contains(c, d) {
        let j = cache_model_index_of(c, d);
        let e = c.entries[j];
        (
            CacheModel {
                entries: c.entries.update(
                    j,
                    TextureCacheEntry {
                        descriptor: e.descriptor,
                        texture: e.texture,
                        default_view: e.default_view,
                        frames_since_use: 0,
                    },
                ),
                next_id: c.next_id,
                hits: (c.hits + 1) as u64,
            },
            CachedTexture { texture: e.texture, default_view: e.default_view },
        )
    } else {
        (
            CacheModel {
                entries: c.entries.push(
                    TextureCacheEntry {
                        descriptor: d,
                        texture: c.next_id,
                        default_view: (c.next_id + 1) as u64,
                        frames_since_use: 0,
                    },
                ),
                next_id: (c.next_id + 2) as u64,
                hits: c.hits,
            },
            CachedTexture { texture: c.next_id, default_view: (c.next_id + 1) as u64 },
        )
    }
}

/// The first `i` entries after an end-of-frame sweep: each surviving entry is
/// one frame older, and entries that would reach the retention limit are
/// dropped.
pub open spec fn aged_prefix(s: Seq<TextureCacheEntry>, i: int) -> Seq<TextureCacheEntry>
    decreases i,
{
    if i <= 0 {
        Seq::empty()
    } else {
        let prev = aged_prefix(s, i - 1);
        let e = s[i - 1];
        if e.frames_since_use + 1 < RETENTION_FRAMES {
            prev.push(
                TextureCacheEntry {
                    descriptor: e.descriptor,
                    texture: e.texture,
                    default_view: e.default_view,
                    frames_since_use: (e.frames_since_use + 1) as u32,
                },
            )
        } else {
            prev
        }
    }
}

/// What the end-of-frame sweep does to the whole cache.
pub open spec fn spec_update(c: CacheModel) -> CacheModel {
    CacheModel {
        entries: aged_prefix(c.entries, c.entries.len() as int),
        next_id: c.next_id,
        hits: c.hits,
    }
}

/// Every aged entry comes from a unique source entry at a smaller index, with
/// key and handles unchanged and age incremented; and every source entry
/// young enough to survive is present.
pub proof fn lemma_aged_prefix_members(s: Seq<TextureCacheEntry>, i: int)
    requires
        0 <= i <= s.len(),
    ensures
        aged_prefix(s, i).len() <= i,
        forall|a: int| 0 <= a < aged_prefix(s, i).len()
            ==> exists|k: int|
                0 <= k < i && #[trigger] aged_prefix(s, i)[a].descriptor == s[k].descriptor
                    && aged_prefix(s, i)[a].texture == s[k].texture
                    && aged_prefix(s, i)[a].default_view == s[k].default_view
                    && aged_prefix(s, i)[a].frames_since_use == s[k].frames_since_use + 1
                    && s[k].frames_since_use + 1 < RETENTION_FRAMES,
        forall|k: int| 0 <= k < i && #[trigger] s[k].frames_since_use + 1 < RETENTION_FRAMES
            ==> exists|a: int|
                0 <= a < aged_prefix(s, i).len()
                    && #[trigger] aged_prefix(s, i)[a].descriptor == s[k].descriptor
                    && aged_prefix(s, i)[a].texture == s[k].texture
                    && aged_prefix(s, i)[a].default_view == s[k].default_view,
    decreases i,
{
    if i > 0 {
        lemma_aged_prefix_members(s, i - 1);
        let prev = aged_prefix(s, i - 1);
        let cur = aged_prefix(s, i);
        if s[i - 1].frames_since_use + 1 < RETENTION_FRAMES {
            assert(cur[cur.len() - 1].descriptor == s[i - 1].descriptor);
            assert(forall|a: int| 0 <= a < prev.len() ==> cur[a] == prev[a]);
        }
    }
}

/// The texture cache itself. `entries` is the backing store in insertion
/// order; `next_id` is the next unused GPU handle; `hits` counts requests
/// answered without a new allocation.
#[derive(Clone, Debug)]
pub struct TextureCache {
    pub entries: Vec<TextureCacheEntry>,
    pub next_id: u64,
    pub hits: u64,
}

impl View for TextureCache {
    type V = CacheModel;

    open spec fn view(&self) -> CacheModel {
        CacheModel { entries: self.entries@, next_id: self.next_id, hits: self.hits }
    }
}

impl TextureCache {
    /// An empty cache; handle numbering starts at `first_id`.
    pub fn new(first_id: u64) -> (c: TextureCache)
        ensures
            c@.entries.len() == 0,
            c@.next_id == first_id,
            c@.hits == 0,
            cache_model_wf(c@),
    {
        TextureCache { entries: Vec::new(), next_id: first_id, hits: 0 }
    }

    /// Requests the texture for a descriptor. A descriptor already in the
    /// cache answers with the same handles as before (a hit, idempotent);
    /// a new one allocates two fresh handles. Exactly `spec_get`.
    pub fn get(&mut self, descriptor: &TextureDescriptor) -> (r: CachedTexture)
        requires
            cache_model_wf(old(self)@),
            old(self)@.next_id + 2 <= u64::MAX,
            old(self)@.hits + 1 <= u64::MAX,
        ensures
            final(self)@ == spec_get(old(self)@, *descriptor).0,
            r == spec_get(old(self)@, *descriptor).1,
            cache_model_wf(final(self)@),
            cache_model_contains(final(self)@, *descriptor),
    {
        let ghost c0 = self@;
        let n = self.entries.len();
        let mut i: usize = 0;
        while i < n
            invariant
                n == self.entries.len(),
                i <= n,
                self@ == c0,
                c0 == old(self)@,
                cache_model_wf(c0),
                c0.next_id + 2 <= u64::MAX,
                c0.hits + 1 <= u64::MAX,
                forall|k: int| 0 <= k < i ==> c0.entries[k].descriptor != *descriptor,
            decreases n - i,
        {
            if self.entries[i].descriptor == *descriptor {
                let e = self.entries[i];
                self.entries[i] = TextureCacheEntry {
                    descriptor: e.descriptor,
                    texture: e.texture,
                    default_view: e.default_view,
                    frames_since_use: 0,
                };
                self.hits = self.hits + 1;
                proof {
                    assert(cache_model_contains(c0, *descriptor));
                    let j = cache_model_index_of(c0, *descriptor);
                    assert(0 <= j < c0.entries.len() && c0.entries[j].descriptor == *descriptor);
                    assert(j == i as int);
                    assert(self@.entries =~= spec_get(c0, *descriptor).0.entries);
                    lemma_cache_get_preserves_wf(c0, *descriptor);
                }
                return CachedTexture { texture: e.texture, default_view: e.default_view };
            }
            i = i + 1;
        }
        let texture = self.next_id;
        let default_view = self.next_id + 1;
        self.next_id = self.next_id + 2;
        self.entries.push(TextureCacheEntry {
            descriptor: *descriptor,
            texture,
            default_view,
            frames_since_use: 0,
        });
        proof {
            assert(!cache_model_contains(c0, *descriptor));
            assert(self@.entries =~= spec_get(c0, *descriptor).0.entries);
            lemma_cache_get_preserves_wf(c0, *descriptor);
        }
        CachedTexture { texture, default_view }
    }

    /// The end-of-frame sweep: ages every entry by one frame and releases
    /// those that no request has touched for the retention window. Exactly
    /// `spec_update`.
    pub fn update(&mut self)
        requires
            cache_model_wf(old(self)@),
        ensures
            final(self)@ == spec_update(old(self)@),
            cache_model_wf(final(self)@),
    {
        let ghost c0 = self@;
        let n = self.entries.len();
        let mut kept: Vec<TextureCacheEntry> = Vec::new();
        let mut i: usize = 0;
        while i < n
            invariant
                n == self.entries.len(),
                i <= n,
                self@ == c0,
                kept@ == aged_prefix(c0.entries, i as int),
                forall|k: int| 0 <= k < c0.entries.len()
                    ==> #[trigger] c0.entries[k].frames_since_use < RETENTION_FRAMES,
            decreases n - i,
        {
            let e = self.entries[i];
            if e.frames_since_use + 1 < RETENTION_FRAMES {
                kept.push(TextureCacheEntry {
                    descriptor: e.descriptor,
                    texture: e.texture,
                    default_view: e.default_view,
                    frames_since_use: e.frames_since_use + 1,
                });
            }
            i = i + 1;
        }
        self.entries = kept;
        proof {
            lemma_spec_update_wf(c0);
        }
    }
}

/// The end-of-frame sweep preserves well-formedness: surviving entries keep
/// their unique keys and handles and stay within the retention window.
#[verifier::rlimit(60)]
pub proof fn lemma_spec_update_wf(c: CacheModel)
    requires
        cache_model_wf(c),
    ensures
        cache_model_wf(spec_update(c)),
{
    let s = c.entries;
    let aged = aged_prefix(s, s.len() as int);
    lemma_aged_prefix_members(s, s.len() as int);
    assert forall|a: int| 0 <= a < aged.len() implies
        aged[a].default_view == aged[a].texture + 1 && aged[a].default_view < c.next_id
            && aged[a].frames_since_use < RETENTION_FRAMES by {
        let ka = choose|k: int|
            0 <= k < s.len() && #[trigger] aged[a].descriptor == s[k].descriptor
                && aged[a].texture == s[k].texture && aged[a].default_view == s[k].default_view
                && aged[a].frames_since_use == s[k].frames_since_use + 1
                && s[k].frames_since_use + 1 < RETENTION_FRAMES;
        assert(s[ka].default_view == s[ka].texture + 1 && s[ka].default_view < c.next_id);
    }
    lemma_aged_prefix_distinct(s, s.len() as int);
}

/// The sweep keeps distinct keys and handles distinct: no two surviving
/// entries share a descriptor or a texture handle.
#[verifier::rlimit(60)]
proof fn lemma_aged_prefix_distinct(s: Seq<TextureCacheEntry>, i: int)
    requires
        0 <= i <= s.len(),
        forall|p: int, q: int| 0 <= p < q < s.len() ==> s[p].descriptor != s[q].descriptor,
        forall|p: int, q: int| 0 <= p < q < s.len() ==> s[p].texture != s[q].texture,
    ensures
        forall|a: int, b: int| 0 <= a < b < aged_prefix(s, i).len()
            ==> aged_prefix(s, i)[a].descriptor != aged_prefix(s, i)[b].descriptor
                && aged_prefix(s, i)[a].texture != aged_prefix(s, i)[b].texture,
    decreases i,
{
    if i > 0 {
        lemma_aged_prefix_distinct(s, i - 1);
        lemma_aged_prefix_members(s, i - 1);
        let prev = aged_prefix(s, i - 1);
        let cur = aged_prefix(s, i);
        if s[i - 1].frames_since_use + 1 < RETENTION_FRAMES {
            assert forall|a: int| 0 <= a < prev.len() implies
                prev[a].descriptor != s[i - 1].descriptor
                    && prev[a].texture != s[i - 1].texture by {
                let k = choose|k: int|
                    0 <= k < i - 1 && #[trigger] prev[a].descriptor == s[k].descriptor
                        && prev[a].texture == s[k].texture
                        && prev[a].default_view == s[k].default_view
                        && prev[a].frames_since_use == s[k].frames_since_use + 1
                        && s[k].frames_since_use + 1 < RETENTION_FRAMES;
                assert(s[k].descriptor != s[i - 1].descriptor);
                assert(s[k].texture != s[i - 1].texture);
            }
            assert(forall|a: int| 0 <= a < prev.len() ==> cur[a] == prev[a]);
            assert(cur[cur.len() - 1].descriptor == s[i - 1].descriptor
                && cur[cur.len() - 1].texture == s[i - 1].texture);
        }
    }
}

/// The handles the cache associates with a descriptor it contains.
pub open spec fn cache_lookup(c: CacheModel, d: TextureDescriptor) -> CachedTexture {
    let e = c.entries[cache_model_index_of(c, d)];
    CachedTexture { texture: e.texture, default_view: e.default_view }
}

/// A request for any descriptor never disturbs what the cache associates
/// with a descriptor already present.
pub proof fn lemma_get_preserves_lookup(c: CacheModel, d: TextureDescriptor, d0: TextureDescriptor)
    requires
        cache_model_wf(c),
        c.next_id + 2 <= u64::MAX,
        cache_model_contains(c, d0),
    ensures
        cache_model_contains(spec_get(c, d).0, d0),
        cache_lookup(spec_get(c, d).0, d0) == cache_lookup(c, d0),
{
    let c1 = spec_get(c, d).0;
    lemma_cache_get_preserves_wf(c, d);
    let j0 = cache_model_index_of(c, d0);
    assert(0 <= j0 < c.entries.len() && c.entries[j0].descriptor == d0);
    assert(c1.entries[j0].descriptor == d0
        && c1.entries[j0].texture == c.entries[j0].texture
        && c1.entries[j0].default_view == c.entries[j0].default_view);
    assert(cache_model_contains(c1, d0));
    let j1 = cache_model_index_of(c1, d0);
    assert(0 <= j1 < c1.entries.len() && c1.entries[j1].descriptor == d0);
    if j1 != j0 {
        assert(c1.entries[j1].descriptor != c1.entries[j0].descriptor);
    }
}

/// A hit answers with exactly the handles the cache associates with the
/// descriptor.
pub proof fn lemma_get_hit_is_lookup(c: CacheModel, d: TextureDescriptor)
    requires
        cache_model_wf(c),
        cache_model_contains(c, d),
    ensures
        spec_get(c, d).1 == cache_lookup(c, d),
{
}

/// Requesting the same descriptor twice in one frame returns the same backing
/// texture and view, and the second request is answered as a cache hit.
pub proof fn lemma_cache_get_idempotent(c: CacheModel, d: TextureDescriptor)
    requires
        cache_model_wf(c),
        c.next_id + 4 <= u64::MAX,
        c.hits + 2 <= u64::MAX,
    ensures
        spec_get(spec_get(c, d).0, d).1 == spec_get(c, d).1,
        spec_get(spec_get(c, d).0, d).0.hits == spec_get(c, d).0.hits + 1,
        spec_get(spec_get(c, d).0, d).0.next_id == spec_get(c, d).0.next_id,
{
    lemma_cache_get_preserves_wf(c, d);
    let (c1, r1) = spec_get(c, d);
    lemma_cache_get_preserves_wf(c1, d);
    let j1 = cache_model_index_of(c1, d);
    assert(c1.entries[j1].texture == r1.texture && c1.entries[j1].default_view == r1.default_view);
}

/// Requests for two different descriptors in one frame return distinct
/// backing textures.
pub proof fn lemma_cache_get_distinct(c: CacheModel, d1: TextureDescriptor, d2: TextureDescriptor)
    requires
        cache_model_wf(c),
        c.next_id + 4 <= u64::MAX,
        c.hits + 2 <= u64::MAX,
        d1 != d2,
    ensures
        spec_get(spec_get(c, d1).0, d2).1.texture != spec_get(c, d1).1.texture,
{
    let (c1, r1) = spec_get(c, d1);
    let (c2, r2) = spec_get(c1, d2);
    if cache_model_contains(c, d1) {
        let j1 = cache_model_index_of(c, d1);
        if cache_model_contains(c1, d2) {
            let j2 = cache_model_index_of(c1, d2);
            assert(j2 != j1);
            assert(c1.entries[j2].texture != c1.entries[j1].texture);
        }
    } else {
        if cache_model_contains(c1, d2) {
            let j2 = cache_model_index_of(c1, d2);
            assert(j2 != c.entries.len());
            assert(c1.entries[j2].texture < c.next_id);
        }
    }
}

/// Across two consecutive frames with an end-of-frame sweep between them, a
/// repeated request reuses the same backing texture instead of allocating a
/// new one: the second request raises the hit count and leaves the handle
/// counter untouched.
#[verifier::rlimit(100)]
pub proof fn lemma_two_frame_reuse(c: CacheModel, d: TextureDescriptor)
    requires
        cache_model_wf(c),
        c.next_id + 2 <= u64::MAX,
        c.hits + 2 <= u64::MAX,
    ensures
        spec_get(spec_update(spec_get(c, d).0), d).1 == spec_get(c, d).1,
        spec_get(spec_update(spec_get(c, d).0), d).0.hits == spec_get(c, d).0.hits + 1,
        spec_get(spec_update(spec_get(c, d).0), d).0.next_id == spec_get(c, d).0.next_id,
{
    lemma_cache_get_preserves_wf(c, d);
    let (c1, r1) = spec_get(c, d);
    let j1 = cache_model_index_of(c1, d);
    assert(c1.entries[j1].frames_since_use == 0);
    assert(c1.entries[j1].texture == r1.texture && c1.entries[j1].default_view == r1.default_view);
    let c2 = spec_update(c1);
    let s = c1.entries;
    lemma_aged_prefix_members(s, s.len() as int);
    lemma_spec_update_wf(c1);
    assert(s[j1].frames_since_use + 1 < RETENTION_FRAMES);
    let a = choose|a: int|
        0 <= a < c2.entries.len() && #[trigger] c2.entries[a].descriptor == s[j1].descriptor
            && c2.entries[a].texture == s[j1].texture
            && c2.entries[a].default_view == s[j1].default_view;
    assert(cache_model_contains(c2, d));
    let j2 = cache_model_index_of(c2, d);
    let ghost cw = c2.entries;
    if j2 != a {
        assert(cw[j2].descriptor != cw[a].descriptor);
    }
    assert(spec_get(c2, d).1 == CachedTexture { texture: cw[a].texture, default_view: cw[a].default_view });
}

/// A request leaves the cache well-formed, with the requested descriptor
/// present as the key of the entry whose handles were handed out.
pub proof fn lemma_cache_get_preserves_wf(c: CacheModel, d: TextureDescriptor)
    requires
        cache_model_wf(c),
        c.next_id + 2 <= u64::MAX,
    ensures
        cache_model_wf(spec_get(c, d).0),
        cache_model_contains(spec_get(c, d).0, d),
        cache_model_index_of(spec_get(c, d).0, d)
            == if cache_model_contains(c, d) { cache_model_index_of(c, d) } else { c.entries.len() as int },
        spec_get(c, d).0.entries[cache_model_index_of(spec_get(c, d).0, d)]
            == (TextureCacheEntry {
                descriptor: d,
                texture: spec_get(c, d).1.texture,
                default_view: spec_get(c, d).1.default_view,
                frames_since_use: 0,
            }),
{
    let c1 = spec_get(c, d).0;
    if cache_model_contains(c, d) {
        let j0 = cache_model_index_of(c, d);
        assert(0 <= j0 < c.entries.len() && c.entries[j0].descriptor == d);
        assert(c1.entries[j0].descriptor == d);
        assert(cache_model_contains(c1, d));
        let j1 = cache_model_index_of(c1, d);
        assert(0 <= j1 < c1.entries.len() && c1.entries[j1].descriptor == d);
        if j1 != j0 {
            assert(c1.entries[j1] == c.entries[j1]);
            assert(c.entries[j1].descriptor == c.entries[j0].descriptor);
        }
    } else {
        let n = c.entries.len() as int;
        assert(c1.entries[n].descriptor == d);
        assert(cache_model_contains(c1, d));
        let j1 = cache_model_index_of(c1, d);
        assert(0 <= j1 < c1.entries.len() && c1.entries[j1].descriptor == d);
        if j1 != n {
            assert(c1.entries[j1] == c.entries[j1]);
            assert(cache_model_contains(c, d));
        }
        assert forall|i: int| 0 <= i < n implies c1.entries[i].texture != c.next_id by {
            assert(c.entries[i].default_view < c.next_id);
        }
    }
}

} // verus!
