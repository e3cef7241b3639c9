//! The per-frame stages: extraction, preparation and queueing.
//!
//! The host's entity store is reduced to a keyed record store: one
//! `ViewRecord` per view entity, looked up by its numeric identifier. Each
//! stage rewrites exactly the fields it owns and leaves everything else
//! untouched, and each is specified against a pure model of its effect, so
//! the frame laws (idempotent target allocation, per-frame binding rebuild,
//! the zero-view skip) are provable facts about the stage functions.

use vstd::prelude::*;
use crate::components::EffectConfiguration;
use crate::render::{BindGroup, RenderDevice, UberMeta};
use crate::texture_cache::{
    CacheModel, CachedTexture, TextureCache, TextureDescriptor, TextureFormat,
    TEXTURE_USAGE_RENDER_ATTACHMENT, TEXTURE_USAGE_SAMPLED, cache_model_wf, spec_get,
};
use crate::render::lemma_staged_flat_single;
use crate::uniform::{UberUniform, uniform_of};

verus! {

/// A view's pixel dimensions, copied to the render side by the host's camera
/// extraction.
#[derive(Clone, Copy, Debug, PartialEq, Eq, Structural)]
pub struct ExtractedView {
    pub width: u32,
    pub height: u32,
}

/// One scheduled draw: which draw routine to run, the per-view index handed
/// to it, and the key draws are ordered by.
#[derive(Clone, Copy, Debug, PartialEq, Eq, Structural)]
pub struct Drawable {
    pub draw_function: u64,
    pub draw_key: usize,
    pub sort_key: usize,
}

/// A view's ordered draw list for this pass.
#[derive(Debug)]
pub struct UberPhase {
    pub drawn_things: Vec<Drawable>,
}

impl UberPhase {
    /// Appends one draw entry; insertion order is kept.
    pub fn add(&mut self, drawable: Drawable)
        ensures
            final(self).drawn_things@ == old(self).drawn_things@.push(drawable),
    {
        self.drawn_things.push(drawable);
    }
}

/// The view's off-screen target: the cached texture and its sampling view.
#[derive(Clone, Copy, Debug, PartialEq, Eq, Structural)]
pub struct ViewUber {
    pub view_uber_texture: u64,
    pub view_uber_texture_view: u64,
}

/// The per-view binding set, rebuilt every frame by the queue stage.
#[derive(Clone, Copy, Debug, PartialEq, Eq, Structural)]
pub struct UberViewBindGroup {
    pub view_bind_group: BindGroup,
}

/// The frame's shared binding set for the effect uniform buffer, rebuilt
/// every frame by the queue stage.
#[derive(Clone, Copy, Debug, PartialEq, Eq, Structural)]
pub struct UberConfigBindGroup {
    pub uber_config_bind_group: BindGroup,
}

/// The render-side record of one view entity.
#[derive(Debug)]
pub struct ViewRecord {
    pub entity: u64,
    pub extracted_view: Option<ExtractedView>,
    pub uber_phase: Option<UberPhase>,
    pub view_uber: Option<ViewUber>,
    pub view_bind_group: Option<UberViewBindGroup>,
    pub view_uniform_offset: u32,
}

/// Record store well-formedness: entity identifiers are unique keys.
pub open spec fn views_wf(views: Seq<ViewRecord>) -> bool {
    forall|i: int, j: int| 0 <= i < j < views.len() ==> views[i].entity != views[j].entity
}

/// Whether some record is keyed by `entity`.
pub open spec fn views_contain(views: Seq<ViewRecord>, entity: u64) -> bool {
    exists|i: int| 0 <= i < views.len() && views[i].entity == entity
}

/// The index of the record keyed by `entity` (unique under well-formedness).
pub open spec fn views_index_of(views: Seq<ViewRecord>, entity: u64) -> int {
    choose|i: int| 0 <= i < views.len() && views[i].entity == entity
}

/// Finds the record keyed by `entity`, if any: `Some` exactly when the store
/// contains the key, and then the store's index for it.
pub fn find_view_index(views: &Vec<ViewRecord>, entity: u64) -> (r: Option<usize>)
    requires
        views_wf(views@),
    ensures
        r is Some <==> views_contain(views@, entity),
        r matches Some(i) ==> i < views@.len()
            && views@[i as int].entity == entity
            && i as int == views_index_of(views@, entity),
{
    let n = views.len();
    let mut i: usize = 0;
    while i < n
        invariant
            n == views@.len(),
            i <= n,
            views_wf(views@),
            forall|k: int| 0 <= k < i ==> views@[k].entity != entity,
        decreases n - i,
    {
        if views[i].entity == entity {
            proof {
                assert(views_contain(views@, entity));
                let j = views_index_of(views@, entity);
                assert(views@[j].entity == entity);
                if j != i as int {
                    assert(views@[j].entity == views@[i as int].entity);
                }
            }
            return Option::Some(i);
        }
        i = i + 1;
    }
    Option::None
}

/// A view is prepared and queued when it carries both its dimensions and a
/// draw-phase record.
pub open spec fn view_eligible(r: ViewRecord) -> bool {
    r.extracted_view is Some && r.uber_phase is Some
}

/// The descriptor every view target is requested under: the view's pixel
/// size, the single-channel mask format, render-attachment plus sampled
/// usage.
pub open spec fn view_target_descriptor(width: u32, height: u32) -> TextureDescriptor {
    TextureDescriptor {
        width,
        height,
        format: TextureFormat::R8Unorm,
        usage: TEXTURE_USAGE_RENDER_ATTACHMENT | TEXTURE_USAGE_SAMPLED,
    }
}

/// The extraction stage. Copies the host configuration into the render-side
/// snapshot and gives the active camera's record a fresh, empty draw phase
/// (spawning the record if the entity is new). Nothing else changes; no GPU
/// work happens here.
pub fn extract_uber(
    active_camera_3d: Option<u64>,
    uber_config: &EffectConfiguration,
    views: &mut Vec<ViewRecord>,
    extracted_config: &mut Option<EffectConfiguration>,
)
    requires
        views_wf(old(views)@),
    ensures
        views_wf(final(views)@),
        *final(extracted_config) == Some(*uber_config),
        active_camera_3d is None ==> final(views)@ == old(views)@,
        active_camera_3d matches Some(cam) ==> {
            &&& views_contain(final(views)@, cam)
            &&& ({
                let j = views_index_of(final(views)@, cam);
                let r = final(views)@[j];
                r.uber_phase is Some && r.uber_phase->0.drawn_things@.len() == 0
            })
            &&& if views_contain(old(views)@, cam) {
                let j = views_index_of(old(views)@, cam);
                &&& final(views)@.len() == old(views)@.len()
                &&& views_index_of(final(views)@, cam) == j
                &&& forall|k: int| 0 <= k < old(views)@.len() && k != j
                    ==> final(views)@[k] == old(views)@[k]
                &&& final(views)@[j].entity == old(views)@[j].entity
                &&& final(views)@[j].extracted_view == old(views)@[j].extracted_view
                &&& final(views)@[j].view_uber == old(views)@[j].view_uber
                &&& final(views)@[j].view_bind_group == old(views)@[j].view_bind_group
                &&& final(views)@[j].view_uniform_offset == old(views)@[j].view_uniform_offset
            } else {
                &&& final(views)@.len() == old(views)@.len() + 1
                &&& forall|k: int| 0 <= k < old(views)@.len()
                    ==> final(views)@[k] == old(views)@[k]
                &&& final(views)@[old(views)@.len() as int].entity == cam
                &&& final(views)@[old(views)@.len() as int].extracted_view is None
                &&& final(views)@[old(views)@.len() as int].view_uber is None
                &&& final(views)@[old(views)@.len() as int].view_bind_group is None
            }
        },
{
    *extracted_config = Option::Some(*uber_config);
    match active_camera_3d {
        Option::None => {}
        Option::Some(cam) => {
            let ghost vs0 = views@;
            let n = views.len();
            let mut i: usize = 0;
            while i < n
                invariant
                    n == views@.len(),
                    i <= n,
                    views@ == vs0,
                    vs0 == old(views)@,
                    views_wf(vs0),
                    *extracted_config == Some(*uber_config),
                    active_camera_3d == Some(cam),
                    forall|k: int| 0 <= k < i ==> vs0[k].entity != cam,
                decreases n - i,
            {
                if views[i].entity == cam {
                    let phase = UberPhase { drawn_things: Vec::new() };
                    let r = &mut views[i];
                    r.uber_phase = Option::Some(phase);
                    proof {
                        assert(views@[i as int].entity == cam);
                        assert(views_contain(views@, cam));
                        assert(views_contain(vs0, cam));
                        let j0 = views_index_of(vs0, cam);
                        assert(vs0[j0].entity == cam);
                        assert(j0 == i as int);
                        let j1 = views_index_of(views@, cam);
                        assert(views@[j1].entity == cam);
                        if j1 != i as int {
                            assert(views@[j1] == vs0[j1]);
                        }
                        assert(j1 == i as int);
                    }
                    return;
                }
                i = i + 1;
            }
            views.push(ViewRecord {
                entity: cam,
                extracted_view: Option::None,
                uber_phase: Option::Some(UberPhase { drawn_things: Vec::new() }),
                view_uber: Option::None,
                view_bind_group: Option::None,
                view_uniform_offset: 0,
            });
            proof {
                assert(views@[vs0.len() as int].entity == cam);
                assert(views_contain(views@, cam));
                let j1 = views_index_of(views@, cam);
                assert(views@[j1].entity == cam);
                if j1 != vs0.len() as int {
                    assert(views@[j1] == vs0[j1]);
                }
                assert(j1 == vs0.len() as int);
            }
        }
    }
}

/// The cache after the first `i` views' target requests of the preparation
/// stage (ineligible views request nothing).
pub open spec fn prepare_cache_prefix(c: CacheModel, vs: Seq<ViewRecord>, i: int) -> CacheModel
    decreases i,
{
    if i <= 0 {
        c
    } else {
        let prev = prepare_cache_prefix(c, vs, i - 1);
        let r = vs[i - 1];
        if view_eligible(r) {
            spec_get(
                prev,
                view_target_descriptor(r.extracted_view->0.width, r.extracted_view->0.height),
            ).0
        } else {
            prev
        }
    }
}

/// The target handed to view `i` by the preparation stage.
pub open spec fn prepare_view_target(c: CacheModel, vs: Seq<ViewRecord>, i: int) -> CachedTexture {
    spec_get(
        prepare_cache_prefix(c, vs, i),
        view_target_descriptor(vs[i].extracted_view->0.width, vs[i].extracted_view->0.height),
    ).1
}

/// The handle counter never decreases and the hit counter grows by at most
/// one per view as the preparation stage walks the views.
pub proof fn lemma_prepare_cache_prefix_bounds(c: CacheModel, vs: Seq<ViewRecord>, i: int)
    requires
        0 <= i <= vs.len(),
        cache_model_wf(c),
        c.next_id + 2 * vs.len() <= u64::MAX,
        c.hits + vs.len() <= u64::MAX,
    ensures
        cache_model_wf(prepare_cache_prefix(c, vs, i)),
        prepare_cache_prefix(c, vs, i).next_id <= c.next_id + 2 * i,
        prepare_cache_prefix(c, vs, i).next_id >= c.next_id,
        prepare_cache_prefix(c, vs, i).hits <= c.hits + i,
        prepare_cache_prefix(c, vs, i).hits >= c.hits,
    decreases i,
{
    if i > 0 {
        lemma_prepare_cache_prefix_bounds(c, vs, i - 1);
        let prev = prepare_cache_prefix(c, vs, i - 1);
        let r = vs[i - 1];
        if view_eligible(r) {
            crate::texture_cache::lemma_cache_get_preserves_wf(
                prev,
                view_target_descriptor(r.extracted_view->0.width, r.extracted_view->0.height),
            );
        }
    }
}

/// Once a descriptor is in the cache partway through the preparation walk,
/// every later step keeps it there with the same handles.
proof fn lemma_prepare_lookup_stable(
    c: CacheModel,
    vs: Seq<ViewRecord>,
    i: int,
    j: int,
    d: TextureDescriptor,
)
    requires
        0 <= i <= j <= vs.len(),
        cache_model_wf(c),
        c.next_id + 2 * vs.len() <= u64::MAX,
        c.hits + vs.len() <= u64::MAX,
        crate::texture_cache::cache_model_contains(prepare_cache_prefix(c, vs, i), d),
    ensures
        crate::texture_cache::cache_model_contains(prepare_cache_prefix(c, vs, j), d),
        crate::texture_cache::cache_lookup(prepare_cache_prefix(c, vs, j), d)
            == crate::texture_cache::cache_lookup(prepare_cache_prefix(c, vs, i), d),
    decreases j - i,
{
    if j > i {
        lemma_prepare_lookup_stable(c, vs, i, j - 1, d);
        let prev = prepare_cache_prefix(c, vs, j - 1);
        lemma_prepare_cache_prefix_bounds(c, vs, j - 1);
        let r = vs[j - 1];
        if view_eligible(r) {
            crate::texture_cache::lemma_get_preserves_lookup(
                prev,
                view_target_descriptor(r.extracted_view->0.width, r.extracted_view->0.height),
                d,
            );
        }
    }
}

/// Within one preparation pass, two eligible views whose descriptors agree —
/// same size, and the pass always uses the same format and usage — are handed
/// the same backing texture and view; the later request is a cache hit.
pub proof fn lemma_prepare_same_size_views_share_target(
    c: CacheModel,
    vs: Seq<ViewRecord>,
    a: int,
    b: int,
)
    requires
        0 <= a < b < vs.len(),
        cache_model_wf(c),
        c.next_id + 2 * vs.len() <= u64::MAX,
        c.hits + vs.len() <= u64::MAX,
        view_eligible(vs[a]),
        view_eligible(vs[b]),
        vs[a].extracted_view->0 == vs[b].extracted_view->0,
    ensures
        prepare_view_target(c, vs, b) == prepare_view_target(c, vs, a),
{
    let d = view_target_descriptor(vs[a].extracted_view->0.width, vs[a].extracted_view->0.height);
    let after_a = prepare_cache_prefix(c, vs, a + 1);
    lemma_prepare_cache_prefix_bounds(c, vs, a);
    lemma_prepare_cache_prefix_bounds(c, vs, b);
    crate::texture_cache::lemma_cache_get_preserves_wf(prepare_cache_prefix(c, vs, a), d);
    assert(crate::texture_cache::cache_model_contains(after_a, d));
    assert(crate::texture_cache::cache_lookup(after_a, d) == prepare_view_target(c, vs, a));
    lemma_prepare_lookup_stable(c, vs, a + 1, b, d);
    crate::texture_cache::lemma_get_hit_is_lookup(prepare_cache_prefix(c, vs, b), d);
}

/// The preparation stage. Stages exactly one packed uniform block built from
/// the extracted configuration (reusing the device buffer whenever its
/// capacity suffices), and hands every eligible view its off-screen target
/// from the texture cache, keyed by the view's size, the mask format and
/// render-attachment plus sampled usage. Records of ineligible views are
/// untouched, and no field other than the view target changes on any record.
pub fn prepare_uber(
    extracted_uber_config: &EffectConfiguration,
    uber_meta: &mut UberMeta,
    texture_cache: &mut TextureCache,
    render_device: &mut RenderDevice,
    views: &mut Vec<ViewRecord>,
)
    requires
        cache_model_wf(old(texture_cache)@),
        old(texture_cache)@.next_id + 2 * old(views)@.len() <= u64::MAX,
        old(texture_cache)@.hits + old(views)@.len() <= u64::MAX,
        old(render_device).next_id + 1 <= u64::MAX,
    ensures
        // The staged uniform data: exactly one block, the configuration's.
        final(uber_meta).uniform.values@ == seq![uniform_of(*extracted_uber_config)],
        final(uber_meta).uniform.staging@ == crate::uniform::packed_words(uniform_of(*extracted_uber_config)),
        final(uber_meta).uniform.buffer is Some,
        // Buffer reuse: a warm staging buffer is kept, not reallocated.
        old(uber_meta).uniform.capacity >= 1 && old(uber_meta).uniform.buffer is Some ==> {
            &&& final(uber_meta).uniform.buffer == old(uber_meta).uniform.buffer
            &&& final(uber_meta).uniform.capacity == old(uber_meta).uniform.capacity
            &&& *final(render_device) == *old(render_device)
        },
        // The texture cache evolves exactly by the views' target requests.
        final(texture_cache)@ == prepare_cache_prefix(old(texture_cache)@, old(views)@, old(views)@.len() as int),
        cache_model_wf(final(texture_cache)@),
        // Per-view effect: eligible views get their target, all other fields
        // and all other records stay.
        final(views)@.len() == old(views)@.len(),
        forall|k: int| 0 <= k < old(views)@.len() ==> {
            &&& (#[trigger] final(views)@[k]).entity == old(views)@[k].entity
            &&& final(views)@[k].extracted_view == old(views)@[k].extracted_view
            &&& final(views)@[k].uber_phase == old(views)@[k].uber_phase
            &&& final(views)@[k].view_bind_group == old(views)@[k].view_bind_group
            &&& final(views)@[k].view_uniform_offset == old(views)@[k].view_uniform_offset
            &&& if view_eligible(old(views)@[k]) {
                final(views)@[k].view_uber == Some(ViewUber {
                    view_uber_texture: prepare_view_target(old(texture_cache)@, old(views)@, k).texture,
                    view_uber_texture_view: prepare_view_target(old(texture_cache)@, old(views)@, k).default_view,
                })
            } else {
                final(views)@[k].view_uber == old(views)@[k].view_uber
            }
        },
{
    uber_meta.uniform.reserve_and_clear(1, render_device);
    uber_meta.uniform.push(UberUniform::of_configuration(extracted_uber_config));

    let ghost c0 = texture_cache@;
    let ghost vs0 = views@;
    let n = views.len();
    let mut i: usize = 0;
    while i < n
        invariant
            n == views@.len(),
            n == vs0.len(),
            i <= n,
            cache_model_wf(c0),
            c0.next_id + 2 * vs0.len() <= u64::MAX,
            c0.hits + vs0.len() <= u64::MAX,
            texture_cache@ == prepare_cache_prefix(c0, vs0, i as int),
            cache_model_wf(texture_cache@),
            forall|k: int| i <= k < n ==> views@[k] == vs0[k],
            forall|k: int| 0 <= k < i ==> {
                &&& (#[trigger] views@[k]).entity == vs0[k].entity
                &&& views@[k].extracted_view == vs0[k].extracted_view
                &&& views@[k].uber_phase == vs0[k].uber_phase
                &&& views@[k].view_bind_group == vs0[k].view_bind_group
                &&& views@[k].view_uniform_offset == vs0[k].view_uniform_offset
                &&& if view_eligible(vs0[k]) {
                    views@[k].view_uber == Some(ViewUber {
                        view_uber_texture: prepare_view_target(c0, vs0, k).texture,
                        view_uber_texture_view: prepare_view_target(c0, vs0, k).default_view,
                    })
                } else {
                    views@[k].view_uber == vs0[k].view_uber
                }
            },
        decreases n - i,
    {
        proof {
            lemma_prepare_cache_prefix_bounds(c0, vs0, i as int);
            lemma_prepare_cache_prefix_bounds(c0, vs0, i as int + 1);
        }
        let eligible = views[i].extracted_view.is_some() && views[i].uber_phase.is_some();
        if eligible {
            let (width, height) = match &views[i].extracted_view {
                Option::Some(v) => (v.width, v.height),
                Option::None => unreached(),
            };
            let descriptor = TextureDescriptor {
                width,
                height,
                format: TextureFormat::R8Unorm,
                usage: TEXTURE_USAGE_RENDER_ATTACHMENT | TEXTURE_USAGE_SAMPLED,
            };
            let cached = texture_cache.get(&descriptor);
            let r = &mut views[i];
            r.view_uber = Option::Some(ViewUber {
                view_uber_texture: cached.texture,
                view_uber_texture_view: cached.default_view,
            });
        }
        i = i + 1;
    }

    proof {
        assert(uber_meta.uniform.values@ =~= seq![uniform_of(*extracted_uber_config)]);
    }
    uber_meta.uniform.write_to_staging_buffer();
    proof {
        lemma_staged_flat_single(uniform_of(*extracted_uber_config));
    }
}

/// How many of the first `i` records carry a draw phase: the queue stage's
/// enumeration index for the record at position `i`.
pub open spec fn count_phases_prefix(vs: Seq<ViewRecord>, i: int) -> int
    decreases i,
{
    if i <= 0 {
        0
    } else {
        count_phases_prefix(vs, i - 1) + if vs[i - 1].uber_phase is Some { 1int } else { 0int }
    }
}

/// The enumeration index never exceeds the number of records walked.
pub proof fn lemma_count_phases_bounds(vs: Seq<ViewRecord>, i: int)
    requires
        0 <= i <= vs.len(),
    ensures
        0 <= count_phases_prefix(vs, i) <= i,
        forall|j: int| 0 <= j <= i ==> 0 <= #[trigger] count_phases_prefix(vs, j) <= count_phases_prefix(vs, i),
    decreases i,
{
    if i > 0 {
        lemma_count_phases_bounds(vs, i - 1);
    }
}

/// Binding sets are rebuilt every frame as fresh resources: all handles the
/// queue stage hands out in one run (the shared set at the device's starting
/// handle, each view's set above it) lie strictly below the device counter it
/// leaves behind, so a later run — whose handles start at or above that
/// counter — shares no binding-set handle with it.
pub proof fn lemma_binding_sets_fresh_each_frame(dev0: RenderDevice, vs: Seq<ViewRecord>, k: int)
    requires
        0 <= k < vs.len(),
        dev0.next_id + 1 + vs.len() <= u64::MAX,
    ensures
        dev0.next_id < dev0.next_id + 1 + count_phases_prefix(vs, vs.len() as int),
        vs[k].uber_phase is Some
            ==> dev0.next_id + 1 + count_phases_prefix(vs, k)
                < dev0.next_id + 1 + count_phases_prefix(vs, vs.len() as int),
{
    lemma_count_phases_bounds(vs, vs.len() as int);
    if vs[k].uber_phase is Some {
        assert(count_phases_prefix(vs, k + 1) == count_phases_prefix(vs, k) + 1);
    }
}

/// The queue stage. When no view uniform data exists this frame it does
/// nothing at all: no binding set is created, no record changes, the device
/// allocates nothing. Otherwise it rebuilds the shared binding set for the
/// staged effect uniform buffer, and, per record with a draw phase, in order:
/// rebuilds that view's binding set over the view uniform buffer and appends
/// exactly one draw entry (this pass's draw function, the enumeration index
/// as its key, sort key zero) to the view's draw list.
pub fn queue_meshes(
    draw_uber_function: u64,
    render_device: &mut RenderDevice,
    uber_shaders: &crate::pipeline::UberEffectShaders,
    view_uniforms_len: usize,
    view_uniforms_buffer: u64,
    uber_meta: &UberMeta,
    views: &mut Vec<ViewRecord>,
    uber_config_bind_group: &mut Option<UberConfigBindGroup>,
)
    requires
        view_uniforms_len >= 1 ==> uber_meta.uniform.buffer is Some,
        old(render_device).next_id + 1 + old(views)@.len() <= u64::MAX,
    ensures
        view_uniforms_len == 0 ==> {
            &&& final(views)@ == old(views)@
            &&& *final(render_device) == *old(render_device)
            &&& *final(uber_config_bind_group) == *old(uber_config_bind_group)
        },
        view_uniforms_len >= 1 ==> {
            // The shared binding set: fresh this frame, over the staged
            // effect uniform buffer.
            &&& *final(uber_config_bind_group) == Some(UberConfigBindGroup {
                uber_config_bind_group: BindGroup {
                    id: old(render_device).next_id,
                    buffer: uber_meta.uniform.buffer->0,
                },
            })
            &&& final(render_device).next_id
                == old(render_device).next_id + 1 + count_phases_prefix(old(views)@, old(views)@.len() as int)
            &&& final(views)@.len() == old(views)@.len()
            &&& forall|k: int| 0 <= k < old(views)@.len() ==> {
                &&& (#[trigger] final(views)@[k]).entity == old(views)@[k].entity
                &&& final(views)@[k].extracted_view == old(views)@[k].extracted_view
                &&& final(views)@[k].view_uber == old(views)@[k].view_uber
                &&& final(views)@[k].view_uniform_offset == old(views)@[k].view_uniform_offset
                &&& if old(views)@[k].uber_phase is Some {
                    // A fresh per-view binding set over the view uniform
                    // buffer, and exactly one appended draw entry.
                    &&& final(views)@[k].view_bind_group == Some(UberViewBindGroup {
                        view_bind_group: BindGroup {
                            id: (old(render_device).next_id + 1 + count_phases_prefix(old(views)@, k)) as u64,
                            buffer: view_uniforms_buffer,
                        },
                    })
                    &&& final(views)@[k].uber_phase is Some
                    &&& final(views)@[k].uber_phase->0.drawn_things@
                        == old(views)@[k].uber_phase->0.drawn_things@.push(Drawable {
                            draw_function: draw_uber_function,
                            draw_key: count_phases_prefix(old(views)@, k) as usize,
                            sort_key: 0,
                        })
                } else {
                    &&& final(views)@[k].view_bind_group == old(views)@[k].view_bind_group
                    &&& final(views)@[k].uber_phase is None
                }
            }
        },
{
    if view_uniforms_len < 1 {
        return;
    }

    let config_group = render_device.create_bind_group(uber_meta.uniform.binding());
    *uber_config_bind_group = Option::Some(UberConfigBindGroup {
        uber_config_bind_group: config_group,
    });

    let ghost vs0 = views@;
    let ghost dev0 = *old(render_device);
    let n = views.len();
    let mut i: usize = 0;
    let mut phase_index: usize = 0;
    while i < n
        invariant
            n == views@.len(),
            n == vs0.len(),
            i <= n,
            dev0.next_id + 1 + vs0.len() <= u64::MAX,
            phase_index == count_phases_prefix(vs0, i as int),
            render_device.next_id == dev0.next_id + 1 + count_phases_prefix(vs0, i as int),
            forall|k: int| i <= k < n ==> views@[k] == vs0[k],
            forall|k: int| 0 <= k < i ==> {
                &&& (#[trigger] views@[k]).entity == vs0[k].entity
                &&& views@[k].extracted_view == vs0[k].extracted_view
                &&& views@[k].view_uber == vs0[k].view_uber
                &&& views@[k].view_uniform_offset == vs0[k].view_uniform_offset
                &&& if vs0[k].uber_phase is Some {
                    &&& views@[k].view_bind_group == Some(UberViewBindGroup {
                        view_bind_group: BindGroup {
                            id: (dev0.next_id + 1 + count_phases_prefix(vs0, k)) as u64,
                            buffer: view_uniforms_buffer,
                        },
                    })
                    &&& views@[k].uber_phase is Some
                    &&& views@[k].uber_phase->0.drawn_things@
                        == vs0[k].uber_phase->0.drawn_things@.push(Drawable {
                            draw_function: draw_uber_function,
                            draw_key: count_phases_prefix(vs0, k) as usize,
                            sort_key: 0,
                        })
                } else {
                    &&& views@[k].view_bind_group == vs0[k].view_bind_group
                    &&& views@[k].uber_phase is None
                }
            },
        decreases n - i,
    {
        proof {
            lemma_count_phases_bounds(vs0, i as int);
            lemma_count_phases_bounds(vs0, i as int + 1);
        }
        if views[i].uber_phase.is_some() {
            let view_group = render_device.create_bind_group(view_uniforms_buffer);
            let drawable = Drawable {
                draw_function: draw_uber_function,
                draw_key: phase_index,
                sort_key: 0,
            };
            let r = &mut views[i];
            r.view_bind_group = Option::Some(UberViewBindGroup { view_bind_group: view_group });
            match &mut r.uber_phase {
                Option::Some(phase) => {
                    phase.add(drawable);
                }
                Option::None => unreached(),
            };
            phase_index = phase_index + 1;
        }
        i = i + 1;
    }
}

} // verus!
