use uber_effect::components::{EffectConfiguration, Tonemapping};
use uber_effect::node::{DrawUber, NodeRunError, UberPassNode};
use uber_effect::pipeline::{
    BlendFactor, BlendOperation, Face, PrimitiveTopology, ShaderStage, UberEffectShaders,
};
use uber_effect::render::{CommandEncoder, RenderCommand, RenderDevice, UberMeta};
use uber_effect::stages::{
    extract_uber, prepare_uber, queue_meshes, ExtractedView, UberConfigBindGroup, ViewRecord,
};
use uber_effect::texture_cache::{TextureCache, TextureFormat};
use uber_effect::uniform::{FLAG_ACES_TONEMAPPING, FLAG_BLOOM, PACKED_BLOCK_BYTES};

const DRAW_UBER_FUNCTION: u64 = 11;
const VIEW_UNIFORMS_BUFFER: u64 = 900;

fn view_record(entity: u64, width: u32, height: u32) -> ViewRecord {
    ViewRecord {
        entity,
        extracted_view: Some(ExtractedView { width, height }),
        uber_phase: None,
        view_uber: None,
        view_bind_group: None,
        view_uniform_offset: 0,
    }
}

fn aces_bloom_configuration() -> EffectConfiguration {
    let mut config = EffectConfiguration::default();
    config.bloom_enabled = true;
    config.bloom.intensity = 0.5f32.to_bits();
    config.tonemapping = Tonemapping::Aces;
    config
}

struct Frame {
    uber_meta: UberMeta,
    texture_cache: TextureCache,
    render_device: RenderDevice,
    views: Vec<ViewRecord>,
    extracted: Option<EffectConfiguration>,
    config_bind_group: Option<UberConfigBindGroup>,
}

impl Frame {
    fn new(views: Vec<ViewRecord>) -> Frame {
        Frame {
            uber_meta: UberMeta::new(),
            texture_cache: TextureCache::new(0),
            render_device: RenderDevice::new(1000),
            views,
            extracted: None,
            config_bind_group: None,
        }
    }

    fn run_frame(
        &mut self,
        camera: Option<u64>,
        config: &EffectConfiguration,
        shaders: &UberEffectShaders,
        view_uniforms_len: usize,
    ) {
        extract_uber(camera, config, &mut self.views, &mut self.extracted);
        let snapshot = self.extracted.clone().unwrap();
        prepare_uber(
            &snapshot,
            &mut self.uber_meta,
            &mut self.texture_cache,
            &mut self.render_device,
            &mut self.views,
        );
        queue_meshes(
            DRAW_UBER_FUNCTION,
            &mut self.render_device,
            shaders,
            view_uniforms_len,
            VIEW_UNIFORMS_BUFFER,
            &self.uber_meta,
            &mut self.views,
            &mut self.config_bind_group,
        );
    }
}

#[test]
fn pipeline_builder_state_matches_the_pass() {
    let shaders = UberEffectShaders::from_world();
    assert_eq!(shaders.pipeline.target.format, TextureFormat::R8Unorm);
    assert_eq!(shaders.pipeline.target.blend.color.src_factor, BlendFactor::Src);
    assert_eq!(shaders.pipeline.target.blend.color.dst_factor, BlendFactor::OneMinusSrc);
    assert_eq!(shaders.pipeline.target.blend.color.operation, BlendOperation::Add);
    assert_eq!(shaders.pipeline.target.blend.alpha.src_factor, BlendFactor::One);
    assert_eq!(shaders.pipeline.target.blend.alpha.dst_factor, BlendFactor::One);
    assert_eq!(shaders.pipeline.primitive.topology, PrimitiveTopology::TriangleList);
    assert_eq!(shaders.pipeline.primitive.cull_mode, Face::Back);
    assert!(!shaders.pipeline.has_depth_stencil);
    assert_eq!(shaders.view_layout.entry.binding, 0);
    assert_eq!(shaders.view_layout.entry.visibility, ShaderStage::Fragment);
    assert_eq!(shaders.view_layout.entry.min_binding_size, PACKED_BLOCK_BYTES);
}

#[test]
fn queue_with_zero_views_does_no_binding_work() {
    let shaders = UberEffectShaders::from_world();
    let mut frame = Frame::new(Vec::new());
    let config = aces_bloom_configuration();
    // No views were processed upstream: no view uniform data exists.
    frame.run_frame(None, &config, &shaders, 0);
    assert!(frame.config_bind_group.is_none());
    assert!(frame.views.iter().all(|r| r
        .uber_phase
        .as_ref()
        .map_or(true, |p| p.drawn_things.is_empty())));
    // The device handed out only the staging buffer, no binding sets.
    assert_eq!(frame.render_device.next_id, 1001);
}

#[test]
fn end_to_end_single_view_pass() {
    let shaders = UberEffectShaders::from_world();
    let camera: u64 = 7;
    let mut frame = Frame::new(vec![view_record(camera, 800, 600)]);
    let config = aces_bloom_configuration();
    frame.run_frame(Some(camera), &config, &shaders, 1);

    // A ViewTarget of 800x600, format R8, exists.
    assert_eq!(frame.texture_cache.entries.len(), 1);
    let entry = &frame.texture_cache.entries[0];
    assert_eq!(entry.descriptor.width, 800);
    assert_eq!(entry.descriptor.height, 600);
    assert_eq!(entry.descriptor.format, TextureFormat::R8Unorm);
    let record = &frame.views[0];
    let target = record.view_uber.as_ref().unwrap();
    assert_eq!(target.view_uber_texture, entry.texture);

    // The draw list holds exactly one entry.
    let phase = record.uber_phase.as_ref().unwrap();
    assert_eq!(phase.drawn_things.len(), 1);
    assert_eq!(phase.drawn_things[0].draw_function, DRAW_UBER_FUNCTION);
    assert_eq!(phase.drawn_things[0].draw_key, 0);
    assert_eq!(phase.drawn_things[0].sort_key, 0);

    // Run the node and inspect the recorded commands.
    let node = UberPassNode::new();
    let config_bind_group = frame.config_bind_group.as_ref().unwrap();
    let mut encoder = CommandEncoder::new();
    let result = node.run(
        Some(camera),
        &shaders,
        config_bind_group,
        &frame.uber_meta,
        &frame.views,
        &mut encoder,
    );
    assert_eq!(result, Ok(()));
    assert_eq!(encoder.commands.len(), 7);

    // Upload first; its flags word has exactly bits 0 and 2 set.
    match &encoder.commands[0] {
        RenderCommand::WriteBuffer { words, .. } => {
            assert_eq!(words[0], FLAG_BLOOM | FLAG_ACES_TONEMAPPING);
            assert_eq!(words[0], 0b101);
            assert_eq!(words.len(), 28);
        }
        other => panic!("expected an upload first, found {:?}", other),
    }
    match &encoder.commands[1] {
        RenderCommand::BeginRenderPass { target_view, .. } => {
            assert_eq!(*target_view, target.view_uber_texture_view);
        }
        other => panic!("expected a pass begin, found {:?}", other),
    }
    assert!(matches!(&encoder.commands[2], RenderCommand::SetRenderPipeline { .. }));
    match &encoder.commands[3] {
        RenderCommand::SetBindGroup { index, bind_group, dynamic_offset } => {
            assert_eq!(*index, 0);
            assert_eq!(
                *bind_group,
                record.view_bind_group.as_ref().unwrap().view_bind_group.id
            );
            assert_eq!(*dynamic_offset, Some(record.view_uniform_offset));
        }
        other => panic!("expected the view binding, found {:?}", other),
    }
    match &encoder.commands[4] {
        RenderCommand::SetBindGroup { index, bind_group, dynamic_offset } => {
            assert_eq!(*index, 1);
            assert_eq!(*bind_group, config_bind_group.uber_config_bind_group.id);
            assert_eq!(*dynamic_offset, None);
        }
        other => panic!("expected the effect binding, found {:?}", other),
    }
    assert!(matches!(
        &encoder.commands[5],
        RenderCommand::Draw { vertices: 3, instances: 1 }
    ));
    assert!(matches!(&encoder.commands[6], RenderCommand::EndRenderPass));
}

#[test]
fn same_size_views_share_one_target() {
    let mut uber_meta = UberMeta::new();
    let mut texture_cache = TextureCache::new(0);
    let mut render_device = RenderDevice::new(500);
    let mut views = vec![view_record(1, 640, 480), view_record(2, 640, 480)];
    for v in views.iter_mut() {
        v.uber_phase = Some(uber_effect::stages::UberPhase { drawn_things: Vec::new() });
    }
    let config = aces_bloom_configuration();
    prepare_uber(
        &config,
        &mut uber_meta,
        &mut texture_cache,
        &mut render_device,
        &mut views,
    );
    let first = views[0].view_uber.unwrap();
    let second = views[1].view_uber.unwrap();
    assert_eq!(second, first);
    assert_eq!(texture_cache.entries.len(), 1);
    assert_eq!(texture_cache.hits, 1);
}

#[test]
fn two_frames_reuse_target_but_rebuild_bindings() {
    let shaders = UberEffectShaders::from_world();
    let camera: u64 = 3;
    let mut frame = Frame::new(vec![view_record(camera, 1920, 1080)]);
    let config = aces_bloom_configuration();

    frame.run_frame(Some(camera), &config, &shaders, 1);
    let first_target = frame.views[0].view_uber.unwrap();
    let first_config_group = frame.config_bind_group.unwrap().uber_config_bind_group;
    let first_view_group = frame.views[0].view_bind_group.unwrap().view_bind_group;
    let first_uniform_buffer = frame.uber_meta.uniform.buffer.unwrap();
    assert_eq!(frame.texture_cache.hits, 0);

    frame.texture_cache.update();
    frame.run_frame(Some(camera), &config, &shaders, 1);
    let second_target = frame.views[0].view_uber.unwrap();
    let second_config_group = frame.config_bind_group.unwrap().uber_config_bind_group;
    let second_view_group = frame.views[0].view_bind_group.unwrap().view_bind_group;
    let second_uniform_buffer = frame.uber_meta.uniform.buffer.unwrap();

    // The view target was not reallocated: a cache hit answered frame two.
    assert_eq!(second_target, first_target);
    assert_eq!(frame.texture_cache.hits, 1);
    assert_eq!(frame.texture_cache.entries.len(), 1);
    // The uniform staging buffer was kept as well.
    assert_eq!(second_uniform_buffer, first_uniform_buffer);
    // The binding sets were rebuilt both times, as fresh resources.
    assert_ne!(second_config_group.id, first_config_group.id);
    assert_ne!(second_view_group.id, first_view_group.id);
    // Both frames bound the same staged uniform buffer.
    assert_eq!(first_config_group.buffer, first_uniform_buffer);
    assert_eq!(second_config_group.buffer, second_uniform_buffer);
}

#[test]
fn node_without_input_slot_fails() {
    let shaders = UberEffectShaders::from_world();
    let mut frame = Frame::new(vec![view_record(5, 640, 480)]);
    let config = aces_bloom_configuration();
    frame.run_frame(Some(5), &config, &shaders, 1);
    let node = UberPassNode::new();
    let mut encoder = CommandEncoder::new();
    let result = node.run(
        None,
        &shaders,
        frame.config_bind_group.as_ref().unwrap(),
        &frame.uber_meta,
        &frame.views,
        &mut encoder,
    );
    assert_eq!(result, Err(NodeRunError::MissingInputSlot));
}

#[test]
fn node_with_unknown_view_entity_fails() {
    let shaders = UberEffectShaders::from_world();
    let mut frame = Frame::new(vec![view_record(5, 640, 480)]);
    let config = aces_bloom_configuration();
    frame.run_frame(Some(5), &config, &shaders, 1);
    let node = UberPassNode::new();
    let mut encoder = CommandEncoder::new();
    let result = node.run(
        Some(99),
        &shaders,
        frame.config_bind_group.as_ref().unwrap(),
        &frame.uber_meta,
        &frame.views,
        &mut encoder,
    );
    assert_eq!(result, Err(NodeRunError::ViewEntityNotFound));
}

#[test]
fn node_skips_view_without_target_or_draw_list() {
    let shaders = UberEffectShaders::from_world();
    // A second record exists in the store but never went through the stages.
    let mut frame = Frame::new(vec![view_record(5, 640, 480)]);
    let config = aces_bloom_configuration();
    frame.run_frame(Some(5), &config, &shaders, 1);
    frame.views.push(ViewRecord {
        entity: 6,
        extracted_view: None,
        uber_phase: None,
        view_uber: None,
        view_bind_group: None,
        view_uniform_offset: 0,
    });
    let node = UberPassNode::new();
    let mut encoder = CommandEncoder::new();
    let result = node.run(
        Some(6),
        &shaders,
        frame.config_bind_group.as_ref().unwrap(),
        &frame.uber_meta,
        &frame.views,
        &mut encoder,
    );
    // Not an error: the view simply does not use this effect this frame.
    assert_eq!(result, Ok(()));
    // Only the uniform upload was recorded, no pass.
    assert_eq!(encoder.commands.len(), 1);
    assert!(matches!(&encoder.commands[0], RenderCommand::WriteBuffer { .. }));
}

#[test]
fn extraction_spawns_record_and_snapshots_configuration() {
    let mut views: Vec<ViewRecord> = Vec::new();
    let mut extracted: Option<EffectConfiguration> = None;
    let mut config = aces_bloom_configuration();
    extract_uber(Some(42), &config, &mut views, &mut extracted);
    assert_eq!(extracted, Some(config));
    assert_eq!(views.len(), 1);
    assert_eq!(views[0].entity, 42);
    assert!(views[0].uber_phase.as_ref().unwrap().drawn_things.is_empty());

    // The snapshot is a point-in-time copy: later host edits do not affect it.
    let snapshot = extracted.clone().unwrap();
    config.bloom_enabled = false;
    assert!(snapshot.bloom_enabled);
}

#[test]
fn draw_records_exactly_one_invocation() {
    let shaders = UberEffectShaders::from_world();
    let camera: u64 = 8;
    let mut frame = Frame::new(vec![view_record(camera, 100, 100)]);
    let config = aces_bloom_configuration();
    frame.run_frame(Some(camera), &config, &shaders, 1);
    let draw = DrawUber::new();
    let mut encoder = CommandEncoder::new();
    draw.draw(
        &shaders,
        frame.config_bind_group.as_ref().unwrap(),
        &frame.views,
        camera,
        0,
        0,
        &mut encoder,
    );
    assert_eq!(encoder.commands.len(), 4);
    assert!(matches!(&encoder.commands[0], RenderCommand::SetRenderPipeline { .. }));
    assert!(matches!(&encoder.commands[3], RenderCommand::Draw { vertices: 3, instances: 1 }));
}
