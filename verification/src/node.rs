//! The render-graph node that executes the pass, and the draw routine it
//! invokes.
//!
//! Per invocation the node moves Idle -> Bound -> Passing -> Idle: it first
//! records the upload of the staged uniform block (Bound), so the upload
//! stands strictly before any draw in the frame's command stream; then, if
//! the input view has both a target and a draw list, it opens a pass over the
//! view's off-screen texture, cleared to black, runs the draw list in order
//! and closes the pass. A view without target or draw list is not an error;
//! an input entity unknown to the record store is.

use vstd::prelude::*;
use crate::math::{Color, color_black};
use crate::pipeline::{RenderPipelineDescriptor, UberEffectShaders};
use crate::render::{CommandEncoder, RenderCommand, UberMeta};
use crate::stages::{
    UberConfigBindGroup, ViewRecord, views_contain, views_index_of, views_wf,
};

verus! {

/// Why a node invocation failed the frame graph.
#[derive(Clone, Copy, Debug, PartialEq, Eq, Structural)]
pub enum NodeRunError {
    /// The graph supplied no view entity on the node's input slot.
    MissingInputSlot,
    /// The supplied view entity is not in the render-side record store: an
    /// upstream scheduling defect.
    ViewEntityNotFound,
}

/// The commands of one draw invocation: bind the compositing pipeline, the
/// per-view binding set at slot 0 with the view's dynamic uniform offset, the
/// shared effect binding set at slot 1 with no offset, then the non-indexed
/// three-vertex, one-instance draw of the full-screen triangle.
pub open spec fn draw_uber_commands(
    pipeline: RenderPipelineDescriptor,
    view_bind_group: u64,
    view_uniform_offset: u32,
    config_bind_group: u64,
) -> Seq<RenderCommand> {
    seq![
        RenderCommand::SetRenderPipeline { pipeline },
        RenderCommand::SetBindGroup {
            index: 0,
            bind_group: view_bind_group,
            dynamic_offset: Some(view_uniform_offset),
        },
        RenderCommand::SetBindGroup {
            index: 1,
            bind_group: config_bind_group,
            dynamic_offset: None,
        },
        RenderCommand::Draw { vertices: 3, instances: 1 },
    ]
}

/// The commands of the first `n` entries of a view's draw list: one draw
/// invocation per entry, in list order.
pub open spec fn repeat_draw_commands(
    n: int,
    pipeline: RenderPipelineDescriptor,
    view_bind_group: u64,
    view_uniform_offset: u32,
    config_bind_group: u64,
) -> Seq<RenderCommand>
    decreases n,
{
    if n <= 0 {
        Seq::empty()
    } else {
        repeat_draw_commands(n - 1, pipeline, view_bind_group, view_uniform_offset, config_bind_group)
            + draw_uber_commands(pipeline, view_bind_group, view_uniform_offset, config_bind_group)
    }
}

/// The full command sequence of a performed pass over a resolved view:
/// begin over the view's target, cleared to black, the draw list in order,
/// then end.
pub open spec fn pass_commands(
    r: ViewRecord,
    pipeline: RenderPipelineDescriptor,
    config_bind_group: u64,
) -> Seq<RenderCommand> {
    seq![
        RenderCommand::BeginRenderPass {
            target_view: r.view_uber->0.view_uber_texture_view,
            clear: color_black(),
        },
    ] + repeat_draw_commands(
        r.uber_phase->0.drawn_things@.len() as int,
        pipeline,
        r.view_bind_group->0.view_bind_group.id,
        r.view_uniform_offset,
        config_bind_group,
    ) + seq![RenderCommand::EndRenderPass]
}

/// Whether the node performs a pass for the resolved record: it must carry
/// both an off-screen target and a draw list.
pub open spec fn node_performs_pass(r: ViewRecord) -> bool {
    r.view_uber is Some && r.uber_phase is Some
}

/// The draw routine of this pass.
pub struct DrawUber;

impl DrawUber {
    /// A handle on the draw routine; registration with the external draw
    /// function registry is the enclosing frame graph's concern.
    pub fn new() -> (d: DrawUber)
        ensures
            d == DrawUber,
    {
        DrawUber
    }

    /// One draw invocation against the given view: resolves the view's
    /// binding set and offset, then records exactly the four draw commands.
    /// The draw key and sort key identify the entry but do not change what is
    /// recorded.
    pub fn draw(
        &self,
        uber_shaders: &UberEffectShaders,
        uber_config_bind_group: &UberConfigBindGroup,
        views: &Vec<ViewRecord>,
        view: u64,
        _draw_key: usize,
        _sort_key: usize,
        pass: &mut CommandEncoder,
    )
        requires
            views_wf(views@),
            views_contain(views@, view),
            views@[views_index_of(views@, view)].view_bind_group is Some,
        ensures
            final(pass).commands@ == old(pass).commands@ + draw_uber_commands(
                uber_shaders.pipeline,
                views@[views_index_of(views@, view)].view_bind_group->0.view_bind_group.id,
                views@[views_index_of(views@, view)].view_uniform_offset,
                uber_config_bind_group.uber_config_bind_group.id,
            ),
    {
        let ghost vs = views@;
        let ghost j = views_index_of(vs, view);
        let i = match crate::stages::find_view_index(views, view) {
            Option::Some(i) => i,
            Option::None => unreached(),
        };
        let record = &views[i];
        let bind_group_id = match &record.view_bind_group {
            Option::Some(g) => g.view_bind_group.id,
            Option::None => unreached(),
        };
        let offset = record.view_uniform_offset;
        let ghost before = pass.commands@;
        pass.commands.push(RenderCommand::SetRenderPipeline {
            pipeline: uber_shaders.pipeline,
        });
        pass.commands.push(RenderCommand::SetBindGroup {
            index: 0,
            bind_group: bind_group_id,
            dynamic_offset: Option::Some(offset),
        });
        pass.commands.push(RenderCommand::SetBindGroup {
            index: 1,
            bind_group: uber_config_bind_group.uber_config_bind_group.id,
            dynamic_offset: Option::None,
        });
        pass.commands.push(RenderCommand::Draw { vertices: 3, instances: 1 });
        proof {
            assert(pass.commands@ =~= before + draw_uber_commands(
                uber_shaders.pipeline,
                vs[j].view_bind_group->0.view_bind_group.id,
                vs[j].view_uniform_offset,
                uber_config_bind_group.uber_config_bind_group.id,
            ));
        }
    }
}

/// The render-graph node of the pass. Its single input is a view entity
/// supplied by the enclosing frame graph.
pub struct UberPassNode;

impl UberPassNode {
    /// A node instance; query bookkeeping lives with the external store.
    pub fn new() -> (n: UberPassNode)
        ensures
            n == UberPassNode,
    {
        UberPassNode
    }

    /// One invocation of the node. Always records the upload of the staged
    /// uniform words into the device uniform buffer first, so the upload
    /// precedes every draw of the frame. Fails exactly when the graph
    /// supplied no input entity or the entity has no record in the store; a
    /// record lacking a target or a draw list is a successful no-op. When the
    /// record carries both, records the full pass: begin over the view's
    /// target cleared to black, every queued draw in order, end.
    pub fn run(
        &self,
        graph_input: Option<u64>,
        uber_shaders: &UberEffectShaders,
        uber_config_bind_group: &UberConfigBindGroup,
        uber_meta: &UberMeta,
        views: &Vec<ViewRecord>,
        render_context: &mut CommandEncoder,
    ) -> (result: Result<(), NodeRunError>)
        requires
            views_wf(views@),
            uber_meta.uniform.buffer is Some,
            graph_input matches Some(view) ==> ((views_contain(views@, view)
                && node_performs_pass(views@[views_index_of(views@, view)]))
                ==> views@[views_index_of(views@, view)].view_bind_group is Some),
        ensures
            result == Ok::<(), NodeRunError>(())
                <==> (graph_input is Some && views_contain(views@, graph_input->0)),
            result == Err::<(), NodeRunError>(NodeRunError::MissingInputSlot)
                <==> graph_input is None,
            // The upload is always recorded, and stands first.
            final(render_context).commands@.len() > old(render_context).commands@.len(),
            forall|k: int| 0 <= k < old(render_context).commands@.len()
                ==> final(render_context).commands@[k] == old(render_context).commands@[k],
            ({
                let up = final(render_context).commands@[old(render_context).commands@.len() as int];
                up matches RenderCommand::WriteBuffer { buffer, words }
                    && buffer == uber_meta.uniform.buffer->0
                    && words@ == uber_meta.uniform.staging@
            }),
            // The pass itself: present exactly when the view resolved and
            // carries both target and draw list.
            if result == Ok::<(), NodeRunError>(())
                && node_performs_pass(views@[views_index_of(views@, graph_input->0)]) {
                ({
                    let pass = pass_commands(
                        views@[views_index_of(views@, graph_input->0)],
                        uber_shaders.pipeline,
                        uber_config_bind_group.uber_config_bind_group.id,
                    );
                    &&& final(render_context).commands@.len()
                        == old(render_context).commands@.len() + 1 + pass.len()
                    &&& final(render_context).commands@.subrange(
                        old(render_context).commands@.len() as int + 1,
                        final(render_context).commands@.len() as int,
                    ) == pass
                })
            } else {
                final(render_context).commands@.len() == old(render_context).commands@.len() + 1
            },
    {
        uber_meta.uniform.write_to_uniform_buffer(render_context);
        let ghost after_upload = render_context.commands@;

        let view_entity = match graph_input {
            Option::Some(e) => e,
            Option::None => {
                return Result::Err(NodeRunError::MissingInputSlot);
            }
        };

        let ghost vs = views@;
        let n = views.len();
        let i = match crate::stages::find_view_index(views, view_entity) {
            Option::Some(i) => i,
            Option::None => {
                return Result::Err(NodeRunError::ViewEntityNotFound);
            }
        };

        let performs = views[i].view_uber.is_some() && views[i].uber_phase.is_some();
        if !performs {
            return Result::Ok(());
        }

        let target_view = match &views[i].view_uber {
            Option::Some(vu) => vu.view_uber_texture_view,
            Option::None => unreached(),
        };
        render_context.commands.push(RenderCommand::BeginRenderPass {
            target_view,
            clear: Color::black(),
        });

        let ghost record = vs[i as int];
        let ghost pipeline = uber_shaders.pipeline;
        let ghost vbg = record.view_bind_group->0.view_bind_group.id;
        let ghost offset = record.view_uniform_offset;
        let ghost cbg = uber_config_bind_group.uber_config_bind_group.id;
        let ghost after_begin = render_context.commands@;

        let drawable_count = match &views[i].uber_phase {
            Option::Some(phase) => phase.drawn_things.len(),
            Option::None => unreached(),
        };
        let draw_uber = DrawUber::new();
        let mut d: usize = 0;
        while d < drawable_count
            invariant
                n == views@.len(),
                views@ == vs,
                views_wf(vs),
                0 <= i < n,
                vs[i as int] == record,
                vs[i as int].entity == view_entity,
                views_contain(vs, view_entity),
                views_index_of(vs, view_entity) == i as int,
                record.view_bind_group is Some,
                record.uber_phase is Some,
                d <= record.uber_phase->0.drawn_things@.len(),
                drawable_count == record.uber_phase->0.drawn_things@.len(),
                pipeline == uber_shaders.pipeline,
                vbg == record.view_bind_group->0.view_bind_group.id,
                offset == record.view_uniform_offset,
                cbg == uber_config_bind_group.uber_config_bind_group.id,
                render_context.commands@
                    == after_begin + repeat_draw_commands(d as int, pipeline, vbg, offset, cbg),
            decreases drawable_count - d,
        {
            let (draw_key, sort_key) = match &views[i].uber_phase {
                Option::Some(phase) => {
                    let entry = phase.drawn_things[d];
                    (entry.draw_key, entry.sort_key)
                }
                Option::None => unreached(),
            };
            draw_uber.draw(
                uber_shaders,
                uber_config_bind_group,
                views,
                view_entity,
                draw_key,
                sort_key,
                render_context,
            );
            d = d + 1;
        }
        render_context.commands.push(RenderCommand::EndRenderPass);
        proof {
            assert(render_context.commands@ =~= after_upload + pass_commands(record, pipeline, cbg));
            assert(render_context.commands@.subrange(
                old(render_context).commands@.len() as int + 1,
                render_context.commands@.len() as int,
            ) =~= pass_commands(record, pipeline, cbg));
        }
        Result::Ok(())
    }
}

} // verus!
