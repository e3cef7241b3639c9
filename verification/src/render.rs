//! GPU-side resources and the per-frame working set.
//!
//! The device hands out opaque handles from a counter; a bind group records
//! the handle it was given and the buffer it binds, so freshness ("rebuilt
//! this frame") and identity ("binds the staged uniform buffer") are plain
//! facts about values. The command encoder is a growing list of commands, so
//! ordering guarantees ("upload strictly before any draw") are statements
//! about one sequence.

use vstd::prelude::*;
use crate::math::Color;
use crate::pipeline::RenderPipelineDescriptor;
use crate::uniform::{PackedUniformBlock, UberUniform, packed_words};

verus! {

/// The GPU device, reduced to what the pass observes of it: a source of
/// fresh, never-reused resource handles.
#[derive(Clone, Copy, Debug, PartialEq, Eq, Structural)]
pub struct RenderDevice {
    pub next_id: u64,
}

/// A bind group: the fresh handle it was created under and the buffer handle
/// it binds at slot 0.
#[derive(Clone, Copy, Debug, PartialEq, Eq, Structural)]
pub struct BindGroup {
    pub id: u64,
    pub buffer: u64,
}

impl RenderDevice {
    /// A device whose handle numbering starts at `first_id`.
    pub fn new(first_id: u64) -> (d: RenderDevice)
        ensures
            d.next_id == first_id,
    {
        RenderDevice { next_id: first_id }
    }

    /// Creates a bind group over `buffer`. The handle is fresh: no bind group
    /// created earlier or later by this device carries the same one.
    pub fn create_bind_group(&mut self, buffer: u64) -> (b: BindGroup)
        requires
            old(self).next_id + 1 <= u64::MAX,
        ensures
            b == (BindGroup { id: old(self).next_id, buffer }),
            final(self).next_id == old(self).next_id + 1,
    {
        let id = self.next_id;
        self.next_id = self.next_id + 1;
        BindGroup { id, buffer }
    }

    /// Allocates a fresh buffer handle.
    pub fn create_buffer(&mut self) -> (b: u64)
        requires
            old(self).next_id + 1 <= u64::MAX,
        ensures
            b == old(self).next_id,
            final(self).next_id == old(self).next_id + 1,
    {
        let id = self.next_id;
        self.next_id = self.next_id + 1;
        id
    }
}

/// One recorded GPU command. A frame's work is the sequence of these that the
/// render node emits.
#[derive(Debug, PartialEq, Eq)]
pub enum RenderCommand {
    /// Upload of staged words into a device buffer.
    WriteBuffer { buffer: u64, words: Vec<u32> },
    /// Open a render pass targeting a texture view, clearing it to a color.
    BeginRenderPass { target_view: u64, clear: Color },
    /// Bind the render pipeline built with the given state.
    SetRenderPipeline { pipeline: RenderPipelineDescriptor },
    /// Bind a bind group at a slot, with at most one dynamic offset.
    SetBindGroup { index: u32, bind_group: u64, dynamic_offset: Option<u32> },
    /// A non-indexed draw.
    Draw { vertices: u32, instances: u32 },
    /// Close the open render pass.
    EndRenderPass,
}

/// The command encoder: commands are only ever appended, in program order.
#[derive(Debug)]
pub struct CommandEncoder {
    pub commands: Vec<RenderCommand>,
}

impl CommandEncoder {
    /// An encoder with no commands recorded.
    pub fn new() -> (e: CommandEncoder)
        ensures
            e.commands@.len() == 0,
    {
        CommandEncoder { commands: Vec::new() }
    }
}

/// The flat word stream of the first `i` staged uniform blocks.
pub open spec fn staged_flat(values: Seq<UberUniform>, i: int) -> Seq<u32>
    decreases i,
{
    if i <= 0 {
        Seq::empty()
    } else {
        staged_flat(values, i - 1) + packed_words(values[i - 1])
    }
}

/// The frame's uniform staging: the structured values pushed this frame, the
/// capacity (in blocks) of the device buffer, the device buffer handle once
/// one exists, and the packed staging words.
#[derive(Debug)]
pub struct UniformVec {
    pub values: Vec<UberUniform>,
    pub capacity: usize,
    pub buffer: Option<u64>,
    pub staging: Vec<u32>,
}

impl UniformVec {
    /// An empty staging vector with no device buffer yet.
    pub fn new() -> (u: UniformVec)
        ensures
            u.values@.len() == 0,
            u.capacity == 0,
            u.buffer is None,
            u.staging@.len() == 0,
    {
        UniformVec { values: Vec::new(), capacity: 0, buffer: Option::None, staging: Vec::new() }
    }

    /// Number of values pushed this frame.
    pub fn len(&self) -> (n: usize)
        ensures
            n == self.values@.len(),
    {
        self.values.len()
    }

    /// Clears the frame's values and makes sure the device buffer holds at
    /// least `n` blocks. The buffer is created or regrown only when the
    /// current capacity is insufficient; otherwise it is left untouched, so
    /// a stable frame reuses the same buffer.
    pub fn reserve_and_clear(&mut self, n: usize, render_device: &mut RenderDevice)
        requires
            old(render_device).next_id + 1 <= u64::MAX,
        ensures
            final(self).values@.len() == 0,
            final(self).staging == old(self).staging,
            final(self).capacity >= n,
            final(self).buffer is Some,
            if n <= old(self).capacity && old(self).buffer is Some {
                final(self).capacity == old(self).capacity
                    && final(self).buffer == old(self).buffer
                    && *final(render_device) == *old(render_device)
            } else {
                final(self).capacity == n
                    && final(self).buffer == Some(old(render_device).next_id)
                    && final(render_device).next_id == old(render_device).next_id + 1
            },
    {
        self.values.clear();
        if !(n <= self.capacity && self.buffer.is_some()) {
            self.capacity = n;
            self.buffer = Option::Some(render_device.create_buffer());
        }
    }

    /// Pushes one block's values for this frame.
    pub fn push(&mut self, value: UberUniform)
        requires
            old(self).values@.len() < old(self).capacity,
        ensures
            final(self).values@ == old(self).values@.push(value),
            final(self).capacity == old(self).capacity,
            final(self).buffer == old(self).buffer,
            final(self).staging == old(self).staging,
    {
        self.values.push(value);
    }

    /// Packs every value of the frame into the staging words, replacing
    /// whatever a previous frame staged.
    pub fn write_to_staging_buffer(&mut self)
        ensures
            final(self).staging@ == staged_flat(old(self).values@, old(self).values@.len() as int),
            final(self).values@ == old(self).values@,
            final(self).capacity == old(self).capacity,
            final(self).buffer == old(self).buffer,
    {
        let ghost vals = self.values@;
        let ghost cap0 = self.capacity;
        let ghost buf0 = self.buffer;
        self.staging.clear();
        let n = self.values.len();
        let mut i: usize = 0;
        while i < n
            invariant
                n == self.values@.len(),
                i <= n,
                self.values@ == vals,
                self.capacity == cap0,
                self.buffer == buf0,
                self.staging@ == staged_flat(vals, i as int),
            decreases n - i,
        {
            let mut block = PackedUniformBlock::pack(&self.values[i]);
            self.staging.append(&mut block.words);
            i = i + 1;
        }
    }

    /// The buffer handle that bindings of this uniform data must use.
    pub fn binding(&self) -> (b: u64)
        requires
            self.buffer is Some,
        ensures
            b == self.buffer->0,
    {
        match self.buffer {
            Option::Some(b) => b,
            Option::None => unreached(),
        }
    }

    /// Records the upload of the staged words into the device buffer. This is
    /// the command every draw of the frame reads from.
    pub fn write_to_uniform_buffer(&self, encoder: &mut CommandEncoder)
        requires
            self.buffer is Some,
        ensures
            final(encoder).commands@.len() == old(encoder).commands@.len() + 1,
            forall|k: int| 0 <= k < old(encoder).commands@.len()
                ==> final(encoder).commands@[k] == old(encoder).commands@[k],
            ({
                let up = final(encoder).commands@[old(encoder).commands@.len() as int];
                up matches RenderCommand::WriteBuffer { buffer, words }
                    && buffer == self.buffer->0
                    && words@ == self.staging@
            }),
    {
        let buffer = self.binding();
        let words = copy_words(&self.staging);
        encoder.commands.push(RenderCommand::WriteBuffer { buffer, words });
    }
}

/// A fresh vector with the same words.
fn copy_words(words: &Vec<u32>) -> (r: Vec<u32>)
    ensures
        r@ == words@,
{
    let mut r: Vec<u32> = Vec::new();
    let n = words.len();
    let mut i: usize = 0;
    while i < n
        invariant
            n == words@.len(),
            i <= n,
            r@ == words@.take(i as int),
        decreases n - i,
    {
        r.push(words[i]);
        proof {
            assert(r@ =~= words@.take(i + 1 as int));
        }
        i = i + 1;
    }
    proof {
        assert(words@.take(n as int) =~= words@);
    }
    r
}

/// Staging a single block packs exactly that block's words.
pub proof fn lemma_staged_flat_single(u: UberUniform)
    ensures
        staged_flat(seq![u], 1) == packed_words(u),
{
    assert(staged_flat(seq![u], 0) == Seq::<u32>::empty());
    assert(staged_flat(seq![u], 1) == Seq::<u32>::empty() + packed_words(u));
    assert(Seq::<u32>::empty() + packed_words(u) =~= packed_words(u));
}

/// The frame's uniform staging resource shared by preparation, queueing and
/// the render node.
#[derive(Debug)]
pub struct UberMeta {
    pub uniform: UniformVec,
}

impl UberMeta {
    /// A fresh staging resource.
    pub fn new() -> (m: UberMeta)
        ensures
            m.uniform.values@.len() == 0,
            m.uniform.capacity == 0,
            m.uniform.buffer is None,
            m.uniform.staging@.len() == 0,
    {
        UberMeta { uniform: UniformVec::new() }
    }
}

impl Default for UberMeta {
    /// Same as `UberMeta::new`: nothing staged, no device buffer yet.
    fn default() -> (m: UberMeta)
        ensures
            m.uniform.values@.len() == 0,
            m.uniform.capacity == 0,
            m.uniform.buffer is None,
            m.uniform.staging@.len() == 0,
    {
        UberMeta { uniform: UniformVec::new() }
    }
}

} // verus!
