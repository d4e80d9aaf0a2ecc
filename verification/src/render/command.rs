//! The commands that the core records for the graphics device.
//!
//! Nothing in the core touches a device. Every operation that needs one
//! appends a command to the queue of the device context, and whoever owns the
//! device carries the commands out in the order in which they were recorded.

use vstd::prelude::*;
use crate::render::bind_group::{BindGroupEntryLayout, BindGroupEntryResources};
use crate::render::buffer::BufferUsages;
use crate::render::color::Color;
use crate::render::render_pipeline::{IndexFormat, PipelineId, RenderPipeline};
use crate::render::surface::{SurfaceConfiguration, SurfaceId};
use crate::render::texture::TextureFormat;
use crate::window::WindowId;

verus! {

/// A range of bytes of a buffer, from `start` to `end` or to the buffer's end.
#[derive(Clone, Copy, PartialEq, Eq, Structural, Hash, Debug)]
pub struct BufferSlice {
    pub start: u64,
    pub end: Option<u64>,
}

impl BufferSlice {
    /// The whole buffer.
    pub fn full() -> (s: Self)
        ensures
            s == (BufferSlice { start: 0, end: None }),
    {
        BufferSlice { start: 0, end: None }
    }

    /// The bytes from `start` up to `end`.
    pub fn new(start: u64, end: u64) -> (s: Self)
        ensures
            s == (BufferSlice { start, end: Some(end) }),
    {
        BufferSlice { start, end: Some(end) }
    }
}

/// What a render pass does to its target before the first draw.
#[derive(Clone, Copy, PartialEq, Eq, Structural, Hash, Debug)]
pub enum LoadOp {
    /// Fill the target with a colour.
    Clear(Color),
    /// Keep what the target holds.
    Load,
}

/// A command recorded inside a render pass.
#[derive(Clone, Debug, PartialEq, Eq)]
pub enum PassCommand {
    SetPipeline { pipeline: RenderPipeline },
    SetBindGroup { index: u32, group: u64, offsets: Vec<u32> },
    SetVertexBuffer { slot: u32, buffer: u64, slice: BufferSlice },
    SetIndexBuffer { buffer: u64, format: IndexFormat, slice: BufferSlice },
    Draw { first_vertex: u32, end_vertex: u32, first_instance: u32, end_instance: u32 },
    DrawIndexed {
        first_index: u32,
        end_index: u32,
        base_vertex: i32,
        first_instance: u32,
        end_instance: u32,
    },
}

/// What a [`PassCommand`] holds.
pub enum PassCommandView {
    SetPipeline { pipeline: RenderPipeline },
    SetBindGroup { index: u32, group: u64, offsets: Seq<u32> },
    SetVertexBuffer { slot: u32, buffer: u64, slice: BufferSlice },
    SetIndexBuffer { buffer: u64, format: IndexFormat, slice: BufferSlice },
    Draw { first_vertex: u32, end_vertex: u32, first_instance: u32, end_instance: u32 },
    DrawIndexed {
        first_index: u32,
        end_index: u32,
        base_vertex: i32,
        first_instance: u32,
        end_instance: u32,
    },
}

impl View for PassCommand {
    type V = PassCommandView;

    open spec fn view(&self) -> PassCommandView {
        match *self {
            PassCommand::SetPipeline { pipeline } => PassCommandView::SetPipeline { pipeline },
            PassCommand::SetBindGroup { index, group, offsets } => PassCommandView::SetBindGroup {
                index,
                group,
                offsets: offsets@,
            },
            PassCommand::SetVertexBuffer { slot, buffer, slice } => {
                PassCommandView::SetVertexBuffer { slot, buffer, slice }
            },
            PassCommand::SetIndexBuffer { buffer, format, slice } => {
                PassCommandView::SetIndexBuffer { buffer, format, slice }
            },
            PassCommand::Draw { first_vertex, end_vertex, first_instance, end_instance } => {
                PassCommandView::Draw { first_vertex, end_vertex, first_instance, end_instance }
            },
            PassCommand::DrawIndexed {
                first_index,
                end_index,
                base_vertex,
                first_instance,
                end_instance,
            } => PassCommandView::DrawIndexed {
                first_index,
                end_index,
                base_vertex,
                first_instance,
                end_instance,
            },
        }
    }
}

/// A command for the graphics device.
#[derive(Clone, Debug, PartialEq, Eq)]
pub enum GpuCommand {
    /// Allocate a buffer under `buffer`, filled with `contents`.
    CreateBuffer { buffer: u64, contents: Vec<u8>, usage: BufferUsages },
    /// Overwrite the buffer `buffer` from `offset` on with `contents`.
    WriteBuffer { buffer: u64, offset: u64, contents: Vec<u8> },
    /// Create a texture of 8-bit RGBA pixels with a view and a sampler.
    CreateTexture { texture: u64, view: u64, sampler: u64, width: u32, height: u32, pixels: Vec<u8> },
    /// Compile a bind group layout under `layout`.
    CreateBindGroupLayout { layout: u64, entries: Vec<BindGroupEntryLayout> },
    /// Bind resources to the slots of `layout`, under `group`.
    CreateBindGroup { group: u64, layout: u64, resources: Vec<BindGroupEntryResources> },
    /// Discard a bind group that was replaced.
    DestroyBindGroup { group: u64 },
    /// Compile the shader modules and the pipeline layout of a declared
    /// pipeline. Its description is read from the registry.
    CreatePipeline { pipeline: PipelineId },
    /// Compile the pipeline object of a declared pipeline for one format.
    CompilePipeline { pipeline: PipelineId, format: TextureFormat },
    /// Create the rendering target of a window and configure it.
    CreateSurface { surface: SurfaceId, window: WindowId, config: SurfaceConfiguration },
    /// Configure an existing rendering target anew.
    ConfigureSurface { surface: SurfaceId, config: SurfaceConfiguration },
    /// Release a rendering target.
    DestroySurface { surface: SurfaceId },
    /// Record one render pass against the acquired image of `surface` and
    /// submit it.
    Submit { surface: SurfaceId, load: LoadOp, pass: Vec<PassCommand> },
    /// Present the acquired image of `surface`.
    Present { surface: SurfaceId },
}

/// What a [`GpuCommand`] holds.
pub enum GpuCommandView {
    CreateBuffer { buffer: u64, contents: Seq<u8>, usage: BufferUsages },
    WriteBuffer { buffer: u64, offset: u64, contents: Seq<u8> },
    CreateTexture { texture: u64, view: u64, sampler: u64, width: u32, height: u32, pixels: Seq<u8> },
    CreateBindGroupLayout { layout: u64, entries: Seq<BindGroupEntryLayout> },
    CreateBindGroup { group: u64, layout: u64, resources: Seq<BindGroupEntryResources> },
    DestroyBindGroup { group: u64 },
    CreatePipeline { pipeline: PipelineId },
    CompilePipeline { pipeline: PipelineId, format: TextureFormat },
    CreateSurface { surface: SurfaceId, window: WindowId, config: SurfaceConfiguration },
    ConfigureSurface { surface: SurfaceId, config: SurfaceConfiguration },
    DestroySurface { surface: SurfaceId },
    Submit { surface: SurfaceId, load: LoadOp, pass: Seq<PassCommandView> },
    Present { surface: SurfaceId },
}

impl View for GpuCommand {
    type V = GpuCommandView;

    open spec fn view(&self) -> GpuCommandView {
        match *self {
            GpuCommand::CreateBuffer { buffer, contents, usage } => GpuCommandView::CreateBuffer {
                buffer,
                contents: contents@,
                usage,
            },
            GpuCommand::WriteBuffer { buffer, offset, contents } => GpuCommandView::WriteBuffer {
                buffer,
                offset,
                contents: contents@,
            },
            GpuCommand::CreateTexture { texture, view, sampler, width, height, pixels } => {
                GpuCommandView::CreateTexture {
                    texture,
                    view,
                    sampler,
                    width,
                    height,
                    pixels: pixels@,
                }
            },
            GpuCommand::CreateBindGroupLayout { layout, entries } => {
                GpuCommandView::CreateBindGroupLayout { layout, entries: entries@ }
            },
            GpuCommand::CreateBindGroup { group, layout, resources } => {
                GpuCommandView::CreateBindGroup { group, layout, resources: resources@ }
            },
            GpuCommand::DestroyBindGroup { group } => GpuCommandView::DestroyBindGroup { group },
            GpuCommand::CreatePipeline { pipeline } => GpuCommandView::CreatePipeline { pipeline },
            GpuCommand::CompilePipeline { pipeline, format } => GpuCommandView::CompilePipeline {
                pipeline,
                format,
            },
            GpuCommand::CreateSurface { surface, window, config } => GpuCommandView::CreateSurface {
                surface,
                window,
                config,
            },
            GpuCommand::ConfigureSurface { surface, config } => GpuCommandView::ConfigureSurface {
                surface,
                config,
            },
            GpuCommand::DestroySurface { surface } => GpuCommandView::DestroySurface { surface },
            GpuCommand::Submit { surface, load, pass } => GpuCommandView::Submit {
                surface,
                load,
                pass: pass@.map_values(|c: PassCommand| c@),
            },
            GpuCommand::Present { surface } => GpuCommandView::Present { surface },
        }
    }
}

/// The handle that follows `handle` after `count` allocations. The handles
/// run out at the largest number, which is then handed out again and again.
pub open spec fn handle_after(handle: u64, count: nat) -> u64 {
    if handle + count <= u64::MAX {
        (handle + count) as u64
    } else {
        u64::MAX
    }
}

/// The queue of recorded commands, with the allocator of the handles under
/// which the commands create device objects.
pub struct CommandQueue {
    commands: Vec<GpuCommand>,
    next_handle: u64,
}

impl CommandQueue {
    /// The recorded commands that were not yet taken, oldest first.
    pub closed spec fn commands(&self) -> Seq<GpuCommandView> {
        self.commands@.map_values(|c: GpuCommand| c@)
    }

    /// The handle that the next allocation returns.
    pub closed spec fn next_handle(&self) -> u64 {
        self.next_handle
    }

    /// An empty queue whose first handle is zero.
    pub fn new() -> (q: Self)
        ensures
            q.commands() == Seq::<GpuCommandView>::empty(),
            q.next_handle() == 0,
    {
        let q = CommandQueue { commands: Vec::new(), next_handle: 0 };
        assert(q.commands() =~= Seq::<GpuCommandView>::empty());
        q
    }

    /// Allocates a handle.
    pub fn allocate(&mut self) -> (handle: u64)
        ensures
            handle == old(self).next_handle(),
            final(self).next_handle() == handle_after(handle, 1),
            final(self).commands() == old(self).commands(),
    {
        let handle: u64 = self.next_handle;
        if handle < u64::MAX {
            self.next_handle = handle + 1;
        }
        handle
    }

    /// Appends a command.
    pub fn push(&mut self, command: GpuCommand)
        ensures
            final(self).commands() == old(self).commands().push(command@),
            final(self).next_handle() == old(self).next_handle(),
    {
        self.commands.push(command);
        assert(self.commands() =~= old(self).commands().push(command@));
    }

    /// The number of recorded commands that were not yet taken.
    pub fn len(&self) -> (n: usize)
        ensures
            n == self.commands().len(),
    {
        self.commands.len()
    }

    /// The recorded commands that were not yet taken, oldest first.
    pub fn pending(&self) -> (commands: &Vec<GpuCommand>)
        ensures
            commands@.map_values(|c: GpuCommand| c@) == self.commands(),
    {
        &self.commands
    }

    /// Takes the recorded commands out, oldest first, and leaves the queue
    /// empty. The handle allocator goes on where it was.
    pub fn take(&mut self) -> (commands: Vec<GpuCommand>)
        ensures
            commands@.map_values(|c: GpuCommand| c@) == old(self).commands(),
            final(self).commands() == Seq::<GpuCommandView>::empty(),
            final(self).next_handle() == old(self).next_handle(),
    {
        let mut commands: Vec<GpuCommand> = Vec::new();
        core::mem::swap(&mut self.commands, &mut commands);
        assert(self.commands() =~= Seq::<GpuCommandView>::empty());
        commands
    }
}

} // verus!
