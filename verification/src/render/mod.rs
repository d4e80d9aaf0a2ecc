//! The device context and the frame renderer.

pub mod bind_group;
pub mod buffer;
pub mod camera;
pub mod color;
pub mod command;
pub mod laws;
pub mod mesh;
pub mod render_pipeline;
pub mod surface;
pub mod texture;

pub use crate::render::color::Color;

use vstd::prelude::*;
use core::ops::Range;
use bytemuck::{Pod, Zeroable};
use vstd::layout::size_of;
use crate::render::bind_group::{
    bind_command,
    BindGroup,
    BindGroupEntryLayout,
    BindGroupEntryResources,
    BindGroupView,
};
use crate::render::buffer::{
    accepts_write,
    create_command,
    update_commands,
    updated,
    updated_with,
    Buffer,
    BufferUsages,
};
use crate::render::texture::{
    decoded_effect,
    decoded_result,
    decoded_view,
    texture_effect,
    texture_result,
    RawImage,
    Texture,
    TextureError,
};
use crate::render::command::{
    handle_after,
    BufferSlice,
    CommandQueue,
    GpuCommand,
    GpuCommandView,
    LoadOp,
    PassCommand,
    PassCommandView,
};
use crate::render::render_pipeline::IndexFormat;
use crate::render::render_pipeline::{
    compiled,
    resolve_commands,
    resolved,
    Pipeline,
    PipelineId,
    PipelineOptions,
    PipelineView,
    Pipelines,
    RenderPipeline,
};
use crate::render::surface::{
    has_surface,
    has_window,
    initial_config,
    release_commands,
    resize_commands,
    resized,
    surface_entry,
    surface_of_window,
    surfaces_wf,
    without_surface,
    without_window,
    CatSurface,
    SurfaceId,
    Surfaces,
};
use crate::render::texture::TextureFormat;
use crate::window::{PhysicalSize, Window, WindowId};

verus! {

/// The device context: the registry of pipelines, the registry of surfaces,
/// the queue of commands for the device, and the flag by which the core asks
/// the application to end.
pub struct Renderer {
    pipelines: Pipelines,
    surfaces: Surfaces,
    queue: CommandQueue,
    needs_exit: bool,
}

/// What a [`Renderer`] holds.
pub struct RendererView {
    /// The declared pipelines; a pipeline's identity is its place.
    pub pipelines: Seq<PipelineView>,
    /// The bound surfaces, in the order in which they were bound.
    pub surfaces: Seq<CatSurface>,
    /// The identity that the next bound surface gets.
    pub last_surface_id: u32,
    /// The recorded commands that were not yet taken, oldest first.
    pub commands: Seq<GpuCommandView>,
    /// The handle that the next device object gets.
    pub next_handle: u64,
    /// Whether the application is asked to end.
    pub needs_exit: bool,
}

impl RendererView {
    /// The context with no pipeline, no surface and no recorded command.
    pub open spec fn empty() -> RendererView {
        RendererView {
            pipelines: Seq::empty(),
            surfaces: Seq::empty(),
            last_surface_id: 0,
            commands: Seq::empty(),
            next_handle: 0,
            needs_exit: false,
        }
    }

    /// The context after `commands` were recorded and `handles` handles were
    /// allocated.
    pub open spec fn issue(self, commands: Seq<GpuCommandView>, handles: nat) -> RendererView {
        RendererView {
            commands: self.commands + commands,
            next_handle: handle_after(self.next_handle, handles),
            ..self
        }
    }

    /// The invariant of a context, as far as its view shows it: the
    /// identities of the pipelines fit their type, no pipeline notes a format
    /// twice, and the surfaces are well formed.
    pub open spec fn wf(self) -> bool {
        &&& self.pipelines.len() <= u32::MAX
        &&& forall|i: int|
            0 <= i < self.pipelines.len() ==> (#[trigger] self.pipelines[i]).formats.no_duplicates()
        &&& surfaces_wf(self.surfaces, self.last_surface_id)
    }
}

/// Recording in two steps is recording in one.
pub proof fn lemma_issue_twice(
    v: RendererView,
    first: Seq<GpuCommandView>,
    a: nat,
    second: Seq<GpuCommandView>,
    b: nat,
)
    ensures
        v.issue(first, a).issue(second, b) == v.issue(first + second, a + b),
{
    assert((v.commands + first) + second =~= v.commands + (first + second));
}

/// Recording nothing changes nothing.
pub proof fn lemma_issue_nothing(v: RendererView)
    ensures
        v.issue(Seq::empty(), 0) == v,
{
    assert(v.commands + Seq::<GpuCommandView>::empty() =~= v.commands);
}

impl View for Renderer {
    type V = RendererView;

    closed spec fn view(&self) -> RendererView {
        RendererView {
            pipelines: self.pipelines@,
            surfaces: self.surfaces@,
            last_surface_id: self.surfaces.last_id(),
            commands: self.queue.commands(),
            next_handle: self.queue.next_handle(),
            needs_exit: self.needs_exit,
        }
    }
}

impl Renderer {
    /// The invariant of the context: that of its two registries.
    pub closed spec fn wf(&self) -> bool {
        &&& self.pipelines.wf()
        &&& self.surfaces.wf()
    }

    /// What the invariant of a context says of its view.
    pub proof fn lemma_wf(&self)
        requires
            self.wf(),
        ensures
            self@.wf(),
    {
        self.pipelines.lemma_wf();
    }

    /// A context with no pipeline, no surface and no recorded command.
    pub fn new() -> (renderer: Self)
        ensures
            renderer.wf(),
            renderer@ == RendererView::empty(),
    {
        Renderer {
            pipelines: Pipelines::new(),
            surfaces: Surfaces::new(),
            queue: CommandQueue::new(),
            needs_exit: false,
        }
    }

    /// Allocates the handle of a device object.
    pub(crate) fn allocate_handle(&mut self) -> (handle: u64)
        ensures
            final(self).wf() == old(self).wf(),
            handle == old(self)@.next_handle,
            final(self)@ == old(self)@.issue(Seq::empty(), 1),
    {
        let handle = self.queue.allocate();
        proof {
            assert(self@.commands =~= old(self)@.commands + Seq::<GpuCommandView>::empty());
        }
        handle
    }

    /// Records a command for the device.
    pub(crate) fn record(&mut self, command: GpuCommand)
        ensures
            final(self).wf() == old(self).wf(),
            final(self)@ == old(self)@.issue(seq![command@], 0),
    {
        self.queue.push(command);
        proof {
            assert(self@.commands =~= old(self)@.commands + seq![command@]);
        }
    }

    /// The recorded commands that were not yet taken, oldest first.
    pub fn commands(&self) -> (commands: &Vec<GpuCommand>)
        ensures
            commands@.map_values(|c: GpuCommand| c@) == self@.commands,
    {
        self.queue.pending()
    }

    /// Takes the recorded commands out, oldest first, for the device to carry
    /// out. Nothing else changes.
    pub fn take_commands(&mut self) -> (commands: Vec<GpuCommand>)
        ensures
            final(self).wf() == old(self).wf(),
            commands@.map_values(|c: GpuCommand| c@) == old(self)@.commands,
            final(self)@ == (RendererView { commands: Seq::empty(), ..old(self)@ }),
    {
        self.queue.take()
    }

    /// Whether the core asks the application to end.
    pub fn needs_exit(&self) -> (r: bool)
        ensures
            r == self@.needs_exit,
    {
        self.needs_exit
    }

    /// The identity that the next bound surface gets.
    pub fn next_surface_id(&self) -> (id: u32)
        ensures
            id == self@.last_surface_id,
    {
        self.surfaces.next_id()
    }

    /// The number of declared pipelines.
    pub fn pipeline_count(&self) -> (n: usize)
        ensures
            n == self@.pipelines.len(),
    {
        self.pipelines.len()
    }

    /// The declared pipeline that `pipeline_id` names, if any.
    pub fn pipeline(&self, pipeline_id: PipelineId) -> (pipeline: Option<&Pipeline>)
        ensures
            match pipeline {
                Some(p) => pipeline_id.0 < self@.pipelines.len() && p@
                    == self@.pipelines[pipeline_id.0 as int],
                None => pipeline_id.0 >= self@.pipelines.len(),
            },
    {
        self.pipelines.get(pipeline_id)
    }

    /// Binds a surface to a window: picks the preferred format, and
    /// configures the surface to the window's size with the first present
    /// mode and alpha mode on offer. A surface that the window had before is
    /// released first.
    pub fn create_surface(&mut self, window: &Window) -> (id: SurfaceId)
        requires
            old(self).wf(),
            old(self)@.last_surface_id < u32::MAX,
            window.presentable(),
        ensures
            final(self).wf(),
            id.0 == old(self)@.last_surface_id,
            final(self)@.surfaces.len() == without_window(old(self)@.surfaces, window.id).len() + 1,
            final(self)@.surfaces.drop_last() == without_window(old(self)@.surfaces, window.id),
            final(self)@.surfaces.last().id == id,
            final(self)@.surfaces.last().window == window.id,
            final(self)@.surfaces.last().size == window.size,
            initial_config(window, final(self)@.surfaces.last().config),
            final(self)@ == (RendererView {
                surfaces: final(self)@.surfaces,
                last_surface_id: (id.0 + 1) as u32,
                commands: old(self)@.commands + release_commands(
                    surface_of_window(old(self)@.surfaces, window.id),
                ) + seq![
                    GpuCommandView::CreateSurface {
                        surface: id,
                        window: window.id,
                        config: final(self)@.surfaces.last().config,
                    },
                ],
                ..old(self)@
            }),
    {
        self.surfaces.create_surface(&mut self.queue, window)
    }

    /// The surface that `id` names.
    pub fn get_surface(&self, id: SurfaceId) -> (surface: &CatSurface)
        requires
            self.wf(),
            has_surface(self@.surfaces, id),
        ensures
            Some(*surface) == surface_entry(self@.surfaces, id),
            surface.id == id,
    {
        self.surfaces.get_surface(id)
    }

    /// The identity of the surface bound to `window`, if there is one.
    pub fn surface_of_window(&self, window: &WindowId) -> (id: Option<SurfaceId>)
        requires
            self.wf(),
        ensures
            id == match surface_of_window(self@.surfaces, *window) {
                Some(s) => Some(s.id),
                None => None,
            },
    {
        self.surfaces.get_surface_id_from_window(window)
    }

    /// Unbinds a surface. An identity that names no surface changes nothing.
    pub fn delete_surface(&mut self, surface: SurfaceId)
        requires
            old(self).wf(),
        ensures
            final(self).wf(),
            !has_surface(final(self)@.surfaces, surface),
            final(self)@ == (RendererView {
                surfaces: without_surface(old(self)@.surfaces, surface),
                commands: old(self)@.commands + release_commands(
                    surface_entry(old(self)@.surfaces, surface),
                ),
                ..old(self)@
            }),
    {
        self.surfaces.delete_surface(&mut self.queue, surface)
    }

    /// Unbinds the surface of a window that is closed. A window that has no
    /// surface changes nothing.
    pub fn on_close(&mut self, window_id: &WindowId)
        requires
            old(self).wf(),
        ensures
            final(self).wf(),
            !has_window(final(self)@.surfaces, *window_id),
            final(self)@ == (RendererView {
                surfaces: without_window(old(self)@.surfaces, *window_id),
                commands: old(self)@.commands + release_commands(
                    surface_of_window(old(self)@.surfaces, *window_id),
                ),
                ..old(self)@
            }),
    {
        self.surfaces.delete_window_surface(&mut self.queue, window_id)
    }

    /// Follows a window to its new size. Where the window has a surface and
    /// the size covers at least one pixel, the surface takes the size and is
    /// configured anew; otherwise nothing changes and nothing is recorded.
    pub fn on_resize(&mut self, window_id: &WindowId, new_size: PhysicalSize)
        requires
            old(self).wf(),
        ensures
            final(self).wf(),
            final(self)@ == (RendererView {
                surfaces: resized(old(self)@.surfaces, *window_id, new_size),
                commands: old(self)@.commands + resize_commands(
                    old(self)@.surfaces,
                    *window_id,
                    new_size,
                ),
                ..old(self)@
            }),
    {
        self.surfaces.resize_window_surface(&mut self.queue, window_id, new_size)
    }

    /// Whether `surface` names a bound surface.
    pub fn exists_surface(&self, surface: SurfaceId) -> (r: bool)
        requires
            self.wf(),
        ensures
            r == has_surface(self@.surfaces, surface),
    {
        self.surfaces.contains(surface)
    }

    /// Declares a pipeline. Its shader modules and its layout are compiled at
    /// once, by the one command that this records; no pipeline object is
    /// compiled before a format is asked for.
    pub fn create_pipeline(&mut self, options: PipelineOptions) -> (id: PipelineId)
        requires
            old(self).wf(),
            old(self)@.pipelines.len() < u32::MAX,
        ensures
            final(self).wf(),
            id.0 == old(self)@.pipelines.len(),
            final(self)@ == (RendererView {
                pipelines: old(self)@.pipelines.push(
                    PipelineView { options: options@, formats: Seq::empty() },
                ),
                commands: old(self)@.commands.push(GpuCommandView::CreatePipeline { pipeline: id }),
                ..old(self)@
            }),
    {
        self.pipelines.create_pipeline(&mut self.queue, options)
    }

    /// Resolves a declared pipeline for an output format. The pipeline object
    /// is compiled when the format is asked for the first time, and never
    /// again: the first request records one compilation, every later one
    /// records nothing and changes nothing.
    pub fn get_pipeline(&mut self, format: TextureFormat, pipeline_id: PipelineId) -> (pipeline:
        RenderPipeline)
        requires
            old(self).wf(),
            pipeline_id.0 < old(self)@.pipelines.len(),
        ensures
            final(self).wf(),
            pipeline == compiled(pipeline_id, format),
            final(self)@ == (RendererView {
                pipelines: resolved(old(self)@.pipelines, pipeline_id, format),
                commands: old(self)@.commands + resolve_commands(
                    old(self)@.pipelines,
                    pipeline_id,
                    format,
                ),
                ..old(self)@
            }),
    {
        self.pipelines.get_pipeline_for_surface(format, pipeline_id, &mut self.queue)
    }

    /// Compiles a layout with the slots `layout` and binds `res` to them.
    pub fn create_bind_group(
        &mut self,
        layout: Vec<BindGroupEntryLayout>,
        res: Vec<BindGroupEntryResources>,
    ) -> (group: BindGroup)
        ensures
            final(self).wf() == old(self).wf(),
            group@ == (BindGroupView {
                group: handle_after(old(self)@.next_handle, 1),
                layout: old(self)@.next_handle,
                resources: res@,
            }),
            final(self)@ == old(self)@.issue(
                seq![
                    GpuCommandView::CreateBindGroupLayout {
                        layout: old(self)@.next_handle,
                        entries: layout@,
                    },
                    bind_command(group@),
                ],
                2,
            ),
    {
        BindGroup::new(self, layout, res)
    }

    /// Makes a texture of an encoded image: of whatever the decoder makes
    /// of the bytes, as [`Texture::from_decoded`] says for it. Bytes that
    /// the decoder does not read give an error with the decoder's reason,
    /// and nothing is recorded.
    pub fn create_texture_from_bytes(&mut self, bytes: &[u8]) -> (texture: Result<
        Texture,
        TextureError,
    >)
        ensures
            final(self).wf() == old(self).wf(),
            exists|decoded: Result<RawImage, String>|
                {
                    &&& #[trigger] decoded_result(old(self)@, decoded_view(decoded)) == texture
                    &&& final(self)@ == decoded_effect(old(self)@, decoded_view(decoded))
                },
    {
        Texture::from_bytes(self, bytes)
    }

    /// Makes a texture of an image: of the 8-bit RGBA pixels that the
    /// `image` crate turns it into, as [`Renderer::create_texture_from_raw`]
    /// says for them.
    pub fn create_texture_from_image(&mut self, img: &image::DynamicImage) -> (texture: Result<
        Texture,
        TextureError,
    >)
        ensures
            final(self).wf() == old(self).wf(),
            exists|raw: RawImage|
                {
                    &&& #[trigger] texture_result(old(self)@, raw.width, raw.height, raw.pixels@)
                        == texture
                    &&& final(self)@ == texture_effect(
                        old(self)@,
                        raw.width,
                        raw.height,
                        raw.pixels@,
                    )
                },
    {
        Texture::from_image(self, img)
    }

    /// Makes a texture of 8-bit RGBA pixels. An image that does not hold
    /// four bytes for each of its pixels is refused, and nothing is
    /// recorded.
    pub fn create_texture_from_raw(&mut self, img: RawImage) -> (texture: Result<
        Texture,
        TextureError,
    >)
        ensures
            final(self).wf() == old(self).wf(),
            texture == texture_result(old(self)@, img.width, img.height, img.pixels@),
            final(self)@ == texture_effect(old(self)@, img.width, img.height, img.pixels@),
    {
        Texture::from_raw(self, img)
    }

    /// Replaces what the buffer holds by `vertices`. A buffer that was not
    /// allocated as a copy destination, or that is smaller than the
    /// elements, is left as it is, and nothing is recorded. Returns whether
    /// the buffer was written.
    pub fn update_buffer<V: Pod + Zeroable>(&mut self, vertices: Vec<V>, buffer: &mut Buffer<V>) -> (written:
        bool)
        ensures
            final(self).wf() == old(self).wf(),
            written == accepts_write(old(buffer)@, vertices@.len() * size_of::<V>()),
            updated_with(
                old(buffer)@,
                old(self)@,
                vertices@.len(),
                size_of::<V>(),
                final(buffer)@,
                final(self)@,
            ),
    {
        buffer.update(self, vertices)
    }

    /// Allocates a buffer filled with `vertices`.
    pub fn create_buffer<V: Pod + Zeroable>(&mut self, vertices: Vec<V>, usage: BufferUsages) -> (buffer:
        Buffer<V>)
        ensures
            final(self).wf() == old(self).wf(),
            buffer@.handle == old(self)@.next_handle,
            buffer@.usage == usage,
            buffer@.count == vertices@.len() as u32,
            buffer@.contents.len() == vertices@.len() * size_of::<V>(),
            buffer@.capacity == buffer@.contents.len(),
            final(self)@ == old(self)@.issue(seq![create_command(buffer@)], 1),
    {
        Buffer::new(self, vertices, usage)
    }

    /// Which of the two guards, if any, keeps a frame for `surface_id` from
    /// being started.
    pub fn frame_guard(&self, surface_id: SurfaceId) -> (guard: Option<FrameOutcome>)
        requires
            self.wf(),
        ensures
            guard == frame_guard(self@, surface_id),
    {
        if !self.exists_surface(surface_id) {
            Some(FrameOutcome::UnknownSurface)
        } else if self.needs_exit {
            Some(FrameOutcome::ExitPending)
        } else {
            None
        }
    }

    /// Renders a frame once the acquisition of the image has come to
    /// `acquired`. Where the image was acquired, one pass is opened on it,
    /// `commands_sender` is called once with the handle on the pass, and the
    /// pass is closed: one submission and after it one presentation are
    /// recorded. Where the acquisition failed, the frame is skipped; where
    /// it failed because the device has no memory left, the application is
    /// asked to end.
    pub fn render_acquired<F: FnOnce(&mut Render)>(
        &mut self,
        surface_id: SurfaceId,
        clear_color: Option<Color>,
        acquired: SurfaceAcquire,
        commands_sender: F,
    ) -> (outcome: FrameOutcome)
        requires
            old(self).wf(),
            forall|r: &mut Render|
                r.wf() && (acquired matches SurfaceAcquire::Acquired { size, format } && r@
                    == opened_pass(old(self)@, surface_id, size, format)) ==> #[trigger] call_requires(
                    commands_sender,
                    (r,),
                ),
            forall|r: &mut Render, o: ()|
                r.wf() && #[trigger] call_ensures(commands_sender, (r,), o) ==> final(r).wf()
                    && final(r)@.continues(r@),
        ensures
            final(self).wf(),
            outcome == acquired_outcome(acquired),
            frame_rendered(old(self)@, surface_id, clear_color, acquired, final(self)@),
            acquired matches SurfaceAcquire::Acquired { size, format } ==> exists|r: &mut Render|
                {
                    &&& r@ == opened_pass(old(self)@, surface_id, size, format)
                    &&& #[trigger] call_ensures(commands_sender, (r,), ())
                    &&& final(self)@ == final(r)@.closed(clear_color)
                },
    {
        match acquired {
            SurfaceAcquire::Acquired { size, format } => {
                let mut taken = Renderer::new();
                core::mem::swap(self, &mut taken);
                let mut render = Render::open(taken, surface_id, size, format);
                let ghost opened = render@;
                commands_sender(&mut render);
                let ghost pass = render@;
                let mut closed = render.close(clear_color);
                core::mem::swap(self, &mut closed);
                proof {
                    assert(pass.continues(opened));
                    assert(self@ == pass.closed(clear_color));
                }
                FrameOutcome::Presented
            },
            SurfaceAcquire::Lost => FrameOutcome::Lost,
            SurfaceAcquire::Outdated => FrameOutcome::Outdated,
            SurfaceAcquire::OutOfMemory => {
                self.needs_exit = true;
                FrameOutcome::OutOfMemory
            },
            SurfaceAcquire::Timeout => FrameOutcome::Timeout,
            SurfaceAcquire::Other => FrameOutcome::Other,
        }
    }

    /// Renders one frame to a surface. A surface that is not bound, or an
    /// earlier request to end the application, skips the frame before
    /// anything is acquired. Otherwise `acquire` is called once for the
    /// image that the surface presents next, and the frame goes on as
    /// [`Renderer::render_acquired`] says for what `acquire` returned.
    pub fn start_render_for_surface<A: FnOnce(SurfaceId) -> SurfaceAcquire, F: FnOnce(&mut Render)>(
        &mut self,
        surface_id: SurfaceId,
        clear_color: Option<Color>,
        acquire: A,
        commands_sender: F,
    ) -> (outcome: FrameOutcome)
        requires
            old(self).wf(),
            frame_guard(old(self)@, surface_id) is None ==> call_requires(acquire, (surface_id,)),
            forall|r: &mut Render|
                r.wf() && r@.renderer == old(self)@ && r@.surface_id == surface_id && r@.pass.len()
                    == 0 ==> #[trigger] call_requires(commands_sender, (r,)),
            forall|r: &mut Render, o: ()|
                r.wf() && #[trigger] call_ensures(commands_sender, (r,), o) ==> final(r).wf()
                    && final(r)@.continues(r@),
        ensures
            final(self).wf(),
            match frame_guard(old(self)@, surface_id) {
                Some(skipped) => outcome == skipped && final(self)@ == old(self)@,
                None => exists|acquired: SurfaceAcquire|
                    {
                        &&& #[trigger] call_ensures(acquire, (surface_id,), acquired)
                        &&& outcome == acquired_outcome(acquired)
                        &&& frame_rendered(
                            old(self)@,
                            surface_id,
                            clear_color,
                            acquired,
                            final(self)@,
                        )
                        &&& acquired matches SurfaceAcquire::Acquired { size, format }
                            ==> exists|r: &mut Render|
                            {
                                &&& r@ == opened_pass(old(self)@, surface_id, size, format)
                                &&& #[trigger] call_ensures(commands_sender, (r,), ())
                                &&& final(self)@ == final(r)@.closed(clear_color)
                            }
                    },
            },
    {
        match self.frame_guard(surface_id) {
            Some(skipped) => skipped,
            None => {
                let acquired = acquire(surface_id);
                self.render_acquired(surface_id, clear_color, acquired, commands_sender)
            },
        }
    }
}

/// How a frame ends for which the acquisition of the image came to
/// `acquired`.
pub open spec fn acquired_outcome(acquired: SurfaceAcquire) -> FrameOutcome {
    match acquired {
        SurfaceAcquire::Acquired { .. } => FrameOutcome::Presented,
        SurfaceAcquire::Lost => FrameOutcome::Lost,
        SurfaceAcquire::Outdated => FrameOutcome::Outdated,
        SurfaceAcquire::OutOfMemory => FrameOutcome::OutOfMemory,
        SurfaceAcquire::Timeout => FrameOutcome::Timeout,
        SurfaceAcquire::Other => FrameOutcome::Other,
    }
}

/// The pass that is opened on an acquired image of `surface_id`.
pub open spec fn opened_pass(
    renderer: RendererView,
    surface_id: SurfaceId,
    size: PhysicalSize,
    format: TextureFormat,
) -> RenderView {
    RenderView { renderer, surface_id, size, format, pass: Seq::empty() }
}

/// Whether `after` is a context that a frame can leave behind for which the
/// acquisition came to `acquired`. A failed acquisition leaves the context
/// as it was, but for the flag that asks the application to end, which is
/// raised where the device has no memory left. A successful one leaves what
/// closing a pass leaves that continues the pass opened on the image.
pub open spec fn frame_rendered(
    before: RendererView,
    surface_id: SurfaceId,
    clear_color: Option<Color>,
    acquired: SurfaceAcquire,
    after: RendererView,
) -> bool {
    match acquired {
        SurfaceAcquire::Acquired { size, format } => exists|pass: RenderView|
            #![trigger pass.closed(clear_color)]
            pass.continues(opened_pass(before, surface_id, size, format)) && after == pass.closed(
                clear_color,
            ),
        SurfaceAcquire::OutOfMemory => after == (RendererView { needs_exit: true, ..before }),
        _ => after == before,
    }
}

/// Which of the two guards, if any, keeps a frame for `surface_id` from
/// being started: the surface is not bound, or the application was asked to
/// end.
pub open spec fn frame_guard(renderer: RendererView, surface_id: SurfaceId) -> Option<
    FrameOutcome,
> {
    if !has_surface(renderer.surfaces, surface_id) {
        Some(FrameOutcome::UnknownSurface)
    } else if renderer.needs_exit {
        Some(FrameOutcome::ExitPending)
    } else {
        None
    }
}

/// What came of the attempt to acquire the image that a surface presents
/// next.
#[derive(Clone, Copy, PartialEq, Eq, Structural, Debug)]
pub enum SurfaceAcquire {
    /// The image was acquired; it has this size and this format.
    Acquired { size: PhysicalSize, format: TextureFormat },
    /// The surface was lost.
    Lost,
    /// The surface no longer fits its window.
    Outdated,
    /// The device has no memory left.
    OutOfMemory,
    /// The image did not come in time.
    Timeout,
    /// Any other failure.
    Other,
}

/// How a call to render a frame ended.
#[derive(Clone, Copy, PartialEq, Eq, Structural, Debug)]
pub enum FrameOutcome {
    /// No surface has the given identity: the frame was skipped.
    UnknownSurface,
    /// The application was asked to end before: the frame was skipped.
    ExitPending,
    /// The surface was lost: the frame was skipped.
    Lost,
    /// The surface no longer fits its window: the frame was skipped.
    Outdated,
    /// The device has no memory left: the frame was skipped and the
    /// application is asked to end.
    OutOfMemory,
    /// The image did not come in time: the frame was skipped.
    Timeout,
    /// Another failure: the frame was skipped.
    Other,
    /// One pass was recorded, submitted and presented.
    Presented,
}

/// Whether a command is part of a frame: a submission or a presentation.
pub open spec fn is_frame_command(command: GpuCommandView) -> bool {
    command is Submit || command is Present
}

/// The submissions and presentations among `commands`, in their order.
pub open spec fn frame_commands(commands: Seq<GpuCommandView>) -> Seq<GpuCommandView> {
    commands.filter(|c: GpuCommandView| is_frame_command(c))
}

/// What the render pass does to its target first.
pub open spec fn load_op(clear_color: Option<Color>) -> LoadOp {
    match clear_color {
        Some(color) => LoadOp::Clear(color),
        None => LoadOp::Load,
    }
}

impl RendererView {
    /// Whether this context is one that `before` can become while a render
    /// pass is open: the flag and the surfaces are the same, no pipeline was
    /// declared but pipelines may have been resolved for further formats,
    /// and the commands recorded since hold no submission and no
    /// presentation.
    pub open spec fn follows(self, before: RendererView) -> bool {
        &&& self.needs_exit == before.needs_exit
        &&& self.surfaces == before.surfaces
        &&& self.last_surface_id == before.last_surface_id
        &&& self.pipelines.len() == before.pipelines.len()
        &&& forall|i: int|
            0 <= i < before.pipelines.len() ==> {
                &&& (#[trigger] self.pipelines[i]).options == before.pipelines[i].options
                &&& before.pipelines[i].formats.is_prefix_of(self.pipelines[i].formats)
            }
        &&& before.commands.is_prefix_of(self.commands)
        &&& forall|i: int|
            before.commands.len() <= i < self.commands.len() ==> !is_frame_command(
                #[trigger] self.commands[i],
            )
        &&& before.next_handle <= self.next_handle
    }
}

/// The handle on an open render pass. It records what is drawn, resolves
/// pipelines, and lets buffers and bind groups be made and written while
/// the pass is open; it can neither open a second pass nor submit.
pub struct Render {
    renderer: Renderer,
    surface_id: SurfaceId,
    size: PhysicalSize,
    format: TextureFormat,
    pass: Vec<PassCommand>,
}

/// What a [`Render`] holds.
pub struct RenderView {
    /// The device context, which the pass holds while it is open.
    pub renderer: RendererView,
    /// The surface that the pass draws to.
    pub surface_id: SurfaceId,
    /// The size of the acquired image.
    pub size: PhysicalSize,
    /// The format of the acquired image.
    pub format: TextureFormat,
    /// The commands recorded in the pass, oldest first.
    pub pass: Seq<PassCommandView>,
}

impl RenderView {
    /// Whether this pass is one that `before` can become: the same surface
    /// and image, the recorded commands kept and possibly followed by more,
    /// and a context that follows the one before.
    pub open spec fn continues(self, before: RenderView) -> bool {
        &&& self.surface_id == before.surface_id
        &&& self.size == before.size
        &&& self.format == before.format
        &&& before.pass.is_prefix_of(self.pass)
        &&& self.renderer.follows(before.renderer)
    }

    /// The pass after `command` was recorded in it.
    pub open spec fn recorded(self, command: PassCommandView) -> RenderView {
        RenderView { pass: self.pass.push(command), ..self }
    }

    /// The pass after its context became `renderer`.
    pub open spec fn with_renderer(self, renderer: RendererView) -> RenderView {
        RenderView { renderer, ..self }
    }

    /// The context after the pass was closed, submitted and presented.
    pub open spec fn closed(self, clear_color: Option<Color>) -> RendererView {
        self.renderer.issue(
            seq![
                GpuCommandView::Submit {
                    surface: self.surface_id,
                    load: load_op(clear_color),
                    pass: self.pass,
                },
                GpuCommandView::Present { surface: self.surface_id },
            ],
            0,
        )
    }
}

/// A context follows itself.
pub proof fn lemma_follows_itself(v: RendererView)
    ensures
        v.follows(v),
{
}

/// What follows a follower follows.
pub proof fn lemma_follows_chain(a: RendererView, b: RendererView, c: RendererView)
    requires
        b.follows(a),
        c.follows(b),
    ensures
        c.follows(a),
{
    assert forall|i: int| 0 <= i < a.pipelines.len() implies {
        &&& (#[trigger] c.pipelines[i]).options == a.pipelines[i].options
        &&& a.pipelines[i].formats.is_prefix_of(c.pipelines[i].formats)
    } by {
        assert(b.pipelines[i].options == a.pipelines[i].options);
        assert(b.pipelines[i].formats.is_prefix_of(c.pipelines[i].formats));
    }
    assert forall|i: int| a.commands.len() <= i < c.commands.len() implies !is_frame_command(
        #[trigger] c.commands[i],
    ) by {
        if i < b.commands.len() {
            assert(c.commands[i] == b.commands[i]);
        }
    }
}

/// A context that records commands which are no part of a frame, and
/// allocates handles, follows the one before.
pub proof fn lemma_issue_follows(v: RendererView, commands: Seq<GpuCommandView>, handles: nat)
    requires
        forall|i: int| 0 <= i < commands.len() ==> !is_frame_command(#[trigger] commands[i]),
    ensures
        v.issue(commands, handles).follows(v),
{
    assert forall|i: int|
        v.commands.len() <= i < (v.commands + commands).len() implies !is_frame_command(
        #[trigger] (v.commands + commands)[i],
    ) by {
        assert((v.commands + commands)[i] == commands[i - v.commands.len()]);
    }
}

/// A context in which a pipeline was resolved follows the one before.
pub proof fn lemma_resolve_follows(v: RendererView, id: PipelineId, format: TextureFormat)
    requires
        id.0 < v.pipelines.len(),
    ensures
        (RendererView {
            pipelines: resolved(v.pipelines, id, format),
            commands: v.commands + resolve_commands(v.pipelines, id, format),
            ..v
        }).follows(v),
{
    let after = RendererView {
        pipelines: resolved(v.pipelines, id, format),
        commands: v.commands + resolve_commands(v.pipelines, id, format),
        ..v
    };
    assert forall|i: int| v.commands.len() <= i < after.commands.len() implies !is_frame_command(
        #[trigger] after.commands[i],
    ) by {
        assert(after.commands[i] == resolve_commands(v.pipelines, id, format)[i
            - v.commands.len()]);
    }
}

/// A pass continues itself.
pub proof fn lemma_continues_itself(v: RenderView)
    ensures
        v.continues(v),
{
}

/// What continues a continuation continues the pass.
pub proof fn lemma_continues_chain(a: RenderView, b: RenderView, c: RenderView)
    requires
        b.continues(a),
        c.continues(b),
    ensures
        c.continues(a),
{
    lemma_follows_chain(a.renderer, b.renderer, c.renderer);
}

/// Closing a pass adds to the submissions and presentations of the frame
/// commands exactly one submission, of that pass, and after it one
/// presentation.
pub proof fn lemma_closed_frame_commands(
    before: RendererView,
    pass: RenderView,
    clear_color: Option<Color>,
)
    requires
        pass.renderer.follows(before),
    ensures
        frame_commands(pass.closed(clear_color).commands) == frame_commands(before.commands)
            + seq![
            GpuCommandView::Submit {
                surface: pass.surface_id,
                load: load_op(clear_color),
                pass: pass.pass,
            },
            GpuCommandView::Present { surface: pass.surface_id },
        ],
{
    let keep = |c: GpuCommandView| is_frame_command(c);
    let during = pass.renderer.commands.subrange(
        before.commands.len() as int,
        pass.renderer.commands.len() as int,
    );
    let tail = seq![
        GpuCommandView::Submit {
            surface: pass.surface_id,
            load: load_op(clear_color),
            pass: pass.pass,
        },
        GpuCommandView::Present { surface: pass.surface_id },
    ];
    assert(pass.renderer.commands =~= before.commands + during);
    assert(during.filter(keep) =~= Seq::<GpuCommandView>::empty()) by {
        assert forall|i: int| 0 <= i < during.len() implies !keep(#[trigger] during[i]) by {
            assert(during[i] == pass.renderer.commands[before.commands.len() + i]);
        }
        if during.filter(keep).len() > 0 {
            let x = during.filter(keep)[0];
            assert(during.filter(keep).contains(x));
            during.lemma_filter_pred(keep, 0);
            during.lemma_filter_contains_rev(keep, x);
            let i = choose|i: int| 0 <= i < during.len() && during[i] == x;
            assert(!keep(during[i]));
        }
    }
    assert(tail.filter(keep) =~= tail) by {
        reveal_with_fuel(Seq::filter, 3);
        assert(tail.drop_last() =~= seq![tail[0]]);
        assert(tail.drop_last().drop_last() =~= Seq::<GpuCommandView>::empty());
    }
    Seq::filter_distributes_over_add(before.commands, during, keep);
    Seq::filter_distributes_over_add(before.commands + during, tail, keep);
    assert(pass.closed(clear_color).commands =~= (before.commands + during) + tail);
}

/// A type of index that an index buffer can hold.
pub trait GetIndexFormat {
    /// The format of an index of this type.
    spec fn index_format() -> IndexFormat;

    /// The format of an index of this type.
    fn get_index_format() -> (format: IndexFormat)
        ensures
            format == Self::index_format(),
    ;
}

impl GetIndexFormat for u16 {
    open spec fn index_format() -> IndexFormat {
        IndexFormat::Uint16
    }

    fn get_index_format() -> (format: IndexFormat) {
        IndexFormat::Uint16
    }
}

impl GetIndexFormat for u32 {
    open spec fn index_format() -> IndexFormat {
        IndexFormat::Uint32
    }

    fn get_index_format() -> (format: IndexFormat) {
        IndexFormat::Uint32
    }
}

/// Copies a run of offsets.
fn copy_offsets(offsets: &[u32]) -> (copy: Vec<u32>)
    ensures
        copy@ == offsets@,
{
    let mut copy: Vec<u32> = Vec::new();
    let mut i: usize = 0;
    while i < offsets.len()
        invariant
            i <= offsets@.len(),
            copy@ == offsets@.subrange(0, i as int),
        decreases offsets@.len() - i,
    {
        copy.push(offsets[i]);
        assert(copy@ =~= offsets@.subrange(0, i + 1));
        i = i + 1;
    }
    assert(offsets@.subrange(0, i as int) =~= offsets@);
    copy
}

impl View for Render {
    type V = RenderView;

    closed spec fn view(&self) -> RenderView {
        RenderView {
            renderer: self.renderer@,
            surface_id: self.surface_id,
            size: self.size,
            format: self.format,
            pass: self.pass@.map_values(|c: PassCommand| c@),
        }
    }
}

impl Render {
    /// The invariant of an open pass: that of the context it holds.
    pub closed spec fn wf(&self) -> bool {
        self.renderer.wf()
    }

    /// Opens a pass on an acquired image. The pass holds the context until
    /// it is closed.
    pub(crate) fn open(
        renderer: Renderer,
        surface_id: SurfaceId,
        size: PhysicalSize,
        format: TextureFormat,
    ) -> (render: Self)
        ensures
            render.wf() == renderer.wf(),
            render@ == (RenderView {
                renderer: renderer@,
                surface_id,
                size,
                format,
                pass: Seq::empty(),
            }),
    {
        let render = Render { renderer, surface_id, size, format, pass: Vec::new() };
        assert(render@.pass =~= Seq::<PassCommandView>::empty());
        render
    }

    /// Closes the pass: records its submission and the presentation of the
    /// image, and gives the context back.
    pub(crate) fn close(self, clear_color: Option<Color>) -> (renderer: Renderer)
        ensures
            renderer.wf() == self.wf(),
            renderer@ == self@.closed(clear_color),
    {
        let Render { renderer, surface_id, size, format, pass } = self;
        let mut renderer = renderer;
        let load = match clear_color {
            Some(color) => LoadOp::Clear(color),
            None => LoadOp::Load,
        };
        let ghost first = GpuCommandView::Submit {
            surface: surface_id,
            load,
            pass: pass@.map_values(|c: PassCommand| c@),
        };
        let ghost start = renderer@;
        renderer.record(GpuCommand::Submit { surface: surface_id, load, pass });
        renderer.record(GpuCommand::Present { surface: surface_id });
        proof {
            let second = GpuCommandView::Present { surface: surface_id };
            lemma_issue_twice(start, seq![first], 0, seq![second], 0);
            assert(seq![first] + seq![second] =~= seq![first, second]);
        }
        renderer
    }

    /// Records a command in the pass.
    fn push(&mut self, command: PassCommand)
        ensures
            final(self).wf() == old(self).wf(),
            final(self)@ == old(self)@.recorded(command@),
    {
        self.pass.push(command);
        assert(self@.pass =~= old(self)@.pass.push(command@));
    }

    /// The device context, which the pass holds while it is open.
    pub(crate) fn renderer_mut(&mut self) -> (renderer: &mut Renderer)
        ensures
            renderer@ == old(self)@.renderer,
            renderer.wf() == old(self).wf(),
            final(self)@ == old(self)@.with_renderer(final(renderer)@),
            final(self).wf() == final(renderer).wf(),
    {
        &mut self.renderer
    }

    /// The device context, which the pass holds while it is open.
    pub fn get_renderer(&self) -> (renderer: &Renderer)
        ensures
            renderer@ == self@.renderer,
            renderer.wf() == self.wf(),
    {
        &self.renderer
    }

    /// Allocates a buffer filled with `vertices` while the pass is open, as
    /// [`Renderer::create_buffer`] says. The pass goes on as it was.
    pub fn create_buffer<V: Pod + Zeroable>(&mut self, vertices: Vec<V>, usage: BufferUsages) -> (buffer:
        Buffer<V>)
        ensures
            final(self).wf() == old(self).wf(),
            buffer@.handle == old(self)@.renderer.next_handle,
            buffer@.usage == usage,
            buffer@.count == vertices@.len() as u32,
            buffer@.contents.len() == vertices@.len() * size_of::<V>(),
            buffer@.capacity == buffer@.contents.len(),
            final(self)@ == old(self)@.with_renderer(
                old(self)@.renderer.issue(seq![create_command(buffer@)], 1),
            ),
            final(self)@.continues(old(self)@),
    {
        let buffer = self.renderer.create_buffer(vertices, usage);
        proof {
            lemma_issue_follows(old(self)@.renderer, seq![create_command(buffer@)], 1);
        }
        buffer
    }

    /// Replaces what a buffer holds by `vertices` while the pass is open,
    /// as [`Renderer::update_buffer`] says. The pass goes on as it was.
    pub fn update_buffer<V: Pod + Zeroable>(&mut self, vertices: Vec<V>, buffer: &mut Buffer<V>) -> (written:
        bool)
        ensures
            final(self).wf() == old(self).wf(),
            written == accepts_write(old(buffer)@, vertices@.len() * size_of::<V>()),
            updated_with(
                old(buffer)@,
                old(self)@.renderer,
                vertices@.len(),
                size_of::<V>(),
                final(buffer)@,
                final(self)@.renderer,
            ),
            final(self)@ == old(self)@.with_renderer(final(self)@.renderer),
            final(self)@.continues(old(self)@),
    {
        let written = self.renderer.update_buffer(vertices, buffer);
        proof {
            let bytes = choose|bytes: Seq<u8>|
                {
                    &&& bytes.len() == vertices@.len() * size_of::<V>()
                    &&& #[trigger] updated(old(buffer)@, vertices@.len() as u32, bytes) == buffer@
                    &&& self@.renderer == old(self)@.renderer.issue(
                        update_commands(old(buffer)@, bytes),
                        0,
                    )
                };
            lemma_issue_follows(old(self)@.renderer, update_commands(old(buffer)@, bytes), 0);
        }
        written
    }

    /// Compiles a layout with the slots `layout` and binds `res` to them
    /// while the pass is open, as [`Renderer::create_bind_group`] says. The
    /// pass goes on as it was.
    pub fn create_bind_group(
        &mut self,
        layout: Vec<BindGroupEntryLayout>,
        res: Vec<BindGroupEntryResources>,
    ) -> (group: BindGroup)
        ensures
            final(self).wf() == old(self).wf(),
            group@ == (BindGroupView {
                group: handle_after(old(self)@.renderer.next_handle, 1),
                layout: old(self)@.renderer.next_handle,
                resources: res@,
            }),
            final(self)@ == old(self)@.with_renderer(
                old(self)@.renderer.issue(
                    seq![
                        GpuCommandView::CreateBindGroupLayout {
                            layout: old(self)@.renderer.next_handle,
                            entries: layout@,
                        },
                        bind_command(group@),
                    ],
                    2,
                ),
            ),
            final(self)@.continues(old(self)@),
    {
        let ghost entries = layout@;
        let group = self.renderer.create_bind_group(layout, res);
        proof {
            lemma_issue_follows(
                old(self)@.renderer,
                seq![
                    GpuCommandView::CreateBindGroupLayout {
                        layout: old(self)@.renderer.next_handle,
                        entries,
                    },
                    bind_command(group@),
                ],
                2,
            );
        }
        group
    }

    /// The size of the acquired image: its width and its height.
    pub fn get_surface_size(&self) -> (size: (u32, u32))
        ensures
            size == (self@.size.width, self@.size.height),
    {
        (self.size.width, self.size.height)
    }

    /// The surface that the pass draws to.
    pub fn get_surface_id(&self) -> (id: SurfaceId)
        ensures
            id == self@.surface_id,
    {
        self.surface_id
    }

    /// The format of the acquired image.
    pub fn get_surface_format(&self) -> (format: TextureFormat)
        ensures
            format == self@.format,
    {
        self.format
    }

    /// Binds a bind group at `index` for the draws that follow, with the
    /// given dynamic offsets.
    pub fn set_bind_group(&mut self, index: u32, bind_group: &BindGroup, offsets: &[u32])
        ensures
            final(self).wf() == old(self).wf(),
            final(self)@ == old(self)@.recorded(
                PassCommandView::SetBindGroup {
                    index,
                    group: bind_group@.group,
                    offsets: offsets@,
                },
            ),
    {
        let offsets = copy_offsets(offsets);
        self.push(PassCommand::SetBindGroup { index, group: bind_group.handle(), offsets });
    }

    /// Resolves the pipeline for the format of the acquired
    /// image, which compiles it where that format is new to it, and makes
    /// it the pipeline of the draws that follow.
    pub fn set_pipeline(&mut self, id: PipelineId)
        requires
            old(self).wf(),
            id.0 < old(self)@.renderer.pipelines.len(),
        ensures
            final(self).wf(),
            final(self)@ == old(self)@.with_renderer(
                RendererView {
                    pipelines: resolved(old(self)@.renderer.pipelines, id, old(self)@.format),
                    commands: old(self)@.renderer.commands + resolve_commands(
                        old(self)@.renderer.pipelines,
                        id,
                        old(self)@.format,
                    ),
                    ..old(self)@.renderer
                },
            ).recorded(
                PassCommandView::SetPipeline {
                    pipeline: RenderPipeline { pipeline: id, format: old(self)@.format },
                },
            ),
    {
        let pipeline = self.renderer.get_pipeline(self.format, id);
        self.push(PassCommand::SetPipeline { pipeline });
    }

    /// Draws the vertices `vertices` once for each of the instances
    /// `instances`.
    pub fn draw(&mut self, vertices: Range<u32>, instances: Range<u32>)
        ensures
            final(self).wf() == old(self).wf(),
            final(self)@ == old(self)@.recorded(
                PassCommandView::Draw {
                    first_vertex: vertices.start,
                    end_vertex: vertices.end,
                    first_instance: instances.start,
                    end_instance: instances.end,
                },
            ),
    {
        self.push(
            PassCommand::Draw {
                first_vertex: vertices.start,
                end_vertex: vertices.end,
                first_instance: instances.start,
                end_instance: instances.end,
            },
        );
    }

    /// Draws the indices `vertices`, each offset by `base_vertex`, once for
    /// each of the instances `instances`.
    pub fn draw_indexed(&mut self, vertices: Range<u32>, base_vertex: i32, instances: Range<u32>)
        ensures
            final(self).wf() == old(self).wf(),
            final(self)@ == old(self)@.recorded(
                PassCommandView::DrawIndexed {
                    first_index: vertices.start,
                    end_index: vertices.end,
                    base_vertex,
                    first_instance: instances.start,
                    end_instance: instances.end,
                },
            ),
    {
        self.push(
            PassCommand::DrawIndexed {
                first_index: vertices.start,
                end_index: vertices.end,
                base_vertex,
                first_instance: instances.start,
                end_instance: instances.end,
            },
        );
    }

    /// Sets a range of a buffer as the vertex buffer of `slot`. A buffer
    /// that was not allocated for vertices is not set, and nothing is
    /// recorded. Returns whether the buffer was set.
    pub fn set_vertex_buffer<V>(&mut self, buffer: &Buffer<V>, slot: u32, buffer_slice: BufferSlice)
        -> (set: bool)
        ensures
            final(self).wf() == old(self).wf(),
            set == buffer@.usage.has_vertex(),
            final(self)@ == if set {
                old(self)@.recorded(
                    PassCommandView::SetVertexBuffer {
                        slot,
                        buffer: buffer@.handle,
                        slice: buffer_slice,
                    },
                )
            } else {
                old(self)@
            },
    {
        if buffer.usage().bits & crate::render::buffer::USAGE_VERTEX
            != crate::render::buffer::USAGE_VERTEX {
            return false;
        }
        self.push(
            PassCommand::SetVertexBuffer { slot, buffer: buffer.handle(), slice: buffer_slice },
        );
        true
    }

    /// Sets a range of a buffer as the index buffer, which indexed draws
    /// need. A buffer that was not allocated for indices is not set, and
    /// nothing is recorded. Returns whether the buffer was set.
    pub fn set_index_buffer<V: GetIndexFormat>(&mut self, buffer: &Buffer<V>, buffer_slice: BufferSlice)
        -> (set: bool)
        ensures
            final(self).wf() == old(self).wf(),
            set == buffer@.usage.has_index(),
            final(self)@ == if set {
                old(self)@.recorded(
                    PassCommandView::SetIndexBuffer {
                        buffer: buffer@.handle,
                        format: V::index_format(),
                        slice: buffer_slice,
                    },
                )
            } else {
                old(self)@
            },
    {
        if buffer.usage().bits & crate::render::buffer::USAGE_INDEX
            != crate::render::buffer::USAGE_INDEX {
            return false;
        }
        self.push(
            PassCommand::SetIndexBuffer {
                buffer: buffer.handle(),
                format: V::get_index_format(),
                slice: buffer_slice,
            },
        );
        true
    }
}

} // verus!
