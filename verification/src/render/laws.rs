//! Laws of the core: what holds of every pipeline, buffer, surface, mesh,
//! material and frame, stated over the models that the contracts use.

use vstd::prelude::*;
use crate::render::buffer::{update_commands, updated, BufferView};
use crate::render::color::Color;
use crate::render::command::GpuCommandView;
use crate::render::mesh::{brought_in_step, MaterialView, MeshView};
use crate::render::render_pipeline::{
    compiled,
    resolve_commands,
    resolved,
    PipelineId,
    PipelineView,
};
use crate::render::surface::{resize_commands, resized, surfaces_wf, CatSurface};
use crate::render::texture::{Texture, TextureFormat};
use crate::render::{
    frame_commands,
    frame_rendered,
    lemma_closed_frame_commands,
    lemma_issue_nothing,
    load_op,
    opened_pass,
    RendererView,
    SurfaceAcquire,
};
use crate::window::{PhysicalSize, WindowId};

verus! {

/// A pipeline resolved for two different formats gives two different
/// pipeline objects, and resolved for one format gives one object however
/// often it is resolved.
pub proof fn law_one_object_per_format(id: PipelineId, first: TextureFormat, second: TextureFormat)
    ensures
        first != second ==> compiled(id, first) != compiled(id, second),
        first == second ==> compiled(id, first) == compiled(id, second),
{
}

/// Resolving a pipeline for a format compiles at most once: after the
/// pipeline was resolved for a format, resolving it for that format again
/// records nothing and changes nothing.
pub proof fn law_resolve_again(pipelines: Seq<PipelineView>, id: PipelineId, format: TextureFormat)
    requires
        id.0 < pipelines.len(),
    ensures
        resolve_commands(resolved(pipelines, id, format), id, format) == Seq::<
            GpuCommandView,
        >::empty(),
        resolved(resolved(pipelines, id, format), id, format) == resolved(pipelines, id, format),
        resolve_commands(pipelines, id, format).len() <= 1,
{
    let entry = pipelines[id.0 as int];
    if !entry.formats.contains(format) {
        let noted = entry.formats.push(format);
        assert(noted[noted.len() - 1] == format);
        assert(resolved(pipelines, id, format)[id.0 as int].formats == noted);
    }
}

/// Resolving a pipeline leaves every other pipeline, and the description of
/// the pipeline itself, as they were; the formats noted with the pipeline
/// are kept and at most one is added.
pub proof fn law_resolve_only_adds(
    pipelines: Seq<PipelineView>,
    id: PipelineId,
    format: TextureFormat,
)
    requires
        id.0 < pipelines.len(),
    ensures
        resolved(pipelines, id, format).len() == pipelines.len(),
        forall|i: int|
            0 <= i < pipelines.len() && i != id.0 ==> #[trigger] resolved(pipelines, id, format)[i]
                == pipelines[i],
        resolved(pipelines, id, format)[id.0 as int].options == pipelines[id.0 as int].options,
        pipelines[id.0 as int].formats.is_prefix_of(
            resolved(pipelines, id, format)[id.0 as int].formats,
        ),
        resolved(pipelines, id, format)[id.0 as int].formats.contains(format),
{
    let entry = pipelines[id.0 as int];
    if !entry.formats.contains(format) {
        let noted = entry.formats.push(format);
        assert(noted[noted.len() - 1] == format);
    }
}

/// An update of a buffer that was not allocated as a copy destination
/// leaves the number of elements and the contents of the buffer as they
/// were, and records nothing.
pub proof fn law_update_needs_copy_destination(buffer: BufferView, count: u32, contents: Seq<u8>)
    requires
        !buffer.usage.has_copy_dst(),
    ensures
        updated(buffer, count, contents) == buffer,
        update_commands(buffer, contents) == Seq::<GpuCommandView>::empty(),
{
}

/// A buffer does not grow: an update keeps the size of the allocation, and
/// an update with more bytes than the allocation holds leaves the buffer as
/// it was and records nothing.
pub proof fn law_update_does_not_grow(buffer: BufferView, count: u32, contents: Seq<u8>)
    ensures
        updated(buffer, count, contents).capacity == buffer.capacity,
        contents.len() > buffer.capacity ==> updated(buffer, count, contents) == buffer
            && update_commands(buffer, contents) == Seq::<GpuCommandView>::empty(),
        buffer.contents.len() <= buffer.capacity ==> updated(buffer, count, contents).contents.len()
            <= buffer.capacity,
{
}

/// An update of a buffer that was allocated as a copy destination, with
/// bytes that fit the allocation, leaves
/// the buffer with the new number of elements and the new contents, under
/// the handle and with the usages it had, and records one write from the
/// start of the buffer.
pub proof fn law_update_replaces(buffer: BufferView, count: u32, contents: Seq<u8>)
    requires
        buffer.usage.has_copy_dst(),
        contents.len() <= buffer.capacity,
    ensures
        updated(buffer, count, contents) == (BufferView {
            handle: buffer.handle,
            usage: buffer.usage,
            capacity: buffer.capacity,
            count,
            contents,
        }),
        update_commands(buffer, contents) == seq![
            GpuCommandView::WriteBuffer { buffer: buffer.handle, offset: 0, contents },
        ],
{
}

/// A window has at most one surface at a time, a surface has one identity,
/// and every surface is configured to the size that the registry holds for
/// it.
pub proof fn law_one_surface_per_window(surfaces: Seq<CatSurface>, last_id: u32, i: int, j: int)
    requires
        surfaces_wf(surfaces, last_id),
        0 <= i < surfaces.len(),
        0 <= j < surfaces.len(),
    ensures
        surfaces[i].window == surfaces[j].window ==> i == j,
        surfaces[i].id == surfaces[j].id ==> i == j,
        surfaces[i].config.width == surfaces[i].size.width,
        surfaces[i].config.height == surfaces[i].size.height,
{
}

/// A resize to a size that covers no pixel leaves every surface as it was,
/// and records nothing.
pub proof fn law_empty_resize(surfaces: Seq<CatSurface>, window: WindowId, size: PhysicalSize)
    requires
        size.width == 0 || size.height == 0,
    ensures
        resized(surfaces, window, size) == surfaces,
        resize_commands(surfaces, window, size) == Seq::<GpuCommandView>::empty(),
{
}

/// Bringing a mesh in step twice in a row, with no change in between,
/// uploads at most once: the second time records nothing and changes
/// neither the mesh nor the device context.
pub proof fn law_in_step_twice<V>(
    mesh: MeshView<V>,
    renderer: RendererView,
    size: nat,
    once: MeshView<V>,
    renderer_once: RendererView,
    twice: MeshView<V>,
    renderer_twice: RendererView,
)
    requires
        brought_in_step(mesh, renderer, size, once, renderer_once),
        brought_in_step(once, renderer_once, size, twice, renderer_twice),
    ensures
        twice == once,
        renderer_twice == renderer_once,
{
    lemma_issue_nothing(renderer_once);
    assert(Seq::<GpuCommandView>::empty() + Seq::<GpuCommandView>::empty() =~= Seq::<
        GpuCommandView,
    >::empty());
}

/// Changing the textures of a material keeps every uniform buffer, with
/// its slot, its handle and its contents, and the new bind group binds
/// every uniform buffer to its slot as before.
pub proof fn law_textures_keep_uniforms(
    material: MaterialView,
    textures: Seq<(u32, u32, Texture)>,
    handle: u64,
)
    ensures
        material.with_textures(textures, handle).uniforms == material.uniforms,
        material.with_textures(textures, handle).pipeline == material.pipeline,
        material.with_textures(textures, handle).bindgroup.layout == material.bindgroup.layout,
        material.with_textures(textures, handle).binds_uniforms(),
        material.wf() ==> material.with_textures(textures, handle).wf(),
{
}

/// A frame adds to the submissions and presentations that were recorded
/// exactly one submission and after it one presentation where the image
/// was acquired, and records nothing at all where it was not.
pub proof fn law_one_submission_per_frame(
    before: RendererView,
    surface_id: crate::render::surface::SurfaceId,
    clear_color: Option<Color>,
    acquired: SurfaceAcquire,
    after: RendererView,
)
    requires
        frame_rendered(before, surface_id, clear_color, acquired, after),
    ensures
        match acquired {
            SurfaceAcquire::Acquired { size, format } => {
                let added = frame_commands(after.commands).subrange(
                    frame_commands(before.commands).len() as int,
                    frame_commands(after.commands).len() as int,
                );
                &&& frame_commands(before.commands).is_prefix_of(frame_commands(after.commands))
                &&& added.len() == 2
                &&& added[0] matches GpuCommandView::Submit { surface, load, .. } && surface
                    == surface_id && load == load_op(clear_color)
                &&& added[1] == (GpuCommandView::Present { surface: surface_id })
            },
            _ => after.commands == before.commands,
        },
{
    match acquired {
        SurfaceAcquire::Acquired { size, format } => {
            let pass = choose|pass: crate::render::RenderView|
                #![trigger pass.closed(clear_color)]
                pass.continues(opened_pass(before, surface_id, size, format)) && after
                    == pass.closed(clear_color);
            lemma_closed_frame_commands(before, pass, clear_color);
        },
        _ => {},
    }
}

} // verus!
