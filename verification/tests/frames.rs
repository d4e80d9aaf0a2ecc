use cat_render::render::bind_group::{BindGroup, BindGroupLayout};
use cat_render::render::buffer::{Buffer, BufferUsages};
use cat_render::render::color::{Color, ONE_BITS};
use cat_render::render::command::{BufferSlice, GpuCommand, LoadOp, PassCommand};
use cat_render::render::render_pipeline::{IndexFormat, PipelineOptions, RenderPipeline};
use cat_render::render::surface::{CompositeAlphaMode, PresentMode, SurfaceCapabilities, SurfaceId};
use cat_render::render::texture::TextureFormat;
use cat_render::render::{FrameOutcome, GetIndexFormat, Renderer, SurfaceAcquire};
use cat_render::window::{PhysicalSize, Window, WindowId};
use std::cell::Cell;

const FORMAT: TextureFormat = TextureFormat { code: 23, srgb: true };

fn bound() -> (Renderer, SurfaceId) {
    let mut renderer = Renderer::new();
    let surface = renderer.create_surface(&Window {
        id: WindowId(1),
        size: PhysicalSize::new(640, 480),
        capabilities: SurfaceCapabilities {
            formats: vec![FORMAT],
            present_modes: vec![PresentMode::Fifo],
            alpha_modes: vec![CompositeAlphaMode::Auto],
        },
    });
    renderer.take_commands();
    (renderer, surface)
}

fn acquired(_: SurfaceId) -> SurfaceAcquire {
    SurfaceAcquire::Acquired { size: PhysicalSize::new(640, 480), format: FORMAT }
}

fn count(renderer: &Renderer, wanted: fn(&GpuCommand) -> bool) -> usize {
    renderer.commands().iter().filter(|c| wanted(c)).count()
}

fn is_submit(c: &GpuCommand) -> bool {
    matches!(c, GpuCommand::Submit { .. })
}

fn is_present(c: &GpuCommand) -> bool {
    matches!(c, GpuCommand::Present { .. })
}

#[test]
fn colours_hold_the_bits_they_are_given() {
    assert_eq!(Color::srgba(1, 2, 3, 4), Color { r: 1, g: 2, b: 3, a: 4 });
    assert_eq!(Color::srgb(1, 2, 3), Color { r: 1, g: 2, b: 3, a: ONE_BITS });
    assert_eq!(ONE_BITS, 1.0f32.to_bits());
}

#[test]
fn a_triangle_is_submitted_once_and_presented_once() {
    let mut renderer = Renderer::new();
    let surface0 = renderer.create_surface(&Window {
        id: WindowId(1),
        size: PhysicalSize::new(640, 480),
        capabilities: SurfaceCapabilities {
            formats: vec![FORMAT],
            present_modes: vec![PresentMode::Fifo],
            alpha_modes: vec![CompositeAlphaMode::Auto],
        },
    });
    let pipeline0 = renderer.create_pipeline(PipelineOptions::default());
    renderer.take_commands();
    let clear = Color::srgb(0.1f32.to_bits(), 0.2f32.to_bits(), 0.3f32.to_bits());
    let draw_calls = Cell::new(0);
    let outcome = renderer.start_render_for_surface(surface0, Some(clear), acquired, |render| {
        draw_calls.set(draw_calls.get() + 1);
        render.set_pipeline(pipeline0);
        render.draw(0..3, 0..1);
    });
    assert_eq!(outcome, FrameOutcome::Presented);
    assert_eq!(draw_calls.get(), 1);
    assert_eq!(count(&renderer, is_submit), 1);
    assert_eq!(count(&renderer, is_present), 1);
    assert_eq!(
        renderer.commands().as_slice(),
        &[
            GpuCommand::CompilePipeline { pipeline: pipeline0, format: FORMAT },
            GpuCommand::Submit {
                surface: surface0,
                load: LoadOp::Clear(clear),
                pass: vec![
                    PassCommand::SetPipeline {
                        pipeline: RenderPipeline { pipeline: pipeline0, format: FORMAT },
                    },
                    PassCommand::Draw {
                        first_vertex: 0,
                        end_vertex: 3,
                        first_instance: 0,
                        end_instance: 1,
                    },
                ],
            },
            GpuCommand::Present { surface: surface0 },
        ]
    );
    let before = renderer.commands().clone();
    let acquisitions = Cell::new(0);
    let outcome = renderer.start_render_for_surface(
        SurfaceId(99),
        Some(clear),
        |id| {
            acquisitions.set(acquisitions.get() + 1);
            acquired(id)
        },
        |render| {
            draw_calls.set(draw_calls.get() + 1);
            render.draw(0..3, 0..1);
        },
    );
    assert_eq!(outcome, FrameOutcome::UnknownSurface);
    assert_eq!(acquisitions.get(), 0);
    assert_eq!(draw_calls.get(), 1);
    assert_eq!(renderer.commands(), &before);
    assert!(!renderer.needs_exit());
}

#[test]
fn without_clear_colour_the_target_is_loaded() {
    let (mut renderer, surface) = bound();
    let outcome = renderer.start_render_for_surface(surface, None, acquired, |_| {});
    assert_eq!(outcome, FrameOutcome::Presented);
    assert_eq!(
        renderer.commands().as_slice(),
        &[
            GpuCommand::Submit { surface, load: LoadOp::Load, pass: vec![] },
            GpuCommand::Present { surface },
        ]
    );
}

#[test]
fn the_guards_come_before_the_acquisition() {
    let (mut renderer, surface) = bound();
    assert_eq!(renderer.frame_guard(surface), None);
    assert_eq!(renderer.frame_guard(SurfaceId(5)), Some(FrameOutcome::UnknownSurface));
    renderer.start_render_for_surface(surface, None, |_| SurfaceAcquire::OutOfMemory, |_| {});
    assert_eq!(renderer.frame_guard(surface), Some(FrameOutcome::ExitPending));
    assert_eq!(renderer.frame_guard(SurfaceId(5)), Some(FrameOutcome::UnknownSurface));
}

#[test]
fn transient_failures_skip_the_frame_and_set_no_flag() {
    for (failure, outcome) in [
        (SurfaceAcquire::Lost, FrameOutcome::Lost),
        (SurfaceAcquire::Outdated, FrameOutcome::Outdated),
        (SurfaceAcquire::Timeout, FrameOutcome::Timeout),
        (SurfaceAcquire::Other, FrameOutcome::Other),
    ] {
        let (mut renderer, surface) = bound();
        let drawn = Cell::new(false);
        let got =
            renderer.start_render_for_surface(surface, None, |_| failure, |_| drawn.set(true));
        assert_eq!(got, outcome);
        assert!(!drawn.get());
        assert!(renderer.commands().is_empty());
        assert!(!renderer.needs_exit());
        let next = renderer.start_render_for_surface(surface, None, acquired, |_| {});
        assert_eq!(next, FrameOutcome::Presented);
    }
}

#[test]
fn out_of_memory_asks_the_application_to_end() {
    let (mut renderer, surface) = bound();
    let drawn = Cell::new(false);
    let outcome = renderer.start_render_for_surface(
        surface,
        None,
        |_| SurfaceAcquire::OutOfMemory,
        |_| drawn.set(true),
    );
    assert_eq!(outcome, FrameOutcome::OutOfMemory);
    assert!(!drawn.get());
    assert!(renderer.needs_exit());
    assert!(renderer.commands().is_empty());
    let acquisitions = Cell::new(0);
    let next = renderer.start_render_for_surface(
        surface,
        None,
        |id| {
            acquisitions.set(acquisitions.get() + 1);
            acquired(id)
        },
        |_| drawn.set(true),
    );
    assert_eq!(next, FrameOutcome::ExitPending);
    assert_eq!(acquisitions.get(), 0);
    assert!(!drawn.get());
    assert!(renderer.commands().is_empty());
}

#[test]
fn the_acquisition_is_asked_for_the_given_surface() {
    let (mut renderer, surface) = bound();
    let asked = Cell::new(None);
    renderer.start_render_for_surface(
        surface,
        None,
        |id| {
            asked.set(Some(id));
            SurfaceAcquire::Timeout
        },
        |_| {},
    );
    assert_eq!(asked.get(), Some(surface));
}

#[test]
fn a_frame_for_an_acquired_image_needs_no_guard() {
    let (mut renderer, surface) = bound();
    let outcome = renderer.render_acquired(surface, None, SurfaceAcquire::Lost, |_| {});
    assert_eq!(outcome, FrameOutcome::Lost);
    let outcome =
        renderer.render_acquired(surface, None, acquired(surface), |render| render.draw(0..1, 0..2));
    assert_eq!(outcome, FrameOutcome::Presented);
    assert_eq!(count(&renderer, is_submit), 1);
    assert_eq!(count(&renderer, is_present), 1);
}

#[test]
fn the_pass_knows_its_surface_and_its_image() {
    let (mut renderer, surface) = bound();
    let seen = Cell::new(None);
    renderer.start_render_for_surface(
        surface,
        None,
        |_| SurfaceAcquire::Acquired {
            size: PhysicalSize::new(320, 200),
            format: TextureFormat::new(4, false),
        },
        |render| {
            seen.set(Some((
                render.get_surface_id(),
                render.get_surface_size(),
                render.get_surface_format(),
                render.get_renderer().pipeline_count(),
            )));
        },
    );
    assert_eq!(seen.get(), Some((surface, (320, 200), TextureFormat::new(4, false), 0)));
}

#[test]
fn pipelines_are_compiled_for_the_format_of_the_image() {
    let (mut renderer, surface) = bound();
    let pipeline = renderer.create_pipeline(PipelineOptions::default());
    renderer.take_commands();
    let other = TextureFormat::new(99, false);
    for _ in 0..3 {
        renderer.start_render_for_surface(surface, None, acquired, |render| {
            render.set_pipeline(pipeline);
            render.set_pipeline(pipeline);
        });
    }
    renderer.start_render_for_surface(
        surface,
        None,
        |_| SurfaceAcquire::Acquired { size: PhysicalSize::new(1, 1), format: other },
        |render| render.set_pipeline(pipeline),
    );
    let compiled: Vec<_> = renderer
        .commands()
        .iter()
        .filter(|c| matches!(c, GpuCommand::CompilePipeline { .. }))
        .cloned()
        .collect();
    assert_eq!(
        compiled,
        vec![
            GpuCommand::CompilePipeline { pipeline, format: FORMAT },
            GpuCommand::CompilePipeline { pipeline, format: other },
        ]
    );
    assert_eq!(count(&renderer, is_submit), 4);
    assert_eq!(count(&renderer, is_present), 4);
}

#[test]
fn buffers_are_set_only_for_what_they_were_allocated() {
    let (mut renderer, surface) = bound();
    let vertices: Buffer<[f32; 2]> =
        Buffer::new(&mut renderer, vec![[0.0, 0.0]], BufferUsages::vertex());
    let indices: Buffer<u32> = Buffer::new(&mut renderer, vec![0, 1, 2], BufferUsages::index());
    let layout = BindGroupLayout::new(&mut renderer, vec![]);
    let group = BindGroup::new_from_layout(&mut renderer, vec![], &layout);
    renderer.take_commands();
    let results = Cell::new(None);
    renderer.start_render_for_surface(surface, None, acquired, |render| {
        let a = render.set_vertex_buffer(&vertices, 1, BufferSlice::new(0, 8));
        let b = render.set_vertex_buffer(&indices, 2, BufferSlice::full());
        let c = render.set_index_buffer(&indices, BufferSlice::full());
        render.set_bind_group(4, &group, &[16, 32]);
        render.draw_indexed(0..indices.get_vertices_number(), -1, 2..5);
        results.set(Some((a, b, c)));
    });
    assert_eq!(results.get(), Some((true, false, true)));
    assert_eq!(
        renderer.commands()[0],
        GpuCommand::Submit {
            surface,
            load: LoadOp::Load,
            pass: vec![
                PassCommand::SetVertexBuffer {
                    slot: 1,
                    buffer: vertices.handle(),
                    slice: BufferSlice { start: 0, end: Some(8) },
                },
                PassCommand::SetIndexBuffer {
                    buffer: indices.handle(),
                    format: IndexFormat::Uint32,
                    slice: BufferSlice { start: 0, end: None },
                },
                PassCommand::SetBindGroup { index: 4, group: group.handle(), offsets: vec![16, 32] },
                PassCommand::DrawIndexed {
                    first_index: 0,
                    end_index: 3,
                    base_vertex: -1,
                    first_instance: 2,
                    end_instance: 5,
                },
            ],
        }
    );
}

#[test]
fn an_index_buffer_of_vertices_is_not_set() {
    let (mut renderer, surface) = bound();
    let wrong: Buffer<u16> = Buffer::new(&mut renderer, vec![0], BufferUsages::vertex());
    renderer.take_commands();
    let set = Cell::new(true);
    renderer.start_render_for_surface(surface, None, acquired, |render| {
        set.set(render.set_index_buffer(&wrong, BufferSlice::full()));
    });
    assert!(!set.get());
    assert_eq!(
        renderer.commands()[0],
        GpuCommand::Submit { surface, load: LoadOp::Load, pass: vec![] }
    );
}

#[test]
fn index_formats_follow_the_index_type() {
    assert_eq!(<u16 as GetIndexFormat>::get_index_format(), IndexFormat::Uint16);
    assert_eq!(<u32 as GetIndexFormat>::get_index_format(), IndexFormat::Uint32);
}

#[test]
fn buffers_made_during_a_pass_are_recorded_before_its_submission() {
    let (mut renderer, surface) = bound();
    renderer.start_render_for_surface(surface, None, acquired, |render| {
        render.draw(0..3, 0..1);
    });
    renderer.take_commands();
    let pipeline = renderer.create_pipeline(PipelineOptions::default());
    renderer.start_render_for_surface(surface, None, acquired, |render| {
        render.draw(0..3, 0..1);
        render.set_pipeline(pipeline);
    });
    let commands = renderer.take_commands();
    assert_eq!(commands.len(), 4);
    assert!(matches!(commands[0], GpuCommand::CreatePipeline { .. }));
    assert!(matches!(commands[1], GpuCommand::CompilePipeline { .. }));
    assert!(matches!(commands[2], GpuCommand::Submit { .. }));
    assert!(matches!(commands[3], GpuCommand::Present { .. }));
}

#[test]
fn device_objects_can_be_made_while_a_pass_is_open() {
    let (mut renderer, surface) = bound();
    let usage = BufferUsages::vertex().union(BufferUsages::copy_dst());
    let mut kept: Buffer<u16> = Buffer::new(&mut renderer, vec![1, 2], usage);
    renderer.take_commands();
    let outcome = renderer.start_render_for_surface(surface, None, acquired, |render| {
        let made: Buffer<u16> = render.create_buffer(vec![7], BufferUsages::vertex());
        assert_eq!(made.handle(), 1);
        assert!(render.update_buffer(vec![3, 4], &mut kept));
        assert!(!render.update_buffer(vec![3, 4, 5], &mut kept));
        let group = render.create_bind_group(vec![], vec![]);
        assert_eq!((group.layout(), group.handle()), (2, 3));
        render.set_vertex_buffer(&made, 0, BufferSlice::full());
        render.set_bind_group(0, &group, &[]);
        render.draw(0..1, 0..1);
    });
    assert_eq!(outcome, FrameOutcome::Presented);
    let commands = renderer.take_commands();
    assert_eq!(commands.len(), 6);
    assert!(matches!(commands[0], GpuCommand::CreateBuffer { buffer: 1, .. }));
    assert!(matches!(commands[1], GpuCommand::WriteBuffer { buffer: 0, .. }));
    assert!(matches!(commands[2], GpuCommand::CreateBindGroupLayout { layout: 2, .. }));
    assert!(matches!(commands[3], GpuCommand::CreateBindGroup { group: 3, layout: 2, .. }));
    match &commands[4] {
        GpuCommand::Submit { pass, .. } => assert_eq!(pass.len(), 3),
        other => panic!("unexpected command {:?}", other),
    }
    assert_eq!(commands[5], GpuCommand::Present { surface });
}
