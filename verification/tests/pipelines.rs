use cat_render::render::command::GpuCommand;
use cat_render::render::render_pipeline::{
    BlendComponent, BlendFactor, BlendOperation, BlendState, ColorWrites, Face, FrontFace,
    MultisampleState, PipelineId, PipelineOptions, PolygonMode, PrimitiveState, PrimitiveTopology,
    RenderPipeline, WRITE_ALL,
};
use cat_render::render::texture::TextureFormat;
use cat_render::render::Renderer;

fn options(shader: &str) -> PipelineOptions {
    PipelineOptions { vertex_shader: shader.to_string(), ..Default::default() }
}

fn compilations(renderer: &Renderer) -> usize {
    renderer
        .commands()
        .iter()
        .filter(|c| matches!(c, GpuCommand::CompilePipeline { .. }))
        .count()
}

#[test]
fn default_options_are_the_documented_ones() {
    let d = PipelineOptions::default();
    assert_eq!(d.vertex_shader, "YOUR SHADER");
    assert_eq!(d.vertex_entry_point, "vs_main");
    assert_eq!(d.fragment_shader, None);
    assert_eq!(d.fragment_entry_point, "fs_main");
    assert_eq!(
        d.frag_blend,
        Some(BlendState {
            color: BlendComponent {
                src_factor: BlendFactor::One,
                dst_factor: BlendFactor::Zero,
                operation: BlendOperation::Add,
            },
            alpha: BlendComponent {
                src_factor: BlendFactor::One,
                dst_factor: BlendFactor::Zero,
                operation: BlendOperation::Add,
            },
        })
    );
    assert_eq!(d.write_mask, ColorWrites { bits: WRITE_ALL });
    assert_eq!(d.write_mask.bits, 15);
    assert!(d.bind_group_layouts.is_empty());
    assert!(d.buffers.is_empty());
    assert_eq!(
        d.primitive,
        PrimitiveState {
            topology: PrimitiveTopology::TriangleList,
            strip_index_format: None,
            front_face: FrontFace::Ccw,
            cull_mode: Some(Face::Back),
            polygon_mode: PolygonMode::Fill,
            unclipped_depth: false,
            conservative: false,
        }
    );
    assert_eq!(d.depth_stencil, None);
    assert_eq!(
        d.multisample,
        MultisampleState { count: 1, mask: u64::MAX, alpha_to_coverage_enabled: false }
    );
    assert_eq!(d.cache, None);
}

#[test]
fn declared_pipelines_are_numbered_from_zero() {
    let mut renderer = Renderer::new();
    let a = renderer.create_pipeline(options("a"));
    let b = renderer.create_pipeline(options("b"));
    let c = renderer.create_pipeline(options("c"));
    assert_eq!(a, PipelineId(0));
    assert_eq!(b, PipelineId(1));
    assert_eq!(c, PipelineId(2));
    assert_eq!(renderer.pipeline_count(), 3);
}

#[test]
fn declaring_records_one_command_and_compiles_no_pipeline_object() {
    let mut renderer = Renderer::new();
    let id = renderer.create_pipeline(options("shader"));
    assert_eq!(renderer.commands().as_slice(), &[GpuCommand::CreatePipeline { pipeline: id }]);
    assert_eq!(compilations(&renderer), 0);
    let entry = renderer.pipeline(id).unwrap();
    assert_eq!(entry.options().vertex_shader, "shader");
    assert!(entry.formats().is_empty());
}

#[test]
fn unknown_pipeline_is_not_found() {
    let mut renderer = Renderer::new();
    renderer.create_pipeline(options("a"));
    assert!(renderer.pipeline(PipelineId(1)).is_none());
    assert!(renderer.pipeline(PipelineId(u32::MAX)).is_none());
}

#[test]
fn resolving_twice_for_one_format_compiles_once() {
    let mut renderer = Renderer::new();
    let id = renderer.create_pipeline(options("shader"));
    let format = TextureFormat::new(7, true);
    let first = renderer.get_pipeline(format, id);
    assert_eq!(compilations(&renderer), 1);
    let commands_after_first = renderer.commands().len();
    let second = renderer.get_pipeline(format, id);
    assert_eq!(compilations(&renderer), 1);
    assert_eq!(renderer.commands().len(), commands_after_first);
    assert_eq!(first, second);
    assert_eq!(first, RenderPipeline { pipeline: id, format });
    assert_eq!(renderer.pipeline(id).unwrap().formats().as_slice(), &[format]);
}

#[test]
fn resolving_for_two_formats_gives_two_objects() {
    let mut renderer = Renderer::new();
    let id = renderer.create_pipeline(options("shader"));
    let a = TextureFormat::new(1, false);
    let b = TextureFormat::new(2, false);
    let for_a = renderer.get_pipeline(a, id);
    let for_b = renderer.get_pipeline(b, id);
    assert_ne!(for_a, for_b);
    assert_eq!(renderer.get_pipeline(a, id), for_a);
    assert_eq!(renderer.get_pipeline(b, id), for_b);
    assert_eq!(compilations(&renderer), 2);
    assert_eq!(
        &renderer.commands()[1..],
        &[
            GpuCommand::CompilePipeline { pipeline: id, format: a },
            GpuCommand::CompilePipeline { pipeline: id, format: b },
        ]
    );
    assert_eq!(renderer.pipeline(id).unwrap().formats().as_slice(), &[a, b]);
}

#[test]
fn formats_that_differ_only_in_the_srgb_flag_are_two_formats() {
    let mut renderer = Renderer::new();
    let id = renderer.create_pipeline(options("shader"));
    renderer.get_pipeline(TextureFormat::new(5, false), id);
    renderer.get_pipeline(TextureFormat::new(5, true), id);
    assert_eq!(compilations(&renderer), 2);
}

#[test]
fn each_pipeline_keeps_its_own_formats() {
    let mut renderer = Renderer::new();
    let p = renderer.create_pipeline(options("p"));
    let q = renderer.create_pipeline(options("q"));
    let format = TextureFormat::new(3, true);
    renderer.get_pipeline(format, p);
    assert!(renderer.pipeline(q).unwrap().formats().is_empty());
    renderer.get_pipeline(format, q);
    assert_eq!(compilations(&renderer), 2);
    assert_eq!(renderer.pipeline(p).unwrap().formats().as_slice(), &[format]);
    assert_eq!(renderer.pipeline(q).unwrap().formats().as_slice(), &[format]);
    assert_eq!(renderer.pipeline(p).unwrap().options().vertex_shader, "p");
}

#[test]
fn taking_the_commands_keeps_the_compiled_formats() {
    let mut renderer = Renderer::new();
    let id = renderer.create_pipeline(options("shader"));
    let format = TextureFormat::new(9, false);
    renderer.get_pipeline(format, id);
    let taken = renderer.take_commands();
    assert_eq!(taken.len(), 2);
    assert!(renderer.commands().is_empty());
    renderer.get_pipeline(format, id);
    assert!(renderer.commands().is_empty());
}

#[test]
fn the_fragment_module_falls_back_to_the_vertex_shader() {
    let shared = PipelineOptions { vertex_shader: "both".to_string(), ..Default::default() };
    assert_eq!(shared.vertex_source(), "both");
    assert_eq!(shared.fragment_source(), "both");
    let split = PipelineOptions {
        vertex_shader: "vertex".to_string(),
        fragment_shader: Some("fragment".to_string()),
        ..Default::default()
    };
    assert_eq!(split.vertex_source(), "vertex");
    assert_eq!(split.fragment_source(), "fragment");
    let mut renderer = Renderer::new();
    let id = renderer.create_pipeline(split);
    assert_eq!(renderer.pipeline(id).unwrap().options().fragment_source(), "fragment");
}
