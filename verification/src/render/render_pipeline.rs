//! Pipeline descriptions and the registry that compiles them per format.

use vstd::prelude::*;
use crate::render::command::{CommandQueue, GpuCommand, GpuCommandView};
use crate::render::texture::TextureFormat;

verus! {

/// How vertices are assembled into primitives.
#[derive(Clone, Copy, PartialEq, Eq, Structural, Hash, Debug)]
pub enum PrimitiveTopology {
    PointList,
    LineList,
    LineStrip,
    TriangleList,
    TriangleStrip,
}

/// The winding order of a front-facing triangle.
#[derive(Clone, Copy, PartialEq, Eq, Structural, Hash, Debug)]
pub enum FrontFace {
    Ccw,
    Cw,
}

/// A side of a triangle.
#[derive(Clone, Copy, PartialEq, Eq, Structural, Hash, Debug)]
pub enum Face {
    Front,
    Back,
}

/// How polygons are rasterized.
#[derive(Clone, Copy, PartialEq, Eq, Structural, Hash, Debug)]
pub enum PolygonMode {
    Fill,
    Line,
    Point,
}

/// The width of an index.
#[derive(Clone, Copy, PartialEq, Eq, Structural, Hash, Debug)]
pub enum IndexFormat {
    Uint16,
    Uint32,
}

/// A factor of the blend equation.
#[derive(Clone, Copy, PartialEq, Eq, Structural, Hash, Debug)]
pub enum BlendFactor {
    Zero,
    One,
    Src,
    OneMinusSrc,
    SrcAlpha,
    OneMinusSrcAlpha,
    Dst,
    OneMinusDst,
    DstAlpha,
    OneMinusDstAlpha,
    SrcAlphaSaturated,
    Constant,
    OneMinusConstant,
    Src1,
    OneMinusSrc1,
    Src1Alpha,
    OneMinusSrc1Alpha,
}

/// The operation of the blend equation.
#[derive(Clone, Copy, PartialEq, Eq, Structural, Hash, Debug)]
pub enum BlendOperation {
    Add,
    Subtract,
    ReverseSubtract,
    Min,
    Max,
}

/// A comparison for depth and stencil tests.
#[derive(Clone, Copy, PartialEq, Eq, Structural, Hash, Debug)]
pub enum CompareFunction {
    Never,
    Less,
    Equal,
    LessEqual,
    Greater,
    NotEqual,
    GreaterEqual,
    Always,
}

/// What a stencil test does to the stencil value.
#[derive(Clone, Copy, PartialEq, Eq, Structural, Hash, Debug)]
pub enum StencilOperation {
    Keep,
    Zero,
    Replace,
    Invert,
    IncrementClamp,
    DecrementClamp,
    IncrementWrap,
    DecrementWrap,
}

/// Whether a vertex buffer advances per vertex or per instance.
#[derive(Clone, Copy, PartialEq, Eq, Structural, Hash, Debug)]
pub enum VertexStepMode {
    Vertex,
    Instance,
}

/// The layout of one vertex attribute.
#[derive(Clone, Copy, PartialEq, Eq, Structural, Hash, Debug)]
pub enum VertexFormat {
    Uint8,
    Uint8x2,
    Uint8x4,
    Sint8,
    Sint8x2,
    Sint8x4,
    Unorm8,
    Unorm8x2,
    Unorm8x4,
    Snorm8,
    Snorm8x2,
    Snorm8x4,
    Uint16,
    Uint16x2,
    Uint16x4,
    Sint16,
    Sint16x2,
    Sint16x4,
    Unorm16,
    Unorm16x2,
    Unorm16x4,
    Snorm16,
    Snorm16x2,
    Snorm16x4,
    Float16,
    Float16x2,
    Float16x4,
    Float32,
    Float32x2,
    Float32x3,
    Float32x4,
    Uint32,
    Uint32x2,
    Uint32x3,
    Uint32x4,
    Sint32,
    Sint32x2,
    Sint32x3,
    Sint32x4,
    Float64,
    Float64x2,
    Float64x3,
    Float64x4,
    Unorm8x4Bgra,
}

/// The bit of [`ColorWrites`] for the red channel.
pub const WRITE_RED: u32 = 1;

/// The bit of [`ColorWrites`] for the green channel.
pub const WRITE_GREEN: u32 = 2;

/// The bit of [`ColorWrites`] for the blue channel.
pub const WRITE_BLUE: u32 = 4;

/// The bit of [`ColorWrites`] for the alpha channel.
pub const WRITE_ALPHA: u32 = 8;

/// The bits of [`ColorWrites`] for all four channels.
pub const WRITE_ALL: u32 = 15;

/// The colour channels that a pipeline writes, combinable bit by bit.
#[derive(Clone, Copy, PartialEq, Eq, Structural, Hash, Debug)]
pub struct ColorWrites {
    pub bits: u32,
}

impl ColorWrites {
    pub fn from_bits(bits: u32) -> (w: Self)
        ensures
            w.bits == bits,
    {
        ColorWrites { bits }
    }

    /// All four channels.
    pub fn all() -> (w: Self)
        ensures
            w.bits == WRITE_ALL,
    {
        ColorWrites { bits: WRITE_ALL }
    }
}

/// One half of a blend state: how source and destination are combined.
#[derive(Clone, Copy, PartialEq, Eq, Structural, Hash, Debug)]
pub struct BlendComponent {
    pub src_factor: BlendFactor,
    pub dst_factor: BlendFactor,
    pub operation: BlendOperation,
}

/// How a pipeline blends what it draws into the target.
#[derive(Clone, Copy, PartialEq, Eq, Structural, Hash, Debug)]
pub struct BlendState {
    pub color: BlendComponent,
    pub alpha: BlendComponent,
}

impl BlendComponent {
    /// The component that replaces the destination by the source.
    pub open spec fn spec_replace() -> BlendComponent {
        BlendComponent {
            src_factor: BlendFactor::One,
            dst_factor: BlendFactor::Zero,
            operation: BlendOperation::Add,
        }
    }

    /// The component that replaces the destination by the source.
    pub fn replace() -> (c: Self)
        ensures
            c == Self::spec_replace(),
    {
        BlendComponent {
            src_factor: BlendFactor::One,
            dst_factor: BlendFactor::Zero,
            operation: BlendOperation::Add,
        }
    }
}

impl BlendState {
    /// The blend state that replaces the destination by the source.
    pub open spec fn spec_replace() -> BlendState {
        BlendState { color: BlendComponent::spec_replace(), alpha: BlendComponent::spec_replace() }
    }

    /// The blend state that replaces the destination by the source.
    pub fn replace() -> (b: Self)
        ensures
            b == Self::spec_replace(),
    {
        BlendState { color: BlendComponent::replace(), alpha: BlendComponent::replace() }
    }
}

/// How primitives are assembled and rasterized.
#[derive(Clone, Copy, PartialEq, Eq, Structural, Hash, Debug)]
pub struct PrimitiveState {
    pub topology: PrimitiveTopology,
    pub strip_index_format: Option<IndexFormat>,
    pub front_face: FrontFace,
    pub cull_mode: Option<Face>,
    pub polygon_mode: PolygonMode,
    pub unclipped_depth: bool,
    pub conservative: bool,
}

/// The multisampling of a pipeline.
#[derive(Clone, Copy, PartialEq, Eq, Structural, Hash, Debug)]
pub struct MultisampleState {
    pub count: u32,
    pub mask: u64,
    pub alpha_to_coverage_enabled: bool,
}

/// The stencil test of one side of a triangle.
#[derive(Clone, Copy, PartialEq, Eq, Structural, Hash, Debug)]
pub struct StencilFaceState {
    pub compare: CompareFunction,
    pub fail_op: StencilOperation,
    pub depth_fail_op: StencilOperation,
    pub pass_op: StencilOperation,
}

/// The stencil test of a pipeline.
#[derive(Clone, Copy, PartialEq, Eq, Structural, Hash, Debug)]
pub struct StencilState {
    pub front: StencilFaceState,
    pub back: StencilFaceState,
    pub read_mask: u32,
    pub write_mask: u32,
}

/// The depth bias of a pipeline. The two fractional fields hold the bit
/// patterns of single-precision numbers.
#[derive(Clone, Copy, PartialEq, Eq, Structural, Hash, Debug)]
pub struct DepthBiasState {
    pub constant: i32,
    pub slope_scale_bits: u32,
    pub clamp_bits: u32,
}

/// The depth and stencil tests of a pipeline.
#[derive(Clone, Copy, PartialEq, Eq, Structural, Hash, Debug)]
pub struct DepthStencilState {
    pub format: TextureFormat,
    pub depth_write_enabled: bool,
    pub depth_compare: CompareFunction,
    pub stencil: StencilState,
    pub bias: DepthBiasState,
}

/// One attribute of a vertex: where it lies and where the shader takes it.
#[derive(Clone, Copy, PartialEq, Eq, Structural, Hash, Debug)]
pub struct VertexAttribute {
    pub format: VertexFormat,
    pub offset: u64,
    pub shader_location: u32,
}

/// The layout of one vertex buffer.
#[derive(Clone, Debug, PartialEq, Eq)]
pub struct VertexBufferLayout {
    pub array_stride: u64,
    pub step_mode: VertexStepMode,
    pub attributes: Vec<VertexAttribute>,
}

/// What a [`VertexBufferLayout`] holds.
pub struct VertexBufferLayoutView {
    pub array_stride: u64,
    pub step_mode: VertexStepMode,
    pub attributes: Seq<VertexAttribute>,
}

impl View for VertexBufferLayout {
    type V = VertexBufferLayoutView;

    open spec fn view(&self) -> VertexBufferLayoutView {
        VertexBufferLayoutView {
            array_stride: self.array_stride,
            step_mode: self.step_mode,
            attributes: self.attributes@,
        }
    }
}

/// A cache that a device keeps of compiled pipelines, named by its handle.
#[derive(Clone, Copy, PartialEq, Eq, Structural, Hash, Debug)]
pub struct PipelineCache {
    pub handle: u64,
}

/// The identity of a declared pipeline.
#[derive(Clone, Copy, PartialEq, Eq, Structural, Hash, Debug)]
pub struct PipelineId(pub u32);

/// A compiled pipeline: the description it was compiled from and the output
/// format it was compiled for.
#[derive(Clone, Copy, PartialEq, Eq, Structural, Hash, Debug)]
pub struct RenderPipeline {
    pub pipeline: PipelineId,
    pub format: TextureFormat,
}

/// The description of a pipeline.
#[derive(Clone, Debug, PartialEq, Eq)]
pub struct PipelineOptions {
    pub vertex_shader: String,
    pub vertex_entry_point: String,
    pub fragment_shader: Option<String>,
    pub fragment_entry_point: String,
    pub frag_blend: Option<BlendState>,
    pub write_mask: ColorWrites,
    /// The handles of the bind group layouts that the pipeline declares.
    pub bind_group_layouts: Vec<u64>,
    pub buffers: Vec<VertexBufferLayout>,
    pub primitive: PrimitiveState,
    pub depth_stencil: Option<DepthStencilState>,
    /// The multi-sampling properties of the pipeline.
    pub multisample: MultisampleState,
    /// The pipeline cache to use when creating this pipeline.
    pub cache: Option<PipelineCache>,
}

/// What a [`PipelineOptions`] holds.
pub struct PipelineOptionsView {
    pub vertex_shader: Seq<char>,
    pub vertex_entry_point: Seq<char>,
    pub fragment_shader: Option<Seq<char>>,
    pub fragment_entry_point: Seq<char>,
    pub frag_blend: Option<BlendState>,
    pub write_mask: ColorWrites,
    pub bind_group_layouts: Seq<u64>,
    pub buffers: Seq<VertexBufferLayoutView>,
    pub primitive: PrimitiveState,
    pub depth_stencil: Option<DepthStencilState>,
    pub multisample: MultisampleState,
    pub cache: Option<PipelineCache>,
}

impl View for PipelineOptions {
    type V = PipelineOptionsView;

    open spec fn view(&self) -> PipelineOptionsView {
        PipelineOptionsView {
            vertex_shader: self.vertex_shader@,
            vertex_entry_point: self.vertex_entry_point@,
            fragment_shader: match self.fragment_shader {
                Some(s) => Some(s@),
                None => None,
            },
            fragment_entry_point: self.fragment_entry_point@,
            frag_blend: self.frag_blend,
            write_mask: self.write_mask,
            bind_group_layouts: self.bind_group_layouts@,
            buffers: self.buffers@.map_values(|b: VertexBufferLayout| b@),
            primitive: self.primitive,
            depth_stencil: self.depth_stencil,
            multisample: self.multisample,
            cache: self.cache,
        }
    }
}

impl PipelineOptions {
    /// The source that the fragment module of the pipeline is compiled
    /// from: the fragment shader where one is given, and the vertex shader
    /// where none is.
    pub open spec fn spec_fragment_source(options: PipelineOptionsView) -> Seq<char> {
        match options.fragment_shader {
            Some(source) => source,
            None => options.vertex_shader,
        }
    }

    /// The source that the fragment module of the pipeline is compiled
    /// from: the fragment shader where one is given, and the vertex shader
    /// where none is.
    pub fn fragment_source(&self) -> (source: &String)
        ensures
            source@ == PipelineOptions::spec_fragment_source(self@),
    {
        match &self.fragment_shader {
            Some(source) => source,
            None => &self.vertex_shader,
        }
    }

    /// The source that the vertex module of the pipeline is compiled from.
    pub fn vertex_source(&self) -> (source: &String)
        ensures
            source@ == self@.vertex_shader,
    {
        &self.vertex_shader
    }

    /// The description that nothing was changed in: a placeholder shader with
    /// the entry points `vs_main` and `fs_main`, replacing blend, all channels
    /// written, no bind groups, no vertex buffers, triangle lists wound
    /// counter-clockwise with back faces culled, no depth or stencil test, one
    /// sample.
    pub open spec fn is_default(options: PipelineOptionsView) -> bool {
        &&& options.vertex_shader == "YOUR SHADER"@
        &&& options.vertex_entry_point == "vs_main"@
        &&& options.fragment_shader == None::<Seq<char>>
        &&& options.fragment_entry_point == "fs_main"@
        &&& options.frag_blend == Some(BlendState::spec_replace())
        &&& options.write_mask == (ColorWrites { bits: WRITE_ALL })
        &&& options.bind_group_layouts == Seq::<u64>::empty()
        &&& options.buffers == Seq::<VertexBufferLayoutView>::empty()
        &&& options.primitive == (PrimitiveState {
            topology: PrimitiveTopology::TriangleList,
            strip_index_format: None,
            front_face: FrontFace::Ccw,
            cull_mode: Some(Face::Back),
            polygon_mode: PolygonMode::Fill,
            unclipped_depth: false,
            conservative: false,
        })
        &&& options.depth_stencil == None::<DepthStencilState>
        &&& options.multisample == (MultisampleState {
            count: 1,
            mask: u64::MAX,
            alpha_to_coverage_enabled: false,
        })
        &&& options.cache == None::<PipelineCache>
    }
}

impl Default for PipelineOptions {
    fn default() -> (options: Self)
        ensures
            PipelineOptions::is_default(options@),
    {
        let options = PipelineOptions {
            vertex_shader: "YOUR SHADER".to_owned(),
            vertex_entry_point: "vs_main".to_owned(),
            fragment_shader: None,
            fragment_entry_point: "fs_main".to_owned(),
            frag_blend: Some(BlendState::replace()),
            write_mask: ColorWrites::all(),
            bind_group_layouts: Vec::new(),
            buffers: Vec::new(),
            primitive: PrimitiveState {
                topology: PrimitiveTopology::TriangleList,
                strip_index_format: None,
                front_face: FrontFace::Ccw,
                cull_mode: Some(Face::Back),
                polygon_mode: PolygonMode::Fill,
                unclipped_depth: false,
                conservative: false,
            },
            depth_stencil: None,
            multisample: MultisampleState {
                count: 1,
                mask: u64::MAX,
                alpha_to_coverage_enabled: false,
            },
            cache: None,
        };
        assert(options@.buffers =~= Seq::<VertexBufferLayoutView>::empty());
        options
    }
}

/// A declared pipeline: its description, and the formats for which its
/// pipeline object has been compiled, in the order in which they were asked
/// for.
pub struct Pipeline {
    options: PipelineOptions,
    builded: Vec<TextureFormat>,
}

/// What a [`Pipeline`] holds.
pub struct PipelineView {
    pub options: PipelineOptionsView,
    pub formats: Seq<TextureFormat>,
}

impl View for Pipeline {
    type V = PipelineView;

    closed spec fn view(&self) -> PipelineView {
        PipelineView { options: self.options@, formats: self.builded@ }
    }
}

impl Pipeline {
    /// The description that the pipeline was declared with.
    pub fn options(&self) -> (options: &PipelineOptions)
        ensures
            options@ == self@.options,
    {
        &self.options
    }

    /// The formats for which the pipeline object has been compiled.
    pub fn formats(&self) -> (formats: &Vec<TextureFormat>)
        ensures
            formats@ == self@.formats,
    {
        &self.builded
    }

    /// Whether the pipeline object has been compiled for `format`.
    fn position(&self, format: TextureFormat) -> (found: bool)
        ensures
            found == self@.formats.contains(format),
    {
        let mut i: usize = 0;
        while i < self.builded.len()
            invariant
                i <= self.builded@.len(),
                forall|j: int| 0 <= j < i ==> self.builded@[j] != format,
            decreases self.builded@.len() - i,
        {
            if self.builded[i] == format {
                return true;
            }
            i = i + 1;
        }
        false
    }
}

/// The registry of declared pipelines. A pipeline is named by the number of
/// pipelines declared before it, and is never removed.
pub struct Pipelines {
    pipelines: Vec<Pipeline>,
    last_id: u32,
}

impl View for Pipelines {
    type V = Seq<PipelineView>;

    closed spec fn view(&self) -> Seq<PipelineView> {
        self.pipelines@.map_values(|p: Pipeline| p@)
    }
}

/// The pipeline object of the pipeline `id` for the output format `format`.
pub open spec fn compiled(id: PipelineId, format: TextureFormat) -> RenderPipeline {
    RenderPipeline { pipeline: id, format }
}

/// The declared pipelines after `id` was resolved for `format`: the format is
/// noted with the pipeline unless it was there.
pub open spec fn resolved(
    pipelines: Seq<PipelineView>,
    id: PipelineId,
    format: TextureFormat,
) -> Seq<PipelineView> {
    let entry = pipelines[id.0 as int];
    if entry.formats.contains(format) {
        pipelines
    } else {
        pipelines.update(
            id.0 as int,
            PipelineView { options: entry.options, formats: entry.formats.push(format) },
        )
    }
}

/// The commands that resolving `id` for `format` records: one compilation
/// unless the format was noted with the pipeline.
pub open spec fn resolve_commands(
    pipelines: Seq<PipelineView>,
    id: PipelineId,
    format: TextureFormat,
) -> Seq<GpuCommandView> {
    if pipelines[id.0 as int].formats.contains(format) {
        Seq::empty()
    } else {
        seq![GpuCommandView::CompilePipeline { pipeline: id, format }]
    }
}

impl Pipelines {
    /// The registry's invariant: the next identity is the number of declared
    /// pipelines, and no pipeline notes a format twice.
    pub closed spec fn wf(&self) -> bool {
        &&& self.pipelines@.len() == self.last_id
        &&& forall|i: int|
            0 <= i < self.pipelines@.len() ==> (#[trigger] self.pipelines@[i]).builded@.no_duplicates()
    }

    /// In a well-formed registry no pipeline notes a format twice, and the
    /// identities fit their type.
    pub proof fn lemma_wf(&self)
        requires
            self.wf(),
        ensures
            self@.len() <= u32::MAX,
            forall|i: int| 0 <= i < self@.len() ==> (#[trigger] self@[i]).formats.no_duplicates(),
    {
    }

    /// An empty registry.
    pub fn new() -> (pipelines: Self)
        ensures
            pipelines.wf(),
            pipelines@ == Seq::<PipelineView>::empty(),
    {
        let pipelines = Pipelines { pipelines: Vec::new(), last_id: 0 };
        assert(pipelines@ =~= Seq::<PipelineView>::empty());
        pipelines
    }

    /// The number of declared pipelines.
    pub fn len(&self) -> (n: usize)
        ensures
            n == self@.len(),
    {
        self.pipelines.len()
    }

    /// Whether `pipeline_id` names a declared pipeline.
    pub fn contains(&self, pipeline_id: PipelineId) -> (r: bool)
        ensures
            r == (pipeline_id.0 < self@.len()),
    {
        (pipeline_id.0 as usize) < self.pipelines.len()
    }

    /// The declared pipeline that `pipeline_id` names, if any.
    pub fn get(&self, pipeline_id: PipelineId) -> (pipeline: Option<&Pipeline>)
        ensures
            match pipeline {
                Some(p) => pipeline_id.0 < self@.len() && p@ == self@[pipeline_id.0 as int],
                None => pipeline_id.0 >= self@.len(),
            },
    {
        if (pipeline_id.0 as usize) < self.pipelines.len() {
            Some(&self.pipelines[pipeline_id.0 as usize])
        } else {
            None
        }
    }

    /// Resolves a declared pipeline for an output format. The pipeline object
    /// is compiled when the format is asked for the first time, and never
    /// again: the first request records one compilation, every later one
    /// records nothing and changes nothing.
    pub fn get_pipeline_for_surface(
        &mut self,
        format: TextureFormat,
        pipeline_id: PipelineId,
        queue: &mut CommandQueue,
    ) -> (pipeline: RenderPipeline)
        requires
            old(self).wf(),
            pipeline_id.0 < old(self)@.len(),
        ensures
            final(self).wf(),
            pipeline == compiled(pipeline_id, format),
            final(self)@ == resolved(old(self)@, pipeline_id, format),
            final(queue).commands() == old(queue).commands() + resolve_commands(
                old(self)@,
                pipeline_id,
                format,
            ),
            final(queue).next_handle() == old(queue).next_handle(),
    {
        let index: usize = pipeline_id.0 as usize;
        let found = self.pipelines[index].position(format);
        if !found {
            let ghost before = self.pipelines@;
            let entry = &mut self.pipelines[index];
            entry.builded.push(format);
            queue.push(GpuCommand::CompilePipeline { pipeline: pipeline_id, format });
            proof {
                let noted = before[index as int].builded@;
                assert(noted.push(format).no_duplicates()) by {
                    assert forall|i: int, j: int|
                        0 <= i < noted.len() + 1 && 0 <= j < noted.len() + 1 && i != j implies noted.push(
                        format,
                    )[i] != noted.push(format)[j] by {
                        if i < noted.len() && j < noted.len() {
                            assert(noted[i] != noted[j]);
                        } else if i < noted.len() {
                            assert(noted.contains(noted[i]));
                        } else {
                            assert(noted.contains(noted[j]));
                        }
                    }
                }
                assert(self@ =~= resolved(old(self)@, pipeline_id, format));
                assert(queue.commands() =~= old(queue).commands() + resolve_commands(
                    old(self)@,
                    pipeline_id,
                    format,
                ));
            }
        } else {
            proof {
                assert(queue.commands() =~= old(queue).commands() + resolve_commands(
                    old(self)@,
                    pipeline_id,
                    format,
                ));
            }
        }
        RenderPipeline { pipeline: pipeline_id, format }
    }

    /// Declares a pipeline. Its shader modules and its layout are compiled at
    /// once, by the one command that this records: the vertex module from
    /// [`PipelineOptions::vertex_source`], the fragment module from
    /// [`PipelineOptions::fragment_source`], and the layout over the bind
    /// group layouts of the description, in their order. No pipeline object
    /// is compiled before a format is asked for.
    pub fn create_pipeline(&mut self, queue: &mut CommandQueue, options: PipelineOptions) -> (id:
        PipelineId)
        requires
            old(self).wf(),
            old(self)@.len() < u32::MAX,
        ensures
            final(self).wf(),
            id.0 == old(self)@.len(),
            final(self)@ == old(self)@.push(
                PipelineView { options: options@, formats: Seq::empty() },
            ),
            final(queue).commands() == old(queue).commands().push(
                GpuCommandView::CreatePipeline { pipeline: id },
            ),
            final(queue).next_handle() == old(queue).next_handle(),
    {
        let id = PipelineId(self.last_id);
        self.pipelines.push(Pipeline { options, builded: Vec::new() });
        self.last_id = self.last_id + 1;
        queue.push(GpuCommand::CreatePipeline { pipeline: id });
        proof {
            assert(self@ =~= old(self)@.push(
                PipelineView { options: options@, formats: Seq::empty() },
            ));
        }
        id
    }
}

} // verus!
