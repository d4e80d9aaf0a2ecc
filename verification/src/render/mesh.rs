//! Materials and meshes: a pipeline with its bind group and uniform
//! buffers, and a vertex list with its index list and their buffers.

use vstd::prelude::*;
use vstd::layout::size_of;
use bytemuck::{Pod, Zeroable};
use crate::render::buffer::Buffer;
use crate::render::command::BufferSlice;
use crate::render::render_pipeline::IndexFormat;
use crate::render::{lemma_follows_chain, lemma_issue_follows, lemma_resolve_follows};
use crate::render::bind_group::{
    BindGroup,
    BindGroupEntryLayout,
    BindGroupEntryResources,
    BindGroupLayout,
    BindGroupView,
    BindingResource,
    BindingType,
    BufferBindingType,
    SamplerBindingType,
    ShaderStages,
    TextureSampleType,
    TextureViewDimension,
};
use crate::render::buffer::{
    accepts_write,
    allocated,
    fits,
    create_command,
    flattened,
    update_commands,
    updated,
    BufferUsages,
    BufferView,
    UnTypedBuffer,
    USAGE_COPY_DST,
    USAGE_INDEX,
    USAGE_UNIFORM,
    USAGE_VERTEX,
};
use crate::render::bind_group::bind_command;
use crate::render::command::{handle_after, GpuCommand, GpuCommandView, PassCommandView};
use crate::render::render_pipeline::{resolve_commands, resolved, RenderPipeline};
use crate::render::texture::Texture;
use crate::render::{lemma_issue_nothing, Render, RenderView};
use crate::render::render_pipeline::{PipelineId, PipelineOptions, PipelineOptionsView, PipelineView};
use crate::render::{lemma_issue_twice, Renderer, RendererView};

verus! {

/// The slot of a layout that takes a filterable two-dimensional texture.
pub open spec fn texture_slot(binding: u32, visibility: ShaderStages) -> BindGroupEntryLayout {
    BindGroupEntryLayout {
        binding,
        visibility,
        ty: BindingType::Texture {
            sample_type: TextureSampleType::Float { filterable: true },
            view_dimension: TextureViewDimension::D2,
            multisampled: false,
        },
    }
}

/// The slot of a layout that takes a filtering sampler.
pub open spec fn sampler_slot(binding: u32, visibility: ShaderStages) -> BindGroupEntryLayout {
    BindGroupEntryLayout {
        binding,
        visibility,
        ty: BindingType::Sampler(SamplerBindingType::Filtering),
    }
}

/// The slot of a layout that takes a uniform buffer.
pub open spec fn uniform_slot(binding: u32, visibility: ShaderStages) -> BindGroupEntryLayout {
    BindGroupEntryLayout {
        binding,
        visibility,
        ty: BindingType::Buffer {
            ty: BufferBindingType::Uniform,
            has_dynamic_offset: false,
            min_binding_size: None,
        },
    }
}

/// The slots that registered textures take: for each texture the slot of its
/// view and then the slot of its sampler.
pub open spec fn texture_slots(textures: Seq<(u32, u32, ShaderStages)>) -> Seq<
    BindGroupEntryLayout,
> {
    Seq::new(
        2 * textures.len(),
        |i: int|
            if i % 2 == 0 {
                texture_slot(textures[i / 2].0, textures[i / 2].2)
            } else {
                sampler_slot(textures[i / 2].1, textures[i / 2].2)
            },
    )
}

/// The slots that registered uniforms take, one each.
pub open spec fn uniform_slots(uniforms: Seq<(u32, ShaderStages)>) -> Seq<BindGroupEntryLayout> {
    Seq::new(uniforms.len(), |i: int| uniform_slot(uniforms[i].0, uniforms[i].1))
}

/// The builder of a [`MaterialLayout`]. It takes the description of the
/// pipeline and the slots of the uniforms and textures. The bind group
/// layouts of the description are ignored: the pipeline gets the one layout
/// that is built of the slots.
pub struct MaterialLayoutBuilder {
    pipeline_options: PipelineOptions,
    uniforms: Vec<(u32, ShaderStages)>,
    textures: Vec<(u32, u32, ShaderStages)>,
}

/// What a [`MaterialLayoutBuilder`] holds.
pub struct MaterialLayoutBuilderView {
    pub pipeline_options: PipelineOptionsView,
    /// The registered uniforms: slot and visibility, in the order of
    /// registration.
    pub uniforms: Seq<(u32, ShaderStages)>,
    /// The registered textures: slot of the view, slot of the sampler and
    /// visibility, in the order of registration.
    pub textures: Seq<(u32, u32, ShaderStages)>,
}

impl View for MaterialLayoutBuilder {
    type V = MaterialLayoutBuilderView;

    closed spec fn view(&self) -> MaterialLayoutBuilderView {
        MaterialLayoutBuilderView {
            pipeline_options: self.pipeline_options@,
            uniforms: self.uniforms@,
            textures: self.textures@,
        }
    }
}

/// The layout of materials: the pipeline they draw with, the bind group
/// layout they bind against, and the slots of the uniforms that the layout
/// declares.
pub struct MaterialLayout {
    pipeline: PipelineId,
    bindgroup: BindGroupLayout,
    uniforms: Vec<u32>,
}

/// What a [`MaterialLayout`] holds.
pub struct MaterialLayoutView {
    pub pipeline: PipelineId,
    /// The handle of the bind group layout.
    pub bindgroup: u64,
    /// The slots of the declared uniforms, in the order of registration.
    pub uniform_slots: Seq<u32>,
}

impl View for MaterialLayout {
    type V = MaterialLayoutView;

    closed spec fn view(&self) -> MaterialLayoutView {
        MaterialLayoutView {
            pipeline: self.pipeline,
            bindgroup: self.bindgroup@,
            uniform_slots: self.uniforms@,
        }
    }
}

/// The slots of registered uniforms.
pub open spec fn slots_of(uniforms: Seq<(u32, ShaderStages)>) -> Seq<u32> {
    Seq::new(uniforms.len(), |i: int| uniforms[i].0)
}

impl MaterialLayout {
    /// The pipeline of the materials of this layout.
    pub fn pipeline(&self) -> (pipeline: PipelineId)
        ensures
            pipeline == self@.pipeline,
    {
        self.pipeline
    }

    /// The bind group layout of the materials of this layout.
    pub fn bindgroup(&self) -> (layout: BindGroupLayout)
        ensures
            layout@ == self@.bindgroup,
    {
        self.bindgroup
    }

    /// The slots of the declared uniforms, in the order of registration.
    pub fn uniform_slots(&self) -> (slots: &Vec<u32>)
        ensures
            slots@ == self@.uniform_slots,
    {
        &self.uniforms
    }
}

impl MaterialLayoutBuilderView {
    /// The slots of the bind group layout that is built: those of the
    /// textures, then those of the uniforms.
    pub open spec fn slots(self) -> Seq<BindGroupEntryLayout> {
        texture_slots(self.textures) + uniform_slots(self.uniforms)
    }

    /// The description of the pipeline that is built: the one given, with
    /// the built bind group layout as its only one.
    pub open spec fn options(self, layout: u64) -> PipelineOptionsView {
        PipelineOptionsView { bind_group_layouts: seq![layout], ..self.pipeline_options }
    }
}

impl MaterialLayoutBuilder {
    /// A builder with no slot registered. The bind group layouts of
    /// `pipeline_options` are ignored.
    pub fn new(pipeline_options: PipelineOptions) -> (builder: Self)
        ensures
            builder@ == (MaterialLayoutBuilderView {
                pipeline_options: pipeline_options@,
                uniforms: Seq::empty(),
                textures: Seq::empty(),
            }),
    {
        MaterialLayoutBuilder { pipeline_options, uniforms: Vec::new(), textures: Vec::new() }
    }

    /// Registers a uniform at `slot`, visible to the stages `vis`.
    pub fn register_uniform_at(&mut self, slot: u32, vis: ShaderStages)
        ensures
            final(self)@ == (MaterialLayoutBuilderView {
                uniforms: old(self)@.uniforms.push((slot, vis)),
                ..old(self)@
            }),
    {
        self.uniforms.push((slot, vis));
    }

    /// Registers a texture whose view is at `slot` and whose sampler is at
    /// `sample_slot`, both visible to the stages `vis`.
    pub fn register_texture_at(&mut self, slot: u32, sample_slot: u32, vis: ShaderStages)
        ensures
            final(self)@ == (MaterialLayoutBuilderView {
                textures: old(self)@.textures.push((slot, sample_slot, vis)),
                ..old(self)@
            }),
    {
        self.textures.push((slot, sample_slot, vis));
    }

    /// Builds the layout: compiles the bind group layout of the registered
    /// slots and declares the pipeline with it.
    pub fn build(self, renderer: &mut Renderer) -> (layout: MaterialLayout)
        requires
            old(renderer).wf(),
            old(renderer)@.pipelines.len() < u32::MAX,
        ensures
            final(renderer).wf(),
            layout@ == (MaterialLayoutView {
                pipeline: PipelineId(old(renderer)@.pipelines.len() as u32),
                bindgroup: old(renderer)@.next_handle,
                uniform_slots: slots_of(self@.uniforms),
            }),
            final(renderer)@ == (RendererView {
                pipelines: old(renderer)@.pipelines.push(
                    PipelineView {
                        options: self@.options(layout@.bindgroup),
                        formats: Seq::empty(),
                    },
                ),
                ..old(renderer)@.issue(
                    seq![
                        GpuCommandView::CreateBindGroupLayout {
                            layout: layout@.bindgroup,
                            entries: self@.slots(),
                        },
                        GpuCommandView::CreatePipeline { pipeline: layout@.pipeline },
                    ],
                    1,
                )
            }),
    {
        let MaterialLayoutBuilder { pipeline_options, uniforms, textures } = self;
        let mut entries: Vec<BindGroupEntryLayout> = Vec::new();
        let mut i: usize = 0;
        while i < textures.len()
            invariant
                i <= textures@.len(),
                entries@ == texture_slots(textures@.subrange(0, i as int)),
            decreases textures@.len() - i,
        {
            let (binding, sample_bind, vis) = textures[i];
            entries.push(
                BindGroupEntryLayout {
                    binding,
                    visibility: vis,
                    ty: BindingType::Texture {
                        sample_type: TextureSampleType::Float { filterable: true },
                        view_dimension: TextureViewDimension::D2,
                        multisampled: false,
                    },
                },
            );
            entries.push(
                BindGroupEntryLayout {
                    binding: sample_bind,
                    visibility: vis,
                    ty: BindingType::Sampler(SamplerBindingType::Filtering),
                },
            );
            assert(entries@ =~= texture_slots(textures@.subrange(0, i + 1)));
            i = i + 1;
        }
        assert(textures@.subrange(0, i as int) =~= textures@);
        let ghost texture_part = entries@;
        let mut declared: Vec<u32> = Vec::new();
        let mut j: usize = 0;
        while j < uniforms.len()
            invariant
                j <= uniforms@.len(),
                entries@ == texture_part + uniform_slots(uniforms@.subrange(0, j as int)),
                declared@ == slots_of(uniforms@.subrange(0, j as int)),
            decreases uniforms@.len() - j,
        {
            let (binding, vis) = uniforms[j];
            declared.push(binding);
            assert(declared@ =~= slots_of(uniforms@.subrange(0, j + 1)));
            entries.push(
                BindGroupEntryLayout {
                    binding,
                    visibility: vis,
                    ty: BindingType::Buffer {
                        ty: BufferBindingType::Uniform,
                        has_dynamic_offset: false,
                        min_binding_size: None,
                    },
                },
            );
            assert(entries@ =~= texture_part + uniform_slots(uniforms@.subrange(0, j + 1)));
            j = j + 1;
        }
        assert(uniforms@.subrange(0, j as int) =~= uniforms@);
        let ghost slots = entries@;
        let ghost start = renderer@;
        let bind_group_layout = BindGroupLayout::new(renderer, entries);
        let ghost compiled = renderer@;
        let mut options = pipeline_options;
        let mut layouts: Vec<u64> = Vec::new();
        layouts.push(bind_group_layout.layout());
        options.bind_group_layouts = layouts;
        assert(options@ == self@.options(bind_group_layout@)) by {
            assert(options@.bind_group_layouts =~= seq![bind_group_layout@]);
        }
        let pipeline = renderer.create_pipeline(options);
        proof {
            let first = GpuCommandView::CreateBindGroupLayout {
                layout: bind_group_layout@,
                entries: slots,
            };
            let second = GpuCommandView::CreatePipeline { pipeline };
            assert(start.commands + seq![first, second] =~= (start.commands + seq![first]).push(
                second,
            ));
        }
        MaterialLayout { pipeline, bindgroup: bind_group_layout, uniforms: declared }
    }
}

/// The usages of the buffer of a uniform: uniform data that can be written
/// anew.
pub open spec fn uniform_usage() -> BufferUsages {
    BufferUsages { bits: 72 }
}

/// The buffer of a uniform whose bytes are `bytes`, allocated under
/// `handle`: one element.
pub open spec fn uniform_buffer(handle: u64, bytes: Seq<u8>) -> BufferView {
    allocated(handle, uniform_usage(), 1, bytes)
}

/// The buffers of the uniforms `uniforms`, allocated one after the other
/// from `handle` on, each beside its slot.
pub open spec fn allocated_uniforms(uniforms: Seq<(u32, Vec<u8>)>, handle: u64) -> Seq<
    (u32, BufferView),
> {
    Seq::new(
        uniforms.len(),
        |i: int| (uniforms[i].0, uniform_buffer(handle_after(handle, i as nat), uniforms[i].1@)),
    )
}

/// The commands that allocate the buffers `buffers`, in their order.
pub open spec fn uniform_commands(buffers: Seq<(u32, BufferView)>) -> Seq<GpuCommandView> {
    Seq::new(buffers.len(), |i: int| create_command(buffers[i].1))
}

/// The resources by which the buffers `buffers` are bound, each whole
/// buffer to its slot, in their order.
pub open spec fn uniform_resources(buffers: Seq<(u32, BufferView)>) -> Seq<
    BindGroupEntryResources,
> {
    Seq::new(
        buffers.len(),
        |i: int|
            BindGroupEntryResources {
                binding: buffers[i].0,
                resource: BindingResource::Buffer(buffers[i].1.handle),
            },
    )
}

/// The resources by which the textures `textures` are bound: for each
/// texture its view and then its sampler, each to its slot.
pub open spec fn texture_resources(textures: Seq<(u32, u32, Texture)>) -> Seq<
    BindGroupEntryResources,
> {
    Seq::new(
        2 * textures.len(),
        |i: int|
            if i % 2 == 0 {
                BindGroupEntryResources {
                    binding: textures[i / 2].0,
                    resource: BindingResource::TextureView(textures[i / 2].2.view),
                }
            } else {
                BindGroupEntryResources {
                    binding: textures[i / 2].1,
                    resource: BindingResource::Sampler(textures[i / 2].2.sampler),
                }
            },
    )
}

/// Whether no slot occurs twice among `uniforms`.
pub open spec fn distinct_slots<T>(uniforms: Seq<(u32, T)>) -> bool {
    forall|i: int, j: int|
        0 <= i < uniforms.len() && 0 <= j < uniforms.len() && i != j ==> (
        #[trigger] uniforms[i]).0 != (#[trigger] uniforms[j]).0
}

/// Whether a uniform of `uniforms` has the slot `slot`.
pub open spec fn has_slot<T>(uniforms: Seq<(u32, T)>, slot: u32) -> bool {
    exists|i: int| 0 <= i < uniforms.len() && (#[trigger] uniforms[i]).0 == slot
}

/// Whether every slot of `slots` is the slot of a uniform of `uniforms`.
pub open spec fn covers<T>(slots: Seq<u32>, uniforms: Seq<(u32, T)>) -> bool {
    forall|i: int| 0 <= i < slots.len() ==> has_slot(uniforms, #[trigger] slots[i])
}

/// Uniforms that have the same slots at the same places cover the same
/// slots.
pub proof fn lemma_covers_same_slots<T, U>(
    slots: Seq<u32>,
    first: Seq<(u32, T)>,
    second: Seq<(u32, U)>,
)
    requires
        covers(slots, first),
        first.len() == second.len(),
        forall|i: int| 0 <= i < first.len() ==> (#[trigger] first[i]).0 == second[i].0,
    ensures
        covers(slots, second),
{
    assert forall|i: int| 0 <= i < slots.len() implies has_slot(second, #[trigger] slots[i]) by {
        let k = index_of_slot(first, slots[i]);
        assert(first[k].0 == slots[i]);
        assert(second[k].0 == slots[i]);
    }
}

/// The place of the uniform with the slot `slot`.
pub open spec fn index_of_slot<T>(uniforms: Seq<(u32, T)>, slot: u32) -> int {
    choose|i: int| 0 <= i < uniforms.len() && (#[trigger] uniforms[i]).0 == slot
}

/// A pipeline with the bind group that feeds it: the buffers of its
/// uniforms and its textures.
pub struct Material {
    pipeline: PipelineId,
    bindgroup: BindGroup,
    uniform_buffers: Vec<(u32, UnTypedBuffer)>,
    declared: Ghost<Seq<u32>>,
}

/// What a [`Material`] holds.
pub struct MaterialView {
    pub pipeline: PipelineId,
    pub bindgroup: BindGroupView,
    /// The buffers of the uniforms, each beside its slot, in the order in
    /// which the uniforms were given.
    pub uniforms: Seq<(u32, BufferView)>,
    /// The slots of the uniforms that the material's layout declares.
    pub declared: Seq<u32>,
}

impl MaterialView {
    /// The material after its textures were changed to `textures`, with
    /// the new bind group made under `handle`: the pipeline, the layout and
    /// the uniform buffers are as they were, and the bind group binds the
    /// uniform buffers as before and then the new textures.
    pub open spec fn with_textures(self, textures: Seq<(u32, u32, Texture)>, handle: u64)
        -> MaterialView {
        MaterialView {
            pipeline: self.pipeline,
            bindgroup: BindGroupView {
                group: handle,
                layout: self.bindgroup.layout,
                resources: uniform_resources(self.uniforms) + texture_resources(textures),
            },
            uniforms: self.uniforms,
            declared: self.declared,
        }
    }

    /// The invariant of a material: no slot has two buffers, every buffer
    /// is one of uniform data that can be written anew, and every uniform
    /// that the layout declares has its buffer.
    pub open spec fn wf(self) -> bool {
        &&& distinct_slots(self.uniforms)
        &&& forall|i: int|
            0 <= i < self.uniforms.len() ==> (#[trigger] self.uniforms[i]).1.usage
                == uniform_usage()
        &&& covers(self.declared, self.uniforms)
    }

    /// Whether the bind group binds every uniform buffer to its slot.
    pub open spec fn binds_uniforms(self) -> bool {
        uniform_resources(self.uniforms).is_prefix_of(self.bindgroup.resources)
    }
}

impl View for Material {
    type V = MaterialView;

    closed spec fn view(&self) -> MaterialView {
        MaterialView {
            pipeline: self.pipeline,
            bindgroup: self.bindgroup@,
            uniforms: self.uniform_buffers@.map_values(|e: (u32, UnTypedBuffer)| (e.0, e.1@)),
            declared: self.declared@,
        }
    }
}

/// Copies a run of bytes.
fn copy_bytes(bytes: &Vec<u8>) -> (copy: Vec<u8>)
    ensures
        copy@ == bytes@,
{
    let mut copy: Vec<u8> = Vec::new();
    let mut i: usize = 0;
    while i < bytes.len()
        invariant
            i <= bytes@.len(),
            copy@ == bytes@.subrange(0, i as int),
        decreases bytes@.len() - i,
    {
        copy.push(bytes[i]);
        assert(copy@ =~= bytes@.subrange(0, i + 1));
        i = i + 1;
    }
    assert(bytes@.subrange(0, i as int) =~= bytes@);
    copy
}

/// A run of one element is its own flattening.
proof fn lemma_flattened_one(bytes: Vec<u8>)
    ensures
        flattened(seq![bytes]) == bytes@,
{
    let chunks = seq![bytes].map_values(|c: Vec<u8>| c@);
    assert(chunks =~= seq![bytes@]);
    chunks.lemma_flatten_one_element();
}

/// The resources by which uniform buffers are bound.
fn bind_uniforms(buffers: &Vec<(u32, UnTypedBuffer)>) -> (resources: Vec<BindGroupEntryResources>)
    ensures
        resources@ == uniform_resources(
            buffers@.map_values(|e: (u32, UnTypedBuffer)| (e.0, e.1@)),
        ),
{
    let ghost table = buffers@.map_values(|e: (u32, UnTypedBuffer)| (e.0, e.1@));
    let mut resources: Vec<BindGroupEntryResources> = Vec::new();
    let mut i: usize = 0;
    while i < buffers.len()
        invariant
            i <= buffers@.len(),
            table == buffers@.map_values(|e: (u32, UnTypedBuffer)| (e.0, e.1@)),
            resources@ == uniform_resources(table.subrange(0, i as int)),
        decreases buffers@.len() - i,
    {
        let entry = &buffers[i];
        resources.push(
            BindGroupEntryResources { binding: entry.0, resource: entry.1.as_entire_binding() },
        );
        assert(resources@ =~= uniform_resources(table.subrange(0, i + 1)));
        i = i + 1;
    }
    assert(table.subrange(0, i as int) =~= table);
    resources
}

/// Adds the resources by which textures are bound.
fn bind_textures(resources: &mut Vec<BindGroupEntryResources>, textures: &Vec<(u32, u32, Texture)>)
    ensures
        final(resources)@ == old(resources)@ + texture_resources(textures@),
{
    let ghost start = resources@;
    let mut i: usize = 0;
    assert(resources@ =~= start + texture_resources(textures@.subrange(0, 0)));
    while i < textures.len()
        invariant
            i <= textures@.len(),
            resources@ == start + texture_resources(textures@.subrange(0, i as int)),
        decreases textures@.len() - i,
    {
        let (binding, sample_binding, texture) = textures[i];
        resources.push(
            BindGroupEntryResources { binding, resource: BindingResource::TextureView(texture.view) },
        );
        resources.push(
            BindGroupEntryResources {
                binding: sample_binding,
                resource: BindingResource::Sampler(texture.sampler),
            },
        );
        assert(resources@ =~= start + texture_resources(textures@.subrange(0, i + 1)));
        i = i + 1;
    }
    assert(textures@.subrange(0, i as int) =~= textures@);
}

impl Material {
    /// The invariant of a material.
    pub open spec fn wf(&self) -> bool {
        self@.wf()
    }

    /// The place of the uniform with the slot `slot`.
    fn find_slot(&self, slot: u32) -> (found: Option<usize>)
        requires
            self.wf(),
        ensures
            match found {
                Some(i) => has_slot(self@.uniforms, slot) && i == index_of_slot(
                    self@.uniforms,
                    slot,
                ) && i < self@.uniforms.len(),
                None => !has_slot(self@.uniforms, slot),
            },
    {
        let mut i: usize = 0;
        while i < self.uniform_buffers.len()
            invariant
                self.wf(),
                i <= self.uniform_buffers@.len(),
                forall|j: int| 0 <= j < i ==> (#[trigger] self@.uniforms[j]).0 != slot,
            decreases self.uniform_buffers@.len() - i,
        {
            if self.uniform_buffers[i].0 == slot {
                proof {
                    assert(self@.uniforms[i as int].0 == slot);
                    let k = index_of_slot(self@.uniforms, slot);
                    assert(self@.uniforms[k].0 == slot);
                    assert(k == i);
                }
                return Some(i);
            }
            i = i + 1;
        }
        None
    }

    /// Whether a material of the layout `layout` can be made of `uniforms`:
    /// whether no slot occurs twice among them, and every uniform that the
    /// layout declares is among them.
    pub fn accepts(layout: &MaterialLayout, uniforms: &Vec<(u32, Vec<u8>)>) -> (r: bool)
        ensures
            r == (distinct_slots(uniforms@) && covers(layout@.uniform_slots, uniforms@)),
    {
        if !Material::has_distinct_slots(uniforms) {
            return false;
        }
        let slots = layout.uniform_slots();
        let mut i: usize = 0;
        while i < slots.len()
            invariant
                i <= slots@.len(),
                slots@ == layout@.uniform_slots,
                distinct_slots(uniforms@),
                forall|k: int| 0 <= k < i ==> has_slot(uniforms@, #[trigger] slots@[k]),
            decreases slots@.len() - i,
        {
            let mut found = false;
            let mut j: usize = 0;
            while j < uniforms.len()
                invariant
                    i < slots@.len(),
                    j <= uniforms@.len(),
                    found ==> has_slot(uniforms@, slots@[i as int]),
                    !found ==> forall|k: int|
                        0 <= k < j ==> (#[trigger] uniforms@[k]).0 != slots@[i as int],
                decreases uniforms@.len() - j,
            {
                if uniforms[j].0 == slots[i] {
                    found = true;
                }
                j = j + 1;
            }
            if !found {
                assert(!has_slot(uniforms@, layout@.uniform_slots[i as int]));
                return false;
            }
            i = i + 1;
        }
        true
    }

    /// Whether no slot occurs twice among `uniforms`.
    pub fn has_distinct_slots(uniforms: &Vec<(u32, Vec<u8>)>) -> (r: bool)
        ensures
            r == distinct_slots(uniforms@),
    {
        let mut i: usize = 0;
        while i < uniforms.len()
            invariant
                i <= uniforms@.len(),
                forall|a: int, b: int|
                    0 <= a < i && 0 <= b < uniforms@.len() && a != b ==> (#[trigger] uniforms@[a]).0
                        != (#[trigger] uniforms@[b]).0,
            decreases uniforms@.len() - i,
        {
            let mut j: usize = 0;
            while j < uniforms.len()
                invariant
                    i < uniforms@.len(),
                    j <= uniforms@.len(),
                    forall|b: int|
                        0 <= b < j && b != i ==> uniforms@[i as int].0 != (#[trigger] uniforms@[b]).0,
                decreases uniforms@.len() - j,
            {
                if j != i && uniforms[i].0 == uniforms[j].0 {
                    return false;
                }
                j = j + 1;
            }
            i = i + 1;
        }
        true
    }

    /// Makes a material of a layout. A uniform is given by its slot and its
    /// bytes, a texture by the slot of its view, the slot of its sampler,
    /// and the texture.
    ///
    /// Allocates one buffer for each uniform, filled with its bytes, and
    /// binds the buffers and then the textures to the slots of the layout.
    /// The uniforms are given by slot: no slot may occur twice, and every
    /// uniform that the layout declares must be among them.
    pub fn from_layout(
        renderer: &mut Renderer,
        layout: &MaterialLayout,
        uniforms: Vec<(u32, Vec<u8>)>,
        textures: Vec<(u32, u32, Texture)>,
    ) -> (material: Self)
        requires
            distinct_slots(uniforms@),
            covers(layout@.uniform_slots, uniforms@),
        ensures
            final(renderer).wf() == old(renderer).wf(),
            material.wf(),
            material@.pipeline == layout@.pipeline,
            material@.declared == layout@.uniform_slots,
            material@.uniforms == allocated_uniforms(uniforms@, old(renderer)@.next_handle),
            material@.bindgroup == (BindGroupView {
                group: handle_after(old(renderer)@.next_handle, uniforms@.len()),
                layout: layout@.bindgroup,
                resources: uniform_resources(material@.uniforms) + texture_resources(textures@),
            }),
            final(renderer)@ == old(renderer)@.issue(
                uniform_commands(material@.uniforms) + seq![bind_command(material@.bindgroup)],
                uniforms@.len() + 1,
            ),
    {
        let ghost start = renderer@;
        let mut uniform_buffers: Vec<(u32, UnTypedBuffer)> = Vec::new();
        let mut i: usize = 0;
        proof {
            lemma_issue_nothing(start);
            assert(uniform_commands(allocated_uniforms(uniforms@.subrange(0, 0), start.next_handle))
                =~= Seq::<GpuCommandView>::empty());
            assert(uniform_buffers@.map_values(|e: (u32, UnTypedBuffer)| (e.0, e.1@))
                =~= allocated_uniforms(uniforms@.subrange(0, 0), start.next_handle));
        }
        while i < uniforms.len()
            invariant
                i <= uniforms@.len(),
                renderer.wf() == old(renderer).wf(),
                start == old(renderer)@,
                uniform_buffers@.map_values(|e: (u32, UnTypedBuffer)| (e.0, e.1@))
                    == allocated_uniforms(uniforms@.subrange(0, i as int), start.next_handle),
                renderer@ == start.issue(
                    uniform_commands(
                        allocated_uniforms(uniforms@.subrange(0, i as int), start.next_handle),
                    ),
                    i as nat,
                ),
            decreases uniforms@.len() - i,
        {
            let ghost before = renderer@;
            let ghost table = allocated_uniforms(uniforms@.subrange(0, i as int), start.next_handle);
            let entry = &uniforms[i];
            let mut chunks: Vec<Vec<u8>> = Vec::new();
            chunks.push(copy_bytes(&entry.1));
            let ghost chunk = chunks@[0];
            let buf = UnTypedBuffer::new(
                renderer,
                chunks,
                BufferUsages { bits: USAGE_UNIFORM | USAGE_COPY_DST },
            );
            let ghost made = uniform_buffers@;
            uniform_buffers.push((entry.0, buf));
            proof {
                assert(USAGE_UNIFORM | USAGE_COPY_DST == 72) by (bit_vector);
                assert(chunks@ =~= seq![chunk]);
                lemma_flattened_one(chunk);
                let next = allocated_uniforms(uniforms@.subrange(0, i + 1), start.next_handle);
                let now = uniform_buffers@.map_values(|e: (u32, UnTypedBuffer)| (e.0, e.1@));
                assert(buf@ == uniform_buffer(handle_after(start.next_handle, i as nat), entry.1@));
                assert forall|k: int| 0 <= k < now.len() implies now[k] == next[k] by {
                    if k < i {
                        assert(uniform_buffers@[k] == made[k]);
                        assert(now[k] == made.map_values(
                            |e: (u32, UnTypedBuffer)| (e.0, e.1@),
                        )[k]);
                        assert(now[k] == table[k]);
                        assert(uniforms@.subrange(0, i as int)[k] == uniforms@.subrange(0, i + 1)[k]);
                    } else {
                        assert(uniforms@.subrange(0, i + 1)[k] == uniforms@[i as int]);
                    }
                }
                assert(now =~= next);
                assert(uniform_commands(next) =~= uniform_commands(table) + seq![
                    create_command(buf@),
                ]);
                lemma_issue_twice(
                    start,
                    uniform_commands(table),
                    i as nat,
                    seq![create_command(buf@)],
                    1,
                );
            }
            i = i + 1;
        }
        assert(uniforms@.subrange(0, i as int) =~= uniforms@);
        let ghost table = allocated_uniforms(uniforms@, start.next_handle);
        let mut res = bind_uniforms(&uniform_buffers);
        bind_textures(&mut res, &textures);
        let bind_group = BindGroup::new_from_layout(renderer, res, &layout.bindgroup());
        proof {
            lemma_issue_twice(
                start,
                uniform_commands(table),
                uniforms@.len(),
                seq![bind_command(bind_group@)],
                1,
            );
        }
        proof {
            lemma_covers_same_slots(layout@.uniform_slots, uniforms@, table);
        }
        Material {
            bindgroup: bind_group,
            pipeline: layout.pipeline(),
            uniform_buffers,
            declared: Ghost(layout@.uniform_slots),
        }
    }

    /// Replaces the bytes of the uniform at `slot`. The slot must be one
    /// that the material was made with. The buffer of a uniform does not
    /// grow: bytes that do not fit it are not written, and nothing is
    /// recorded. Returns whether the buffer was written.
    pub fn update_uniform(&mut self, slot: u32, bytes: Vec<u8>, renderer: &mut Renderer) -> (written:
        bool)
        requires
            old(self).wf(),
            has_slot(old(self)@.uniforms, slot),
        ensures
            final(self).wf(),
            written == accepts_write(
                old(self)@.uniforms[index_of_slot(old(self)@.uniforms, slot)].1,
                bytes@.len(),
            ),
            final(renderer).wf() == old(renderer).wf(),
            final(self)@ == (MaterialView {
                uniforms: old(self)@.uniforms.update(
                    index_of_slot(old(self)@.uniforms, slot),
                    (
                        slot,
                        updated(
                            old(self)@.uniforms[index_of_slot(old(self)@.uniforms, slot)].1,
                            1,
                            bytes@,
                        ),
                    ),
                ),
                ..old(self)@
            }),
            final(renderer)@ == old(renderer)@.issue(
                update_commands(
                    old(self)@.uniforms[index_of_slot(old(self)@.uniforms, slot)].1,
                    bytes@,
                ),
                0,
            ),
    {
        match self.find_slot(slot) {
            Some(i) => {
                let mut chunks: Vec<Vec<u8>> = Vec::new();
                chunks.push(bytes);
                proof {
                    assert(chunks@ =~= seq![bytes]);
                    lemma_flattened_one(bytes);
                }
                let ghost before = self@.uniforms;
                let entry = &mut self.uniform_buffers[i];
                let written = entry.1.update(renderer, chunks);
                proof {
                    assert(self@.uniforms =~= before.update(
                        i as int,
                        (slot, updated(before[i as int].1, 1, bytes@)),
                    ));
                    lemma_covers_same_slots(self@.declared, before, self@.uniforms);
                }
                written
            },
            None => {
                proof {
                    assert(false);
                }
                false
            },
        }
    }

    /// Replaces the bytes of the uniform at `slot` while a pass is open, as
    /// [`Material::update_uniform`] says, on the device context that the
    /// pass holds. The pass goes on as it was.
    pub fn update_uniform_in_pass(&mut self, slot: u32, bytes: Vec<u8>, render: &mut Render) -> (written:
        bool)
        requires
            old(self).wf(),
            has_slot(old(self)@.uniforms, slot),
        ensures
            final(self).wf(),
            written == accepts_write(
                old(self)@.uniforms[index_of_slot(old(self)@.uniforms, slot)].1,
                bytes@.len(),
            ),
            final(render).wf() == old(render).wf(),
            final(self)@ == (MaterialView {
                uniforms: old(self)@.uniforms.update(
                    index_of_slot(old(self)@.uniforms, slot),
                    (
                        slot,
                        updated(
                            old(self)@.uniforms[index_of_slot(old(self)@.uniforms, slot)].1,
                            1,
                            bytes@,
                        ),
                    ),
                ),
                ..old(self)@
            }),
            final(render)@ == old(render)@.with_renderer(
                old(render)@.renderer.issue(
                    update_commands(
                        old(self)@.uniforms[index_of_slot(old(self)@.uniforms, slot)].1,
                        bytes@,
                    ),
                    0,
                ),
            ),
            final(render)@.continues(old(render)@),
    {
        let ghost start = render@;
        let ghost commands = update_commands(
            self@.uniforms[index_of_slot(self@.uniforms, slot)].1,
            bytes@,
        );
        let written = self.update_uniform(slot, bytes, render.renderer_mut());
        proof {
            lemma_issue_follows(start.renderer, commands, 0);
        }
        written
    }

    /// Changes all textures at once: builds the bind group anew, against
    /// the same layout, of the uniform buffers as they are and of the new
    /// textures, and discards the bind group that it replaces. No uniform
    /// buffer is touched.
    pub fn change_textures(&mut self, textures: Vec<(u32, u32, Texture)>, renderer: &mut Renderer)
        ensures
            final(renderer).wf() == old(renderer).wf(),
            final(self)@ == old(self)@.with_textures(textures@, old(renderer)@.next_handle),
            final(renderer)@ == old(renderer)@.issue(
                seq![
                    bind_command(final(self)@.bindgroup),
                    GpuCommandView::DestroyBindGroup { group: old(self)@.bindgroup.group },
                ],
                1,
            ),
    {
        let mut res = bind_uniforms(&self.uniform_buffers);
        bind_textures(&mut res, &textures);
        let replaced = self.bindgroup.handle();
        let ghost start = renderer@;
        self.bindgroup = BindGroup::new_from_layout(renderer, res, &self.bindgroup.cat_layout());
        renderer.record(GpuCommand::DestroyBindGroup { group: replaced });
        proof {
            let first = bind_command(self@.bindgroup);
            let second = GpuCommandView::DestroyBindGroup { group: replaced };
            lemma_issue_twice(start, seq![first], 1, seq![second], 0);
            assert(seq![first] + seq![second] =~= seq![first, second]);
        }
    }

    /// Makes the material's pipeline the pipeline of the pass and binds the
    /// material's bind group at `slot`.
    pub fn use_me(&self, render: &mut Render, slot: u32)
        requires
            old(render).wf(),
            self@.pipeline.0 < old(render)@.renderer.pipelines.len(),
        ensures
            final(render).wf(),
            final(render)@ == old(render)@.with_renderer(
                RendererView {
                    pipelines: resolved(
                        old(render)@.renderer.pipelines,
                        self@.pipeline,
                        old(render)@.format,
                    ),
                    commands: old(render)@.renderer.commands + resolve_commands(
                        old(render)@.renderer.pipelines,
                        self@.pipeline,
                        old(render)@.format,
                    ),
                    ..old(render)@.renderer
                },
            ).recorded(
                PassCommandView::SetPipeline {
                    pipeline: RenderPipeline {
                        pipeline: self@.pipeline,
                        format: old(render)@.format,
                    },
                },
            ).recorded(
                PassCommandView::SetBindGroup {
                    index: slot,
                    group: self@.bindgroup.group,
                    offsets: Seq::empty(),
                },
            ),
    {
        render.set_pipeline(self.pipeline);
        let offsets: Vec<u32> = Vec::new();
        render.set_bind_group(slot, &self.bindgroup, offsets.as_slice());
    }

    /// Whether the material has a uniform at `slot`.
    pub fn has_uniform(&self, slot: u32) -> (r: bool)
        requires
            self.wf(),
        ensures
            r == has_slot(self@.uniforms, slot),
    {
        self.find_slot(slot).is_some()
    }

    /// The pipeline of the material.
    pub fn pipeline(&self) -> (pipeline: PipelineId)
        ensures
            pipeline == self@.pipeline,
    {
        self.pipeline
    }

    /// The bind group of the material.
    pub fn bindgroup(&self) -> (group: &BindGroup)
        ensures
            group@ == self@.bindgroup,
    {
        &self.bindgroup
    }
}

/// The usages of the vertex buffer of a mesh: vertices that can be written
/// anew.
pub open spec fn vertex_usage() -> BufferUsages {
    BufferUsages { bits: 40 }
}

/// The usages of the index buffer of a mesh: indices that can be written
/// anew.
pub open spec fn index_usage() -> BufferUsages {
    BufferUsages { bits: 24 }
}

/// What a [`Mesh`] holds.
pub struct MeshView<V> {
    pub vertices: Seq<V>,
    pub indicies: Seq<u16>,
    /// The buffer of the vertices, once it was made.
    pub buffer: Option<BufferView>,
    /// The buffer of the indices, once it was made.
    pub index_buffer: Option<BufferView>,
    /// Whether the vertices changed since they were last uploaded.
    pub is_need_update_buf: bool,
    /// Whether the indices changed since they were last uploaded.
    pub is_need_update_index_buf: bool,
}

/// Whether `after` is the buffer that a list of `elements` elements of
/// `size` bytes each has once it is in step with its list. A buffer that
/// was not there is allocated under `handle` and holds the list. A buffer
/// that was there holds the list anew where the list changed, and is as it
/// was where it did not.
pub open spec fn in_step(
    before: Option<BufferView>,
    dirty: bool,
    handle: u64,
    usage: BufferUsages,
    elements: nat,
    size: nat,
    after: BufferView,
) -> bool {
    match before {
        None => {
            &&& after.handle == handle
            &&& after.usage == usage
            &&& after.capacity == elements * size
            &&& after.count == elements as u32
            &&& after.contents.len() == elements * size
        },
        Some(buffer) => if dirty {
            &&& after.handle == buffer.handle
            &&& after.usage == buffer.usage
            &&& after.capacity == buffer.capacity
            &&& after.count == elements as u32
            &&& after.contents.len() == elements * size
        } else {
            after == buffer
        },
    }
}

/// The commands that bring a buffer in step with its list: the allocation
/// where the buffer was not there, one write where the list changed, and
/// nothing otherwise.
pub open spec fn step_commands(before: Option<BufferView>, dirty: bool, after: BufferView) -> Seq<
    GpuCommandView,
> {
    match before {
        None => seq![create_command(after)],
        Some(buffer) => if dirty {
            update_commands(buffer, after.contents)
        } else {
            Seq::empty()
        },
    }
}

/// The number of handles that bringing a buffer in step allocates.
pub open spec fn step_handles(before: Option<BufferView>) -> nat {
    if before is None {
        1
    } else {
        0
    }
}

/// The device context after the mesh `before` was brought in step on
/// `renderer` and is now `after`: what brings the vertex buffer in step is
/// recorded, and then what brings the index buffer in step.
pub open spec fn step_renderer<V>(before: MeshView<V>, renderer: RendererView, after: MeshView<V>)
    -> RendererView {
    renderer.issue(
        step_commands(before.buffer, before.is_need_update_buf, after.buffer->0) + step_commands(
            before.index_buffer,
            before.is_need_update_index_buf,
            after.index_buffer->0,
        ),
        step_handles(before.buffer) + step_handles(before.index_buffer),
    )
}

/// Whether bringing the mesh `before` in step, on the device context
/// `renderer`, leaves the mesh `after` and the device context
/// `renderer_after`, where one vertex takes `size` bytes.
pub open spec fn brought_in_step<V>(
    before: MeshView<V>,
    renderer: RendererView,
    size: nat,
    after: MeshView<V>,
    renderer_after: RendererView,
) -> bool {
    &&& after.wf()
    &&& after.synced()
    &&& after.vertices == before.vertices
    &&& after.indicies == before.indicies
    &&& in_step(
        before.buffer,
        before.is_need_update_buf,
        renderer.next_handle,
        vertex_usage(),
        before.vertices.len(),
        size,
        after.buffer->0,
    )
    &&& in_step(
        before.index_buffer,
        before.is_need_update_index_buf,
        handle_after(renderer.next_handle, step_handles(before.buffer)),
        index_usage(),
        before.indicies.len(),
        2,
        after.index_buffer->0,
    )
    &&& renderer_after == step_renderer(before, renderer, after)
}

/// The pass `pass` after a mesh was drawn in it with a material, once the
/// mesh was brought in step and left the device context `renderer`: the
/// material's pipeline is resolved for the format of the pass, and the pass
/// has five more commands, which set the pipeline, bind the material's
/// bind group at `slot`, set the whole vertex buffer at slot zero, set the
/// whole index buffer, and draw every index of the list once.
pub open spec fn mesh_drawn<V>(
    pass: RenderView,
    renderer: RendererView,
    material: MaterialView,
    slot: u32,
    mesh: MeshView<V>,
) -> RenderView {
    RenderView {
        renderer: RendererView {
            pipelines: resolved(renderer.pipelines, material.pipeline, pass.format),
            commands: renderer.commands + resolve_commands(
                renderer.pipelines,
                material.pipeline,
                pass.format,
            ),
            ..renderer
        },
        pass: pass.pass + seq![
            PassCommandView::SetPipeline {
                pipeline: RenderPipeline { pipeline: material.pipeline, format: pass.format },
            },
            PassCommandView::SetBindGroup {
                index: slot,
                group: material.bindgroup.group,
                offsets: Seq::empty(),
            },
            PassCommandView::SetVertexBuffer {
                slot: 0,
                buffer: mesh.buffer->0.handle,
                slice: BufferSlice { start: 0, end: None },
            },
            PassCommandView::SetIndexBuffer {
                buffer: mesh.index_buffer->0.handle,
                format: IndexFormat::Uint16,
                slice: BufferSlice { start: 0, end: None },
            },
            PassCommandView::DrawIndexed {
                first_index: 0,
                end_index: mesh.indicies.len() as u32,
                base_vertex: 0,
                first_instance: 0,
                end_instance: 1,
            },
        ],
        ..pass
    }
}

impl<V> MeshView<V> {
    /// The invariant of a mesh: its buffers, once made, are a vertex buffer
    /// and an index buffer that can be written anew; each list fits its
    /// buffer; and a buffer whose list did not change since it was uploaded
    /// counts as many elements as its list holds.
    pub open spec fn wf(self) -> bool {
        &&& self.buffer matches Some(b) ==> {
            &&& b.usage == vertex_usage()
            &&& self.vertices.len() * size_of::<V>() <= b.capacity
            &&& !self.is_need_update_buf ==> b.count == self.vertices.len() as u32
        }
        &&& self.index_buffer matches Some(b) ==> {
            &&& b.usage == index_usage()
            &&& self.indicies.len() * 2 <= b.capacity
            &&& !self.is_need_update_index_buf ==> b.count == self.indicies.len() as u32
        }
    }

    /// Whether the mesh takes a list of `count` vertices: whether the list
    /// fits the vertex buffer, once that is made. A buffer does not grow.
    pub open spec fn takes_vertices(self, count: nat) -> bool {
        self.buffer matches Some(b) ==> count * size_of::<V>() <= b.capacity
    }

    /// Whether the mesh takes a list of `count` indices: whether the list
    /// fits the index buffer, once that is made.
    pub open spec fn takes_indicies(self, count: nat) -> bool {
        self.index_buffer matches Some(b) ==> count * 2 <= b.capacity
    }

    /// Whether the buffers are in step with the lists: both are made, and
    /// neither list changed since it was uploaded.
    pub open spec fn synced(self) -> bool {
        &&& self.buffer is Some
        &&& self.index_buffer is Some
        &&& !self.is_need_update_buf
        &&& !self.is_need_update_index_buf
    }
}

/// A list of vertices and a list of indices with their two buffers. The
/// buffers are made when the mesh is first brought in step, and written
/// anew when a list has changed.
pub struct Mesh<V> {
    vertices: Vec<V>,
    buffer: Option<Buffer<V>>,
    indicies: Vec<u16>,
    index_buffer: Option<Buffer<u16>>,
    is_need_update_buf: bool,
    is_need_update_index_buf: bool,
}

impl<V> View for Mesh<V> {
    type V = MeshView<V>;

    closed spec fn view(&self) -> MeshView<V> {
        MeshView {
            vertices: self.vertices@,
            indicies: self.indicies@,
            buffer: match self.buffer {
                Some(b) => Some(b@),
                None => None,
            },
            index_buffer: match self.index_buffer {
                Some(b) => Some(b@),
                None => None,
            },
            is_need_update_buf: self.is_need_update_buf,
            is_need_update_index_buf: self.is_need_update_index_buf,
        }
    }
}

impl<V: Pod + Zeroable> Mesh<V> {
    /// A mesh of the given lists. Its buffers are not made yet.
    pub fn new(vertices: Vec<V>, indicies: Vec<u16>) -> (mesh: Self)
        ensures
            mesh@.wf(),
            mesh@ == (MeshView {
                vertices: vertices@,
                indicies: indicies@,
                buffer: None,
                index_buffer: None,
                is_need_update_buf: false,
                is_need_update_index_buf: false,
            }),
    {
        Self {
            vertices,
            indicies,
            buffer: None,
            index_buffer: None,
            is_need_update_buf: false,
            is_need_update_index_buf: false,
        }
    }

    /// Replaces the vertices, where the new list fits the vertex buffer or
    /// that buffer is not made yet; a list that does not fit is refused,
    /// and the mesh stays as it is. The vertices are uploaded when the mesh
    /// is next brought in step. Returns whether the list was taken.
    pub fn set_vertices(&mut self, vertices: Vec<V>) -> (taken: bool)
        requires
            old(self)@.wf(),
        ensures
            final(self)@.wf(),
            taken == old(self)@.takes_vertices(vertices@.len()),
            final(self)@ == if taken {
                MeshView { vertices: vertices@, is_need_update_buf: true, ..old(self)@ }
            } else {
                old(self)@
            },
    {
        let taken = match &self.buffer {
            Some(buffer) => fits(vertices.len(), core::mem::size_of::<V>(), buffer.capacity()),
            None => true,
        };
        if taken {
            self.vertices = vertices;
            self.is_need_update_buf = true;
        }
        taken
    }

    /// Replaces the indices, where the new list fits the index buffer or
    /// that buffer is not made yet; a list that does not fit is refused,
    /// and the mesh stays as it is. The indices are uploaded when the mesh
    /// is next brought in step. Returns whether the list was taken.
    pub fn set_indicies(&mut self, indicies: Vec<u16>) -> (taken: bool)
        requires
            old(self)@.wf(),
        ensures
            final(self)@.wf(),
            taken == old(self)@.takes_indicies(indicies@.len()),
            final(self)@ == if taken {
                MeshView { indicies: indicies@, is_need_update_index_buf: true, ..old(self)@ }
            } else {
                old(self)@
            },
    {
        let taken = match &self.index_buffer {
            Some(buffer) => fits(indicies.len(), 2, buffer.capacity()),
            None => true,
        };
        if taken {
            self.indicies = indicies;
            self.is_need_update_index_buf = true;
        }
        taken
    }

    /// Brings the buffers in step with the lists. A buffer is made when
    /// this is first called, and from then on only written anew, and only where its list changed. A mesh that is
    /// in step records nothing and stays as it is.
    pub fn update_if_need(&mut self, renderer: &mut Renderer)
        requires
            old(self)@.wf(),
        ensures
            final(renderer).wf() == old(renderer).wf(),
            brought_in_step(
                old(self)@,
                old(renderer)@,
                size_of::<V>(),
                final(self)@,
                final(renderer)@,
            ),
            old(self)@.synced() ==> final(self)@ == old(self)@ && final(renderer)@ == old(
                renderer,
            )@,
    {
        let ghost start = renderer@;
        proof {
            broadcast use vstd::layout::layout_of_primitives;
            assert(USAGE_VERTEX | USAGE_COPY_DST == 40) by (bit_vector);
            assert(USAGE_INDEX | USAGE_COPY_DST == 24) by (bit_vector);
            assert(40u32 & USAGE_COPY_DST == USAGE_COPY_DST) by (bit_vector);
            assert(24u32 & USAGE_COPY_DST == USAGE_COPY_DST) by (bit_vector);
            lemma_issue_nothing(start);
        }
        match &mut self.buffer {
            None => {
                self.buffer = Some(
                    Buffer::from_elements(
                        renderer,
                        &self.vertices,
                        BufferUsages { bits: USAGE_VERTEX | USAGE_COPY_DST },
                    ),
                );
            },
            Some(buffer) => {
                if self.is_need_update_buf {
                    buffer.update_from(renderer, &self.vertices);
                }
            },
        }
        self.is_need_update_buf = false;
        let ghost middle = renderer@;
        let ghost first = step_commands(
            old(self)@.buffer,
            old(self)@.is_need_update_buf,
            self@.buffer->0,
        );
        assert(middle == start.issue(first, step_handles(old(self)@.buffer)));
        proof {
            lemma_issue_nothing(middle);
        }
        match &mut self.index_buffer {
            None => {
                self.index_buffer = Some(
                    Buffer::from_elements(
                        renderer,
                        &self.indicies,
                        BufferUsages { bits: USAGE_INDEX | USAGE_COPY_DST },
                    ),
                );
            },
            Some(buffer) => {
                if self.is_need_update_index_buf {
                    buffer.update_from(renderer, &self.indicies);
                }
            },
        }
        self.is_need_update_index_buf = false;
        proof {
            let second = step_commands(
                old(self)@.index_buffer,
                old(self)@.is_need_update_index_buf,
                self@.index_buffer->0,
            );
            lemma_issue_twice(
                start,
                first,
                step_handles(old(self)@.buffer),
                second,
                step_handles(old(self)@.index_buffer),
            );
            if old(self)@.synced() {
                assert(first + second =~= Seq::<GpuCommandView>::empty());
                assert(self@ == old(self)@);
            }
        }
    }

    /// Brings the buffers in step with the lists while a pass is open, as
    /// [`Mesh::update_if_need`] says, on the device context that the pass
    /// holds. The pass goes on as it was.
    pub fn update_in_pass(&mut self, render: &mut Render)
        requires
            old(self)@.wf(),
        ensures
            final(render).wf() == old(render).wf(),
            brought_in_step(
                old(self)@,
                old(render)@.renderer,
                size_of::<V>(),
                final(self)@,
                final(render)@.renderer,
            ),
            final(render)@ == old(render)@.with_renderer(final(render)@.renderer),
            final(render)@.continues(old(render)@),
    {
        let ghost start = render@;
        let ghost mesh = self@;
        self.update_if_need(render.renderer_mut());
        proof {
            let first = step_commands(mesh.buffer, mesh.is_need_update_buf, self@.buffer->0);
            let second = step_commands(
                mesh.index_buffer,
                mesh.is_need_update_index_buf,
                self@.index_buffer->0,
            );
            assert forall|i: int| 0 <= i < (first + second).len() implies !crate::render::is_frame_command(
                #[trigger] (first + second)[i],
            ) by {
                if i < first.len() {
                    assert((first + second)[i] == first[i]);
                } else {
                    assert((first + second)[i] == second[i - first.len()]);
                }
            }
            lemma_issue_follows(
                start.renderer,
                first + second,
                step_handles(mesh.buffer) + step_handles(mesh.index_buffer),
            );
        }
    }

    /// Draws the mesh: brings it in step, as [`Mesh::update_if_need`]
    /// says, makes the material's pipeline and bind group those of the
    /// pass, sets the two buffers whole, and draws all indices of the list
    /// once.
    pub fn draw_with_material(
        &mut self,
        render: &mut Render,
        material: &Material,
        material_slot: u32,
    )
        requires
            old(self)@.wf(),
            old(render).wf(),
            material@.pipeline.0 < old(render)@.renderer.pipelines.len(),
        ensures
            final(render).wf(),
            brought_in_step(
                old(self)@,
                old(render)@.renderer,
                size_of::<V>(),
                final(self)@,
                step_renderer(old(self)@, old(render)@.renderer, final(self)@),
            ),
            final(render)@ == mesh_drawn(
                old(render)@,
                step_renderer(old(self)@, old(render)@.renderer, final(self)@),
                material@,
                material_slot,
                final(self)@,
            ),
            final(render)@.continues(old(render)@),
    {
        let ghost start = render@;
        self.update_in_pass(render);
        let ghost synced = render@;
        material.use_me(render, material_slot);
        proof {
            lemma_resolve_follows(synced.renderer, material@.pipeline, synced.format);
            lemma_follows_chain(start.renderer, synced.renderer, render@.renderer);
            assert(40u32 & USAGE_VERTEX == USAGE_VERTEX) by (bit_vector);
            assert(24u32 & USAGE_INDEX == USAGE_INDEX) by (bit_vector);
        }
        match (&self.buffer, &self.index_buffer) {
            (Some(buffer), Some(index_buffer)) => {
                render.set_vertex_buffer(buffer, 0, BufferSlice::full());
                render.set_index_buffer(index_buffer, BufferSlice::full());
                render.draw_indexed(0..index_buffer.get_vertices_number(), 0, 0..1);
            },
            _ => {
                proof {
                    assert(false);
                }
            },
        }
        assert(render@.pass =~= start.pass + seq![
            PassCommandView::SetPipeline {
                pipeline: RenderPipeline { pipeline: material@.pipeline, format: start.format },
            },
            PassCommandView::SetBindGroup {
                index: material_slot,
                group: material@.bindgroup.group,
                offsets: Seq::empty(),
            },
            PassCommandView::SetVertexBuffer {
                slot: 0,
                buffer: self@.buffer->0.handle,
                slice: BufferSlice { start: 0, end: None },
            },
            PassCommandView::SetIndexBuffer {
                buffer: self@.index_buffer->0.handle,
                format: IndexFormat::Uint16,
                slice: BufferSlice { start: 0, end: None },
            },
            PassCommandView::DrawIndexed {
                first_index: 0,
                end_index: self@.index_buffer->0.count,
                base_vertex: 0,
                first_instance: 0,
                end_instance: 1,
            },
        ]);
    }
}

} // verus!
