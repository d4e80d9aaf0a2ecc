//! Bind group layouts and bind groups.

use vstd::prelude::*;
use crate::render::command::{handle_after, GpuCommand, GpuCommandView};
use crate::render::{lemma_issue_twice, Renderer};

verus! {

/// The bit of [`ShaderStages`] for the vertex stage.
pub const STAGE_VERTEX: u32 = 1;

/// The bit of [`ShaderStages`] for the fragment stage.
pub const STAGE_FRAGMENT: u32 = 2;

/// The bit of [`ShaderStages`] for the compute stage.
pub const STAGE_COMPUTE: u32 = 4;

/// The bits of [`ShaderStages`] for the vertex and the fragment stage.
pub const STAGE_VERTEX_FRAGMENT: u32 = 3;

/// The shader stages that can see a binding, combinable bit by bit.
#[derive(Clone, Copy, PartialEq, Eq, Structural, Hash, Debug)]
pub struct ShaderStages {
    pub bits: u32,
}

impl ShaderStages {
    pub fn from_bits(bits: u32) -> (s: Self)
        ensures
            s.bits == bits,
    {
        ShaderStages { bits }
    }

    pub fn none() -> (s: Self)
        ensures
            s.bits == 0,
    {
        ShaderStages { bits: 0 }
    }

    pub fn vertex() -> (s: Self)
        ensures
            s.bits == STAGE_VERTEX,
    {
        ShaderStages { bits: STAGE_VERTEX }
    }

    pub fn fragment() -> (s: Self)
        ensures
            s.bits == STAGE_FRAGMENT,
    {
        ShaderStages { bits: STAGE_FRAGMENT }
    }

    pub fn compute() -> (s: Self)
        ensures
            s.bits == STAGE_COMPUTE,
    {
        ShaderStages { bits: STAGE_COMPUTE }
    }

    pub fn vertex_fragment() -> (s: Self)
        ensures
            s.bits == STAGE_VERTEX_FRAGMENT,
    {
        ShaderStages { bits: STAGE_VERTEX_FRAGMENT }
    }
}

/// How a bound buffer is read.
#[derive(Clone, Copy, PartialEq, Eq, Structural, Hash, Debug)]
pub enum BufferBindingType {
    Uniform,
    Storage { read_only: bool },
}

/// How a bound sampler samples.
#[derive(Clone, Copy, PartialEq, Eq, Structural, Hash, Debug)]
pub enum SamplerBindingType {
    Filtering,
    NonFiltering,
    Comparison,
}

/// What a sample of a bound texture yields.
#[derive(Clone, Copy, PartialEq, Eq, Structural, Hash, Debug)]
pub enum TextureSampleType {
    Float { filterable: bool },
    Depth,
    Sint,
    Uint,
}

/// The dimensions of a texture view.
#[derive(Clone, Copy, PartialEq, Eq, Structural, Hash, Debug)]
pub enum TextureViewDimension {
    D1,
    D2,
    D2Array,
    Cube,
    CubeArray,
    D3,
}

/// The kind of resource that a slot of a layout takes.
#[derive(Clone, Copy, PartialEq, Eq, Structural, Hash, Debug)]
pub enum BindingType {
    Buffer { ty: BufferBindingType, has_dynamic_offset: bool, min_binding_size: Option<u64> },
    Sampler(SamplerBindingType),
    Texture {
        sample_type: TextureSampleType,
        view_dimension: TextureViewDimension,
        multisampled: bool,
    },
}

/// One slot of a layout: its number, who sees it, and what it takes.
#[derive(Clone, Copy, PartialEq, Eq, Structural, Hash, Debug)]
pub struct BindGroupEntryLayout {
    pub binding: u32,
    pub visibility: ShaderStages,
    pub ty: BindingType,
}

/// A concrete resource, named by the handle of the device object.
#[derive(Clone, Copy, PartialEq, Eq, Structural, Hash, Debug)]
pub enum BindingResource {
    Buffer(u64),
    TextureView(u64),
    Sampler(u64),
}

/// A resource bound to one slot.
#[derive(Clone, Copy, PartialEq, Eq, Structural, Hash, Debug)]
pub struct BindGroupEntryResources {
    pub binding: u32,
    pub resource: BindingResource,
}

/// A compiled bind group layout, named by the handle of the device object.
/// It is compiled once and never changes; bind groups and pipelines share it
/// by its handle.
#[derive(Clone, Copy, Debug)]
pub struct BindGroupLayout {
    layout: u64,
}

impl View for BindGroupLayout {
    type V = u64;

    closed spec fn view(&self) -> u64 {
        self.layout
    }
}

/// What a bind group holds: the handle of the device object, the handle of
/// the layout it was built against, and the resources bound to the slots.
pub struct BindGroupView {
    pub group: u64,
    pub layout: u64,
    pub resources: Seq<BindGroupEntryResources>,
}

/// Resources bound to the slots of a layout.
#[derive(Clone, Copy)]
pub struct BindGroup {
    group: u64,
    layout: u64,
    resources: Ghost<Seq<BindGroupEntryResources>>,
}

impl View for BindGroup {
    type V = BindGroupView;

    closed spec fn view(&self) -> BindGroupView {
        BindGroupView { group: self.group, layout: self.layout, resources: self.resources@ }
    }
}

/// The command that builds `group`.
pub open spec fn bind_command(group: BindGroupView) -> GpuCommandView {
    GpuCommandView::CreateBindGroup {
        group: group.group,
        layout: group.layout,
        resources: group.resources,
    }
}

impl BindGroupLayout {
    /// Compiles the layout with the slots `entries`, in their order.
    pub fn new(renderer: &mut Renderer, entries: Vec<BindGroupEntryLayout>) -> (layout: Self)
        ensures
            final(renderer).wf() == old(renderer).wf(),
            layout@ == old(renderer)@.next_handle,
            final(renderer)@ == old(renderer)@.issue(
                seq![GpuCommandView::CreateBindGroupLayout { layout: layout@, entries: entries@ }],
                1,
            ),
    {
        let handle = renderer.allocate_handle();
        let ghost command = GpuCommandView::CreateBindGroupLayout {
            layout: handle,
            entries: entries@,
        };
        renderer.record(GpuCommand::CreateBindGroupLayout { layout: handle, entries });
        proof {
            lemma_issue_twice(old(renderer)@, Seq::empty(), 1, seq![command], 0);
            assert(Seq::<GpuCommandView>::empty() + seq![command] =~= seq![command]);
        }
        BindGroupLayout { layout: handle }
    }

    /// The handle of the compiled layout.
    pub fn layout(&self) -> (handle: u64)
        ensures
            handle == self@,
    {
        self.layout
    }
}

impl BindGroup {
    /// Binds `resources` to the slots of `layout`.
    pub fn new_from_layout(
        renderer: &mut Renderer,
        resources: Vec<BindGroupEntryResources>,
        layout: &BindGroupLayout,
    ) -> (group: Self)
        ensures
            final(renderer).wf() == old(renderer).wf(),
            group@ == (BindGroupView {
                group: old(renderer)@.next_handle,
                layout: layout@,
                resources: resources@,
            }),
            final(renderer)@ == old(renderer)@.issue(seq![bind_command(group@)], 1),
    {
        let handle = renderer.allocate_handle();
        let ghost bound = resources@;
        let ghost command = GpuCommandView::CreateBindGroup {
            group: handle,
            layout: layout@,
            resources: bound,
        };
        renderer.record(
            GpuCommand::CreateBindGroup { group: handle, layout: layout.layout, resources },
        );
        proof {
            lemma_issue_twice(old(renderer)@, Seq::empty(), 1, seq![command], 0);
            assert(Seq::<GpuCommandView>::empty() + seq![command] =~= seq![command]);
        }
        BindGroup { group: handle, layout: layout.layout, resources: Ghost(bound) }
    }

    /// Binds new resources to the slots of the layout that this bind group
    /// was built against. The layout stays as it is; the bind group that
    /// comes back replaces this one.
    pub fn cloned_with_new_info(
        &self,
        renderer: &mut Renderer,
        resources: Vec<BindGroupEntryResources>,
    ) -> (group: Self)
        ensures
            final(renderer).wf() == old(renderer).wf(),
            group@ == (BindGroupView {
                group: old(renderer)@.next_handle,
                layout: self@.layout,
                resources: resources@,
            }),
            final(renderer)@ == old(renderer)@.issue(seq![bind_command(group@)], 1),
    {
        BindGroup::new_from_layout(renderer, resources, &BindGroupLayout { layout: self.layout })
    }

    /// Compiles a layout with the slots `layout` and binds `resources` to
    /// them.
    pub fn new(
        renderer: &mut Renderer,
        layout: Vec<BindGroupEntryLayout>,
        resources: Vec<BindGroupEntryResources>,
    ) -> (group: Self)
        ensures
            final(renderer).wf() == old(renderer).wf(),
            group@ == (BindGroupView {
                group: handle_after(old(renderer)@.next_handle, 1),
                layout: old(renderer)@.next_handle,
                resources: resources@,
            }),
            final(renderer)@ == old(renderer)@.issue(
                seq![
                    GpuCommandView::CreateBindGroupLayout {
                        layout: old(renderer)@.next_handle,
                        entries: layout@,
                    },
                    bind_command(group@),
                ],
                2,
            ),
    {
        let ghost first = GpuCommandView::CreateBindGroupLayout {
            layout: old(renderer)@.next_handle,
            entries: layout@,
        };
        let compiled = BindGroupLayout::new(renderer, layout);
        let group = BindGroup::new_from_layout(renderer, resources, &compiled);
        proof {
            lemma_issue_twice(old(renderer)@, seq![first], 1, seq![bind_command(group@)], 1);
            assert(seq![first] + seq![bind_command(group@)] =~= seq![first, bind_command(group@)]);
        }
        group
    }

    /// The handle of the layout that the bind group was built against.
    pub fn layout(&self) -> (handle: u64)
        ensures
            handle == self@.layout,
    {
        self.layout
    }

    /// The layout that the bind group was built against.
    pub fn cat_layout(&self) -> (layout: BindGroupLayout)
        ensures
            layout@ == self@.layout,
    {
        BindGroupLayout { layout: self.layout }
    }

    /// The handle of the bind group.
    pub fn handle(&self) -> (handle: u64)
        ensures
            handle == self@.group,
    {
        self.group
    }
}

} // verus!
