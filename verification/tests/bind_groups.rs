use cat_render::render::bind_group::{
    BindGroup, BindGroupEntryLayout, BindGroupEntryResources, BindGroupLayout, BindingResource,
    BindingType, BufferBindingType, SamplerBindingType, ShaderStages,
};
use cat_render::render::command::GpuCommand;
use cat_render::render::Renderer;

fn uniform_entry(binding: u32) -> BindGroupEntryLayout {
    BindGroupEntryLayout {
        binding,
        visibility: ShaderStages::vertex(),
        ty: BindingType::Buffer {
            ty: BufferBindingType::Uniform,
            has_dynamic_offset: false,
            min_binding_size: None,
        },
    }
}

fn sampler_entry(binding: u32) -> BindGroupEntryLayout {
    BindGroupEntryLayout {
        binding,
        visibility: ShaderStages::fragment(),
        ty: BindingType::Sampler(SamplerBindingType::Filtering),
    }
}

#[test]
fn shader_stages_have_the_device_values() {
    assert_eq!(ShaderStages::none().bits, 0);
    assert_eq!(ShaderStages::vertex().bits, 1);
    assert_eq!(ShaderStages::fragment().bits, 2);
    assert_eq!(ShaderStages::compute().bits, 4);
    assert_eq!(ShaderStages::vertex_fragment().bits, 3);
    assert_eq!(ShaderStages::from_bits(6).bits, 6);
}

#[test]
fn a_layout_is_compiled_of_its_entries_in_their_order() {
    let mut renderer = Renderer::new();
    let entries = vec![uniform_entry(2), sampler_entry(0)];
    let layout = BindGroupLayout::new(&mut renderer, entries.clone());
    assert_eq!(layout.layout(), 0);
    assert_eq!(
        renderer.commands().as_slice(),
        &[GpuCommand::CreateBindGroupLayout { layout: 0, entries }]
    );
}

#[test]
fn a_bind_group_binds_its_resources_against_the_layout() {
    let mut renderer = Renderer::new();
    let layout = BindGroupLayout::new(&mut renderer, vec![uniform_entry(0)]);
    let resources =
        vec![BindGroupEntryResources { binding: 0, resource: BindingResource::Buffer(42) }];
    let group = BindGroup::new_from_layout(&mut renderer, resources.clone(), &layout);
    assert_eq!(group.handle(), 1);
    assert_eq!(group.layout(), layout.layout());
    assert_eq!(group.cat_layout().layout(), layout.layout());
    assert_eq!(
        renderer.commands()[1],
        GpuCommand::CreateBindGroup { group: 1, layout: 0, resources }
    );
}

#[test]
fn a_layout_is_shared_by_the_groups_made_from_it() {
    let mut renderer = Renderer::new();
    let layout = BindGroupLayout::new(&mut renderer, vec![uniform_entry(0)]);
    let a = BindGroup::new_from_layout(&mut renderer, vec![], &layout);
    let b = BindGroup::new_from_layout(&mut renderer, vec![], &layout);
    assert_eq!(a.layout(), b.layout());
    assert_ne!(a.handle(), b.handle());
    let layouts = renderer
        .commands()
        .iter()
        .filter(|c| matches!(c, GpuCommand::CreateBindGroupLayout { .. }))
        .count();
    assert_eq!(layouts, 1);
}

#[test]
fn rebinding_keeps_the_layout_and_makes_a_new_group() {
    let mut renderer = Renderer::new();
    let layout = BindGroupLayout::new(&mut renderer, vec![uniform_entry(0)]);
    let old = BindGroup::new_from_layout(
        &mut renderer,
        vec![BindGroupEntryResources { binding: 0, resource: BindingResource::Buffer(7) }],
        &layout,
    );
    renderer.take_commands();
    let resources =
        vec![BindGroupEntryResources { binding: 0, resource: BindingResource::Buffer(8) }];
    let new = old.cloned_with_new_info(&mut renderer, resources.clone());
    assert_eq!(new.layout(), old.layout());
    assert_eq!(new.handle(), 2);
    assert_eq!(
        renderer.commands().as_slice(),
        &[GpuCommand::CreateBindGroup { group: 2, layout: 0, resources }]
    );
}

#[test]
fn creating_a_bind_group_compiles_its_layout_first() {
    let mut renderer = Renderer::new();
    let entries = vec![sampler_entry(1)];
    let resources =
        vec![BindGroupEntryResources { binding: 1, resource: BindingResource::Sampler(5) }];
    let group = renderer.create_bind_group(entries.clone(), resources.clone());
    assert_eq!(group.layout(), 0);
    assert_eq!(group.handle(), 1);
    assert_eq!(
        renderer.commands().as_slice(),
        &[
            GpuCommand::CreateBindGroupLayout { layout: 0, entries },
            GpuCommand::CreateBindGroup { group: 1, layout: 0, resources },
        ]
    );
    let same = BindGroup::new(&mut renderer, vec![], vec![]);
    assert_eq!((same.layout(), same.handle()), (2, 3));
}
