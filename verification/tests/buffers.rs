use cat_render::render::bind_group::BindingResource;
use cat_render::render::buffer::{
    fits, flatten, Buffer, BufferUsages, UnTypedBuffer, USAGE_COPY_DST, USAGE_INDEX, USAGE_UNIFORM,
    USAGE_VERTEX,
};
use cat_render::render::command::GpuCommand;
use cat_render::render::Renderer;

fn bytes_of_u16(values: &[u16]) -> Vec<u8> {
    values.iter().flat_map(|v| v.to_ne_bytes()).collect()
}

fn bytes_of_f32x3(values: &[[f32; 3]]) -> Vec<u8> {
    values.iter().flat_map(|v| v.iter().flat_map(|x| x.to_ne_bytes())).collect()
}

#[test]
fn usage_flags_have_the_device_values() {
    assert_eq!(BufferUsages::vertex().bits, 32);
    assert_eq!(BufferUsages::index().bits, 16);
    assert_eq!(BufferUsages::uniform().bits, 64);
    assert_eq!(BufferUsages::copy_dst().bits, 8);
    assert_eq!(BufferUsages::empty().bits, 0);
    assert_eq!(BufferUsages::from_bits(5).bits, 5);
    assert_eq!((USAGE_VERTEX, USAGE_INDEX, USAGE_UNIFORM, USAGE_COPY_DST), (32, 16, 64, 8));
}

#[test]
fn usages_combine_bit_by_bit() {
    let both = BufferUsages::vertex().union(BufferUsages::copy_dst());
    assert_eq!(both.bits, 40);
    assert!(both.contains(BufferUsages::vertex()));
    assert!(both.contains(BufferUsages::copy_dst()));
    assert!(both.contains(both));
    assert!(!both.contains(BufferUsages::index()));
    assert!(!BufferUsages::vertex().contains(both));
    assert!(both.contains(BufferUsages::empty()));
}

#[test]
fn a_new_buffer_holds_the_bytes_of_its_elements() {
    let mut renderer = Renderer::new();
    let buffer: Buffer<u16> = Buffer::new(&mut renderer, vec![1, 2, 0x0304], BufferUsages::index());
    assert_eq!(buffer.get_vertices_number(), 3);
    assert_eq!(buffer.capacity(), 6);
    assert_eq!(buffer.handle(), 0);
    assert_eq!(buffer.usage(), BufferUsages::index());
    assert_eq!(
        renderer.commands().as_slice(),
        &[GpuCommand::CreateBuffer {
            buffer: 0,
            contents: bytes_of_u16(&[1, 2, 0x0304]),
            usage: BufferUsages::index(),
        }]
    );
}

#[test]
fn a_buffer_of_wider_elements_holds_every_byte_of_them() {
    let mut renderer = Renderer::new();
    let vertices = vec![[0.0f32, 1.0, 2.0], [-1.5, 0.25, 8.0]];
    let buffer = renderer.create_buffer(vertices.clone(), BufferUsages::vertex());
    assert_eq!(buffer.get_vertices_number(), 2);
    assert_eq!(buffer.capacity(), 24);
    match &renderer.commands()[0] {
        GpuCommand::CreateBuffer { contents, .. } => {
            assert_eq!(contents, &bytes_of_f32x3(&vertices));
            assert_eq!(contents.len(), 24);
        }
        other => panic!("unexpected command {:?}", other),
    }
}

#[test]
fn an_empty_buffer_has_no_elements_and_no_bytes() {
    let mut renderer = Renderer::new();
    let buffer: Buffer<u32> = Buffer::new(&mut renderer, vec![], BufferUsages::vertex());
    assert_eq!(buffer.get_vertices_number(), 0);
    assert_eq!(buffer.capacity(), 0);
    assert_eq!(
        renderer.commands().as_slice(),
        &[GpuCommand::CreateBuffer { buffer: 0, contents: vec![], usage: BufferUsages::vertex() }]
    );
}

#[test]
fn buffers_get_handles_in_rising_order() {
    let mut renderer = Renderer::new();
    let a: Buffer<u16> = Buffer::new(&mut renderer, vec![1], BufferUsages::index());
    let b: Buffer<u16> = Buffer::new(&mut renderer, vec![2], BufferUsages::index());
    let c = UnTypedBuffer::new(&mut renderer, vec![vec![3]], BufferUsages::uniform());
    assert_eq!((a.handle(), b.handle(), c.handle()), (0, 1, 2));
}

#[test]
fn an_update_without_copy_destination_is_skipped() {
    let mut renderer = Renderer::new();
    let mut buffer: Buffer<u16> = Buffer::new(&mut renderer, vec![1, 2, 3], BufferUsages::vertex());
    renderer.take_commands();
    let written = buffer.update(&mut renderer, vec![9, 9, 9, 9, 9]);
    assert!(!written);
    assert_eq!(buffer.get_vertices_number(), 3);
    assert_eq!(buffer.capacity(), 6);
    assert!(renderer.commands().is_empty());
    let written = renderer.update_buffer(vec![], &mut buffer);
    assert!(!written);
    assert_eq!(buffer.get_vertices_number(), 3);
    assert!(renderer.commands().is_empty());
}

#[test]
fn an_update_with_copy_destination_writes_from_the_start() {
    let mut renderer = Renderer::new();
    let usage = BufferUsages::vertex().union(BufferUsages::copy_dst());
    let mut buffer: Buffer<u16> = Buffer::new(&mut renderer, vec![1, 2, 3], usage);
    renderer.take_commands();
    let written = buffer.update(&mut renderer, vec![7, 8]);
    assert!(written);
    assert_eq!(buffer.get_vertices_number(), 2);
    assert_eq!(buffer.capacity(), 6);
    assert_eq!(buffer.handle(), 0);
    assert_eq!(
        renderer.commands().as_slice(),
        &[GpuCommand::WriteBuffer { buffer: 0, offset: 0, contents: bytes_of_u16(&[7, 8]) }]
    );
}

#[test]
fn an_update_by_bytes_sets_the_count_that_is_given() {
    let mut renderer = Renderer::new();
    let mut buffer: Buffer<u8> =
        Buffer::from_bytes(&mut renderer, vec![1, 2, 3, 4], 2, BufferUsages::copy_dst());
    assert_eq!(buffer.get_vertices_number(), 2);
    assert!(buffer.update_bytes(&mut renderer, vec![5, 6], 1));
    assert_eq!(buffer.get_vertices_number(), 1);
    assert_eq!(
        renderer.commands()[1],
        GpuCommand::WriteBuffer { buffer: 0, offset: 0, contents: vec![5, 6] }
    );
}

#[test]
fn chunks_are_joined_in_their_order() {
    assert_eq!(flatten(&vec![]), Vec::<u8>::new());
    assert_eq!(flatten(&vec![vec![], vec![]]), Vec::<u8>::new());
    assert_eq!(flatten(&vec![vec![1, 2], vec![], vec![3], vec![4, 5, 6]]), vec![1, 2, 3, 4, 5, 6]);
}

#[test]
fn an_untyped_buffer_counts_its_elements_not_its_bytes() {
    let mut renderer = Renderer::new();
    let buffer = UnTypedBuffer::new(
        &mut renderer,
        vec![vec![1, 2, 3], vec![4, 5, 6]],
        BufferUsages::uniform(),
    );
    assert_eq!(buffer.get_vertices_number(), 2);
    assert_eq!(buffer.capacity(), 6);
    assert_eq!(
        renderer.commands().as_slice(),
        &[GpuCommand::CreateBuffer {
            buffer: 0,
            contents: vec![1, 2, 3, 4, 5, 6],
            usage: BufferUsages::uniform(),
        }]
    );
}

#[test]
fn an_untyped_update_follows_the_same_guard() {
    let mut renderer = Renderer::new();
    let mut fixed = UnTypedBuffer::new(&mut renderer, vec![vec![1, 1, 1]], BufferUsages::uniform());
    let mut open = UnTypedBuffer::new(
        &mut renderer,
        vec![vec![1, 1, 1]],
        BufferUsages::uniform().union(BufferUsages::copy_dst()),
    );
    renderer.take_commands();
    assert!(!fixed.update(&mut renderer, vec![vec![2], vec![3]]));
    assert_eq!(fixed.get_vertices_number(), 1);
    assert!(renderer.commands().is_empty());
    assert!(open.update(&mut renderer, vec![vec![2], vec![3, 4]]));
    assert_eq!(open.get_vertices_number(), 2);
    assert_eq!(
        renderer.commands().as_slice(),
        &[GpuCommand::WriteBuffer { buffer: 1, offset: 0, contents: vec![2, 3, 4] }]
    );
}

#[test]
fn a_whole_buffer_binds_by_its_handle() {
    let mut renderer = Renderer::new();
    let _first: Buffer<u16> = Buffer::new(&mut renderer, vec![1], BufferUsages::index());
    let typed: Buffer<u16> = Buffer::new(&mut renderer, vec![1], BufferUsages::uniform());
    let untyped = UnTypedBuffer::new(&mut renderer, vec![vec![1]], BufferUsages::uniform());
    assert_eq!(typed.as_entire_binding(), BindingResource::Buffer(1));
    assert_eq!(untyped.as_entire_binding(), BindingResource::Buffer(2));
}

#[test]
fn a_buffer_does_not_grow() {
    let mut renderer = Renderer::new();
    let usage = BufferUsages::vertex().union(BufferUsages::copy_dst());
    let mut buffer: Buffer<u16> = Buffer::new(&mut renderer, vec![1, 2], usage);
    assert!(buffer.can_hold(4));
    assert!(!buffer.can_hold(5));
    renderer.take_commands();
    assert!(!buffer.update(&mut renderer, vec![7, 8, 9]));
    assert_eq!(buffer.get_vertices_number(), 2);
    assert_eq!(buffer.capacity(), 4);
    assert!(renderer.commands().is_empty());
    assert!(!renderer.update_buffer(vec![0; 100], &mut buffer));
    assert!(renderer.commands().is_empty());
    assert!(buffer.update(&mut renderer, vec![7, 8]));
    assert!(buffer.update(&mut renderer, vec![]));
    assert_eq!(buffer.get_vertices_number(), 0);
    assert_eq!(buffer.capacity(), 4);
    assert!(buffer.update(&mut renderer, vec![5, 6]));
    assert_eq!(renderer.commands().len(), 3);
}

#[test]
fn an_update_by_bytes_must_fit_the_allocation() {
    let mut renderer = Renderer::new();
    let mut buffer: Buffer<u8> =
        Buffer::from_bytes(&mut renderer, vec![1], 1, BufferUsages::copy_dst());
    renderer.take_commands();
    assert!(!buffer.update_bytes(&mut renderer, vec![1, 2, 3], 3));
    assert_eq!(buffer.get_vertices_number(), 1);
    assert_eq!(buffer.capacity(), 1);
    assert!(renderer.commands().is_empty());
    let mut untyped = UnTypedBuffer::new(
        &mut renderer,
        vec![vec![1, 2]],
        BufferUsages::uniform().union(BufferUsages::copy_dst()),
    );
    renderer.take_commands();
    assert!(!untyped.update(&mut renderer, vec![vec![1, 2], vec![3]]));
    assert_eq!(untyped.get_vertices_number(), 1);
    assert!(renderer.commands().is_empty());
    assert!(untyped.update(&mut renderer, vec![vec![9], vec![8]]));
    assert_eq!(untyped.get_vertices_number(), 2);
}

#[test]
fn elements_fit_when_their_bytes_do() {
    assert!(fits(0, 0, 0));
    assert!(fits(3, 4, 12));
    assert!(!fits(3, 4, 11));
    assert!(fits(usize::MAX, 0, 0));
    assert!(!fits(usize::MAX, usize::MAX, usize::MAX));
    assert!(fits(usize::MAX, 1, usize::MAX));
}
