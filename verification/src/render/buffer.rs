//! Buffers: device memory that holds elements of one fixed layout.

use vstd::prelude::*;
use vstd::layout::size_of;
use core::marker::PhantomData;
use bytemuck::{Pod, Zeroable};
use crate::render::bind_group::BindingResource;
use crate::render::command::{GpuCommand, GpuCommandView};
use crate::render::{lemma_issue_twice, Renderer, RendererView};

verus! {

/// The bit of [`BufferUsages`] for a buffer that can be mapped for reading.
pub const USAGE_MAP_READ: u32 = 1;

/// The bit of [`BufferUsages`] for a buffer that can be mapped for writing.
pub const USAGE_MAP_WRITE: u32 = 2;

/// The bit of [`BufferUsages`] for a buffer that is copied from.
pub const USAGE_COPY_SRC: u32 = 4;

/// The bit of [`BufferUsages`] for a buffer that is copied or written into.
pub const USAGE_COPY_DST: u32 = 8;

/// The bit of [`BufferUsages`] for a buffer of indices.
pub const USAGE_INDEX: u32 = 16;

/// The bit of [`BufferUsages`] for a buffer of vertices.
pub const USAGE_VERTEX: u32 = 32;

/// The bit of [`BufferUsages`] for a buffer of uniform data.
pub const USAGE_UNIFORM: u32 = 64;

/// The bit of [`BufferUsages`] for a storage buffer.
pub const USAGE_STORAGE: u32 = 128;

/// The bit of [`BufferUsages`] for a buffer of indirect draw arguments.
pub const USAGE_INDIRECT: u32 = 256;

/// The bit of [`BufferUsages`] for a buffer that query results resolve into.
pub const USAGE_QUERY_RESOLVE: u32 = 512;

/// Ways in which a buffer may be used, combinable bit by bit.
#[derive(Clone, Copy, PartialEq, Eq, Structural, Hash, Debug)]
pub struct BufferUsages {
    pub bits: u32,
}

impl BufferUsages {
    /// Whether every usage of `other` is among these.
    pub open spec fn has(self, other: BufferUsages) -> bool {
        self.bits & other.bits == other.bits
    }

    /// Whether the copy-destination usage is among these.
    pub open spec fn has_copy_dst(self) -> bool {
        self.bits & USAGE_COPY_DST == USAGE_COPY_DST
    }

    /// Whether the vertex usage is among these.
    pub open spec fn has_vertex(self) -> bool {
        self.bits & USAGE_VERTEX == USAGE_VERTEX
    }

    /// Whether the index usage is among these.
    pub open spec fn has_index(self) -> bool {
        self.bits & USAGE_INDEX == USAGE_INDEX
    }

    pub fn from_bits(bits: u32) -> (u: Self)
        ensures
            u.bits == bits,
    {
        BufferUsages { bits }
    }

    pub fn empty() -> (u: Self)
        ensures
            u.bits == 0,
    {
        BufferUsages { bits: 0 }
    }

    pub fn vertex() -> (u: Self)
        ensures
            u.bits == USAGE_VERTEX,
    {
        BufferUsages { bits: USAGE_VERTEX }
    }

    pub fn index() -> (u: Self)
        ensures
            u.bits == USAGE_INDEX,
    {
        BufferUsages { bits: USAGE_INDEX }
    }

    pub fn uniform() -> (u: Self)
        ensures
            u.bits == USAGE_UNIFORM,
    {
        BufferUsages { bits: USAGE_UNIFORM }
    }

    pub fn copy_dst() -> (u: Self)
        ensures
            u.bits == USAGE_COPY_DST,
    {
        BufferUsages { bits: USAGE_COPY_DST }
    }

    /// The usages of `self` together with those of `other`.
    pub fn union(self, other: BufferUsages) -> (u: Self)
        ensures
            u.bits == self.bits | other.bits,
            u.has(self),
            u.has(other),
    {
        let a: u32 = self.bits;
        let b: u32 = other.bits;
        assert((a | b) & a == a && (a | b) & b == b) by (bit_vector);
        BufferUsages { bits: a | b }
    }

    /// Whether every usage of `other` is among these.
    pub fn contains(self, other: BufferUsages) -> (r: bool)
        ensures
            r == self.has(other),
    {
        self.bits & other.bits == other.bits
    }
}

/// What a buffer holds: the handle of the device allocation, the usages it
/// was allocated for, the size in bytes that it was allocated with, the
/// number of elements of the last write, and the bytes of the last write.
pub struct BufferView {
    pub handle: u64,
    pub usage: BufferUsages,
    /// The size of the allocation in bytes. It is fixed when the buffer is
    /// made: a buffer does not grow.
    pub capacity: nat,
    pub count: u32,
    pub contents: Seq<u8>,
}

/// The buffer that an allocation under `handle` yields: it is as large as
/// its first contents.
pub open spec fn allocated(handle: u64, usage: BufferUsages, count: u32, contents: Seq<u8>)
    -> BufferView {
    BufferView { handle, usage, capacity: contents.len(), count, contents }
}

/// The command that allocates `buffer`.
pub open spec fn create_command(buffer: BufferView) -> GpuCommandView {
    GpuCommandView::CreateBuffer {
        buffer: buffer.handle,
        contents: buffer.contents,
        usage: buffer.usage,
    }
}

/// Whether `buffer` takes a write of `len` bytes from its start: it was
/// allocated as a copy destination, and the bytes fit the allocation. A
/// buffer does not grow.
pub open spec fn accepts_write(buffer: BufferView, len: nat) -> bool {
    buffer.usage.has_copy_dst() && len <= buffer.capacity
}

/// A buffer after an update with `count` elements that lie in `contents`:
/// where the buffer takes the write, it holds the new elements; where it
/// does not, it is as it was.
pub open spec fn updated(buffer: BufferView, count: u32, contents: Seq<u8>) -> BufferView {
    if accepts_write(buffer, contents.len()) {
        BufferView {
            handle: buffer.handle,
            usage: buffer.usage,
            capacity: buffer.capacity,
            count,
            contents,
        }
    } else {
        buffer
    }
}

/// The commands that an update of `buffer` with `contents` records: one
/// write from the start of the buffer where the buffer takes the write, and
/// nothing where it does not.
pub open spec fn update_commands(buffer: BufferView, contents: Seq<u8>) -> Seq<GpuCommandView> {
    if accepts_write(buffer, contents.len()) {
        seq![GpuCommandView::WriteBuffer { buffer: buffer.handle, offset: 0, contents }]
    } else {
        Seq::empty()
    }
}

/// Whether an update with `elements` elements of `size` bytes each can
/// leave `buffer` as `after` and `renderer` as `renderer_after`: for some
/// bytes of that length, the buffer is updated with them, and what that
/// update records is recorded.
pub open spec fn updated_with(
    buffer: BufferView,
    renderer: RendererView,
    elements: nat,
    size: nat,
    after: BufferView,
    renderer_after: RendererView,
) -> bool {
    exists|bytes: Seq<u8>|
        {
            &&& bytes.len() == elements * size
            &&& #[trigger] updated(buffer, elements as u32, bytes) == after
            &&& renderer_after == renderer.issue(update_commands(buffer, bytes), 0)
        }
}

/// Whether `count` elements of `size` bytes each fit into `capacity`
/// bytes.
pub fn fits(count: usize, size: usize, capacity: usize) -> (r: bool)
    ensures
        r == (count * size <= capacity),
{
    let count: u128 = count as u128;
    let size: u128 = size as u128;
    assert(count * size <= 0xffff_ffff_ffff_ffff * 0xffff_ffff_ffff_ffff) by (nonlinear_arith)
        requires
            count <= 0xffff_ffff_ffff_ffff,
            size <= 0xffff_ffff_ffff_ffff,
    ;
    count * size <= capacity as u128
}

/// The bytes of `chunks`, one chunk after the other.
pub open spec fn flattened(chunks: Seq<Vec<u8>>) -> Seq<u8> {
    chunks.map_values(|c: Vec<u8>| c@).flatten()
}

/// The bytes of the elements as `bytemuck::cast_slice` views them: the
/// memory of the slice itself, element after element. Viewing elements as
/// bytes cannot fail, for a byte has no alignment and divides every size. Of
/// the result this states the length only: the number of elements times the
/// size of one.
#[verifier::external_body]
fn cast_bytes<V: Pod>(elements: &Vec<V>) -> (bytes: Vec<u8>)
    ensures
        bytes@.len() == elements@.len() * size_of::<V>(),
{
    bytemuck::cast_slice::<V, u8>(elements.as_slice()).to_vec()
}

/// Joins chunks of bytes into one run.
pub fn flatten(chunks: &Vec<Vec<u8>>) -> (bytes: Vec<u8>)
    ensures
        bytes@ == flattened(chunks@),
{
    let mut bytes: Vec<u8> = Vec::new();
    let mut i: usize = 0;
    assert(chunks@.subrange(0, 0) =~= Seq::<Vec<u8>>::empty());
    assert(chunks@.subrange(0, 0).map_values(|c: Vec<u8>| c@) =~= Seq::<Seq<u8>>::empty());
    while i < chunks.len()
        invariant
            i <= chunks@.len(),
            bytes@ == flattened(chunks@.subrange(0, i as int)),
        decreases chunks@.len() - i,
    {
        let chunk = &chunks[i];
        let ghost before = bytes@;
        let mut j: usize = 0;
        while j < chunk.len()
            invariant
                j <= chunk@.len(),
                bytes@ == before + chunk@.subrange(0, j as int),
            decreases chunk@.len() - j,
        {
            bytes.push(chunk[j]);
            assert(bytes@ =~= before + chunk@.subrange(0, j + 1));
            j = j + 1;
        }
        proof {
            let done = chunks@.subrange(0, i as int).map_values(|c: Vec<u8>| c@);
            assert(chunk@.subrange(0, j as int) =~= chunk@);
            assert(chunks@.subrange(0, i + 1).map_values(|c: Vec<u8>| c@) =~= done.push(chunk@));
            done.lemma_flatten_push(chunk@);
        }
        i = i + 1;
    }
    assert(chunks@.subrange(0, i as int) =~= chunks@);
    bytes
}

/// A buffer of elements of the type `V`.
pub struct Buffer<V> {
    handle: u64,
    usage: BufferUsages,
    capacity: usize,
    vertices_number: u32,
    contents: Ghost<Seq<u8>>,
    mark: PhantomData<V>,
}

impl<V> View for Buffer<V> {
    type V = BufferView;

    closed spec fn view(&self) -> BufferView {
        BufferView {
            handle: self.handle,
            usage: self.usage,
            capacity: self.capacity as nat,
            count: self.vertices_number,
            contents: self.contents@,
        }
    }
}

impl<V> Buffer<V> {
    /// Allocates a buffer that holds `count` elements whose bytes are
    /// `contents`.
    pub fn from_bytes(renderer: &mut Renderer, contents: Vec<u8>, count: u32, usage: BufferUsages)
        -> (buffer: Self)
        ensures
            final(renderer).wf() == old(renderer).wf(),
            buffer@ == allocated(old(renderer)@.next_handle, usage, count, contents@),
            final(renderer)@ == old(renderer)@.issue(seq![create_command(buffer@)], 1),
    {
        let ghost bytes = contents@;
        let capacity = contents.len();
        let handle = renderer.allocate_handle();
        renderer.record(GpuCommand::CreateBuffer { buffer: handle, contents, usage });
        proof {
            lemma_issue_twice(
                old(renderer)@,
                Seq::empty(),
                1,
                seq![
                    GpuCommandView::CreateBuffer { buffer: handle, contents: bytes, usage },
                ],
                0,
            );
            assert(Seq::<GpuCommandView>::empty() + seq![
                GpuCommandView::CreateBuffer { buffer: handle, contents: bytes, usage },
            ] =~= seq![GpuCommandView::CreateBuffer { buffer: handle, contents: bytes, usage }]);
        }
        Buffer {
            handle,
            usage,
            capacity,
            vertices_number: count,
            contents: Ghost(bytes),
            mark: PhantomData,
        }
    }

    /// Replaces what the buffer holds by `count` elements whose bytes are
    /// `contents`, written from the start of the buffer. A buffer that was
    /// not allocated as a copy destination, or that is smaller than
    /// `contents`, is left as it is, and nothing is recorded. Returns
    /// whether the buffer was written.
    pub fn update_bytes(&mut self, renderer: &mut Renderer, contents: Vec<u8>, count: u32) -> (written:
        bool)
        ensures
            final(renderer).wf() == old(renderer).wf(),
            written == accepts_write(old(self)@, contents@.len()),
            final(self)@ == updated(old(self)@, count, contents@),
            final(renderer)@ == old(renderer)@.issue(update_commands(old(self)@, contents@), 0),
    {
        if self.usage.bits & USAGE_COPY_DST != USAGE_COPY_DST || contents.len() > self.capacity {
            proof {
                crate::render::lemma_issue_nothing(old(renderer)@);
            }
            return false;
        }
        let ghost bytes = contents@;
        renderer.record(GpuCommand::WriteBuffer { buffer: self.handle, offset: 0, contents });
        self.vertices_number = count;
        self.contents = Ghost(bytes);
        true
    }

    /// The number of elements of the last write.
    pub fn get_vertices_number(&self) -> (count: u32)
        ensures
            count == self@.count,
    {
        self.vertices_number
    }

    /// The whole buffer as a resource for a bind group.
    pub fn as_entire_binding(&self) -> (resource: BindingResource)
        ensures
            resource == BindingResource::Buffer(self@.handle),
    {
        BindingResource::Buffer(self.handle)
    }

    /// The size in bytes that the buffer was allocated with.
    pub fn capacity(&self) -> (capacity: usize)
        ensures
            capacity == self@.capacity,
    {
        self.capacity
    }

    /// Whether `len` bytes fit the allocation.
    pub fn can_hold(&self, len: usize) -> (r: bool)
        ensures
            r == (len <= self@.capacity),
    {
        len <= self.capacity
    }

    /// The handle of the device allocation.
    pub fn handle(&self) -> (handle: u64)
        ensures
            handle == self@.handle,
    {
        self.handle
    }

    /// The usages that the buffer was allocated for.
    pub fn usage(&self) -> (usage: BufferUsages)
        ensures
            usage == self@.usage,
    {
        self.usage
    }
}

impl<V: Pod + Zeroable> Buffer<V> {
    /// Allocates a buffer filled with `vertices`.
    pub fn new(renderer: &mut Renderer, vertices: Vec<V>, usage: BufferUsages) -> (buffer: Self)
        ensures
            final(renderer).wf() == old(renderer).wf(),
            buffer@.handle == old(renderer)@.next_handle,
            buffer@.usage == usage,
            buffer@.count == vertices@.len() as u32,
            buffer@.contents.len() == vertices@.len() * size_of::<V>(),
            buffer@.capacity == buffer@.contents.len(),
            final(renderer)@ == old(renderer)@.issue(seq![create_command(buffer@)], 1),
    {
        Buffer::from_elements(renderer, &vertices, usage)
    }

    /// Allocates a buffer filled with `vertices`, which stay with the
    /// caller.
    pub fn from_elements(renderer: &mut Renderer, vertices: &Vec<V>, usage: BufferUsages) -> (buffer:
        Self)
        ensures
            final(renderer).wf() == old(renderer).wf(),
            buffer@.handle == old(renderer)@.next_handle,
            buffer@.usage == usage,
            buffer@.count == vertices@.len() as u32,
            buffer@.contents.len() == vertices@.len() * size_of::<V>(),
            buffer@.capacity == buffer@.contents.len(),
            final(renderer)@ == old(renderer)@.issue(seq![create_command(buffer@)], 1),
    {
        let contents = cast_bytes(vertices);
        Buffer::from_bytes(renderer, contents, vertices.len() as u32, usage)
    }

    /// Replaces what the buffer holds by `vertices`, written from the start
    /// of the buffer. A buffer that was not allocated as a copy
    /// destination, or that is smaller than the elements, is left as it
    /// is, and nothing is recorded. Returns whether the buffer was written.
    pub fn update(&mut self, renderer: &mut Renderer, vertices: Vec<V>) -> (written: bool)
        ensures
            final(renderer).wf() == old(renderer).wf(),
            written == accepts_write(old(self)@, vertices@.len() * size_of::<V>()),
            updated_with(
                old(self)@,
                old(renderer)@,
                vertices@.len(),
                size_of::<V>(),
                final(self)@,
                final(renderer)@,
            ),
    {
        self.update_from(renderer, &vertices)
    }

    /// Replaces what the buffer holds by `vertices`, which stay with the
    /// caller. A buffer that was not allocated as a copy destination, or
    /// that is smaller than the elements, is left as it is, and nothing is
    /// recorded. Returns whether the buffer was written.
    pub fn update_from(&mut self, renderer: &mut Renderer, vertices: &Vec<V>) -> (written: bool)
        ensures
            final(renderer).wf() == old(renderer).wf(),
            written == accepts_write(old(self)@, vertices@.len() * size_of::<V>()),
            updated_with(
                old(self)@,
                old(renderer)@,
                vertices@.len(),
                size_of::<V>(),
                final(self)@,
                final(renderer)@,
            ),
    {
        let contents = cast_bytes(vertices);
        let ghost bytes = contents@;
        let written = self.update_bytes(renderer, contents, vertices.len() as u32);
        proof {
            assert(updated(old(self)@, vertices@.len() as u32, bytes) == self@);
        }
        written
    }
}

/// A buffer of bytes with no element type.
pub struct UnTypedBuffer {
    handle: u64,
    usage: BufferUsages,
    capacity: usize,
    vertices_number: u32,
    contents: Ghost<Seq<u8>>,
}

impl View for UnTypedBuffer {
    type V = BufferView;

    closed spec fn view(&self) -> BufferView {
        BufferView {
            handle: self.handle,
            usage: self.usage,
            capacity: self.capacity as nat,
            count: self.vertices_number,
            contents: self.contents@,
        }
    }
}

impl UnTypedBuffer {
    /// Allocates a buffer filled with the elements `vertices_bytes`, each
    /// given by its bytes.
    pub fn new(renderer: &mut Renderer, vertices_bytes: Vec<Vec<u8>>, usage: BufferUsages) -> (buffer:
        Self)
        ensures
            final(renderer).wf() == old(renderer).wf(),
            buffer@ == allocated(
                old(renderer)@.next_handle,
                usage,
                vertices_bytes@.len() as u32,
                flattened(vertices_bytes@),
            ),
            final(renderer)@ == old(renderer)@.issue(seq![create_command(buffer@)], 1),
    {
        let contents = flatten(&vertices_bytes);
        let count: u32 = vertices_bytes.len() as u32;
        let typed: Buffer<u8> = Buffer::from_bytes(renderer, contents, count, usage);
        UnTypedBuffer {
            handle: typed.handle,
            usage: typed.usage,
            capacity: typed.capacity,
            vertices_number: typed.vertices_number,
            contents: typed.contents,
        }
    }

    /// Replaces what the buffer holds by the elements `vertices_bytes`,
    /// written from the start of the buffer. A buffer that was not allocated
    /// as a copy destination, or that is smaller than the elements, is left
    /// as it is, and nothing is recorded. Returns whether the buffer was
    /// written.
    pub fn update(&mut self, renderer: &mut Renderer, vertices_bytes: Vec<Vec<u8>>) -> (written: bool)
        ensures
            final(renderer).wf() == old(renderer).wf(),
            written == accepts_write(old(self)@, flattened(vertices_bytes@).len()),
            final(self)@ == updated(
                old(self)@,
                vertices_bytes@.len() as u32,
                flattened(vertices_bytes@),
            ),
            final(renderer)@ == old(renderer)@.issue(
                update_commands(old(self)@, flattened(vertices_bytes@)),
                0,
            ),
    {
        let contents = flatten(&vertices_bytes);
        if self.usage.bits & USAGE_COPY_DST != USAGE_COPY_DST || contents.len() > self.capacity {
            proof {
                crate::render::lemma_issue_nothing(old(renderer)@);
            }
            return false;
        }
        let ghost bytes = contents@;
        renderer.record(GpuCommand::WriteBuffer { buffer: self.handle, offset: 0, contents });
        self.vertices_number = vertices_bytes.len() as u32;
        self.contents = Ghost(bytes);
        true
    }

    /// The number of elements of the last write.
    pub fn get_vertices_number(&self) -> (count: u32)
        ensures
            count == self@.count,
    {
        self.vertices_number
    }

    /// The whole buffer as a resource for a bind group.
    pub fn as_entire_binding(&self) -> (resource: BindingResource)
        ensures
            resource == BindingResource::Buffer(self@.handle),
    {
        BindingResource::Buffer(self.handle)
    }

    /// The size in bytes that the buffer was allocated with.
    pub fn capacity(&self) -> (capacity: usize)
        ensures
            capacity == self@.capacity,
    {
        self.capacity
    }

    /// Whether `len` bytes fit the allocation.
    pub fn can_hold(&self, len: usize) -> (r: bool)
        ensures
            r == (len <= self@.capacity),
    {
        len <= self.capacity
    }

    /// The handle of the device allocation.
    pub fn handle(&self) -> (handle: u64)
        ensures
            handle == self@.handle,
    {
        self.handle
    }

    /// The usages that the buffer was allocated for.
    pub fn usage(&self) -> (usage: BufferUsages)
        ensures
            usage == self@.usage,
    {
        self.usage
    }
}

} // verus!
