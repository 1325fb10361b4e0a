//! The mesh resource: a vertex buffer and an index buffer that are filled
//! once, and the draws that read them.

use vstd::prelude::*;
use vstd::slice::slice_to_vec;
use std::ops::Range;
use crate::device::{BufferId, BufferUsages, BufferView, DeviceContext};
use crate::layout::{cast_words, flattened, is_native, lemma_flattened_len, Vertex};
use crate::pass::{indexed_draw, IndexFormat, RenderCommand, RenderPass};

verus! {

/// What a mesh is in contracts.
pub struct MeshView {
    pub vertex_buffer: BufferId,
    pub index_buffer: BufferId,
    /// The number of vertices in the vertex buffer.
    pub vertex_count: nat,
    /// The words in the vertex buffer, one vertex after another.
    pub vertex_words: Seq<u32>,
    /// The values in the index buffer.
    pub indices: Seq<u32>,
}

impl MeshView {
    /// What [`Mesh::draw_instanced`] records.
    pub open spec fn instanced_draw(self, instance_buffer: BufferId, instances: Range<u32>) -> Seq<
        RenderCommand,
    > {
        seq![
            RenderCommand::SetVertexBuffer { slot: 0, buffer: self.vertex_buffer },
            RenderCommand::SetVertexBuffer { slot: 1, buffer: instance_buffer },
            RenderCommand::SetIndexBuffer { buffer: self.index_buffer, format: IndexFormat::Uint32 },
            indexed_draw(0..(self.indices.len() as u32), 0, instances),
        ]
    }

    /// What [`Mesh::draw`] records.
    pub open spec fn single_draw(self) -> Seq<RenderCommand> {
        seq![
            RenderCommand::SetVertexBuffer { slot: 0, buffer: self.vertex_buffer },
            RenderCommand::SetIndexBuffer { buffer: self.index_buffer, format: IndexFormat::Uint32 },
            indexed_draw(0..(self.indices.len() as u32), 0, 0..1),
        ]
    }
}

/// Whether every index refers to one of `vertex_count` vertices.
pub open spec fn indices_in_range(indices: Seq<u32>, vertex_count: nat) -> bool {
    forall|i: int| 0 <= i < indices.len() ==> (#[trigger] indices[i]) < vertex_count
}

/// The descriptor of a buffer that holds nothing but vertices.
pub open spec fn vertex_buffer_descriptor(size: u64) -> BufferView {
    BufferView {
        label: None,
        size,
        usage: BufferUsages {
            vertex: true,
            index: false,
            uniform: false,
            storage: false,
            copy_dst: false,
        },
    }
}

/// The descriptor of a buffer that holds nothing but indices.
pub open spec fn index_buffer_descriptor(size: u64) -> BufferView {
    BufferView {
        label: None,
        size,
        usage: BufferUsages {
            vertex: false,
            index: true,
            uniform: false,
            storage: false,
            copy_dst: false,
        },
    }
}

/// A vertex buffer and an index buffer, immutable once created.
#[derive(Debug, PartialEq, Eq)]
pub struct Mesh {
    vertex_buffer: BufferId,
    index_buffer: BufferId,
    element_count: usize,
    vertex_count: usize,
    vertex_words: Vec<u32>,
    indices: Vec<u32>,
}

impl View for Mesh {
    type V = MeshView;

    closed spec fn view(&self) -> MeshView {
        MeshView {
            vertex_buffer: self.vertex_buffer,
            index_buffer: self.index_buffer,
            vertex_count: self.vertex_count as nat,
            vertex_words: self.vertex_words@,
            indices: self.indices@,
        }
    }
}

impl Mesh {
    #[verifier::type_invariant]
    spec fn inv(self) -> bool {
        &&& self.element_count == self.indices@.len()
        &&& self.element_count <= u32::MAX
        &&& indices_in_range(self.indices@, self.vertex_count as nat)
    }

    /// Whether every value of `indices` refers to one of `vertex_count`
    /// vertices.
    pub fn indices_valid(vertex_count: usize, indices: &[u32]) -> (valid: bool)
        ensures
            valid == indices_in_range(indices@, vertex_count as nat),
    {
        let mut i: usize = 0;
        while i < indices.len()
            invariant
                i <= indices@.len(),
                indices_in_range(indices@.take(i as int), vertex_count as nat),
            decreases indices@.len() - i,
        {
            if indices[i] as u64 >= vertex_count as u64 {
                return false;
            }
            assert(indices@.take(i + 1) =~= indices@.take(i as int).push(indices@[i as int]));
            i = i + 1;
        }
        assert(indices@.take(i as int) =~= indices@);
        true
    }

    /// Records the two buffers of a mesh of `vertices` joined by `indices`:
    /// first the vertex buffer, then the index buffer of 32-bit values, each
    /// as large as its contents. Every index has to refer to a vertex.
    pub fn create<V: Vertex>(device: &mut DeviceContext, vertices: &[V], indices: &[u32]) -> (mesh:
        Self)
        requires
            indices_in_range(indices@, vertices@.len()),
            indices@.len() <= u32::MAX,
            vertices@.len() * V::stride_spec() <= u64::MAX,
        ensures
            mesh@.vertex_count == vertices@.len(),
            mesh@.vertex_words == flattened(vertices@),
            mesh@.indices == indices@,
            indices_in_range(mesh@.indices, mesh@.vertex_count),
            mesh@.vertex_buffer.index == old(device)@.buffers.len(),
            mesh@.index_buffer.index == old(device)@.buffers.len() + 1,
            final(device)@.buffers == old(device)@.buffers.push(
                vertex_buffer_descriptor((vertices@.len() * V::stride_spec()) as u64),
            ).push(index_buffer_descriptor((4 * indices@.len()) as u64)),
            4 * mesh@.vertex_words.len() == vertices@.len() * V::stride_spec(),
            final(device)@.bind_groups == old(device)@.bind_groups,
    {
        let mut vertex_words: Vec<u32> = Vec::new();
        let mut i: usize = 0;
        while i < vertices.len()
            invariant
                i <= vertices@.len(),
                vertex_words@ == flattened(vertices@.take(i as int)),
            decreases vertices@.len() - i,
        {
            vertices[i].write_words(&mut vertex_words);
            assert(vertices@.take(i + 1).drop_last() =~= vertices@.take(i as int));
            i = i + 1;
        }
        proof {
            assert(vertices@.take(i as int) =~= vertices@);
            lemma_flattened_len(vertices@);
        }
        let vertex_bytes: u64 = vertices.len() as u64 * V::stride();
        let index_bytes: u64 = 4 * (indices.len() as u64);
        let vertex_buffer = device.create_buffer_init(
            None,
            vertex_bytes,
            BufferUsages { vertex: true, index: false, uniform: false, storage: false, copy_dst: false },
        );
        let index_buffer = device.create_buffer_init(
            None,
            index_bytes,
            BufferUsages { vertex: false, index: true, uniform: false, storage: false, copy_dst: false },
        );
        Mesh {
            vertex_buffer,
            index_buffer,
            element_count: indices.len(),
            vertex_count: vertices.len(),
            vertex_words,
            indices: slice_to_vec(indices),
        }
    }

    /// The contents of the vertex buffer: the words of every vertex in the
    /// byte order of the machine.
    pub fn vertex_bytes(&self) -> (bytes: Vec<u8>)
        ensures
            is_native(bytes@, self@.vertex_words),
            bytes@.len() == 4 * self@.vertex_words.len(),
    {
        cast_words(self.vertex_words.as_slice())
    }

    /// The contents of the index buffer: every index in the byte order of
    /// the machine.
    pub fn index_bytes(&self) -> (bytes: Vec<u8>)
        ensures
            is_native(bytes@, self@.indices),
            bytes@.len() == 4 * self@.indices.len(),
    {
        cast_words(self.indices.as_slice())
    }

    /// The buffer that holds the vertices.
    pub fn vertex_buffer(&self) -> (id: BufferId)
        ensures
            id == self@.vertex_buffer,
    {
        self.vertex_buffer
    }

    /// The buffer that holds the indices.
    pub fn index_buffer(&self) -> (id: BufferId)
        ensures
            id == self@.index_buffer,
    {
        self.index_buffer
    }

    /// The number of vertices.
    pub fn vertex_count(&self) -> (count: usize)
        ensures
            count == self@.vertex_count,
    {
        self.vertex_count
    }

    /// The number of indices. It fits the 32 bits of a draw's index range.
    pub fn element_count(&self) -> (count: usize)
        ensures
            count == self@.indices.len(),
            count <= u32::MAX,
    {
        proof {
            use_type_invariant(self);
        }
        self.element_count
    }

    /// The values of the index buffer. Each is smaller than the number of
    /// vertices.
    pub fn indices(&self) -> (indices: &[u32])
        ensures
            indices@ == self@.indices,
            indices_in_range(indices@, self@.vertex_count),
    {
        proof {
            use_type_invariant(self);
        }
        self.indices.as_slice()
    }

    /// Draws every index of the mesh once for each instance of `instances`,
    /// with the vertices at input slot 0 and `instance_buffer` at slot 1.
    /// That `instance_buffer` holds what the bound pipeline reads from slot 1
    /// is up to the caller.
    pub fn draw_instanced(
        &self,
        render_pass: &mut RenderPass,
        instance_buffer: BufferId,
        instances: Range<u32>,
    )
        ensures
            old(render_pass).extended_by(
                *final(render_pass),
                self@.instanced_draw(instance_buffer, instances),
            ),
    {
        proof {
            use_type_invariant(self);
        }
        render_pass.set_vertex_buffer(0, self.vertex_buffer);
        render_pass.set_vertex_buffer(1, instance_buffer);
        render_pass.set_index_buffer(self.index_buffer, IndexFormat::Uint32);
        render_pass.draw_indexed(0..self.element_count as u32, 0, instances);
        assert(render_pass.commands@ =~= old(render_pass).commands@ + self@.instanced_draw(
            instance_buffer,
            instances,
        ));
    }

    /// Draws every index of the mesh once, with the vertices at input slot 0.
    pub fn draw(&self, render_pass: &mut RenderPass)
        ensures
            old(render_pass).extended_by(*final(render_pass), self@.single_draw()),
    {
        proof {
            use_type_invariant(self);
        }
        render_pass.set_vertex_buffer(0, self.vertex_buffer);
        render_pass.set_index_buffer(self.index_buffer, IndexFormat::Uint32);
        render_pass.draw_indexed(0..self.element_count as u32, 0, 0..1);
        assert(render_pass.commands@ =~= old(render_pass).commands@ + self@.single_draw());
    }
}

/// A draw recorded by [`Mesh::draw_instanced`] over the instances from `a` up
/// to `b` draws exactly `b - a` instances, in its one drawing command, and
/// that command reads the whole index buffer and nothing beyond it.
pub proof fn lemma_instanced_draw_count(mesh: MeshView, instance_buffer: BufferId, a: u32, b: u32)
    requires
        a <= b,
        mesh.indices.len() <= u32::MAX,
    ensures
        mesh.instanced_draw(instance_buffer, a..b).len() == 4,
        mesh.instanced_draw(instance_buffer, a..b)[3].instance_count() == b - a,
        mesh.instanced_draw(instance_buffer, a..b)[3] matches RenderCommand::DrawIndexed {
            first_index,
            end_index,
            ..
        } && first_index == 0 && end_index == mesh.indices.len(),
        forall|i: int|
            0 <= i < 3 ==> !((#[trigger] mesh.instanced_draw(instance_buffer, a..b)[i])
                is DrawIndexed),
{
}

} // verus!
