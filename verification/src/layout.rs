//! Fixed data layouts shared between the host and the shaders: vertex
//! attributes, per-vertex and per-instance buffer layouts, the camera uniform
//! block and the push-constant block of the simulation.
//!
//! Floating-point payloads are carried as their IEEE 754 binary32 bit
//! patterns, so every structure here is made of integers only.

use vstd::prelude::*;

verus! {

/// Component type and count of one vertex attribute.
#[derive(Clone, Copy, Debug, PartialEq, Eq, Structural)]
pub enum VertexFormat {
    /// One `f32`.
    Float32,
    /// Two `f32`.
    Float32x2,
    /// Three `f32`.
    Float32x3,
    /// Four `f32`.
    Float32x4,
}

impl VertexFormat {
    /// Number of bytes one attribute of this format occupies.
    pub open spec fn size_spec(self) -> u64 {
        match self {
            VertexFormat::Float32 => 4,
            VertexFormat::Float32x2 => 8,
            VertexFormat::Float32x3 => 12,
            VertexFormat::Float32x4 => 16,
        }
    }

    /// Number of bytes one attribute of this format occupies.
    pub fn size(self) -> (bytes: u64)
        ensures
            bytes == self.size_spec(),
    {
        format_size(self)
    }
}

/// Calls `wgpu::VertexFormat::size` on the matching format. The contract
/// claims the byte sizes that function returns for the four `Float32`
/// formats: 4, 8, 12 and 16.
#[verifier::external_body]
fn format_size(format: VertexFormat) -> (bytes: u64)
    ensures
        bytes == format.size_spec(),
{
    let outside = match format {
        VertexFormat::Float32 => wgpu::VertexFormat::Float32,
        VertexFormat::Float32x2 => wgpu::VertexFormat::Float32x2,
        VertexFormat::Float32x3 => wgpu::VertexFormat::Float32x3,
        VertexFormat::Float32x4 => wgpu::VertexFormat::Float32x4,
    };
    outside.size()
}

/// One input of the vertex shader, read from a vertex buffer.
#[derive(Clone, Copy, Debug, PartialEq, Eq, Structural)]
pub struct VertexAttribute {
    pub format: VertexFormat,
    /// Byte offset of the attribute inside one element of the buffer.
    pub offset: u64,
    /// Location of the input in the shader.
    pub shader_location: u32,
}

/// Whether a buffer advances once per vertex or once per instance.
#[derive(Clone, Copy, Debug, PartialEq, Eq, Structural)]
pub enum VertexStepMode {
    Vertex,
    Instance,
}

/// How the vertex stage reads one bound vertex buffer.
#[derive(Clone, Debug, PartialEq, Eq)]
pub struct VertexBufferLayout {
    /// Distance in bytes between two consecutive elements.
    pub array_stride: u64,
    pub step_mode: VertexStepMode,
    pub attributes: Vec<VertexAttribute>,
}

/// What a vertex buffer layout is in contracts.
pub struct VertexBufferLayoutView {
    pub array_stride: u64,
    pub step_mode: VertexStepMode,
    pub attributes: Seq<VertexAttribute>,
}

impl View for VertexBufferLayout {
    type V = VertexBufferLayoutView;

    open spec fn view(&self) -> VertexBufferLayoutView {
        VertexBufferLayoutView {
            array_stride: self.array_stride,
            step_mode: self.step_mode,
            attributes: self.attributes@,
        }
    }
}

impl VertexBufferLayoutView {
    /// Every attribute lies inside one element of the buffer.
    pub open spec fn fits(self) -> bool {
        forall|i: int|
            0 <= i < self.attributes.len() ==> (#[trigger] self.attributes[i]).offset
                + self.attributes[i].format.size_spec() <= self.array_stride
    }
}

/// Byte offset of entry `i` when the first `i` entries are packed one after
/// another without padding.
pub open spec fn packed_offset(entries: Seq<(u32, VertexFormat)>, i: int) -> nat
    decreases i,
{
    if i <= 0 {
        0
    } else {
        packed_offset(entries, i - 1) + entries[i - 1].1.size_spec() as nat
    }
}

/// The attribute list that `entries` describes: entry `i` keeps its shader
/// location and format and starts where entry `i - 1` ends.
pub open spec fn packed_attributes(entries: Seq<(u32, VertexFormat)>) -> Seq<VertexAttribute> {
    Seq::new(
        entries.len(),
        |i: int|
            VertexAttribute {
                format: entries[i].1,
                offset: packed_offset(entries, i) as u64,
                shader_location: entries[i].0,
            },
    )
}

/// Offsets grow with the index.
pub proof fn lemma_packed_offset_monotonic(entries: Seq<(u32, VertexFormat)>, i: int, j: int)
    requires
        i <= j,
    ensures
        packed_offset(entries, i) <= packed_offset(entries, j),
    decreases j - i,
{
    if i < j {
        lemma_packed_offset_monotonic(entries, i, j - 1);
    }
}

/// Lays out `entries`, pairs of shader location and format, as tightly packed
/// attributes in the order given.
pub fn attribute_array(entries: &[(u32, VertexFormat)]) -> (attributes: Vec<VertexAttribute>)
    requires
        packed_offset(entries@, entries@.len() as int) <= u64::MAX,
    ensures
        attributes@ == packed_attributes(entries@),
{
    let mut attributes: Vec<VertexAttribute> = Vec::new();
    let mut offset: u64 = 0;
    let mut i: usize = 0;
    while i < entries.len()
        invariant
            i <= entries@.len(),
            offset == packed_offset(entries@, i as int),
            packed_offset(entries@, entries@.len() as int) <= u64::MAX,
            attributes@.len() == i,
            forall|k: int| 0 <= k < i ==> attributes@[k] == packed_attributes(entries@)[k],
        decreases entries@.len() - i,
    {
        let (shader_location, format) = entries[i];
        attributes.push(VertexAttribute { format, offset, shader_location });
        proof {
            lemma_packed_offset_monotonic(entries@, i + 1, entries@.len() as int);
        }
        offset = offset + format.size();
        i = i + 1;
    }
    assert(attributes@ =~= packed_attributes(entries@));
    attributes
}

/// Byte `k` of `word`, counted from the least significant byte.
pub open spec fn byte_of(word: u32, k: int) -> u8 {
    let scale: int = if k == 0 {
        1
    } else if k == 1 {
        0x100
    } else if k == 2 {
        0x1_0000
    } else {
        0x100_0000
    };
    ((word as int / scale) % 0x100) as u8
}

/// The bytes of `words` in order, four for each word, the most significant
/// byte of a word first where `big_endian` holds and last where it does not.
pub open spec fn encoded(words: Seq<u32>, big_endian: bool) -> Seq<u8> {
    Seq::new(
        4 * words.len(),
        |i: int|
            byte_of(
                words[i / 4],
                if big_endian {
                    3 - i % 4
                } else {
                    i % 4
                },
            ),
    )
}

/// Whether `bytes` are `words` as they lie in the memory of some machine:
/// in little-endian or in big-endian byte order, the same for every word.
pub open spec fn is_native(bytes: Seq<u8>, words: Seq<u32>) -> bool {
    bytes == encoded(words, false) || bytes == encoded(words, true)
}

/// Copies the memory behind `words` as `bytemuck::cast_slice` views it:
/// four bytes for each word, in the byte order of the machine.
#[verifier::external_body]
pub(crate) fn cast_words(words: &[u32]) -> (bytes: Vec<u8>)
    ensures
        is_native(bytes@, words@),
{
    bytemuck::cast_slice::<u32, u8>(words).to_vec()
}

/// The words of `vertices`, one vertex after another.
pub open spec fn flattened<V: Vertex>(vertices: Seq<V>) -> Seq<u32>
    decreases vertices.len(),
{
    if vertices.len() == 0 {
        Seq::empty()
    } else {
        flattened(vertices.drop_last()) + vertices.last().words_spec()
    }
}

/// The words of `vertices` fill as many bytes as that many strides.
pub proof fn lemma_flattened_len<V: Vertex>(vertices: Seq<V>)
    ensures
        4 * flattened(vertices).len() == vertices.len() * V::stride_spec(),
    decreases vertices.len(),
{
    if vertices.len() > 0 {
        lemma_flattened_len(vertices.drop_last());
        vertices.last().lemma_words_fill_stride();
        assert(vertices.len() * V::stride_spec() == (vertices.len() - 1) * V::stride_spec()
            + V::stride_spec()) by (nonlinear_arith);
    }
}

/// The words of vertices that hold a position and nothing else are their
/// coordinates, three for each vertex.
pub proof fn lemma_flattened_positions(vertices: Seq<DefaultVertex3d>)
    ensures
        flattened(vertices).len() == 3 * vertices.len(),
        forall|k: int|
            0 <= k < 3 * vertices.len() ==> #[trigger] flattened(vertices)[k]
                == vertices[k / 3].position@[k % 3],
    decreases vertices.len(),
{
    if vertices.len() > 0 {
        lemma_flattened_positions(vertices.drop_last());
    }
}

/// A type whose values fill a vertex buffer that advances once per vertex.
pub trait Vertex {
    /// Size in bytes of one value.
    spec fn stride_spec() -> u64;

    /// The shader inputs read from one value.
    spec fn attribs_spec() -> Seq<VertexAttribute>;

    /// The 32-bit words that make up the value in a vertex buffer.
    spec fn words_spec(&self) -> Seq<u32>;

    /// The words of a value fill exactly one stride.
    proof fn lemma_words_fill_stride(&self)
        ensures
            4 * self.words_spec().len() == Self::stride_spec(),
    ;

    /// Size in bytes of one value.
    fn stride() -> (bytes: u64)
        ensures
            bytes == Self::stride_spec(),
    ;

    /// The shader inputs read from one value.
    fn attribs() -> (attributes: Vec<VertexAttribute>)
        ensures
            attributes@ == Self::attribs_spec(),
    ;

    /// Appends the words of the value to `out`.
    fn write_words(&self, out: &mut Vec<u32>)
        ensures
            final(out)@ == old(out)@ + self.words_spec(),
    ;

    /// The buffer layout of a slice of values.
    fn desc() -> (layout: VertexBufferLayout)
        ensures
            layout@ == (VertexBufferLayoutView {
                array_stride: Self::stride_spec(),
                step_mode: VertexStepMode::Vertex,
                attributes: Self::attribs_spec(),
            }),
    {
        VertexBufferLayout {
            array_stride: Self::stride(),
            step_mode: VertexStepMode::Vertex,
            attributes: Self::attribs(),
        }
    }
}

/// A type whose values fill a vertex buffer that advances once per instance.
pub trait Instance {
    /// Size in bytes of one value.
    spec fn stride_spec() -> u64;

    /// The shader inputs read from one value.
    spec fn attribs_spec() -> Seq<VertexAttribute>;

    /// Size in bytes of one value.
    fn stride() -> (bytes: u64)
        ensures
            bytes == Self::stride_spec(),
    ;

    /// The shader inputs read from one value.
    fn attribs() -> (attributes: Vec<VertexAttribute>)
        ensures
            attributes@ == Self::attribs_spec(),
    ;

    /// The buffer layout of a slice of values.
    fn desc() -> (layout: VertexBufferLayout)
        ensures
            layout@ == (VertexBufferLayoutView {
                array_stride: Self::stride_spec(),
                step_mode: VertexStepMode::Instance,
                attributes: Self::attribs_spec(),
            }),
    {
        VertexBufferLayout {
            array_stride: Self::stride(),
            step_mode: VertexStepMode::Instance,
            attributes: Self::attribs(),
        }
    }
}

/// The one attribute both built-in layouts carry: three `f32` at offset 0.
pub open spec fn position_attribute(shader_location: u32) -> VertexAttribute {
    VertexAttribute { format: VertexFormat::Float32x3, offset: 0, shader_location }
}

/// Builds the attribute list of a layout that holds a position and nothing
/// else.
fn position_only(shader_location: u32) -> (attributes: Vec<VertexAttribute>)
    ensures
        attributes@ == seq![position_attribute(shader_location)],
{
    let entries = [(shader_location, VertexFormat::Float32x3)];
    assert(packed_offset(entries@, 1) == 12) by {
        assert(packed_offset(entries@, 0) == 0);
    }
    let attributes = attribute_array(&entries);
    assert(attributes@ =~= seq![position_attribute(shader_location)]) by {
        assert(packed_offset(entries@, 0) == 0);
    }
    attributes
}

/// A mesh vertex: a position in model space.
#[derive(Clone, Copy, Debug, PartialEq, Eq)]
pub struct DefaultVertex3d {
    /// Bit patterns of the x, y and z coordinates.
    pub position: [u32; 3],
}

impl Vertex for DefaultVertex3d {
    open spec fn stride_spec() -> u64 {
        12
    }

    open spec fn attribs_spec() -> Seq<VertexAttribute> {
        seq![position_attribute(0)]
    }

    fn stride() -> (bytes: u64) {
        12
    }

    open spec fn words_spec(&self) -> Seq<u32> {
        self.position@
    }

    proof fn lemma_words_fill_stride(&self) {
    }

    fn attribs() -> (attributes: Vec<VertexAttribute>) {
        position_only(0)
    }

    fn write_words(&self, out: &mut Vec<u32>) {
        out.push(self.position[0]);
        out.push(self.position[1]);
        out.push(self.position[2]);
        assert(out@ =~= old(out)@ + self.position@);
    }
}

/// One particle as the vertex stage sees it: a position in world space.
#[derive(Clone, Copy, Debug, PartialEq, Eq)]
pub struct InstanceRepr {
    /// Bit patterns of the x, y and z coordinates.
    pub position: [u32; 3],
}

impl Instance for InstanceRepr {
    open spec fn stride_spec() -> u64 {
        12
    }

    open spec fn attribs_spec() -> Seq<VertexAttribute> {
        seq![position_attribute(1)]
    }

    fn stride() -> (bytes: u64) {
        12
    }

    fn attribs() -> (attributes: Vec<VertexAttribute>) {
        position_only(1)
    }
}

/// Simulation clock handed to the compute shader.
#[derive(Clone, Copy, Debug, PartialEq, Eq, Structural)]
pub struct WorldInfo {
    /// Bit pattern of the simulation time in seconds.
    pub time: u32,
    /// Bit pattern of the time elapsed since the previous frame, in seconds.
    pub delta: u32,
}

/// The block written inline before each compute dispatch.
#[derive(Clone, Copy, Debug, PartialEq, Eq, Structural)]
pub struct ComputePushConstants {
    pub world_info: WorldInfo,
}

/// Size in bytes of [`ComputePushConstants`]: two `f32`.
pub const PUSH_CONSTANTS_SIZE: u32 = 8;

/// Size in bytes of one 4x4 matrix of `f32`.
pub const MATRIX_SIZE: u64 = 64;

/// Size in bytes of the camera uniform block: the view, inverse view and
/// projection matrices, one after another.
pub const CAMERA_UNIFORM_SIZE: u64 = 3 * MATRIX_SIZE;

impl ComputePushConstants {
    /// The words of the block in the order the shader reads them.
    pub open spec fn words_spec(self) -> Seq<u32> {
        seq![self.world_info.time, self.world_info.delta]
    }

    /// The bytes of the block as the shader reads them: time, then delta,
    /// each in the byte order of the machine.
    pub fn bytes(&self) -> (bytes: Vec<u8>)
        ensures
            is_native(bytes@, self.words_spec()),
            bytes@.len() == PUSH_CONSTANTS_SIZE,
    {
        let words = self.words();
        let bytes = cast_words(words.as_slice());
        bytes
    }

    /// The words of the block in the order the shader reads them: time, then
    /// delta.
    pub fn words(&self) -> (words: [u32; 2])
        ensures
            words@ == self.words_spec(),
            4 * words@.len() == PUSH_CONSTANTS_SIZE,
    {
        let words = [self.world_info.time, self.world_info.delta];
        assert(words@ =~= self.words_spec());
        words
    }
}

} // verus!
