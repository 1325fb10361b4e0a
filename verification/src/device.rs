//! The device context: the record of every GPU buffer and bind group the
//! orchestrator asks for. The record is the plan; whoever owns the real device
//! creates one resource per entry, in order, and finds it again by its id.

use vstd::prelude::*;

verus! {

/// What the sandbox asks of the device it runs on.
#[derive(Clone, Copy, Debug, PartialEq, Eq, Structural)]
pub struct DeviceRequirements {
    /// Shaders can read a push-constant block.
    pub push_constants: bool,
    /// Texture formats can be used in every way the adapter supports.
    pub texture_adapter_specific_format_features: bool,
    /// The size in bytes that the push-constant block may have.
    pub max_push_constant_size: u32,
}

/// What a buffer may be used for.
#[derive(Clone, Copy, Debug, PartialEq, Eq, Structural)]
pub struct BufferUsages {
    pub vertex: bool,
    pub index: bool,
    pub uniform: bool,
    pub storage: bool,
    pub copy_dst: bool,
}

/// A buffer to create.
#[derive(Clone, Copy, Debug, PartialEq, Eq)]
pub struct BufferDescriptor {
    pub label: Option<&'static str>,
    /// Size of the initial contents in bytes.
    pub size: u64,
    pub usage: BufferUsages,
}

/// What a label is in contracts: its characters, if there is one.
pub open spec fn label_view(label: Option<&'static str>) -> Option<Seq<char>> {
    match label {
        Some(text) => Some(text@),
        None => None,
    }
}

/// What a buffer descriptor is in contracts.
pub struct BufferView {
    pub label: Option<Seq<char>>,
    pub size: u64,
    pub usage: BufferUsages,
}

impl View for BufferDescriptor {
    type V = BufferView;

    open spec fn view(&self) -> BufferView {
        BufferView { label: label_view(self.label), size: self.size, usage: self.usage }
    }
}

/// Names a buffer by its position in the device context's record.
#[derive(Clone, Copy, Debug, PartialEq, Eq, Structural)]
pub struct BufferId {
    pub index: usize,
}

/// Names a bind group by its position in the device context's record.
#[derive(Clone, Copy, Debug, PartialEq, Eq, Structural)]
pub struct BindGroupId {
    pub index: usize,
}

/// The shader stages that can see a binding.
#[derive(Clone, Copy, Debug, PartialEq, Eq, Structural)]
pub struct ShaderStages {
    pub vertex: bool,
    pub fragment: bool,
    pub compute: bool,
}

/// How a shader reads a bound buffer.
#[derive(Clone, Copy, Debug, PartialEq, Eq, Structural)]
pub enum BufferBindingType {
    Uniform,
    Storage { read_only: bool },
}

/// One slot of a bind group layout.
#[derive(Clone, Copy, Debug, PartialEq, Eq, Structural)]
pub struct BindGroupLayoutEntry {
    pub binding: u32,
    pub visibility: ShaderStages,
    pub ty: BufferBindingType,
    pub has_dynamic_offset: bool,
}

/// The slots a bind group has to fill.
#[derive(Clone, Debug, PartialEq, Eq)]
pub struct BindGroupLayoutDescriptor {
    pub label: Option<&'static str>,
    pub entries: Vec<BindGroupLayoutEntry>,
}

/// What a bind group layout is in contracts.
pub struct BindGroupLayoutView {
    pub label: Option<Seq<char>>,
    pub entries: Seq<BindGroupLayoutEntry>,
}

impl View for BindGroupLayoutDescriptor {
    type V = BindGroupLayoutView;

    open spec fn view(&self) -> BindGroupLayoutView {
        BindGroupLayoutView { label: label_view(self.label), entries: self.entries@ }
    }
}

/// A whole buffer bound to one slot.
#[derive(Clone, Copy, Debug, PartialEq, Eq, Structural)]
pub struct BindGroupEntry {
    pub binding: u32,
    pub buffer: BufferId,
}

/// A bind group to create.
#[derive(Clone, Debug, PartialEq, Eq)]
pub struct BindGroupDescriptor {
    pub label: Option<&'static str>,
    pub layout: BindGroupLayoutDescriptor,
    pub entries: Vec<BindGroupEntry>,
}

/// What a bind group descriptor is in contracts.
pub struct BindGroupView {
    pub label: Option<Seq<char>>,
    pub layout: BindGroupLayoutView,
    pub entries: Seq<BindGroupEntry>,
}

impl View for BindGroupDescriptor {
    type V = BindGroupView;

    open spec fn view(&self) -> BindGroupView {
        BindGroupView {
            label: label_view(self.label),
            layout: self.layout@,
            entries: self.entries@,
        }
    }
}

impl BindGroupView {
    /// The group fills the slots of its layout one for one, with buffers that
    /// exist in `buffers` and that allow the use the slot makes of them.
    pub open spec fn matches(self, buffers: Seq<BufferView>) -> bool {
        &&& self.entries.len() == self.layout.entries.len()
        &&& forall|i: int|
            0 <= i < self.entries.len() ==> {
                let entry = #[trigger] self.entries[i];
                let slot = self.layout.entries[i];
                &&& entry.binding == slot.binding
                &&& entry.buffer.index < buffers.len()
                &&& match slot.ty {
                    BufferBindingType::Uniform => buffers[entry.buffer.index as int].usage.uniform,
                    BufferBindingType::Storage { .. } => buffers[entry.buffer.index as int].usage.storage,
                }
            }
    }
}

/// The views of `buffers`, in the same order.
pub open spec fn buffer_views(buffers: Seq<BufferDescriptor>) -> Seq<BufferView> {
    Seq::new(buffers.len(), |i: int| buffers[i]@)
}

/// The views of `groups`, in the same order.
pub open spec fn bind_group_views(groups: Seq<BindGroupDescriptor>) -> Seq<BindGroupView> {
    Seq::new(groups.len(), |i: int| groups[i]@)
}

/// The resources recorded so far.
pub struct DeviceView {
    pub buffers: Seq<BufferView>,
    pub bind_groups: Seq<BindGroupView>,
}

/// Records the buffers and bind groups to create, in the order asked for.
#[derive(Clone, Debug, PartialEq, Eq)]
pub struct DeviceContext {
    buffers: Vec<BufferDescriptor>,
    bind_groups: Vec<BindGroupDescriptor>,
}

impl View for DeviceContext {
    type V = DeviceView;

    closed spec fn view(&self) -> DeviceView {
        DeviceView {
            buffers: buffer_views(self.buffers@),
            bind_groups: bind_group_views(self.bind_groups@),
        }
    }
}

impl DeviceContext {
    /// A context with nothing recorded.
    pub fn new() -> (device: Self)
        ensures
            device@.buffers == Seq::<BufferView>::empty(),
            device@.bind_groups == Seq::<BindGroupView>::empty(),
    {
        let device = DeviceContext { buffers: Vec::new(), bind_groups: Vec::new() };
        assert(device@.buffers =~= Seq::<BufferView>::empty());
        assert(device@.bind_groups =~= Seq::<BindGroupView>::empty());
        device
    }

    /// Records a buffer of `size` bytes of initial contents and returns its
    /// id.
    pub fn create_buffer_init(
        &mut self,
        label: Option<&'static str>,
        size: u64,
        usage: BufferUsages,
    ) -> (id: BufferId)
        ensures
            id.index == old(self)@.buffers.len(),
            final(self)@.buffers == old(self)@.buffers.push(
                BufferView { label: label_view(label), size, usage },
            ),
            final(self)@.bind_groups == old(self)@.bind_groups,
    {
        let id = BufferId { index: self.buffers.len() };
        self.buffers.push(BufferDescriptor { label, size, usage });
        assert(self@.buffers =~= old(self)@.buffers.push(
            BufferView { label: label_view(label), size, usage },
        ));
        id
    }

    /// Records a bind group and returns its id.
    pub fn create_bind_group(&mut self, descriptor: BindGroupDescriptor) -> (id: BindGroupId)
        ensures
            id.index == old(self)@.bind_groups.len(),
            final(self)@.bind_groups == old(self)@.bind_groups.push(descriptor@),
            final(self)@.buffers == old(self)@.buffers,
    {
        let id = BindGroupId { index: self.bind_groups.len() };
        self.bind_groups.push(descriptor);
        assert(self@.bind_groups =~= old(self)@.bind_groups.push(descriptor@));
        id
    }

    /// The recorded buffers; a buffer's id is its position.
    pub fn buffers(&self) -> (buffers: &[BufferDescriptor])
        ensures
            buffer_views(buffers@) == self@.buffers,
    {
        self.buffers.as_slice()
    }

    /// The recorded bind groups; a bind group's id is its position.
    pub fn bind_groups(&self) -> (groups: &[BindGroupDescriptor])
        ensures
            bind_group_views(groups@) == self@.bind_groups,
    {
        self.bind_groups.as_slice()
    }
}

} // verus!
