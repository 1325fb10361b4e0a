//! The simulation stage: one compute dispatch per frame over a grid of
//! workgroups that covers every particle.

use vstd::prelude::*;
use crate::device::BindGroupId;
use crate::layout::ComputePushConstants;
use crate::pass::{dispatch_count, lemma_dispatch_count_push, ComputeCommand, ComputePass};
use crate::pipeline::{Pipeline, PipelineKey, PipelineRegistry, PipelineSelector};

verus! {

/// The least number of groups of `size` that hold `count` items.
pub open spec fn ceil_div(count: nat, size: nat) -> nat
    recommends
        size > 0,
{
    ((count + size - 1) / (size as int)) as nat
}

/// `ceil_div(count, size)` groups hold `count` items, one group fewer does
/// not, and when `size` divides `count` no slot of a group stays empty.
pub proof fn lemma_ceil_div(count: nat, size: nat)
    requires
        size > 0,
    ensures
        ceil_div(count, size) * size >= count,
        count > 0 ==> (ceil_div(count, size) - 1) * size < count,
        count % size == 0 ==> ceil_div(count, size) * size == count,
        ceil_div(count, size) == count / size + if count % size == 0 {
            0nat
        } else {
            1nat
        },
{
    let q = count / size;
    let r = count % size;
    assert(count == q * size + r) by {
        vstd::arithmetic::div_mod::lemma_fundamental_div_mod(count as int, size as int);
        assert(q * size == size * q) by (nonlinear_arith);
    }
    if r == 0 {
        assert((q * size + size - 1) / (size as int) == q) by (nonlinear_arith)
            requires
                size > 0,
                q >= 0,
        ;
    } else {
        assert((q * size + r + size - 1) / (size as int) == q + 1) by (nonlinear_arith)
            requires
                size > 0,
                q >= 0,
                0 < r < size,
        ;
        assert((q + 1) * size == q * size + size) by (nonlinear_arith);
    }
    if count > 0 {
        assert((ceil_div(count, size) - 1) * size < count) by (nonlinear_arith)
            requires
                count == q * size + r,
                0 <= r < size,
                ceil_div(count, size) == q + if r == 0 {
                    0int
                } else {
                    1int
                },
                count > 0,
        ;
    }
}

/// The number of groups of `size` needed to hold `count` items.
pub fn div_ceil(count: u32, size: u32) -> (groups: u32)
    requires
        size > 0,
    ensures
        groups == ceil_div(count as nat, size as nat),
{
    proof {
        lemma_ceil_div(count as nat, size as nat);
    }
    let whole: u32 = count / size;
    if count % size == 0 {
        whole
    } else {
        assert(whole < u32::MAX) by (nonlinear_arith)
            requires
                whole == count as int / size as int,
                count as int % size as int != 0,
                size > 0,
                count <= u32::MAX,
        ;
        whole + 1
    }
}

/// The workgroup counts along x, y and z that cover `dimensions` particles
/// with workgroups of `workgroup_dims` invocations.
pub open spec fn grid_for(dimensions: (u32, u32, u32), workgroup_dims: (u32, u32, u32)) -> (
    u32,
    u32,
    u32,
) {
    (
        ceil_div(dimensions.0 as nat, workgroup_dims.0 as nat) as u32,
        ceil_div(dimensions.1 as nat, workgroup_dims.1 as nat) as u32,
        ceil_div(dimensions.2 as nat, workgroup_dims.2 as nat) as u32,
    )
}

/// The product of the three components.
pub open spec fn volume(extent: (u32, u32, u32)) -> nat {
    extent.0 as nat * extent.1 as nat * extent.2 as nat
}

/// Computes the workgroup counts of one dispatch: along each axis, the
/// particle count divided by the workgroup size, rounded up.
pub fn dispatch_grid(dimensions: (u32, u32, u32), workgroup_dims: (u32, u32, u32)) -> (grid: (
    u32,
    u32,
    u32,
))
    requires
        workgroup_dims.0 > 0,
        workgroup_dims.1 > 0,
        workgroup_dims.2 > 0,
    ensures
        grid == grid_for(dimensions, workgroup_dims),
        grid.0 == ceil_div(dimensions.0 as nat, workgroup_dims.0 as nat),
        grid.1 == ceil_div(dimensions.1 as nat, workgroup_dims.1 as nat),
        grid.2 == ceil_div(dimensions.2 as nat, workgroup_dims.2 as nat),
{
    (
        div_ceil(dimensions.0, workgroup_dims.0),
        div_ceil(dimensions.1, workgroup_dims.1),
        div_ceil(dimensions.2, workgroup_dims.2),
    )
}

/// The invocations of a dispatch are at least as many as the particles: the
/// number of workgroups times the size of a workgroup is no less than the
/// particle count. Where the workgroup size divides the particle count along
/// every axis, the two are equal and no invocation is idle.
pub proof fn lemma_dispatch_covers(dimensions: (u32, u32, u32), workgroup_dims: (u32, u32, u32))
    requires
        workgroup_dims.0 > 0,
        workgroup_dims.1 > 0,
        workgroup_dims.2 > 0,
    ensures
        volume(grid_for(dimensions, workgroup_dims)) * volume(workgroup_dims) >= volume(dimensions),
        dimensions.0 % workgroup_dims.0 == 0 && dimensions.1 % workgroup_dims.1 == 0 && dimensions.2
            % workgroup_dims.2 == 0 ==> volume(grid_for(dimensions, workgroup_dims)) * volume(
            workgroup_dims,
        ) == volume(dimensions),
{
    let (nx, ny, nz) = (dimensions.0 as nat, dimensions.1 as nat, dimensions.2 as nat);
    let (wx, wy, wz) = (workgroup_dims.0 as nat, workgroup_dims.1 as nat, workgroup_dims.2 as nat);
    let (gx, gy, gz) = (ceil_div(nx, wx), ceil_div(ny, wy), ceil_div(nz, wz));
    lemma_ceil_div(nx, wx);
    lemma_ceil_div(ny, wy);
    lemma_ceil_div(nz, wz);
    lemma_grid_fits(dimensions, workgroup_dims);
    assert((gx * gy * gz) * (wx * wy * wz) == (gx * wx) * (gy * wy) * (gz * wz))
        by (nonlinear_arith);
    assert((gx * wx) * (gy * wy) * (gz * wz) >= nx * ny * nz) by (nonlinear_arith)
        requires
            gx * wx >= nx,
            gy * wy >= ny,
            gz * wz >= nz,
    ;
}

/// A workgroup count is never larger than the particle count it covers, so
/// it fits the 32 bits of a dispatch.
pub proof fn lemma_grid_fits(dimensions: (u32, u32, u32), workgroup_dims: (u32, u32, u32))
    requires
        workgroup_dims.0 > 0,
        workgroup_dims.1 > 0,
        workgroup_dims.2 > 0,
    ensures
        ceil_div(dimensions.0 as nat, workgroup_dims.0 as nat) <= dimensions.0,
        ceil_div(dimensions.1 as nat, workgroup_dims.1 as nat) <= dimensions.1,
        ceil_div(dimensions.2 as nat, workgroup_dims.2 as nat) <= dimensions.2,
{
    lemma_ceil_div_bounded(dimensions.0 as nat, workgroup_dims.0 as nat);
    lemma_ceil_div_bounded(dimensions.1 as nat, workgroup_dims.1 as nat);
    lemma_ceil_div_bounded(dimensions.2 as nat, workgroup_dims.2 as nat);
}

proof fn lemma_ceil_div_bounded(count: nat, size: nat)
    requires
        size > 0,
    ensures
        ceil_div(count, size) <= count,
{
    lemma_ceil_div(count, size);
    if count > 0 {
        assert(ceil_div(count, size) - 1 < count) by (nonlinear_arith)
            requires
                (ceil_div(count, size) - 1) * size < count,
                size >= 1,
        ;
    } else {
        assert(0nat / size == 0) by (nonlinear_arith)
            requires
                size > 0,
        ;
        assert(0nat % size == 0) by (nonlinear_arith)
            requires
                size > 0,
        ;
    }
}

/// Where the simulation stage stands within a frame.
#[derive(Clone, Copy, Debug, PartialEq, Eq, Structural)]
pub enum StageState {
    /// No pass is open.
    Idle,
    /// A compute pass is open and takes commands.
    Recording,
    /// The dispatch is recorded; the pass waits to be submitted.
    Dispatched,
}

/// What the simulation stage is in contracts.
pub struct StageView {
    /// The number of particles along x, y and z.
    pub dimensions: (u32, u32, u32),
    /// The number of invocations of one workgroup along x, y and z.
    pub workgroup_dims: (u32, u32, u32),
    pub state: StageState,
    /// The commands of the open pass; none while the stage is idle.
    pub commands: Seq<ComputeCommand>,
}

/// The commands of one simulation step: select the compute pipeline; bind
/// the particle state at index 0; write the push constants at offset 0;
/// start `grid` workgroups.
pub open spec fn step_commands(
    bind_group: BindGroupId,
    push_constants: ComputePushConstants,
    grid: (u32, u32, u32),
) -> Seq<ComputeCommand> {
    seq![
        ComputeCommand::SetPipeline { pipeline: PipelineSelector::Compute },
        ComputeCommand::SetBindGroup { index: 0, group: bind_group },
        ComputeCommand::SetPushConstants { offset: 0, data: push_constants },
        ComputeCommand::DispatchWorkgroups { x: grid.0, y: grid.1, z: grid.2 },
    ]
}

/// One simulation step starts workgroups exactly once, with its last
/// command.
pub proof fn lemma_step_dispatches_once(
    bind_group: BindGroupId,
    push_constants: ComputePushConstants,
    grid: (u32, u32, u32),
)
    ensures
        dispatch_count(step_commands(bind_group, push_constants, grid)) == 1,
        step_commands(bind_group, push_constants, grid).last() == (
        ComputeCommand::DispatchWorkgroups { x: grid.0, y: grid.1, z: grid.2 }),
{
    let select = ComputeCommand::SetPipeline { pipeline: PipelineSelector::Compute };
    let bind = ComputeCommand::SetBindGroup { index: 0, group: bind_group };
    let push = ComputeCommand::SetPushConstants { offset: 0, data: push_constants };
    let dispatch = ComputeCommand::DispatchWorkgroups { x: grid.0, y: grid.1, z: grid.2 };
    let start = Seq::<ComputeCommand>::empty().push(select);
    lemma_dispatch_count_push(Seq::empty(), select);
    lemma_dispatch_count_push(start, bind);
    lemma_dispatch_count_push(start.push(bind), push);
    lemma_dispatch_count_push(start.push(bind).push(push), dispatch);
    assert(step_commands(bind_group, push_constants, grid) =~= start.push(bind).push(push).push(
        dispatch,
    ));
}

/// Records the compute pass of each frame. A frame takes the stage from idle
/// to recording, on to dispatched, and back to idle.
#[derive(Debug, PartialEq, Eq)]
pub struct SimulationStage {
    dimensions: (u32, u32, u32),
    workgroup_dims: (u32, u32, u32),
    state: StageState,
    pass: Option<ComputePass>,
}

impl View for SimulationStage {
    type V = StageView;

    closed spec fn view(&self) -> StageView {
        StageView {
            dimensions: self.dimensions,
            workgroup_dims: self.workgroup_dims,
            state: self.state,
            commands: match self.pass {
                Some(pass) => pass.commands@,
                None => Seq::empty(),
            },
        }
    }
}

impl SimulationStage {
    /// Workgroups are not empty, and a pass is open exactly while the stage
    /// is not idle.
    pub closed spec fn wf(&self) -> bool {
        &&& self.workgroup_dims.0 > 0
        &&& self.workgroup_dims.1 > 0
        &&& self.workgroup_dims.2 > 0
        &&& (self.state is Idle) == (self.pass is None)
        &&& self.pass matches Some(pass) ==> crate::device::label_view(pass.label) == Some(
            "compute_pass"@,
        )
    }

    /// An idle stage over `dimensions` particles, simulated by workgroups of
    /// `workgroup_dims` invocations.
    pub fn new(dimensions: (u32, u32, u32), workgroup_dims: (u32, u32, u32)) -> (stage: Self)
        requires
            workgroup_dims.0 > 0,
            workgroup_dims.1 > 0,
            workgroup_dims.2 > 0,
        ensures
            stage.wf(),
            stage@ == (StageView {
                dimensions,
                workgroup_dims,
                state: StageState::Idle,
                commands: Seq::empty(),
            }),
    {
        SimulationStage { dimensions, workgroup_dims, state: StageState::Idle, pass: None }
    }

    /// Where the stage stands.
    pub fn state(&self) -> (state: StageState)
        ensures
            state == self@.state,
    {
        self.state
    }

    /// Opens the compute pass of a frame.
    pub fn begin(&mut self)
        requires
            old(self).wf(),
            old(self)@.state is Idle,
        ensures
            final(self).wf(),
            final(self)@ == (StageView { state: StageState::Recording, ..old(self)@ }),
    {
        self.pass = Some(ComputePass::begin(Some("compute_pass")));
        self.state = StageState::Recording;
    }

    /// Records one simulation step into the open pass: with the compute
    /// pipeline that `pipelines` has to keep under
    /// [`PipelineSelector::Compute`], the particle state `bind_group`, the
    /// clock `push_constants`, and as many workgroups as cover every
    /// particle.
    pub fn dispatch(
        &mut self,
        pipelines: &PipelineRegistry,
        bind_group: BindGroupId,
        push_constants: ComputePushConstants,
    )
        requires
            old(self).wf(),
            old(self)@.state is Recording,
            pipelines.wf(),
            pipelines@.dom().contains(PipelineKey::Compute),
            pipelines@[PipelineKey::Compute] is Compute,
        ensures
            final(self).wf(),
            final(self)@ == (StageView {
                state: StageState::Dispatched,
                commands: old(self)@.commands + step_commands(
                    bind_group,
                    push_constants,
                    grid_for(old(self)@.dimensions, old(self)@.workgroup_dims),
                ),
                ..old(self)@
            }),
    {
        let grid = dispatch_grid(self.dimensions, self.workgroup_dims);
        let mut pass = self.pass.take().unwrap();
        match pipelines.get(&PipelineSelector::Compute) {
            Pipeline::Compute(_) => {
                pass.set_pipeline(PipelineSelector::Compute);
            },
            _ => {},
        }
        pass.set_bind_group(0, bind_group);
        pass.set_push_constants(0, push_constants);
        pass.dispatch_workgroups(grid.0, grid.1, grid.2);
        assert(pass.commands@ =~= old(self)@.commands + step_commands(
            bind_group,
            push_constants,
            grid,
        ));
        self.pass = Some(pass);
        self.state = StageState::Dispatched;
    }

    /// Closes the pass and hands it over for submission to the queue.
    pub fn submit(&mut self) -> (pass: ComputePass)
        requires
            old(self).wf(),
            old(self)@.state is Dispatched,
        ensures
            final(self).wf(),
            final(self)@ == (StageView {
                state: StageState::Idle,
                commands: Seq::empty(),
                ..old(self)@
            }),
            crate::device::label_view(pass.label) == Some("compute_pass"@),
            pass.commands@ == old(self)@.commands,
    {
        let pass = self.pass.take().unwrap();
        self.state = StageState::Idle;
        pass
    }
}

} // verus!
