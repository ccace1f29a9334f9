//! The pipeline registry's requests and handles, the resource binding, and
//! the render-graph node that polls the one and dispatches through the other.

use crate::config::SimulationConfig;
use vstd::prelude::*;

verus! {

/// One of the two compute kernels. Both come from the same source and use the
/// same binding layout; they differ in their entry point.
#[derive(Clone, Copy, Debug, PartialEq, Eq, Structural)]
pub enum KernelVariant {
    /// Seeds the grid.
    Init,
    /// Advances the grid by one step.
    Update,
}

impl KernelVariant {
    /// Name of the kernel's entry point in the kernel source.
    pub open spec fn spec_entry_point(&self) -> Seq<char> {
        match self {
            KernelVariant::Init => "init"@,
            KernelVariant::Update => "update"@,
        }
    }

    /// Label under which the kernel's pipeline shows up in GPU debugging
    /// tools.
    pub open spec fn spec_label(&self) -> Seq<char> {
        match self {
            KernelVariant::Init => "Falling Sand init pipeline"@,
            KernelVariant::Update => "Falling sand Update pipeline"@,
        }
    }

    /// Name of the kernel's entry point: `"init"` or `"update"`.
    pub fn entry_point(&self) -> (name: &'static str)
        ensures
            name@ == self.spec_entry_point(),
    {
        match self {
            KernelVariant::Init => "init",
            KernelVariant::Update => "update",
        }
    }

    /// Debug label of the kernel's pipeline.
    pub fn label(&self) -> (label: &'static str)
        ensures
            label@ == self.spec_label(),
    {
        match self {
            KernelVariant::Init => "Falling Sand init pipeline",
            KernelVariant::Update => "Falling sand Update pipeline",
        }
    }
}

/// What the registry reports of one compile request.
#[derive(Clone, Copy, Debug, PartialEq, Eq, Structural)]
pub enum PipelineStatus {
    /// Still compiling.
    Pending,
    /// Compiled; the pipeline can be bound.
    Ready,
    /// Compilation failed.
    Failed,
}

/// Shader stage that can see a binding.
#[derive(Clone, Copy, Debug, PartialEq, Eq, Structural)]
pub enum ShaderStage {
    Vertex,
    Fragment,
    Compute,
}

/// How a kernel may access a storage texture.
#[derive(Clone, Copy, Debug, PartialEq, Eq, Structural)]
pub enum StorageAccess {
    WriteOnly,
    ReadOnly,
    ReadWrite,
}

/// Format of a texel of the surface.
#[derive(Clone, Copy, Debug, PartialEq, Eq, Structural)]
pub enum TexelFormat {
    /// Four channels of eight bits, each read as a fraction of one.
    Rgba8Unorm,
}

/// Dimensionality of a texture view.
#[derive(Clone, Copy, Debug, PartialEq, Eq, Structural)]
pub enum ViewDimension {
    D1,
    D2,
    D3,
}

/// Layout of the one bind group the kernels use: a single storage texture.
#[derive(Clone, Copy, Debug, PartialEq, Eq, Structural)]
pub struct BindingLayout {
    /// Slot of the binding within its group.
    pub binding: u32,
    /// Stage that sees the binding.
    pub visibility: ShaderStage,
    /// Access the kernels have to the texture.
    pub access: StorageAccess,
    /// Texel format, that of the simulation surface.
    pub format: TexelFormat,
    /// Dimensionality of the bound view.
    pub dimension: ViewDimension,
}

impl BindingLayout {
    /// The layout both kernels are compiled against: slot 0 holds a
    /// two-dimensional `Rgba8Unorm` storage texture that the compute stage
    /// reads and writes.
    pub open spec fn spec_cell_texture() -> BindingLayout {
        BindingLayout {
            binding: 0,
            visibility: ShaderStage::Compute,
            access: StorageAccess::ReadWrite,
            format: TexelFormat::Rgba8Unorm,
            dimension: ViewDimension::D2,
        }
    }

    /// The layout both kernels are compiled against.
    #[verifier::when_used_as_spec(spec_cell_texture)]
    pub fn cell_texture() -> (layout: BindingLayout)
        ensures
            layout == Self::spec_cell_texture(),
    {
        BindingLayout {
            binding: 0,
            visibility: ShaderStage::Compute,
            access: StorageAccess::ReadWrite,
            format: TexelFormat::Rgba8Unorm,
            dimension: ViewDimension::D2,
        }
    }

    /// Debug label of the layout.
    pub fn label(&self) -> (label: &'static str)
        ensures
            label@ == "Cellular automata bind group layout"@,
    {
        "Cellular automata bind group layout"
    }
}

/// Index, among a pipeline's bind groups, of the group that holds the
/// surface: the only one.
pub const SURFACE_BIND_GROUP: u32 = 0;

/// A compile request for one kernel, as handed to the registry.
#[derive(Clone, Copy, Debug, PartialEq, Eq, Structural)]
pub struct PipelineRequest {
    /// The kernel to compile.
    pub kernel: KernelVariant,
    /// Layout of the pipeline's bind group at index [`SURFACE_BIND_GROUP`],
    /// its only one.
    pub layout: BindingLayout,
}

impl PipelineRequest {
    /// The request that compiles `kernel` against the surface layout.
    pub open spec fn spec_for_kernel(kernel: KernelVariant) -> PipelineRequest {
        PipelineRequest { kernel, layout: BindingLayout::spec_cell_texture() }
    }

    /// The request that compiles `kernel` against the surface layout.
    #[verifier::when_used_as_spec(spec_for_kernel)]
    pub fn for_kernel(kernel: KernelVariant) -> (request: PipelineRequest)
        ensures
            request == Self::spec_for_kernel(kernel),
    {
        PipelineRequest { kernel, layout: BindingLayout::cell_texture() }
    }

    /// Entry point the registry compiles.
    pub fn entry_point(&self) -> (name: &'static str)
        ensures
            name@ == self.kernel.spec_entry_point(),
    {
        self.kernel.entry_point()
    }

    /// Debug label of the resulting pipeline.
    pub fn label(&self) -> (label: &'static str)
        ensures
            label@ == self.kernel.spec_label(),
    {
        self.kernel.label()
    }
}

/// The registry's answer to the two compile requests: one handle per kernel,
/// and the layout object both pipelines were requested with.
///
/// `H` is the registry's handle type and `L` its layout object; both are
/// opaque here and only carried.
#[derive(Debug)]
pub struct CellPipeline<H, L> {
    init_pipeline: H,
    update_pipeline: H,
    texture_bind_group_layout: L,
}

impl<H, L> CellPipeline<H, L> {
    /// Handle of the pipeline that runs `kernel`.
    pub closed spec fn spec_pipeline(&self, kernel: KernelVariant) -> H {
        match kernel {
            KernelVariant::Init => self.init_pipeline,
            KernelVariant::Update => self.update_pipeline,
        }
    }

    /// The layout object of the surface bind group.
    pub closed spec fn spec_layout(&self) -> L {
        self.texture_bind_group_layout
    }

    /// Sets the registry up: has `create_layout` make the layout object for
    /// the surface layout, then has `queue` submit the `init` request and the
    /// `update` request, in that order and both with that layout object, and
    /// records what they return.
    ///
    /// `queue` only submits; neither compile is waited for.
    pub fn from_registry<FL, FQ>(create_layout: FL, queue: FQ) -> (pipeline: Self) where
        FL: FnOnce(BindingLayout) -> L,
        FQ: Fn(PipelineRequest, &L) -> H,

        requires
            call_requires(create_layout, (BindingLayout::spec_cell_texture(),)),
            forall|layout: L, kernel: KernelVariant|
                call_ensures(create_layout, (BindingLayout::spec_cell_texture(),), layout)
                    ==> call_requires(queue, (PipelineRequest::spec_for_kernel(kernel), &layout)),
        ensures
            call_ensures(
                create_layout,
                (BindingLayout::spec_cell_texture(),),
                pipeline.spec_layout(),
            ),
            call_ensures(
                queue,
                (PipelineRequest::spec_for_kernel(KernelVariant::Init), &pipeline.spec_layout()),
                pipeline.spec_pipeline(KernelVariant::Init),
            ),
            call_ensures(
                queue,
                (PipelineRequest::spec_for_kernel(KernelVariant::Update), &pipeline.spec_layout()),
                pipeline.spec_pipeline(KernelVariant::Update),
            ),
    {
        let texture_bind_group_layout = create_layout(BindingLayout::cell_texture());
        let init_pipeline = queue(
            PipelineRequest::for_kernel(KernelVariant::Init),
            &texture_bind_group_layout,
        );
        let update_pipeline = queue(
            PipelineRequest::for_kernel(KernelVariant::Update),
            &texture_bind_group_layout,
        );
        CellPipeline { init_pipeline, update_pipeline, texture_bind_group_layout }
    }

    /// Records the handles the registry returned for the `init` and the
    /// `update` request, and the layout object they were requested with.
    pub fn new(init_pipeline: H, update_pipeline: H, texture_bind_group_layout: L) -> (pipeline:
        Self)
        ensures
            pipeline.spec_pipeline(KernelVariant::Init) == init_pipeline,
            pipeline.spec_pipeline(KernelVariant::Update) == update_pipeline,
            pipeline.spec_layout() == texture_bind_group_layout,
    {
        CellPipeline { init_pipeline, update_pipeline, texture_bind_group_layout }
    }

    /// Handle of the pipeline that runs `kernel`.
    pub fn pipeline(&self, kernel: KernelVariant) -> (handle: &H)
        ensures
            *handle == self.spec_pipeline(kernel),
    {
        match kernel {
            KernelVariant::Init => &self.init_pipeline,
            KernelVariant::Update => &self.update_pipeline,
        }
    }

    /// The layout object of the surface bind group.
    pub fn layout(&self) -> (layout: &L)
        ensures
            *layout == self.spec_layout(),
    {
        &self.texture_bind_group_layout
    }
}

/// Identity of a texture view of the surface. Two views are the same view
/// exactly when their identities are equal.
#[derive(Clone, Copy, Debug, PartialEq, Eq, Structural)]
pub struct ViewId(pub u64);

/// Description of a bind group: the layout it follows and the surface view
/// that sits in the layout's only slot.
#[derive(Clone, Copy, Debug, PartialEq, Eq, Structural)]
pub struct ResourceBinding {
    /// Layout the bind group follows.
    pub layout: BindingLayout,
    /// View bound at slot `layout.binding`.
    pub view: ViewId,
}

/// Why no resource binding could be built.
#[derive(Clone, Copy, Debug, PartialEq, Eq, Structural)]
pub enum BindGroupError {
    /// The surface has no view yet.
    MissingView,
}

impl ResourceBinding {
    /// The binding of `view` under `layout`.
    pub open spec fn spec_build(layout: BindingLayout, view: ViewId) -> ResourceBinding {
        ResourceBinding { layout, view }
    }

    /// Describes the bind group that connects `layout` to the surface's
    /// current `view`. Fails with [`BindGroupError::MissingView`] exactly
    /// when there is no view.
    pub fn build(layout: BindingLayout, view: Option<ViewId>) -> (binding: Result<
        ResourceBinding,
        BindGroupError,
    >)
        ensures
            binding == match view {
                Some(v) => Ok::<ResourceBinding, BindGroupError>(Self::spec_build(layout, v)),
                None => Err::<ResourceBinding, BindGroupError>(BindGroupError::MissingView),
            },
    {
        match view {
            Some(view) => Ok(ResourceBinding { layout, view }),
            None => Err(BindGroupError::MissingView),
        }
    }
}

/// What a call of [`CellImageBindGroup::queue_bind_group`] did.
#[derive(Clone, Copy, Debug, PartialEq, Eq, Structural)]
pub enum BindGroupStep {
    /// The bind group in place was built from the current view and stays.
    Reused,
    /// A bind group was built from the current view and put in place.
    Rebuilt,
}

/// What bringing a bind group described by `binding` up to date with `view`
/// amounts to: an error without a view, nothing to do if the bind group was
/// built from `view` under `layout`, a rebuild otherwise, also when there is
/// no bind group yet.
pub open spec fn bind_group_step(
    binding: Option<ResourceBinding>,
    layout: BindingLayout,
    view: Option<ViewId>,
) -> Result<BindGroupStep, BindGroupError> {
    match view {
        None => Err(BindGroupError::MissingView),
        Some(v) => Ok(
            if binding == Some(ResourceBinding::spec_build(layout, v)) {
                BindGroupStep::Reused
            } else {
                BindGroupStep::Rebuilt
            },
        ),
    }
}

/// Description of the bind group in place after bringing one described by
/// `binding` up to date with `view`.
pub open spec fn binding_after(
    binding: Option<ResourceBinding>,
    layout: BindingLayout,
    view: Option<ViewId>,
) -> Option<ResourceBinding> {
    match view {
        None => binding,
        Some(v) => Some(ResourceBinding::spec_build(layout, v)),
    }
}

/// Re-binding with an unchanged view changes nothing. Once the bind group
/// has been brought up to date with `view`, bringing it up to date with the
/// same view again rebuilds nothing and leaves the same description in
/// place. What the node records does not depend on the bind group at all
/// (see [`frame_pass`]), so it is unaffected either way.
pub proof fn lemma_same_view_is_reused(
    binding: Option<ResourceBinding>,
    layout: BindingLayout,
    view: ViewId,
)
    ensures
        bind_group_step(binding_after(binding, layout, Some(view)), layout, Some(view)) == Ok::<
            BindGroupStep,
            BindGroupError,
        >(BindGroupStep::Reused),
        binding_after(binding_after(binding, layout, Some(view)), layout, Some(view))
            == binding_after(binding, layout, Some(view)),
        bind_group_step(binding, layout, Some(view)) == Ok::<BindGroupStep, BindGroupError>(
            BindGroupStep::Reused,
        ) ==> binding_after(binding, layout, Some(view)) == binding,
{
}

/// The bind group that connects the surface layout to the surface, kept from
/// frame to frame and rebuilt when the surface's view changes.
///
/// `B` is the engine's bind group object, opaque here and only carried.
#[derive(Debug)]
pub struct CellImageBindGroup<B> {
    layout: BindingLayout,
    current: Option<(ResourceBinding, B)>,
}

impl<B> CellImageBindGroup<B> {
    #[verifier::type_invariant]
    spec fn inv(self) -> bool {
        self.current matches Some(entry) ==> entry.0.layout == self.layout
    }

    /// Layout every bind group kept here follows.
    pub closed spec fn spec_layout(&self) -> BindingLayout {
        self.layout
    }

    /// Description of the bind group in place, if there is one.
    pub closed spec fn spec_binding(&self) -> Option<ResourceBinding> {
        match self.current {
            Some(entry) => Some(entry.0),
            None => None,
        }
    }

    /// The bind group in place, if there is one.
    pub closed spec fn spec_group(&self) -> Option<B> {
        match self.current {
            Some(entry) => Some(entry.1),
            None => None,
        }
    }

    /// Whether the bind group in place was built from `view`.
    pub open spec fn spec_is_current(&self, view: ViewId) -> bool {
        self.spec_binding() == Some(ResourceBinding::spec_build(self.spec_layout(), view))
    }

    /// What a value that exists at run time satisfies: a bind group is in
    /// place together with its description or not at all, and the
    /// description follows the layout.
    pub open spec fn valid(&self) -> bool {
        &&& self.spec_binding() is Some <==> self.spec_group() is Some
        &&& self.spec_binding() matches Some(binding) ==> binding.layout == self.spec_layout()
    }

    /// Starts with no bind group in place.
    pub fn new(layout: BindingLayout) -> (bind_group: Self)
        ensures
            bind_group.valid(),
            bind_group.spec_layout() == layout,
            bind_group.spec_binding() is None,
            bind_group.spec_group() is None,
    {
        CellImageBindGroup { layout, current: None }
    }

    /// Layout every bind group kept here follows.
    pub fn layout(&self) -> (layout: BindingLayout)
        ensures
            layout == self.spec_layout(),
    {
        self.layout
    }

    /// Description of the bind group in place, if there is one.
    pub fn binding(&self) -> (binding: Option<ResourceBinding>)
        ensures
            binding == self.spec_binding(),
            self.valid(),
    {
        proof {
            use_type_invariant(self);
        }
        match &self.current {
            Some(entry) => Some(entry.0),
            None => None,
        }
    }

    /// The bind group in place, if there is one.
    pub fn group(&self) -> (group: Option<&B>)
        ensures
            group is Some <==> self.spec_group() is Some,
            group matches Some(g) ==> self.spec_group() == Some(*g),
            self.valid(),
    {
        proof {
            use_type_invariant(self);
        }
        match &self.current {
            Some(entry) => Some(&entry.1),
            None => None,
        }
    }

    /// Whether the bind group in place was built from `view`, so that it can
    /// serve another frame.
    #[verifier::when_used_as_spec(spec_is_current)]
    pub fn is_current(&self, view: ViewId) -> (current: bool)
        ensures
            current == self.spec_is_current(view),
    {
        proof {
            use_type_invariant(self);
        }
        match &self.current {
            Some(entry) => entry.0.view.0 == view.0,
            None => false,
        }
    }

    /// Brings the bind group up to date with the surface's current `view`,
    /// once per frame before the node runs.
    ///
    /// - Without a view nothing can be bound: the call fails with
    ///   [`BindGroupError::MissingView`] and changes nothing.
    /// - If the bind group in place was built from `view`, it stays and
    ///   `create` is not called.
    /// - Otherwise `create` is called once, with the description of the
    ///   binding of `view`, and what it returns is put in place.
    pub fn queue_bind_group<F>(&mut self, view: Option<ViewId>, create: F) -> (step: Result<
        BindGroupStep,
        BindGroupError,
    >) where F: FnOnce(ResourceBinding) -> B
        requires
            view matches Some(v) ==> call_requires(
                create,
                (ResourceBinding::spec_build(old(self).spec_layout(), v),),
            ),
        ensures
            final(self).valid(),
            final(self).spec_layout() == old(self).spec_layout(),
            step == bind_group_step(old(self).spec_binding(), old(self).spec_layout(), view),
            final(self).spec_binding() == binding_after(
                old(self).spec_binding(),
                old(self).spec_layout(),
                view,
            ),
            step != Ok::<BindGroupStep, BindGroupError>(BindGroupStep::Rebuilt) ==> *final(self)
                == *old(self),
            step == Ok::<BindGroupStep, BindGroupError>(BindGroupStep::Rebuilt) ==> {
                &&& view matches Some(v)
                &&& final(self).spec_group() matches Some(group)
                &&& call_ensures(
                    create,
                    (ResourceBinding::spec_build(old(self).spec_layout(), v),),
                    group,
                )
            },
    {
        proof {
            use_type_invariant(&*self);
        }
        match view {
            None => Err(BindGroupError::MissingView),
            Some(v) => {
                if self.is_current(v) {
                    Ok(BindGroupStep::Reused)
                } else {
                    let binding = ResourceBinding { layout: self.layout, view: v };
                    let group = create(binding);
                    self.current = Some((binding, group));
                    Ok(BindGroupStep::Rebuilt)
                }
            },
        }
    }
}

/// Where the node stands. It only ever moves forward: from `Loading` to
/// `Init` to `Update`, one step at a time.
#[derive(Clone, Copy, Debug, PartialEq, Eq, Structural)]
pub enum CellState {
    /// The `init` kernel is not compiled yet; nothing is dispatched.
    Loading,
    /// The `init` kernel is dispatched.
    Init,
    /// The `update` kernel is dispatched, from now on.
    Update,
}

impl CellState {
    /// How far the state has advanced: 0 for `Loading`, 1 for `Init`, 2 for
    /// `Update`.
    pub open spec fn rank(self) -> nat {
        match self {
            CellState::Loading => 0,
            CellState::Init => 1,
            CellState::Update => 2,
        }
    }

    /// The state one step further on; `Update` is the last.
    pub open spec fn next(self) -> CellState {
        match self {
            CellState::Loading => CellState::Init,
            CellState::Init => CellState::Update,
            CellState::Update => CellState::Update,
        }
    }

    /// The kernel whose compile the node waits for in this state.
    pub open spec fn awaited(self) -> Option<KernelVariant> {
        match self {
            CellState::Loading => Some(KernelVariant::Init),
            CellState::Init => Some(KernelVariant::Update),
            CellState::Update => None,
        }
    }

    /// The kernel the node dispatches in this state.
    pub open spec fn kernel(self) -> Option<KernelVariant> {
        match self {
            CellState::Loading => None,
            CellState::Init => Some(KernelVariant::Init),
            CellState::Update => Some(KernelVariant::Update),
        }
    }
}

/// The state after a poll phase that starts in `state` and finds the two
/// compiles in the given statuses.
///
/// Only the status of the kernel the state waits for counts, and only
/// `Ready` moves the node, by one step. A compile that is pending or has
/// failed leaves it where it is.
pub open spec fn poll(
    state: CellState,
    init_status: PipelineStatus,
    update_status: PipelineStatus,
) -> CellState {
    match state {
        CellState::Loading => if init_status == PipelineStatus::Ready {
            CellState::Init
        } else {
            CellState::Loading
        },
        CellState::Init => if update_status == PipelineStatus::Ready {
            CellState::Update
        } else {
            CellState::Init
        },
        CellState::Update => CellState::Update,
    }
}

/// One dispatch of a kernel over the grid.
#[derive(Clone, Copy, Debug, PartialEq, Eq)]
pub struct Dispatch {
    /// Kernel whose pipeline is bound for the dispatch.
    pub kernel: KernelVariant,
    /// Workgroup counts along x, y and z.
    pub workgroups: (u32, u32, u32),
}

/// What the node records into the compute pass of one frame: the surface
/// bind group is set at `bind_group_index`, then at most one kernel is bound
/// and dispatched.
#[derive(Clone, Copy, Debug, PartialEq, Eq)]
pub struct PassCommands {
    /// Index at which the surface bind group is set.
    pub bind_group_index: u32,
    /// The frame's dispatch, if it has one.
    pub dispatch: Option<Dispatch>,
}

/// The commands of a frame whose execution phase finds the node in `state`:
/// none but the bind group in `Loading`, else one dispatch of the state's
/// kernel over the whole workgroups of the grid.
pub open spec fn frame_pass(state: CellState, config: SimulationConfig) -> PassCommands {
    PassCommands {
        bind_group_index: SURFACE_BIND_GROUP,
        dispatch: match state.kernel() {
            None => None,
            Some(kernel) => Some(Dispatch { kernel, workgroups: config.spec_workgroups() }),
        },
    }
}

/// The render-graph node. Each frame the graph first lets it poll
/// ([`CellNode::update`]) and then lets it record ([`CellNode::run`]).
#[derive(Debug)]
pub struct CellNode {
    state: CellState,
    config: SimulationConfig,
}

impl CellNode {
    /// State the node is in.
    pub closed spec fn spec_state(&self) -> CellState {
        self.state
    }

    /// Configuration the node was made with.
    pub closed spec fn spec_config(&self) -> SimulationConfig {
        self.config
    }

    /// A node for the grid of `config`, in state `Loading`.
    pub fn new(config: SimulationConfig) -> (node: Self)
        ensures
            node.spec_state() == CellState::Loading,
            node.spec_config() == config,
    {
        CellNode { state: CellState::Loading, config }
    }

    /// State the node is in.
    #[verifier::when_used_as_spec(spec_state)]
    pub fn state(&self) -> (state: CellState)
        ensures
            state == self.spec_state(),
    {
        self.state
    }

    /// Configuration the node was made with.
    #[verifier::when_used_as_spec(spec_config)]
    pub fn config(&self) -> (config: SimulationConfig)
        ensures
            config == self.spec_config(),
            config.valid(),
    {
        proof {
            use_type_invariant(&self.config);
        }
        self.config
    }

    /// The kernel whose status the next poll phase depends on, if any:
    /// `init` while loading, `update` while initialising, none afterwards.
    pub fn awaited(&self) -> (kernel: Option<KernelVariant>)
        ensures
            kernel == self.spec_state().awaited(),
    {
        match self.state {
            CellState::Loading => Some(KernelVariant::Init),
            CellState::Init => Some(KernelVariant::Update),
            CellState::Update => None,
        }
    }

    /// Poll phase of a frame: given what the registry reports of the two
    /// compiles, moves the node at most one step forward.
    pub fn update(&mut self, init_status: PipelineStatus, update_status: PipelineStatus)
        ensures
            final(self).spec_state() == poll(old(self).spec_state(), init_status, update_status),
            final(self).spec_config() == old(self).spec_config(),
    {
        match self.state {
            CellState::Loading => {
                if let PipelineStatus::Ready = init_status {
                    self.state = CellState::Init;
                }
            },
            CellState::Init => {
                if let PipelineStatus::Ready = update_status {
                    self.state = CellState::Update;
                }
            },
            CellState::Update => {},
        }
    }

    /// Execution phase of a frame: the commands to record into the frame's
    /// compute pass.
    ///
    /// The surface bind group is always set. While loading nothing else is
    /// recorded; otherwise the state's kernel is dispatched once, with
    /// `(width / workgroup_size, height / workgroup_size, 1)` workgroups.
    pub fn run(&self) -> (pass: PassCommands)
        ensures
            pass == frame_pass(self.spec_state(), self.spec_config()),
    {
        let dispatch = match self.state {
            CellState::Loading => None,
            CellState::Init => Some(
                Dispatch { kernel: KernelVariant::Init, workgroups: self.config.workgroups() },
            ),
            CellState::Update => Some(
                Dispatch { kernel: KernelVariant::Update, workgroups: self.config.workgroups() },
            ),
        };
        PassCommands { bind_group_index: SURFACE_BIND_GROUP, dispatch }
    }
}

impl Default for CellNode {
    /// A node for the default grid, in state `Loading`.
    fn default() -> (node: Self)
        ensures
            node.spec_state() == CellState::Loading,
            node.spec_config().spec_width() == crate::SIMULATION_SIZE.0,
            node.spec_config().spec_height() == crate::SIMULATION_SIZE.1,
            node.spec_config().spec_workgroup_size() == crate::WORKGROUP_SIZE,
    {
        CellNode { state: CellState::Loading, config: SimulationConfig::default() }
    }
}

} // verus!
