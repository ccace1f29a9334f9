//! A run of the node, frame by frame, and what holds of every run.
//!
//! Frames are strictly sequential, and within a frame the poll phase comes
//! before the execution phase. A run is therefore fixed by what the registry
//! reports in each poll phase.

use crate::config::SimulationConfig;
use crate::pipeline::{
    frame_pass, poll, CellNode, CellState, Dispatch, KernelVariant, PassCommands, PipelineStatus,
};
use vstd::prelude::*;

verus! {

/// What the registry reports in the poll phase of one frame.
#[derive(Clone, Copy, Debug, PartialEq, Eq, Structural)]
pub struct FramePoll {
    /// Status of the `init` compile.
    pub init_status: PipelineStatus,
    /// Status of the `update` compile.
    pub update_status: PipelineStatus,
}

/// State of a node that started in `Loading`, after the poll phases of the
/// first `frames` frames of `polls`.
pub open spec fn state_after(polls: Seq<FramePoll>, frames: nat) -> CellState
    decreases frames,
{
    if frames == 0 {
        CellState::Loading
    } else {
        let frame = polls[frames - 1];
        poll(state_after(polls, (frames - 1) as nat), frame.init_status, frame.update_status)
    }
}

/// State in which frame `f`, counted from 0, executes: the state after the
/// frame's own poll phase.
pub open spec fn state_in_frame(polls: Seq<FramePoll>, f: int) -> CellState {
    state_after(polls, (f + 1) as nat)
}

/// What frame `f` records into its compute pass.
pub open spec fn recorded(polls: Seq<FramePoll>, config: SimulationConfig, f: int) -> PassCommands {
    frame_pass(state_in_frame(polls, f), config)
}

/// Whether `pass` dispatches `kernel`.
pub open spec fn dispatches(pass: PassCommands, kernel: KernelVariant) -> bool {
    pass.dispatch matches Some(dispatch) && dispatch.kernel == kernel
}

/// Whether the `init` compile is reported ready in frame `f`.
pub open spec fn init_ready(polls: Seq<FramePoll>, f: int) -> bool {
    polls[f].init_status == PipelineStatus::Ready
}

/// Whether the `update` compile is reported ready in frame `f`.
pub open spec fn update_ready(polls: Seq<FramePoll>, f: int) -> bool {
    polls[f].update_status == PipelineStatus::Ready
}

/// Runs a fresh node for the grid of `config` through the frames of `polls`,
/// polling and then recording in each, and returns what each frame recorded.
pub fn replay(config: SimulationConfig, polls: &Vec<FramePoll>) -> (passes: Vec<PassCommands>)
    ensures
        passes@.len() == polls@.len(),
        forall|f: int| 0 <= f < polls@.len() ==> passes@[f] == recorded(polls@, config, f),
{
    let mut node = CellNode::new(config);
    let mut passes: Vec<PassCommands> = Vec::new();
    let mut f: usize = 0;
    while f < polls.len()
        invariant
            f <= polls@.len(),
            passes@.len() == f,
            node.spec_config() == config,
            node.spec_state() == state_after(polls@, f as nat),
            forall|g: int| 0 <= g < f ==> passes@[g] == recorded(polls@, config, g),
        decreases polls@.len() - f,
    {
        let frame = polls[f];
        node.update(frame.init_status, frame.update_status);
        passes.push(node.run());
        f = f + 1;
    }
    passes
}

/// A frame that executes in `Loading` records no dispatch.
pub proof fn lemma_loading_records_no_dispatch(
    polls: Seq<FramePoll>,
    config: SimulationConfig,
    f: int,
)
    requires
        0 <= f < polls.len(),
        state_in_frame(polls, f) == CellState::Loading,
    ensures
        recorded(polls, config, f).dispatch is None,
{
}

/// From one poll phase to the next the node stays where it is or moves one
/// step forward: it never falls back and never skips a state. Since it starts
/// in `Loading`, this holds of the first frame too.
pub proof fn lemma_state_moves_one_step(polls: Seq<FramePoll>, frames: nat)
    requires
        frames < polls.len(),
    ensures
        state_after(polls, frames + 1) == state_after(polls, frames) || state_after(
            polls,
            frames + 1,
        ) == state_after(polls, frames).next(),
        state_after(polls, frames).rank() <= state_after(polls, frames + 1).rank()
            <= state_after(polls, frames).rank() + 1,
{
}

/// The node is never less advanced in a later frame than in an earlier one.
pub proof fn lemma_state_never_falls_back(polls: Seq<FramePoll>, earlier: nat, later: nat)
    requires
        earlier <= later <= polls.len(),
    ensures
        state_after(polls, earlier).rank() <= state_after(polls, later).rank(),
    decreases later,
{
    if earlier < later {
        lemma_state_never_falls_back(polls, earlier, (later - 1) as nat);
    }
}

/// Once a frame executes in `Update`, so does every later frame, and each of
/// them dispatches the `update` kernel over the whole workgroups of the grid.
pub proof fn lemma_update_is_steady(
    polls: Seq<FramePoll>,
    config: SimulationConfig,
    f: int,
    g: int,
)
    requires
        0 <= f <= g < polls.len(),
        state_in_frame(polls, f) == CellState::Update,
    ensures
        state_in_frame(polls, g) == CellState::Update,
        recorded(polls, config, g).dispatch == Some(
            Dispatch { kernel: KernelVariant::Update, workgroups: config.spec_workgroups() },
        ),
{
    lemma_state_never_falls_back(polls, (f + 1) as nat, (g + 1) as nat);
}

/// While the `init` compile is not reported ready, be it pending or failed,
/// the node stays in `Loading`.
pub proof fn lemma_stalls_in_loading(polls: Seq<FramePoll>, frames: nat)
    requires
        frames <= polls.len(),
        forall|k: int| 0 <= k < frames ==> !init_ready(polls, k),
    ensures
        state_after(polls, frames) == CellState::Loading,
    decreases frames,
{
    if frames > 0 {
        lemma_stalls_in_loading(polls, (frames - 1) as nat);
        assert(!init_ready(polls, frames - 1));
    }
}

/// From a frame that executes in `Init`, while the `update` compile is not
/// reported ready, the node stays in `Init`.
pub proof fn lemma_stalls_in_init(polls: Seq<FramePoll>, f: int, g: int)
    requires
        0 <= f <= g < polls.len(),
        state_in_frame(polls, f) == CellState::Init,
        forall|k: int| f < k <= g ==> !update_ready(polls, k),
    ensures
        state_in_frame(polls, g) == CellState::Init,
    decreases g - f,
{
    if f < g {
        lemma_stalls_in_init(polls, f, g - 1);
        assert(!update_ready(polls, g));
    }
}

/// Where the node stands once the `init` compile has been reported ready. If
/// `first` is the first frame in which it is, the frames before `first`
/// execute in `Loading`, and a frame from `first` on executes in `Init` as
/// long as no frame after `first` has seen the `update` compile ready, and in
/// `Update` afterwards.
pub proof fn lemma_state_since_init_ready(polls: Seq<FramePoll>, first: int, f: int)
    requires
        0 <= first < polls.len(),
        0 <= f < polls.len(),
        forall|k: int| 0 <= k < first ==> !init_ready(polls, k),
        init_ready(polls, first),
    ensures
        state_in_frame(polls, f) == if f < first {
            CellState::Loading
        } else if forall|k: int| first < k <= f ==> !update_ready(polls, k) {
            CellState::Init
        } else {
            CellState::Update
        },
    decreases f,
{
    if f < first {
        lemma_stalls_in_loading(polls, (f + 1) as nat);
    } else if f == first {
        lemma_stalls_in_loading(polls, first as nat);
    } else {
        lemma_state_since_init_ready(polls, first, f - 1);
        if forall|k: int| first < k <= f - 1 ==> !update_ready(polls, k) {
            assert(state_in_frame(polls, f - 1) == CellState::Init);
            if !update_ready(polls, f) {
                assert forall|k: int| first < k <= f implies !update_ready(polls, k) by {
                    if k < f {
                        assert(first < k <= f - 1);
                    }
                }
            }
        } else {
            let k = choose|k: int| first < k <= f - 1 && update_ready(polls, k);
            assert(first < k <= f && update_ready(polls, k));
            assert(state_in_frame(polls, f - 1) == CellState::Update);
        }
    }
}

/// The frames that dispatch the `init` kernel. If `first` is the first frame
/// in which the `init` compile is reported ready, they are the frames from
/// `first` on up to, and without, the first later frame in which the `update`
/// compile is reported ready.
pub proof fn lemma_init_dispatched_until_update_ready(
    polls: Seq<FramePoll>,
    config: SimulationConfig,
    first: int,
    f: int,
)
    requires
        0 <= first < polls.len(),
        0 <= f < polls.len(),
        forall|k: int| 0 <= k < first ==> !init_ready(polls, k),
        init_ready(polls, first),
    ensures
        dispatches(recorded(polls, config, f), KernelVariant::Init) <==> (first <= f && forall|
            k: int,
        |
            first < k <= f ==> !update_ready(polls, k)),
{
    lemma_state_since_init_ready(polls, first, f);
}

/// The `init` kernel is dispatched in exactly one frame, the first in which
/// its compile is reported ready, provided that frame is part of the run and
/// the `update` compile is reported ready in the frame after it.
pub proof fn lemma_init_dispatched_in_one_frame(
    polls: Seq<FramePoll>,
    config: SimulationConfig,
    first: int,
)
    requires
        0 <= first < polls.len(),
        forall|k: int| 0 <= k < first ==> !init_ready(polls, k),
        init_ready(polls, first),
        first + 1 < polls.len() ==> update_ready(polls, first + 1),
    ensures
        forall|f: int|
            0 <= f < polls.len() ==> (#[trigger] dispatches(
                recorded(polls, config, f),
                KernelVariant::Init,
            ) <==> f == first),
{
    assert forall|f: int| 0 <= f < polls.len() implies (#[trigger] dispatches(
        recorded(polls, config, f),
        KernelVariant::Init,
    ) <==> f == first) by {
        lemma_init_dispatched_until_update_ready(polls, config, first, f);
        if f > first {
            assert(first < first + 1 <= f && update_ready(polls, first + 1));
        }
    }
}

/// The two transitions never fall into one frame: a frame that follows one
/// still in `Loading` does not execute in `Update`, whatever is ready.
pub proof fn lemma_init_precedes_update(polls: Seq<FramePoll>, frames: nat)
    requires
        frames < polls.len(),
        state_after(polls, frames) == CellState::Loading,
    ensures
        state_after(polls, frames + 1) != CellState::Update,
        init_ready(polls, frames as int) ==> state_after(polls, frames + 1) == CellState::Init,
{
}

/// Every dispatch, of either kernel, has the workgroup counts
/// `(width / workgroup_size, height / workgroup_size, 1)`, the divisions
/// rounding down.
pub proof fn lemma_dispatch_counts(state: CellState, config: SimulationConfig)
    requires
        config.valid(),
        state != CellState::Loading,
    ensures
        frame_pass(state, config).dispatch matches Some(dispatch) && {
            &&& Some(dispatch.kernel) == state.kernel()
            &&& dispatch.workgroups.0 == config.spec_width() as int
                / config.spec_workgroup_size() as int
            &&& dispatch.workgroups.1 == config.spec_height() as int
                / config.spec_workgroup_size() as int
            &&& dispatch.workgroups.2 == 1
        },
{
}

/// The workgroups of a dispatch tile the grid from its origin and leave out
/// less than one workgroup along each dimension; they reach every cell
/// exactly when the workgroup size divides both dimensions.
pub proof fn lemma_workgroups_cover(config: SimulationConfig)
    requires
        config.valid(),
    ensures
        ({
            let (x, y, z) = config.spec_workgroups();
            let size = config.spec_workgroup_size();
            &&& x * size <= config.spec_width() < x * size + size
            &&& y * size <= config.spec_height() < y * size + size
            &&& config.spec_covers_grid() <==> x * size == config.spec_width() && y * size
                == config.spec_height()
        }),
{
    let size = config.spec_workgroup_size() as int;
    let width = config.spec_width() as int;
    let height = config.spec_height() as int;
    assert(width == size * (width / size) + width % size && 0 <= width % size < size
        && 0 <= width / size <= width) by (nonlinear_arith)
        requires
            size > 0,
            width >= 0,
    ;
    assert(height == size * (height / size) + height % size && 0 <= height % size < size
        && 0 <= height / size <= height) by (nonlinear_arith)
        requires
            size > 0,
            height >= 0,
    ;
    assert((width / size) * size == size * (width / size)) by (nonlinear_arith);
    assert((height / size) * size == size * (height / size)) by (nonlinear_arith);
}

} // verus!
