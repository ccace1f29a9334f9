use falling_sand::config::SimulationConfig;
use falling_sand::frames::{replay, FramePoll};
use falling_sand::pipeline::{
    CellNode, CellState, Dispatch, KernelVariant, PassCommands, PipelineStatus,
};

const STATUSES: [PipelineStatus; 3] =
    [PipelineStatus::Pending, PipelineStatus::Ready, PipelineStatus::Failed];

fn node_in(state: CellState) -> CellNode {
    let mut node = CellNode::default();
    match state {
        CellState::Loading => {}
        CellState::Init => node.update(PipelineStatus::Ready, PipelineStatus::Pending),
        CellState::Update => {
            node.update(PipelineStatus::Ready, PipelineStatus::Pending);
            node.update(PipelineStatus::Pending, PipelineStatus::Ready);
        }
    }
    assert_eq!(node.state(), state);
    node
}

fn rank(state: CellState) -> u32 {
    match state {
        CellState::Loading => 0,
        CellState::Init => 1,
        CellState::Update => 2,
    }
}

fn poll(init_status: PipelineStatus, update_status: PipelineStatus) -> FramePoll {
    FramePoll { init_status, update_status }
}

fn dispatch_of(kernel: KernelVariant) -> Option<Dispatch> {
    Some(Dispatch { kernel, workgroups: (160, 90, 1) })
}

#[test]
fn node_starts_in_loading() {
    assert_eq!(CellNode::default().state(), CellState::Loading);
    let config = SimulationConfig::new(64, 32, 4).unwrap();
    assert_eq!(CellNode::new(config).state(), CellState::Loading);
}

#[test]
fn node_keeps_its_config() {
    let config = SimulationConfig::new(64, 32, 4).unwrap();
    let mut node = CellNode::new(config);
    assert_eq!(node.config(), config);
    node.update(PipelineStatus::Ready, PipelineStatus::Ready);
    node.update(PipelineStatus::Ready, PipelineStatus::Ready);
    assert_eq!(node.config(), config);
    assert_eq!(CellNode::default().config(), SimulationConfig::default());
}

#[test]
fn node_awaits_the_kernel_of_its_next_step() {
    assert_eq!(node_in(CellState::Loading).awaited(), Some(KernelVariant::Init));
    assert_eq!(node_in(CellState::Init).awaited(), Some(KernelVariant::Update));
    assert_eq!(node_in(CellState::Update).awaited(), None);
}

#[test]
fn update_from_loading_follows_the_init_status() {
    for update_status in STATUSES {
        let mut node = node_in(CellState::Loading);
        node.update(PipelineStatus::Ready, update_status);
        assert_eq!(node.state(), CellState::Init);
        let mut node = node_in(CellState::Loading);
        node.update(PipelineStatus::Pending, update_status);
        assert_eq!(node.state(), CellState::Loading);
        let mut node = node_in(CellState::Loading);
        node.update(PipelineStatus::Failed, update_status);
        assert_eq!(node.state(), CellState::Loading);
    }
}

#[test]
fn update_from_init_follows_the_update_status() {
    for init_status in STATUSES {
        let mut node = node_in(CellState::Init);
        node.update(init_status, PipelineStatus::Ready);
        assert_eq!(node.state(), CellState::Update);
        let mut node = node_in(CellState::Init);
        node.update(init_status, PipelineStatus::Pending);
        assert_eq!(node.state(), CellState::Init);
        let mut node = node_in(CellState::Init);
        node.update(init_status, PipelineStatus::Failed);
        assert_eq!(node.state(), CellState::Init);
    }
}

#[test]
fn update_from_update_stays() {
    for init_status in STATUSES {
        for update_status in STATUSES {
            let mut node = node_in(CellState::Update);
            node.update(init_status, update_status);
            assert_eq!(node.state(), CellState::Update);
        }
    }
}

#[test]
fn update_moves_at_most_one_step_and_never_back() {
    for start in [CellState::Loading, CellState::Init, CellState::Update] {
        for init_status in STATUSES {
            for update_status in STATUSES {
                let mut node = node_in(start);
                node.update(init_status, update_status);
                let after = rank(node.state());
                assert!(rank(start) <= after && after <= rank(start) + 1);
            }
        }
    }
}

#[test]
fn run_in_loading_records_no_dispatch() {
    let pass = node_in(CellState::Loading).run();
    assert_eq!(pass, PassCommands { bind_group_index: 0, dispatch: None });
}

#[test]
fn run_in_init_dispatches_the_init_kernel() {
    let pass = node_in(CellState::Init).run();
    assert_eq!(
        pass,
        PassCommands { bind_group_index: 0, dispatch: dispatch_of(KernelVariant::Init) }
    );
}

#[test]
fn run_in_update_dispatches_the_update_kernel() {
    let pass = node_in(CellState::Update).run();
    assert_eq!(
        pass,
        PassCommands { bind_group_index: 0, dispatch: dispatch_of(KernelVariant::Update) }
    );
}

#[test]
fn run_does_not_move_the_node() {
    for state in [CellState::Loading, CellState::Init, CellState::Update] {
        let node = node_in(state);
        let first = node.run();
        let second = node.run();
        assert_eq!(first, second);
        assert_eq!(node.state(), state);
    }
}

#[test]
fn dispatch_counts_of_the_default_grid_are_160_90_1_for_both_kernels() {
    let init = node_in(CellState::Init).run().dispatch.unwrap();
    let update = node_in(CellState::Update).run().dispatch.unwrap();
    assert_eq!(init.workgroups, (160, 90, 1));
    assert_eq!(update.workgroups, (160, 90, 1));
}

#[test]
fn dispatch_counts_round_down_for_both_kernels() {
    let config = SimulationConfig::new(1287, 725, 8).unwrap();
    let mut node = CellNode::new(config);
    node.update(PipelineStatus::Ready, PipelineStatus::Pending);
    assert_eq!(node.run().dispatch.unwrap().workgroups, (160, 90, 1));
    node.update(PipelineStatus::Ready, PipelineStatus::Ready);
    assert_eq!(node.run().dispatch.unwrap().workgroups, (160, 90, 1));
    let config = SimulationConfig::new(100, 30, 16).unwrap();
    let mut node = CellNode::new(config);
    node.update(PipelineStatus::Ready, PipelineStatus::Ready);
    assert_eq!(
        node.run().dispatch,
        Some(Dispatch { kernel: KernelVariant::Init, workgroups: (6, 1, 1) })
    );
}

#[test]
fn init_never_ready_keeps_the_node_loading_with_empty_passes() {
    let mut node = CellNode::default();
    for frame in 0..200 {
        let update_status = STATUSES[frame % 3];
        node.update(PipelineStatus::Pending, update_status);
        assert_eq!(node.state(), CellState::Loading);
        assert_eq!(node.run().dispatch, None);
    }
}

#[test]
fn init_failed_keeps_the_node_loading() {
    let mut node = CellNode::default();
    for _ in 0..50 {
        node.update(PipelineStatus::Failed, PipelineStatus::Ready);
        assert_eq!(node.state(), CellState::Loading);
        assert_eq!(node.run().dispatch, None);
    }
}

#[test]
fn update_failed_keeps_the_node_in_init() {
    let mut node = node_in(CellState::Init);
    for _ in 0..50 {
        node.update(PipelineStatus::Ready, PipelineStatus::Failed);
        assert_eq!(node.state(), CellState::Init);
        assert_eq!(node.run().dispatch, dispatch_of(KernelVariant::Init));
    }
}

#[test]
fn both_ready_in_frame_five_takes_two_frames() {
    let mut node = CellNode::default();
    for _frame in 1..5 {
        node.update(PipelineStatus::Pending, PipelineStatus::Pending);
        assert_eq!(node.state(), CellState::Loading);
        assert_eq!(node.run().dispatch, None);
    }
    node.update(PipelineStatus::Ready, PipelineStatus::Ready);
    assert_eq!(node.state(), CellState::Init);
    assert_eq!(node.run().dispatch, dispatch_of(KernelVariant::Init));
    node.update(PipelineStatus::Ready, PipelineStatus::Ready);
    assert_eq!(node.state(), CellState::Update);
    assert_eq!(node.run().dispatch, dispatch_of(KernelVariant::Update));
    for _frame in 7..20 {
        node.update(PipelineStatus::Ready, PipelineStatus::Ready);
        assert_eq!(node.state(), CellState::Update);
        assert_eq!(node.run().dispatch, dispatch_of(KernelVariant::Update));
    }
}

#[test]
fn update_state_is_kept_whatever_the_registry_reports() {
    let mut node = node_in(CellState::Update);
    for frame in 0..90 {
        node.update(STATUSES[frame % 3], STATUSES[(frame / 3) % 3]);
        assert_eq!(node.state(), CellState::Update);
        assert_eq!(node.run().dispatch, dispatch_of(KernelVariant::Update));
    }
}

#[test]
fn replay_of_no_frames_records_nothing() {
    assert_eq!(replay(SimulationConfig::default(), &Vec::new()), Vec::new());
}

#[test]
fn replay_records_one_pass_per_frame() {
    let polls = vec![
        poll(PipelineStatus::Pending, PipelineStatus::Pending),
        poll(PipelineStatus::Pending, PipelineStatus::Ready),
        poll(PipelineStatus::Ready, PipelineStatus::Pending),
        poll(PipelineStatus::Ready, PipelineStatus::Pending),
        poll(PipelineStatus::Ready, PipelineStatus::Ready),
        poll(PipelineStatus::Pending, PipelineStatus::Pending),
    ];
    let passes = replay(SimulationConfig::default(), &polls);
    let dispatches: Vec<Option<Dispatch>> = passes.iter().map(|pass| pass.dispatch).collect();
    assert_eq!(
        dispatches,
        vec![
            None,
            None,
            dispatch_of(KernelVariant::Init),
            dispatch_of(KernelVariant::Init),
            dispatch_of(KernelVariant::Update),
            dispatch_of(KernelVariant::Update),
        ]
    );
    assert!(passes.iter().all(|pass| pass.bind_group_index == 0));
}

#[test]
fn replay_agrees_with_a_node_driven_by_hand() {
    let config = SimulationConfig::new(96, 40, 8).unwrap();
    let mut polls = Vec::new();
    for frame in 0..27usize {
        polls.push(poll(STATUSES[(frame / 9) % 3], STATUSES[(frame / 3) % 3]));
    }
    let passes = replay(config, &polls);
    let mut node = CellNode::new(config);
    for (frame, pass) in polls.iter().zip(passes.iter()) {
        node.update(frame.init_status, frame.update_status);
        assert_eq!(node.run(), *pass);
    }
}

#[test]
fn init_is_dispatched_once_when_update_is_ready_the_frame_after() {
    let mut polls = vec![poll(PipelineStatus::Pending, PipelineStatus::Pending); 3];
    polls.push(poll(PipelineStatus::Ready, PipelineStatus::Pending));
    polls.push(poll(PipelineStatus::Ready, PipelineStatus::Ready));
    polls.extend(vec![poll(PipelineStatus::Ready, PipelineStatus::Ready); 10]);
    let passes = replay(SimulationConfig::default(), &polls);
    let init_frames: Vec<usize> = (0..passes.len())
        .filter(|f| passes[*f].dispatch == dispatch_of(KernelVariant::Init))
        .collect();
    assert_eq!(init_frames, vec![3]);
}

#[test]
fn init_is_dispatched_in_every_frame_until_update_is_ready() {
    let polls = vec![
        poll(PipelineStatus::Ready, PipelineStatus::Pending),
        poll(PipelineStatus::Ready, PipelineStatus::Pending),
        poll(PipelineStatus::Ready, PipelineStatus::Failed),
        poll(PipelineStatus::Ready, PipelineStatus::Ready),
        poll(PipelineStatus::Ready, PipelineStatus::Ready),
    ];
    let passes = replay(SimulationConfig::default(), &polls);
    let init_frames: Vec<usize> = (0..passes.len())
        .filter(|f| passes[*f].dispatch == dispatch_of(KernelVariant::Init))
        .collect();
    assert_eq!(init_frames, vec![0, 1, 2]);
}

#[test]
fn states_of_a_run_never_fall_back_or_skip() {
    for seed in 0..81usize {
        let polls: Vec<FramePoll> = (0..4)
            .map(|f| {
                let digit = (seed / 9usize.pow(f as u32)) % 9;
                poll(STATUSES[digit / 3], STATUSES[digit % 3])
            })
            .collect();
        let mut node = CellNode::default();
        let mut before = rank(node.state());
        for frame in &polls {
            node.update(frame.init_status, frame.update_status);
            let after = rank(node.state());
            assert!(before <= after && after <= before + 1);
            before = after;
        }
    }
}
