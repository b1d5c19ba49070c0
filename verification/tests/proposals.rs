use varro::proposals::{ProposalAction, ProposalEvent, ProposalManager, ProposalTaskState, SkipReason};
use varro::rollup::{L2BlockRef, OutputResponse, SupportedOutputVersion, SyncStatus};

fn output(version: Vec<u8>, number: u64, finalized: u64, safe: u64) -> OutputResponse {
    OutputResponse {
        version,
        output_root: vec![0xab; 32],
        block_ref: L2BlockRef { number },
        sync_status: SyncStatus { finalized_l2: finalized, safe_l2: safe },
    }
}

/// Runs a task on the answers, as a driver would, and gives its last action.
fn run(allow: bool, next: u64, status: SyncStatus, out: OutputResponse) -> ProposalAction {
    let (mut state, mut action) = ProposalManager::start_proposal_task();
    let mut events = vec![
        ProposalEvent::Output(out),
        ProposalEvent::SyncStatus(status),
        ProposalEvent::NextBlockNumber(next),
    ];
    loop {
        match action {
            ProposalAction::Propose(_) | ProposalAction::Skip(_) => return action,
            _ => {},
        }
        let event = events.pop().unwrap();
        assert!(state.accepts(&event));
        let (s, a) = ProposalManager::proposal_task_step(allow, state, event);
        state = s;
        action = a;
    }
}

fn skip_reason(a: ProposalAction) -> Option<SkipReason> {
    match a {
        ProposalAction::Skip(r) => Some(r),
        _ => None,
    }
}

#[test]
fn new_manager_polls_every_five_seconds() {
    let t = ProposalManager::new().polling_interval();
    assert_eq!((t.secs(), t.subsec_nanos()), (5, 0));
}

#[test]
fn task_starts_by_asking_the_oracle() {
    let (state, action) = ProposalManager::start_proposal_task();
    assert!(matches!(state, ProposalTaskState::AwaitingNextBlockNumber));
    assert!(matches!(action, ProposalAction::FetchNextBlockNumber));
    assert!(!state.is_finished());
}

#[test]
fn task_asks_for_status_then_output() {
    let (s1, a1) = ProposalManager::proposal_task_step(
        false,
        ProposalTaskState::AwaitingNextBlockNumber,
        ProposalEvent::NextBlockNumber(100),
    );
    assert!(matches!(s1, ProposalTaskState::AwaitingSyncStatus { next_block_number: 100 }));
    assert!(matches!(a1, ProposalAction::FetchSyncStatus));
    let (s2, a2) = ProposalManager::proposal_task_step(
        false,
        s1,
        ProposalEvent::SyncStatus(SyncStatus { finalized_l2: 100, safe_l2: 120 }),
    );
    assert!(matches!(s2, ProposalTaskState::AwaitingOutput { next_block_number: 100 }));
    assert!(matches!(a2, ProposalAction::FetchOutputAtBlock(100)));
}

#[test]
fn valid_finalized_output_is_proposed() {
    let a = run(false, 100, SyncStatus { finalized_l2: 150, safe_l2: 160 }, output(vec![0; 32], 100, 150, 160));
    match a {
        ProposalAction::Propose(o) => {
            assert_eq!(o.block_ref.number, 100);
            assert_eq!(o.output_root, vec![0xab; 32]);
        },
        _ => panic!("expected a proposal"),
    }
}

#[test]
fn block_ahead_of_finalized_head_is_skipped() {
    let a = run(false, 100, SyncStatus { finalized_l2: 99, safe_l2: 200 }, output(vec![0; 32], 100, 99, 200));
    assert_eq!(skip_reason(a), Some(SkipReason::SubmissionIntervalNotElapsed));
}

#[test]
fn safe_head_counts_when_allowed() {
    let a = run(true, 100, SyncStatus { finalized_l2: 50, safe_l2: 100 }, output(vec![0; 32], 100, 50, 100));
    assert!(matches!(a, ProposalAction::Propose(_)));
    let b = run(true, 100, SyncStatus { finalized_l2: 50, safe_l2: 99 }, output(vec![0; 32], 100, 50, 100));
    assert_eq!(skip_reason(b), Some(SkipReason::SubmissionIntervalNotElapsed));
}

#[test]
fn unsupported_version_is_skipped() {
    let mut v = vec![0u8; 32];
    v[31] = 1;
    let a = run(false, 100, SyncStatus { finalized_l2: 150, safe_l2: 150 }, output(v, 100, 150, 150));
    assert_eq!(skip_reason(a), Some(SkipReason::UnsupportedOutputVersion));
    let short = run(false, 100, SyncStatus { finalized_l2: 150, safe_l2: 150 }, output(vec![0; 31], 100, 150, 150));
    assert_eq!(skip_reason(short), Some(SkipReason::UnsupportedOutputVersion));
}

#[test]
fn output_for_another_block_is_skipped() {
    let a = run(false, 100, SyncStatus { finalized_l2: 150, safe_l2: 150 }, output(vec![0; 32], 101, 150, 150));
    assert_eq!(skip_reason(a), Some(SkipReason::BlockNumberMismatch));
}

#[test]
fn output_neither_finalized_nor_safe_is_skipped() {
    // The output's own sync status says the block is only safe.
    let a = run(false, 100, SyncStatus { finalized_l2: 150, safe_l2: 150 }, output(vec![0; 32], 100, 90, 150));
    assert_eq!(skip_reason(a), Some(SkipReason::NotFinalizedOrSafe));
    // Allowed, a safe block is proposed.
    let b = run(true, 100, SyncStatus { finalized_l2: 150, safe_l2: 150 }, output(vec![0; 32], 100, 90, 150));
    assert!(matches!(b, ProposalAction::Propose(_)));
    // Allowed, but not even safe.
    let c = run(true, 100, SyncStatus { finalized_l2: 150, safe_l2: 150 }, output(vec![0; 32], 100, 90, 99));
    assert_eq!(skip_reason(c), Some(SkipReason::NotFinalizedOrSafe));
}

#[test]
fn version_check_comes_before_block_check() {
    assert_eq!(
        ProposalManager::check_output(false, 5, &output(vec![1], 6, 0, 0)),
        Some(SkipReason::UnsupportedOutputVersion)
    );
    assert_eq!(ProposalManager::check_output(false, 5, &output(vec![0; 32], 6, 0, 0)), Some(SkipReason::BlockNumberMismatch));
    assert_eq!(ProposalManager::check_output(false, 5, &output(vec![0; 32], 5, 5, 0)), None);
}

#[test]
fn supported_version_is_thirty_two_zero_bytes() {
    assert!(SupportedOutputVersion::V1.equals(&vec![0u8; 32]));
    assert!(!SupportedOutputVersion::V1.equals(&vec![0u8; 33]));
    assert!(!SupportedOutputVersion::V1.equals(&vec![]));
}

#[test]
fn finished_task_accepts_nothing() {
    let s = ProposalTaskState::Finished;
    assert!(s.is_finished());
    assert!(!s.accepts(&ProposalEvent::NextBlockNumber(1)));
    assert!(!s.accepts(&ProposalEvent::SyncStatus(SyncStatus { finalized_l2: 0, safe_l2: 0 })));
}
