//! The decisions of a proposal task: which output, if any, it proposes.
//!
//! A proposal task asks the output oracle for the next block number to
//! propose, asks the rollup node for its sync status, asks it for the output
//! at that block, and proposes the output only if it is valid. The queries
//! are made by the caller; this module decides what to do with each answer.

use vstd::prelude::*;
use crate::client::{block_number_for, Varro};
use crate::rollup::{OutputResponse, SupportedOutputVersion, SyncStatus};
use crate::time::TimeSpan;

verus! {

/// Queries for proposals on a periodic basis.
#[derive(Debug)]
pub struct ProposalManager {
    /// The interval at which to query for new proposals.
    polling_interval: TimeSpan,
}

/// Where a proposal task stands.
#[derive(Debug)]
pub enum ProposalTaskState {
    /// Waiting for the next block number that the output oracle expects.
    AwaitingNextBlockNumber,
    /// Waiting for the rollup node's sync status.
    AwaitingSyncStatus { next_block_number: u64 },
    /// Waiting for the rollup node's output at the next block number.
    AwaitingOutput { next_block_number: u64 },
    /// The task has proposed an output or skipped.
    Finished,
}

/// An answer to one of the task's queries.
#[derive(Debug)]
pub enum ProposalEvent {
    /// The next block number that the output oracle expects.
    NextBlockNumber(u64),
    /// The rollup node's sync status.
    SyncStatus(SyncStatus),
    /// The rollup node's output at the requested block.
    Output(OutputResponse),
}

/// Why a proposal task ends without a proposal.
#[derive(Debug, Clone, Copy, PartialEq, Eq, Structural)]
pub enum SkipReason {
    /// The block to propose is ahead of the usable L2 head.
    SubmissionIntervalNotElapsed,
    /// The output has a version that is not supported.
    UnsupportedOutputVersion,
    /// The output is for another block than the one requested.
    BlockNumberMismatch,
    /// The output's block is neither finalized nor, where allowed, safe.
    NotFinalizedOrSafe,
}

/// What a proposal task does next.
#[derive(Debug)]
pub enum ProposalAction {
    /// Ask the output oracle for the next block number.
    FetchNextBlockNumber,
    /// Ask the rollup node for its sync status.
    FetchSyncStatus,
    /// Ask the rollup node for its output at the given block.
    FetchOutputAtBlock(u64),
    /// Propose the output.
    Propose(OutputResponse),
    /// End without a proposal.
    Skip(SkipReason),
}

/// Whether a task in `state` takes `event` as its next answer.
pub open spec fn accepts(state: ProposalTaskState, event: ProposalEvent) -> bool {
    match (state, event) {
        (ProposalTaskState::AwaitingNextBlockNumber, ProposalEvent::NextBlockNumber(_)) => true,
        (ProposalTaskState::AwaitingSyncStatus { .. }, ProposalEvent::SyncStatus(_)) => true,
        (ProposalTaskState::AwaitingOutput { .. }, ProposalEvent::Output(_)) => true,
        _ => false,
    }
}

/// Why an output is not proposed for `next_block_number`, or `None` where it is.
/// The checks are made in this order: version, block number, finality.
pub open spec fn output_rejection(
    allow_non_finalized: bool,
    next_block_number: u64,
    output: OutputResponse,
) -> Option<SkipReason> {
    if output.version@ != SupportedOutputVersion::V1.bytes() {
        Some(SkipReason::UnsupportedOutputVersion)
    } else if output.block_ref.number != next_block_number {
        Some(SkipReason::BlockNumberMismatch)
    } else if !(output.block_ref.number <= output.sync_status.finalized_l2 || (allow_non_finalized
        && output.block_ref.number <= output.sync_status.safe_l2)) {
        Some(SkipReason::NotFinalizedOrSafe)
    } else {
        None
    }
}

/// The next state and action of a task in `state` that gets `event`.
pub open spec fn task_step(
    allow_non_finalized: bool,
    state: ProposalTaskState,
    event: ProposalEvent,
) -> (ProposalTaskState, ProposalAction) {
    match (state, event) {
        (ProposalTaskState::AwaitingNextBlockNumber, ProposalEvent::NextBlockNumber(n)) => (
            ProposalTaskState::AwaitingSyncStatus { next_block_number: n },
            ProposalAction::FetchSyncStatus,
        ),
        (
            ProposalTaskState::AwaitingSyncStatus { next_block_number: n },
            ProposalEvent::SyncStatus(s),
        ) => if block_number_for(allow_non_finalized, s) < n {
            (
                ProposalTaskState::Finished,
                ProposalAction::Skip(SkipReason::SubmissionIntervalNotElapsed),
            )
        } else {
            (
                ProposalTaskState::AwaitingOutput { next_block_number: n },
                ProposalAction::FetchOutputAtBlock(n),
            )
        },
        (ProposalTaskState::AwaitingOutput { next_block_number: n }, ProposalEvent::Output(o)) => {
            match output_rejection(allow_non_finalized, n, o) {
                Some(reason) => (ProposalTaskState::Finished, ProposalAction::Skip(reason)),
                None => (ProposalTaskState::Finished, ProposalAction::Propose(o)),
            }
        },
        _ => (state, ProposalAction::FetchNextBlockNumber),
    }
}

} // verus!

verus! {

/// The action of a task that has had the answers `n`, `s` and, where it asks
/// for one, `o`: the proposal it makes or the reason it skips.
pub open spec fn task_outcome(
    allow_non_finalized: bool,
    n: u64,
    s: SyncStatus,
    o: OutputResponse,
) -> ProposalAction {
    let (state1, _) = task_step(
        allow_non_finalized,
        ProposalTaskState::AwaitingNextBlockNumber,
        ProposalEvent::NextBlockNumber(n),
    );
    let (state2, action2) = task_step(allow_non_finalized, state1, ProposalEvent::SyncStatus(s));
    if action2 is Skip {
        action2
    } else {
        task_step(allow_non_finalized, state2, ProposalEvent::Output(o)).1
    }
}

impl ProposalTaskState {
    /// Whether the task takes `event` as its next answer.
    pub fn accepts(&self, event: &ProposalEvent) -> (b: bool)
        ensures
            b == accepts(*self, *event),
    {
        match (self, event) {
            (ProposalTaskState::AwaitingNextBlockNumber, ProposalEvent::NextBlockNumber(_)) => true,
            (ProposalTaskState::AwaitingSyncStatus { .. }, ProposalEvent::SyncStatus(_)) => true,
            (ProposalTaskState::AwaitingOutput { .. }, ProposalEvent::Output(_)) => true,
            _ => false,
        }
    }

    /// Whether the task has ended.
    pub fn is_finished(&self) -> (b: bool)
        ensures
            b == (*self is Finished),
    {
        match self {
            ProposalTaskState::Finished => true,
            _ => false,
        }
    }
}

impl ProposalManager {
    /// Constructs a new [ProposalManager] that polls every five seconds.
    pub fn new() -> (m: Self)
        ensures
            m.polling_interval_spec().secs_spec() == 5,
            m.polling_interval_spec().nanos_spec() == 0,
    {
        Self { polling_interval: TimeSpan::from_secs(5) }
    }

    /// The polling interval.
    pub closed spec fn polling_interval_spec(&self) -> TimeSpan {
        self.polling_interval
    }

    /// The interval at which to query for new proposals.
    pub fn polling_interval(&self) -> (t: TimeSpan)
        ensures
            t == self.polling_interval_spec(),
    {
        self.polling_interval
    }

    /// The first state and action of a proposal task: it asks the output
    /// oracle for the next block number.
    pub fn start_proposal_task() -> (r: (ProposalTaskState, ProposalAction))
        ensures
            r.0 is AwaitingNextBlockNumber,
            r.1 is FetchNextBlockNumber,
    {
        (ProposalTaskState::AwaitingNextBlockNumber, ProposalAction::FetchNextBlockNumber)
    }

    /// The next state and action of a proposal task in `state` that gets
    /// `event`, the answer to the query it made last.
    ///
    /// A task skips when the usable L2 head (see [Varro::get_block_number]) is
    /// behind the next block number; otherwise it asks for the output at the
    /// next block number, and proposes it only if its version is supported,
    /// it is for that block, and its block is finalized or, where
    /// `allow_non_finalized`, safe.
    pub fn proposal_task_step(
        allow_non_finalized: bool,
        state: ProposalTaskState,
        event: ProposalEvent,
    ) -> (r: (ProposalTaskState, ProposalAction))
        requires
            accepts(state, event),
        ensures
            r == task_step(allow_non_finalized, state, event),
    {
        match state {
            ProposalTaskState::AwaitingNextBlockNumber => match event {
                ProposalEvent::NextBlockNumber(n) => (
                    ProposalTaskState::AwaitingSyncStatus { next_block_number: n },
                    ProposalAction::FetchSyncStatus,
                ),
                _ => (state, ProposalAction::FetchNextBlockNumber),
            },
            ProposalTaskState::AwaitingSyncStatus { next_block_number } => match event {
                ProposalEvent::SyncStatus(sync_status) => {
                    let block_number: u64 = Varro::get_block_number(allow_non_finalized, sync_status);
                    // No proposal for a block ahead of the usable L2 head.
                    if block_number < next_block_number {
                        (
                            ProposalTaskState::Finished,
                            ProposalAction::Skip(SkipReason::SubmissionIntervalNotElapsed),
                        )
                    } else {
                        (
                            ProposalTaskState::AwaitingOutput { next_block_number },
                            ProposalAction::FetchOutputAtBlock(next_block_number),
                        )
                    }
                },
                _ => (state, ProposalAction::FetchNextBlockNumber),
            },
            ProposalTaskState::AwaitingOutput { next_block_number } => match event {
                ProposalEvent::Output(output) => {
                    let reason = Self::check_output(allow_non_finalized, next_block_number, &output);
                    match reason {
                        Some(reason) => (ProposalTaskState::Finished, ProposalAction::Skip(reason)),
                        None => (ProposalTaskState::Finished, ProposalAction::Propose(output)),
                    }
                },
                _ => (state, ProposalAction::FetchNextBlockNumber),
            },
            ProposalTaskState::Finished => (state, ProposalAction::FetchNextBlockNumber),
        }
    }

    /// Why `output` is not proposed for `next_block_number`, or `None` where it is.
    pub fn check_output(
        allow_non_finalized: bool,
        next_block_number: u64,
        output: &OutputResponse,
    ) -> (r: Option<SkipReason>)
        ensures
            r == output_rejection(allow_non_finalized, next_block_number, *output),
    {
        // Validate the output version.
        if !SupportedOutputVersion::V1.equals(&output.version) {
            return Some(SkipReason::UnsupportedOutputVersion);
        }
        // Validate that the block number is correct.
        if output.block_ref.number != next_block_number {
            return Some(SkipReason::BlockNumberMismatch);
        }
        // Only allow proposals for finalized blocks and safe, if allowed.
        let is_finalized = output.block_ref.number <= output.sync_status.finalized_l2;
        let is_safe_and_accepted = allow_non_finalized && output.block_ref.number
            <= output.sync_status.safe_l2;
        if !is_finalized && !is_safe_and_accepted {
            return Some(SkipReason::NotFinalizedOrSafe);
        }
        None
    }
}

} // verus!

verus! {

/// A proposal task proposes exactly when the next block number is not ahead of
/// the usable L2 head and the output passes every check; what it proposes is
/// the output that the rollup node gave for that block.
pub proof fn lemma_proposes_iff_valid(
    allow_non_finalized: bool,
    n: u64,
    s: SyncStatus,
    o: OutputResponse,
)
    ensures
        (task_outcome(allow_non_finalized, n, s, o) is Propose) <==> (n <= block_number_for(
            allow_non_finalized,
            s,
        ) && output_rejection(allow_non_finalized, n, o) is None),
        (task_outcome(allow_non_finalized, n, s, o) is Propose) ==> task_outcome(
            allow_non_finalized,
            n,
            s,
            o,
        ) == ProposalAction::Propose(o),
{
}

/// A proposed output has the supported version, is for the block that the
/// output oracle expects next, is not ahead of the usable L2 head, and its
/// block is finalized or, where non-finalized data is allowed, safe.
pub proof fn lemma_proposal_is_valid(
    allow_non_finalized: bool,
    n: u64,
    s: SyncStatus,
    o: OutputResponse,
)
    requires
        task_outcome(allow_non_finalized, n, s, o) is Propose,
    ensures
        o.version@ == SupportedOutputVersion::V1.bytes(),
        o.block_ref.number == n,
        o.block_ref.number <= block_number_for(allow_non_finalized, s),
        o.block_ref.number <= o.sync_status.finalized_l2 || (allow_non_finalized
            && o.block_ref.number <= o.sync_status.safe_l2),
{
}

/// Where non-finalized data is not allowed, only outputs of finalized blocks
/// are proposed: finalized both in the sync status the task read and in the
/// one the output came with.
pub proof fn lemma_only_finalized_when_not_allowed(n: u64, s: SyncStatus, o: OutputResponse)
    requires
        task_outcome(false, n, s, o) is Propose,
    ensures
        o.block_ref.number <= s.finalized_l2,
        o.block_ref.number <= o.sync_status.finalized_l2,
{
}

/// Every answer either leads to another query or ends the task, and a task
/// that has ended takes no further answer.
pub proof fn lemma_step_ends_or_queries(
    allow_non_finalized: bool,
    state: ProposalTaskState,
    event: ProposalEvent,
)
    requires
        accepts(state, event),
    ensures
        ({
            let (next, action) = task_step(allow_non_finalized, state, event);
            (next is Finished) <==> (action is Propose || action is Skip)
        }),
        forall|e: ProposalEvent| !accepts(ProposalTaskState::Finished, e),
{
}

/// The block number the output oracle gives is the one the task keeps: it
/// asks for the sync status next, remembering that number.
pub proof fn lemma_next_block_number_kept(allow_non_finalized: bool, n: u64)
    ensures
        task_step(
            allow_non_finalized,
            ProposalTaskState::AwaitingNextBlockNumber,
            ProposalEvent::NextBlockNumber(n),
        ) == (ProposalTaskState::AwaitingSyncStatus { next_block_number: n }, ProposalAction::FetchSyncStatus),
{
}

/// Once the sync status is known, a task waiting with next block number `n`
/// either skips, exactly when `n` is ahead of the usable L2 head (the
/// finalized head, or the safe head where non-finalized data is allowed), or
/// asks the rollup node for the output at block `n` itself, whatever the sync
/// status says, and waits for that output.
pub proof fn lemma_output_requested_at_next_block(
    allow_non_finalized: bool,
    n: u64,
    s: SyncStatus,
)
    ensures
        ({
            let (next, action) = task_step(
                allow_non_finalized,
                ProposalTaskState::AwaitingSyncStatus { next_block_number: n },
                ProposalEvent::SyncStatus(s),
            );
            let head = if allow_non_finalized {
                s.safe_l2
            } else {
                s.finalized_l2
            };
            &&& head < n ==> next is Finished && action == ProposalAction::Skip(
                SkipReason::SubmissionIntervalNotElapsed,
            )
            &&& n <= head ==> next == (ProposalTaskState::AwaitingOutput { next_block_number: n })
                && action == ProposalAction::FetchOutputAtBlock(n)
        }),
{
}

/// Over a whole task, the only output asked for is the one at the block that
/// the output oracle named.
pub proof fn lemma_task_asks_for_oracle_block(allow_non_finalized: bool, n: u64, s: SyncStatus)
    ensures
        ({
            let (state1, _) = task_step(
                allow_non_finalized,
                ProposalTaskState::AwaitingNextBlockNumber,
                ProposalEvent::NextBlockNumber(n),
            );
            let (_, action) = task_step(allow_non_finalized, state1, ProposalEvent::SyncStatus(s));
            action is Skip || action == ProposalAction::FetchOutputAtBlock(n)
        }),
{
}

} // verus!
