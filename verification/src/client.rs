//! The core of the proposal client: its parts, and the output roots it has
//! handed to the transaction pool.

use vstd::prelude::*;
use crate::bytes::{bytes_eq, copy_bytes};
use crate::rollup::{OutputResponse, SyncStatus};
use crate::time::TimeSpan;

verus! {

/// The L2 block up to which proposals may be made for a given sync status.
pub open spec fn block_number_for(allow_non_finalized: bool, sync_status: SyncStatus) -> u64 {
    if allow_non_finalized {
        sync_status.safe_l2
    } else {
        sync_status.finalized_l2
    }
}

/// The roots after a proposal with `root` was received, and whether it goes to
/// the transaction pool: only a root that was not sent before does.
pub open spec fn submit_step(roots: Seq<Seq<u8>>, root: Seq<u8>) -> (Seq<Seq<u8>>, bool) {
    if roots.contains(root) {
        (roots, false)
    } else {
        (roots.push(root), true)
    }
}

/// The roots after proposals with the roots `rs` were received in order.
pub open spec fn submit_all(roots: Seq<Seq<u8>>, rs: Seq<Seq<u8>>) -> Seq<Seq<u8>>
    decreases rs.len(),
{
    if rs.len() == 0 {
        roots
    } else {
        submit_all(submit_step(roots, rs[0]).0, rs.drop_first())
    }
}

/// The proposal client. It is generic over the clients it works with: an L1
/// client `L`, a rollup node `R`, an output oracle `O` and a metrics server `M`.
pub struct Varro<L, R, O, M> {
    l1_client: L,
    rollup_node: R,
    output_oracle: O,
    allow_non_finalized: bool,
    proposer: [u8; 20],
    output_private_key: [u8; 32],
    polling_interval: TimeSpan,
    metrics: Option<M>,
    tx_backoff: Option<TimeSpan>,
    roots: Vec<Vec<u8>>,
}

impl<L, R, O, M> Varro<L, R, O, M> {
    /// No output root is held twice.
    #[verifier::type_invariant]
    spec fn roots_distinct(&self) -> bool {
        self.roots@.map_values(|r: Vec<u8>| r@).no_duplicates()
    }

    /// The output roots submitted to the transaction pool, in order.
    pub closed spec fn submitted_roots(&self) -> Seq<Seq<u8>> {
        self.roots@.map_values(|r: Vec<u8>| r@)
    }

    /// The L1 client.
    pub closed spec fn l1_client_spec(&self) -> L {
        self.l1_client
    }

    /// The rollup node.
    pub closed spec fn rollup_node_spec(&self) -> R {
        self.rollup_node
    }

    /// The output oracle.
    pub closed spec fn output_oracle_spec(&self) -> O {
        self.output_oracle
    }

    /// Whether non-finalized L1 data may be used to propose L2 blocks.
    pub closed spec fn allow_non_finalized_spec(&self) -> bool {
        self.allow_non_finalized
    }

    /// The proposer's address.
    pub closed spec fn proposer_spec(&self) -> Seq<u8> {
        self.proposer@
    }

    /// The proposer's private key.
    pub closed spec fn output_private_key_spec(&self) -> Seq<u8> {
        self.output_private_key@
    }

    /// The polling interval.
    pub closed spec fn polling_interval_spec(&self) -> TimeSpan {
        self.polling_interval
    }

    /// The metrics server, where there is one.
    pub closed spec fn metrics_spec(&self) -> Option<M> {
        self.metrics
    }

    /// The backoff between attempts to send to the transaction pool, where one was given.
    pub closed spec fn tx_backoff_spec(&self) -> Option<TimeSpan> {
        self.tx_backoff
    }

    /// Makes a client from its parts, with no output root submitted yet.
    pub fn new(
        l1_client: L,
        rollup_node: R,
        output_oracle: O,
        allow_non_finalized: bool,
        proposer: [u8; 20],
        output_private_key: [u8; 32],
        polling_interval: TimeSpan,
        metrics: Option<M>,
        tx_backoff: Option<TimeSpan>,
    ) -> (v: Self)
        ensures
            v.l1_client_spec() == l1_client,
            v.rollup_node_spec() == rollup_node,
            v.output_oracle_spec() == output_oracle,
            v.allow_non_finalized_spec() == allow_non_finalized,
            v.proposer_spec() == proposer@,
            v.output_private_key_spec() == output_private_key@,
            v.polling_interval_spec() == polling_interval,
            v.metrics_spec() == metrics,
            v.tx_backoff_spec() == tx_backoff,
            v.submitted_roots() == Seq::<Seq<u8>>::empty(),
    {
        let v = Varro {
            l1_client,
            rollup_node,
            output_oracle,
            allow_non_finalized,
            proposer,
            output_private_key,
            polling_interval,
            metrics,
            tx_backoff,
            roots: Vec::new(),
        };
        assert(v.roots@.map_values(|r: Vec<u8>| r@) =~= Seq::<Seq<u8>>::empty());
        v
    }

    /// Records a received proposal and says whether it goes to the
    /// transaction pool: it does unless a proposal with the same output root
    /// was submitted before, in which case nothing changes.
    pub fn submit_proposal(&mut self, proposal: &OutputResponse) -> (send: bool)
        ensures
            (final(self).submitted_roots(), send) == submit_step(
                old(self).submitted_roots(),
                proposal.output_root@,
            ),
            final(self).submitted_roots().no_duplicates(),
            final(self).l1_client_spec() == old(self).l1_client_spec(),
            final(self).rollup_node_spec() == old(self).rollup_node_spec(),
            final(self).output_oracle_spec() == old(self).output_oracle_spec(),
            final(self).allow_non_finalized_spec() == old(self).allow_non_finalized_spec(),
            final(self).proposer_spec() == old(self).proposer_spec(),
            final(self).output_private_key_spec() == old(self).output_private_key_spec(),
            final(self).polling_interval_spec() == old(self).polling_interval_spec(),
            final(self).metrics_spec() == old(self).metrics_spec(),
            final(self).tx_backoff_spec() == old(self).tx_backoff_spec(),
    {
        proof {
            use_type_invariant(&*self);
        }
        // A proposal that is already being sent is skipped.
        if self.is_submitted(&proposal.output_root) {
            return false;
        }
        // Track that this proposal was submitted.
        let root = copy_bytes(&proposal.output_root);
        let mut roots: Vec<Vec<u8>> = Vec::new();
        std::mem::swap(&mut roots, &mut self.roots);
        let ghost before = roots@.map_values(|r: Vec<u8>| r@);
        roots.push(root);
        assert(roots@.map_values(|r: Vec<u8>| r@) =~= before.push(proposal.output_root@));
        proof {
            lemma_push_keeps_distinct(before, proposal.output_root@);
        }
        self.roots = roots;
        true
    }

    /// Whether a proposal with the output root `root` was submitted.
    pub fn is_submitted(&self, root: &Vec<u8>) -> (b: bool)
        ensures
            b == self.submitted_roots().contains(root@),
    {
        let mut i: usize = 0;
        while i < self.roots.len()
            invariant
                i <= self.roots@.len(),
                forall|j: int| 0 <= j < i ==> self.roots@[j]@ != root@,
            decreases self.roots.len() - i,
        {
            if bytes_eq(&self.roots[i], root) {
                assert(self.submitted_roots()[i as int] == root@);
                return true;
            }
            i = i + 1;
        }
        assert(!self.submitted_roots().contains(root@));
        false
    }
}

impl<L, R, O, M> Varro<L, R, O, M> {
    /// The L1 client.
    pub fn l1_client(&self) -> (r: &L)
        ensures
            *r == self.l1_client_spec(),
    {
        &self.l1_client
    }

    /// The rollup node.
    pub fn rollup_node(&self) -> (r: &R)
        ensures
            *r == self.rollup_node_spec(),
    {
        &self.rollup_node
    }

    /// The output oracle.
    pub fn output_oracle(&self) -> (r: &O)
        ensures
            *r == self.output_oracle_spec(),
    {
        &self.output_oracle
    }

    /// Whether non-finalized L1 data may be used to propose L2 blocks.
    pub fn allow_non_finalized(&self) -> (r: bool)
        ensures
            r == self.allow_non_finalized_spec(),
    {
        self.allow_non_finalized
    }

    /// The proposer's address.
    pub fn proposer(&self) -> (r: [u8; 20])
        ensures
            r@ == self.proposer_spec(),
    {
        self.proposer
    }

    /// The proposer's private key, used to send the output transactions.
    pub fn output_private_key(&self) -> (r: [u8; 32])
        ensures
            r@ == self.output_private_key_spec(),
    {
        self.output_private_key
    }

    /// The polling interval.
    pub fn polling_interval(&self) -> (r: TimeSpan)
        ensures
            r == self.polling_interval_spec(),
    {
        self.polling_interval
    }

    /// The backoff between attempts to send to the transaction pool, where one was given.
    pub fn tx_backoff(&self) -> (r: Option<TimeSpan>)
        ensures
            r == self.tx_backoff_spec(),
    {
        self.tx_backoff
    }

    /// Hands out the metrics server, where there is one; the client keeps none.
    pub fn take_metrics(&mut self) -> (r: Option<M>)
        ensures
            r == old(self).metrics_spec(),
            final(self).metrics_spec() is None,
            final(self).submitted_roots() == old(self).submitted_roots(),
            final(self).l1_client_spec() == old(self).l1_client_spec(),
            final(self).rollup_node_spec() == old(self).rollup_node_spec(),
            final(self).output_oracle_spec() == old(self).output_oracle_spec(),
            final(self).allow_non_finalized_spec() == old(self).allow_non_finalized_spec(),
            final(self).proposer_spec() == old(self).proposer_spec(),
            final(self).output_private_key_spec() == old(self).output_private_key_spec(),
            final(self).polling_interval_spec() == old(self).polling_interval_spec(),
            final(self).tx_backoff_spec() == old(self).tx_backoff_spec(),
    {
        proof {
            use_type_invariant(&*self);
        }
        let mut metrics: Option<M> = None;
        std::mem::swap(&mut metrics, &mut self.metrics);
        metrics
    }
}

/// Submitting a proposal keeps the submitted roots free of repetition, and a
/// second submission of the same output root is refused and changes nothing.
pub proof fn lemma_resubmission_refused(roots: Seq<Seq<u8>>, root: Seq<u8>)
    requires
        roots.no_duplicates(),
    ensures
        submit_step(roots, root).0.no_duplicates(),
        submit_step(roots, root).0.contains(root),
        submit_step(submit_step(roots, root).0, root) == (submit_step(roots, root).0, false),
{
    if !roots.contains(root) {
        lemma_push_keeps_distinct(roots, root);
        assert(roots.push(root)[roots.len() as int] == root);
    }
}

/// Whatever proposals arrive, each output root goes to the transaction pool at
/// most once: the submitted roots stay free of repetition, and they are
/// exactly the roots held before and the roots of the proposals received.
pub proof fn lemma_each_root_submitted_once(roots: Seq<Seq<u8>>, rs: Seq<Seq<u8>>)
    requires
        roots.no_duplicates(),
    ensures
        submit_all(roots, rs).no_duplicates(),
        forall|r: Seq<u8>| #[trigger]
            submit_all(roots, rs).contains(r) <==> (roots.contains(r) || rs.contains(r)),
    decreases rs.len(),
{
    if rs.len() > 0 {
        let next = submit_step(roots, rs[0]).0;
        lemma_resubmission_refused(roots, rs[0]);
        lemma_each_root_submitted_once(next, rs.drop_first());
        assert forall|r: Seq<u8>| #[trigger]
            submit_all(roots, rs).contains(r) <==> (roots.contains(r) || rs.contains(r)) by {
            if rs.contains(r) && r != rs[0] {
                let k: int = choose|k: int| 0 <= k < rs.len() && rs[k] == r;
                assert(rs.drop_first()[k - 1] == r);
            }
            if rs.drop_first().contains(r) {
                let k: int = choose|k: int| 0 <= k < rs.drop_first().len() && rs.drop_first()[k] == r;
                assert(rs[k + 1] == r);
            }
            if next.contains(r) && !roots.contains(r) {
                let k: int = choose|k: int| 0 <= k < next.len() && next[k] == r;
                if k < roots.len() {
                    assert(roots[k] == r);
                }
            }
            if roots.contains(r) {
                let k: int = choose|k: int| 0 <= k < roots.len() && roots[k] == r;
                if !roots.contains(rs[0]) {
                    assert(next[k] == r);
                }
            }
        }
    }
}

/// Appending a root that is not held keeps the roots distinct.
proof fn lemma_push_keeps_distinct(roots: Seq<Seq<u8>>, root: Seq<u8>)
    requires
        roots.no_duplicates(),
        !roots.contains(root),
    ensures
        roots.push(root).no_duplicates(),
{
    let pushed = roots.push(root);
    assert forall|i: int, j: int| 0 <= i < pushed.len() && 0 <= j < pushed.len() && i != j
        implies pushed[i] != pushed[j] by {
        if i == roots.len() {
            assert(pushed[j] == roots[j]);
        } else if j == roots.len() {
            assert(pushed[i] == roots[i]);
        }
    }
}

impl Varro<(), (), (), ()> {
    /// Derives the block number from a rollup node's sync status: the finalized
    /// L2 head, or the safe L2 head where non-finalized data is allowed.
    pub fn get_block_number(allow_non_finalized: bool, sync_status: SyncStatus) -> (n: u64)
        ensures
            n == block_number_for(allow_non_finalized, sync_status),
    {
        // Without non-finalized data, only the finalized l2 block number may be used.
        if !allow_non_finalized {
            return sync_status.finalized_l2;
        }
        // With "safe" blocks allowed, the l2 safe head is used.
        sync_status.safe_l2
    }
}

} // verus!
