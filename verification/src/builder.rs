//! A builder for the proposal client.

use vstd::prelude::*;
use crate::client::Varro;
use crate::errors::{ConfigError, VarroBuilderError};
use crate::common::{parsed_url, L1Client, OutputOracle, RollupNode};
use crate::config::Config;
use crate::hex::{hex_hash_bytes, hex_hash_ok};
use crate::keys::{is_secret_key, key_address};
use crate::time::TimeSpan;

verus! {

/// A builder for the [Varro] client: each part is set on its own, and
/// [VarroBuilder::build] checks that the required ones are there.
pub struct VarroBuilder<L, R, O, M> {
    /// An L1 client
    pub l1_client: Option<L>,
    /// A rollup node client
    pub rollup_node: Option<R>,
    /// An output oracle contract
    pub output_oracle: Option<O>,
    /// Whether to use non-finalized L1 data to propose L2 blocks.
    pub allow_non_finalized: Option<bool>,
    /// The proposer's address
    pub proposer: Option<[u8; 20]>,
    /// The proposer's private key used to send the output transactions.
    pub output_private_key: Option<[u8; 32]>,
    /// The polling interval
    pub polling_interval: Option<TimeSpan>,
    /// An _optional_ metrics server
    pub metrics: Option<M>,
    /// The backoff between attempts to send to the transaction pool; only the
    /// client made by [Varro::try_from_builder] requires it
    pub tx_backoff: Option<TimeSpan>,
}

/// The first required part, in the order the builder checks them, that `b` lacks.
pub open spec fn first_missing<L, R, O, M>(b: VarroBuilder<L, R, O, M>) -> Option<VarroBuilderError> {
    if b.l1_client is None {
        Some(VarroBuilderError::MissingL1Client)
    } else if b.rollup_node is None {
        Some(VarroBuilderError::MissingRollupNode)
    } else if b.output_oracle is None {
        Some(VarroBuilderError::MissingOutputOracle)
    } else if b.proposer is None {
        Some(VarroBuilderError::MissingProposer)
    } else if b.output_private_key is None {
        Some(VarroBuilderError::MissingOutputPrivateKey)
    } else if b.polling_interval is None {
        Some(VarroBuilderError::MissingPollingInterval)
    } else {
        None
    }
}

/// The builder after [VarroBuilder::build]: it takes the required parts in
/// order up to and including the first that is missing, and on success also
/// the metrics server. Whether to allow non-finalized data, and the
/// transaction backoff, are kept.
pub open spec fn after_build<L, R, O, M>(b: VarroBuilder<L, R, O, M>) -> VarroBuilder<L, R, O, M> {
    let b1 = VarroBuilder { l1_client: None, ..b };
    if b.l1_client is None { b1 } else {
    let b2 = VarroBuilder { rollup_node: None, ..b1 };
    if b.rollup_node is None { b2 } else {
    let b3 = VarroBuilder { output_oracle: None, ..b2 };
    if b.output_oracle is None { b3 } else {
    let b4 = VarroBuilder { proposer: None, ..b3 };
    if b.proposer is None { b4 } else {
    let b5 = VarroBuilder { output_private_key: None, ..b4 };
    if b.output_private_key is None { b5 } else {
    let b6 = VarroBuilder { polling_interval: None, ..b5 };
    if b.polling_interval is None { b6 } else {
    VarroBuilder { metrics: None, ..b6 }
    }}}}}}
}

/// `v` holds the parts of the builder `b`, with no output root submitted yet.
pub open spec fn built_from<L, R, O, M>(v: Varro<L, R, O, M>, b: VarroBuilder<L, R, O, M>) -> bool {
    &&& v.l1_client_spec() == b.l1_client.unwrap()
    &&& v.rollup_node_spec() == b.rollup_node.unwrap()
    &&& v.output_oracle_spec() == b.output_oracle.unwrap()
    &&& v.allow_non_finalized_spec() == b.allow_non_finalized.unwrap_or(false)
    &&& v.proposer_spec() == b.proposer.unwrap()@
    &&& v.output_private_key_spec() == b.output_private_key.unwrap()@
    &&& v.polling_interval_spec() == b.polling_interval.unwrap()
    &&& v.metrics_spec() == b.metrics
    &&& v.tx_backoff_spec() == b.tx_backoff
    &&& v.submitted_roots() == Seq::<Seq<u8>>::empty()
}

/// The first part that a client made by [Varro::try_from_builder] needs and
/// `b` lacks: those [VarroBuilder::build] needs, then the transaction backoff.
pub open spec fn first_missing_with_backoff<L, R, O, M>(
    b: VarroBuilder<L, R, O, M>,
) -> Option<VarroBuilderError> {
    match first_missing(b) {
        Some(e) => Some(e),
        None => if b.tx_backoff is None {
            Some(VarroBuilderError::MissingTxBackoff)
        } else {
            None
        },
    }
}

/// The builder with no part set.
pub open spec fn empty_builder<L, R, O, M>() -> VarroBuilder<L, R, O, M> {
    VarroBuilder {
        l1_client: None,
        rollup_node: None,
        output_oracle: None,
        allow_non_finalized: None,
        proposer: None,
        output_private_key: None,
        polling_interval: None,
        metrics: None,
        tx_backoff: None,
    }
}

impl<L, R, O, M> VarroBuilder<L, R, O, M> {
    /// Creates a new [VarroBuilder] with no part set.
    pub fn new() -> (b: Self)
        ensures
            b == empty_builder::<L, R, O, M>(),
    {
        VarroBuilder {
            l1_client: None,
            rollup_node: None,
            output_oracle: None,
            allow_non_finalized: None,
            proposer: None,
            output_private_key: None,
            polling_interval: None,
            metrics: None,
            tx_backoff: None,
        }
    }

    /// Sets the metrics server for the [Varro] client.
    pub fn with_metrics(&mut self, metrics: M) -> (r: &mut Self)
        ensures
            *r == (VarroBuilder { metrics: Some(metrics), ..*old(self) }),
            *final(self) == *final(r),
    {
        self.metrics = Some(metrics);
        self
    }

    /// Sets the L1 client for the [Varro] client.
    pub fn with_l1_client(&mut self, l1_client: L) -> (r: &mut Self)
        ensures
            *r == (VarroBuilder { l1_client: Some(l1_client), ..*old(self) }),
            *final(self) == *final(r),
    {
        self.l1_client = Some(l1_client);
        self
    }

    /// Sets the rollup node for the [Varro] client.
    pub fn with_rollup_node(&mut self, rollup_node: R) -> (r: &mut Self)
        ensures
            *r == (VarroBuilder { rollup_node: Some(rollup_node), ..*old(self) }),
            *final(self) == *final(r),
    {
        self.rollup_node = Some(rollup_node);
        self
    }

    /// Sets the output oracle for the [Varro] client.
    pub fn with_output_oracle(&mut self, output_oracle: O) -> (r: &mut Self)
        ensures
            *r == (VarroBuilder { output_oracle: Some(output_oracle), ..*old(self) }),
            *final(self) == *final(r),
    {
        self.output_oracle = Some(output_oracle);
        self
    }

    /// Sets whether to use non-finalized L1 data to propose L2 blocks.
    pub fn with_allow_non_finalized(&mut self, allow_non_finalized: bool) -> (r: &mut Self)
        ensures
            *r == (VarroBuilder { allow_non_finalized: Some(allow_non_finalized), ..*old(self) }),
            *final(self) == *final(r),
    {
        self.allow_non_finalized = Some(allow_non_finalized);
        self
    }

    /// Sets the proposer's address for the [Varro] client.
    pub fn with_proposer(&mut self, proposer: [u8; 20]) -> (r: &mut Self)
        ensures
            *r == (VarroBuilder { proposer: Some(proposer), ..*old(self) }),
            *final(self) == *final(r),
    {
        self.proposer = Some(proposer);
        self
    }

    /// Sets the proposer's private key used to send the output transactions.
    pub fn with_output_private_key(&mut self, output_private_key: [u8; 32]) -> (r: &mut Self)
        ensures
            *r == (VarroBuilder { output_private_key: Some(output_private_key), ..*old(self) }),
            *final(self) == *final(r),
    {
        self.output_private_key = Some(output_private_key);
        self
    }

    /// Sets the polling interval for the [Varro] client.
    pub fn with_polling_interval(&mut self, polling_interval: TimeSpan) -> (r: &mut Self)
        ensures
            *r == (VarroBuilder { polling_interval: Some(polling_interval), ..*old(self) }),
            *final(self) == *final(r),
    {
        self.polling_interval = Some(polling_interval);
        self
    }

    /// Sets the backoff between attempts to send to the transaction pool.
    pub fn with_tx_backoff(&mut self, tx_backoff: TimeSpan) -> (r: &mut Self)
        ensures
            *r == (VarroBuilder { tx_backoff: Some(tx_backoff), ..*old(self) }),
            *final(self) == *final(r),
    {
        self.tx_backoff = Some(tx_backoff);
        self
    }

    /// Builds the [Varro] client, taking its parts out of the builder.
    ///
    /// Fails with the first missing part, checked in this order: L1 client,
    /// rollup node, output oracle, proposer, output private key, polling
    /// interval. Non-finalized data is not allowed where the builder does not
    /// say; the metrics server and the transaction backoff are optional.
    pub fn build(&mut self) -> (res: Result<Varro<L, R, O, M>, VarroBuilderError>)
        ensures
            *final(self) == after_build(*old(self)),
            match first_missing(*old(self)) {
                Some(e) => res == Err::<Varro<L, R, O, M>, VarroBuilderError>(e),
                None => res is Ok,
            },
            res matches Ok(v) ==> built_from(v, *old(self)),
    {
        let l1_client = match self.l1_client.take() {
            Some(x) => x,
            None => return Err(VarroBuilderError::MissingL1Client),
        };
        let rollup_node = match self.rollup_node.take() {
            Some(x) => x,
            None => return Err(VarroBuilderError::MissingRollupNode),
        };
        let output_oracle = match self.output_oracle.take() {
            Some(x) => x,
            None => return Err(VarroBuilderError::MissingOutputOracle),
        };
        let proposer = match self.proposer.take() {
            Some(x) => x,
            None => return Err(VarroBuilderError::MissingProposer),
        };
        let output_private_key = match self.output_private_key.take() {
            Some(x) => x,
            None => return Err(VarroBuilderError::MissingOutputPrivateKey),
        };
        let polling_interval = match self.polling_interval.take() {
            Some(x) => x,
            None => return Err(VarroBuilderError::MissingPollingInterval),
        };
        let tx_backoff = self.tx_backoff;
        // Without a word on it, non-finalized data is not used.
        let allow_non_finalized = match self.allow_non_finalized {
            Some(allow_non_finalized) => allow_non_finalized,
            None => false,
        };
        let metrics = self.metrics.take();
        Ok(
            Varro::new(
                l1_client,
                rollup_node,
                output_oracle,
                allow_non_finalized,
                proposer,
                output_private_key,
                polling_interval,
                metrics,
                tx_backoff,
            ),
        )
    }
}

} // verus!

verus! {

impl<L, R, O, M> Default for VarroBuilder<L, R, O, M> {
    /// The builder with no part set.
    fn default() -> (b: Self)
        ensures
            b == empty_builder::<L, R, O, M>(),
    {
        VarroBuilder::new()
    }
}

} // verus!

verus! {

/// Building succeeds exactly when every required part is set, whatever
/// else the builder holds; a successful build leaves only the choice on
/// non-finalized data and the transaction backoff in the builder.
pub proof fn lemma_builds_iff_complete<L, R, O, M>(b: VarroBuilder<L, R, O, M>)
    ensures
        first_missing(b) is None <==> {
            &&& b.l1_client is Some
            &&& b.rollup_node is Some
            &&& b.output_oracle is Some
            &&& b.proposer is Some
            &&& b.output_private_key is Some
            &&& b.polling_interval is Some
        },
        first_missing(b) is None ==> after_build(b) == (VarroBuilder {
            allow_non_finalized: b.allow_non_finalized,
            tx_backoff: b.tx_backoff,
            ..empty_builder::<L, R, O, M>()
        }),
{
}

} // verus!

verus! {

impl<L, R, O, M> Varro<L, R, O, M> {
    /// Makes the client from a builder, as [VarroBuilder::build] does, and
    /// also requires the transaction backoff: fails with the first missing
    /// part, the backoff being checked last.
    pub fn try_from_builder(builder: VarroBuilder<L, R, O, M>) -> (res: Result<Self, VarroBuilderError>)
        ensures
            match first_missing_with_backoff(builder) {
                Some(e) => res == Err::<Varro<L, R, O, M>, VarroBuilderError>(e),
                None => res is Ok,
            },
            res matches Ok(v) ==> built_from(v, builder),
    {
        let mut builder = builder;
        let varro = match builder.build() {
            Ok(varro) => varro,
            Err(e) => return Err(e),
        };
        if builder.tx_backoff.is_none() {
            return Err(VarroBuilderError::MissingTxBackoff);
        }
        Ok(varro)
    }
}

impl<M> VarroBuilder<L1Client, RollupNode, OutputOracle, M> {
    /// A builder holding the parts that `config` names: the L1 client, the
    /// rollup node client and the output oracle, each for the configured url
    /// and address; the output private key and the proposer, the address it
    /// controls; the polling interval; whether to use non-finalized data; and
    /// the resubmission timeout as the backoff for the transaction pool. No
    /// metrics server is set. Fails, checked in this order, where the L1
    /// client url or the rollup node url is not accepted, or the output
    /// private key is not a private key.
    pub fn from_config(config: &Config) -> (res: Result<Self, ConfigError>)
        ensures
            res is Ok <==> {
                &&& parsed_url(config.l1_client_rpc_url@) is Some
                &&& parsed_url(config.rollup_node_rpc_url@) is Some
                &&& hex_hash_ok(config.output_private_key@, 32)
                &&& is_secret_key(hex_hash_bytes(config.output_private_key@, 32))
            },
            res matches Err(e) ==> if parsed_url(config.l1_client_rpc_url@) is None {
                e is InvalidL1ClientUrl
            } else if parsed_url(config.rollup_node_rpc_url@) is None {
                e is InvalidRollupNodeRpcUrl
            } else {
                e is InvalidOutputPrivateKey && e->InvalidOutputPrivateKey_0@
                    == config.output_private_key@
            },
            res matches Ok(b) ==> {
                &&& b.l1_client matches Some(p) && parsed_url(config.l1_client_rpc_url@) == Some(
                    p.url_spec(),
                )
                &&& b.rollup_node matches Some(n) && parsed_url(config.rollup_node_rpc_url@) == Some(
                    n.url_spec(),
                )
                &&& b.output_oracle matches Some(o) && o.address_spec()
                    == config.output_oracle_address@ && parsed_url(config.l1_client_rpc_url@)
                    == Some(o.client_spec().url_spec())
                &&& b.allow_non_finalized == Some(config.allow_non_finalized)
                &&& b.proposer matches Some(a) && a@ == key_address(
                    hex_hash_bytes(config.output_private_key@, 32),
                )
                &&& b.output_private_key matches Some(k) && k@ == hex_hash_bytes(
                    config.output_private_key@,
                    32,
                )
                &&& b.polling_interval == Some(config.polling_interval)
                &&& b.metrics is None
                &&& b.tx_backoff == Some(config.resubmission_timeout)
            },
    {
        let l1_client = match config.get_l1_client() {
            Ok(client) => client,
            Err(e) => return Err(e),
        };
        let rollup_node = match config.get_rollup_node_client() {
            Ok(node) => node,
            Err(e) => return Err(e),
        };
        let output_oracle = match config.get_output_oracle_contract() {
            Ok(oracle) => oracle,
            Err(e) => return Err(e),
        };
        let output_private_key = match config.get_output_private_key() {
            Ok(key) => key,
            Err(e) => return Err(e),
        };
        let proposer = match config.get_proposer() {
            Ok(address) => address,
            Err(e) => return Err(e),
        };
        Ok(VarroBuilder {
            l1_client: Some(l1_client),
            rollup_node: Some(rollup_node),
            output_oracle: Some(output_oracle),
            allow_non_finalized: Some(config.allow_non_finalized),
            proposer: Some(proposer),
            output_private_key: Some(output_private_key),
            polling_interval: Some(config.polling_interval),
            metrics: None,
            tx_backoff: Some(config.resubmission_timeout),
        })
    }
}

/// A built client uses non-finalized data exactly when its builder was told
/// so: a choice of `x` gives `x`, and no choice gives finalized data only.
pub proof fn lemma_built_client_keeps_finality_choice<L, R, O, M>(
    v: Varro<L, R, O, M>,
    b: VarroBuilder<L, R, O, M>,
)
    requires
        built_from(v, b),
    ensures
        b.allow_non_finalized matches Some(x) ==> v.allow_non_finalized_spec() == x,
        b.allow_non_finalized is None ==> !v.allow_non_finalized_spec(),
        v.allow_non_finalized_spec() ==> b.allow_non_finalized == Some(true),
{
}

/// Setting whether to use non-finalized data on a complete builder, then
/// building, gives a client that makes exactly that choice, whatever was set
/// before; in particular setting `false` gives a client that uses finalized
/// data only.
pub proof fn lemma_set_finality_then_build<L, R, O, M>(
    b: VarroBuilder<L, R, O, M>,
    x: bool,
    v: Varro<L, R, O, M>,
)
    requires
        first_missing(b) is None,
        built_from(v, VarroBuilder { allow_non_finalized: Some(x), ..b }),
    ensures
        first_missing(VarroBuilder { allow_non_finalized: Some(x), ..b }) is None,
        v.allow_non_finalized_spec() == x,
{
}

/// The part a failed build reports is missing, and every part checked before
/// it is present: L1 client, rollup node, output oracle, proposer, output
/// private key, polling interval, in that order.
pub proof fn lemma_reported_part_is_first_missing<L, R, O, M>(b: VarroBuilder<L, R, O, M>)
    ensures
        first_missing(b) == Some(VarroBuilderError::MissingL1Client) <==> b.l1_client is None,
        first_missing(b) == Some(VarroBuilderError::MissingRollupNode) <==> (b.l1_client is Some
            && b.rollup_node is None),
        first_missing(b) == Some(VarroBuilderError::MissingOutputOracle) <==> (b.l1_client is Some
            && b.rollup_node is Some && b.output_oracle is None),
        first_missing(b) == Some(VarroBuilderError::MissingProposer) <==> (b.l1_client is Some
            && b.rollup_node is Some && b.output_oracle is Some && b.proposer is None),
        first_missing(b) == Some(VarroBuilderError::MissingOutputPrivateKey) <==> (b.l1_client
            is Some && b.rollup_node is Some && b.output_oracle is Some && b.proposer is Some
            && b.output_private_key is None),
        first_missing(b) == Some(VarroBuilderError::MissingPollingInterval) <==> (b.l1_client
            is Some && b.rollup_node is Some && b.output_oracle is Some && b.proposer is Some
            && b.output_private_key is Some && b.polling_interval is None),
        first_missing(b) != Some(VarroBuilderError::MissingTxBackoff),
        first_missing_with_backoff(b) == Some(VarroBuilderError::MissingTxBackoff) <==> (
        first_missing(b) is None && b.tx_backoff is None),
{
}

} // verus!
