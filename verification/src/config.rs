//! The configuration of the proposal service.

use vstd::prelude::*;
use crate::common::{parsed_url, HttpProvider, L1Client, OutputOracleContract, RollupNode};
use crate::keys::{is_secret_key, key_address, key_to_address};
use crate::time::TimeSpan;
use std::sync::Arc;
use crate::errors::ConfigError;
use crate::hex::{hex_hash_bytes, hex_hash_ok, parse_address, parse_h256};

verus! {

/// A system configuration.
pub struct Config {
    /// The L1 client rpc url.
    pub l1_client_rpc_url: String,
    /// The L2 client rollup node rpc url. This is the url of the rollup
    /// node's rollup RPC, which may be served on another port than its L2 RPC.
    pub rollup_node_rpc_url: String,
    /// The L2OutputOracle contract address.
    pub output_oracle_address: [u8; 20],
    /// The delay between querying L2 for more blocks and creating a new batch.
    pub polling_interval: TimeSpan,
    /// The number of confirmations which to wait after appending new batches.
    pub num_confirmation: u64,
    /// The number of nonce-too-low errors required to give up on a tx at a
    /// particular nonce without receiving confirmation.
    pub safe_abort_nonce_too_low: u64,
    /// The time to wait before resubmitting a transaction.
    pub resubmission_timeout: TimeSpan,
    /// The HD seed used to derive the wallet private keys for both the
    /// sequencer and proposer.
    pub mnemonic: String,
    /// The private key used for the L2 Output transactions.
    pub output_private_key: String,
    /// The HD path used to derive the wallet private key for the sequencer.
    pub output_hd_path: String,
    /// Whether to use non-finalized L1 data to propose L2 blocks.
    pub allow_non_finalized: bool,
}

/// The values that the configuration takes from the environment.
pub struct ConfigEnv {
    /// The L1 client rpc url.
    pub l1_client_rpc_url: String,
    /// The rollup node rpc url.
    pub rollup_node_rpc_url: String,
    /// The L2OutputOracle contract address, in hexadecimal.
    pub output_oracle_address: String,
    /// The HD seed.
    pub mnemonic: String,
    /// The private key used for the L2 Output transactions.
    pub output_private_key: String,
}

/// The default HD path of the key for the output transactions.
pub open spec fn default_output_hd_path() -> Seq<char> {
    seq!['m', '/', '4', '4', '\'', '/', '6', '0', '\'', '/', '0', '\'', '/', '0', '/', '0']
}

impl Config {
    /// The default configuration, with the urls, the output oracle address,
    /// the mnemonic and the output private key taken from the environment:
    /// polling every 5 seconds, one confirmation, giving up on a nonce after 3
    /// nonce-too-low errors, resubmitting after 60 seconds, the HD path
    /// `m/44'/60'/0'/0/0`, and no use of non-finalized data. Fails where the
    /// output oracle address does not parse.
    pub fn from_env(env: ConfigEnv) -> (res: Result<Config, ConfigError>)
        ensures
            res is Ok <==> hex_hash_ok(env.output_oracle_address@, 20),
            res matches Err(e) ==> (e is InvalidOutputOracleAddress
                && e->InvalidOutputOracleAddress_0@ == env.output_oracle_address@),
            res matches Ok(c) ==> {
                &&& c.l1_client_rpc_url@ == env.l1_client_rpc_url@
                &&& c.rollup_node_rpc_url@ == env.rollup_node_rpc_url@
                &&& c.output_oracle_address@ == hex_hash_bytes(env.output_oracle_address@, 20)
                &&& c.polling_interval.secs_spec() == 5 && c.polling_interval.nanos_spec() == 0
                &&& c.num_confirmation == 1
                &&& c.safe_abort_nonce_too_low == 3
                &&& c.resubmission_timeout.secs_spec() == 60
                &&& c.resubmission_timeout.nanos_spec() == 0
                &&& c.mnemonic@ == env.mnemonic@
                &&& c.output_private_key@ == env.output_private_key@
                &&& c.output_hd_path@ == default_output_hd_path()
                &&& !c.allow_non_finalized
            },
    {
        let output_oracle_address = match parse_address(env.output_oracle_address.as_str()) {
            Some(address) => address,
            None => return Err(ConfigError::InvalidOutputOracleAddress(env.output_oracle_address)),
        };
        let hd_path = "m/44'/60'/0'/0/0";
        proof {
            reveal_strlit("m/44'/60'/0'/0/0");
        }
        Ok(Config {
            l1_client_rpc_url: env.l1_client_rpc_url,
            rollup_node_rpc_url: env.rollup_node_rpc_url,
            output_oracle_address,
            polling_interval: TimeSpan::from_secs(5),
            num_confirmation: 1,
            safe_abort_nonce_too_low: 3,
            resubmission_timeout: TimeSpan::from_secs(60),
            mnemonic: env.mnemonic,
            output_private_key: env.output_private_key,
            output_hd_path: hd_path.to_owned(),
            allow_non_finalized: false,
        })
    }

    /// Parses the output private key string into a 32-byte hash.
    pub fn get_output_private_key(&self) -> (res: Result<[u8; 32], ConfigError>)
        ensures
            res is Ok <==> hex_hash_ok(self.output_private_key@, 32),
            res matches Ok(k) ==> k@ == hex_hash_bytes(self.output_private_key@, 32),
            res matches Err(e) ==> (e is InvalidOutputPrivateKey
                && e->InvalidOutputPrivateKey_0@ == self.output_private_key@),
    {
        match parse_h256(self.output_private_key.as_str()) {
            Some(key) => Ok(key),
            None => Err(ConfigError::InvalidOutputPrivateKey(self.output_private_key.clone())),
        }
    }

    /// Returns the output oracle address.
    pub fn get_output_oracle_address(&self) -> (a: [u8; 20])
        ensures
            a@ == self.output_oracle_address@,
    {
        self.output_oracle_address
    }

    /// Constructs an L1 HTTP provider using the configured L1 client rpc url.
    pub fn get_l1_client(&self) -> (res: Result<L1Client, ConfigError>)
        ensures
            res is Ok <==> parsed_url(self.l1_client_rpc_url@) is Some,
            res matches Ok(p) ==> parsed_url(self.l1_client_rpc_url@) == Some(p.url_spec()),
            res matches Err(e) ==> e is InvalidL1ClientUrl,
    {
        match HttpProvider::from_url(self.l1_client_rpc_url.as_str()) {
            Some(provider) => Ok(provider),
            None => Err(ConfigError::InvalidL1ClientUrl),
        }
    }

    /// Constructs a rollup node client using the configured rollup node rpc url.
    pub fn get_rollup_node_client(&self) -> (res: Result<RollupNode, ConfigError>)
        ensures
            res is Ok <==> parsed_url(self.rollup_node_rpc_url@) is Some,
            res matches Ok(n) ==> parsed_url(self.rollup_node_rpc_url@) == Some(n.url_spec()),
            res matches Err(e) ==> e is InvalidRollupNodeRpcUrl,
    {
        match RollupNode::from_url(self.rollup_node_rpc_url.clone()) {
            Ok(node) => Ok(node),
            Err(_) => Err(ConfigError::InvalidRollupNodeRpcUrl),
        }
    }

    /// The output oracle contract at the configured address, reached through
    /// the L1 client; fails where the L1 client url is not accepted.
    pub fn get_output_oracle_contract(&self) -> (res: Result<
        OutputOracleContract<L1Client>,
        ConfigError,
    >)
        ensures
            res is Ok <==> parsed_url(self.l1_client_rpc_url@) is Some,
            res matches Err(e) ==> e is InvalidL1ClientUrl,
            res matches Ok(c) ==> c.address_spec() == self.output_oracle_address@
                && parsed_url(self.l1_client_rpc_url@) == Some(c.client_spec().url_spec()),
    {
        let l1_client = match self.get_l1_client() {
            Ok(client) => client,
            Err(e) => return Err(e),
        };
        Ok(OutputOracleContract::new(self.get_output_oracle_address(), Arc::new(l1_client)))
    }

    /// The proposer: the address that the output private key controls. Fails
    /// with [ConfigError::InvalidOutputPrivateKey] where the key does not
    /// parse or is not a private key.
    pub fn get_proposer(&self) -> (res: Result<[u8; 20], ConfigError>)
        ensures
            res is Ok <==> (hex_hash_ok(self.output_private_key@, 32) && is_secret_key(
                hex_hash_bytes(self.output_private_key@, 32),
            )),
            res matches Ok(a) ==> a@ == key_address(hex_hash_bytes(self.output_private_key@, 32)),
            res matches Err(e) ==> (e is InvalidOutputPrivateKey
                && e->InvalidOutputPrivateKey_0@ == self.output_private_key@),
    {
        let key = match self.get_output_private_key() {
            Ok(key) => key,
            Err(e) => return Err(e),
        };
        match key_to_address(&key) {
            Some(address) => Ok(address),
            None => Err(ConfigError::InvalidOutputPrivateKey(self.output_private_key.clone())),
        }
    }
}

} // verus!
