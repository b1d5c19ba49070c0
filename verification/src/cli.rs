//! The command line of the proposal service, and the configuration it gives.

use vstd::prelude::*;
use crate::config::{Config, ConfigEnv};
use crate::errors::ConfigError;
use crate::hex::{hex_hash_bytes, hex_hash_ok, parse_address};
use crate::time::TimeSpan;

verus! {

/// The command line options of the proposal service.
pub struct Cli {
    /// The HTTP provider URL for L1.
    pub l1_client_rpc_url: Option<String>,
    /// The HTTP provider URL for the rollup node.
    pub rollup_node_rpc_url: Option<String>,
    /// The L2OutputOracle contract address.
    pub output_oracle_address: Option<String>,
    /// The delay between querying L2 for more blocks and creating a new batch, in seconds.
    pub polling_interval: u64,
    /// The number of confirmations which to wait after appending new batches.
    pub num_confirmation: u64,
    /// The number of nonce-too-low errors required to give up on a tx at a
    /// particular nonce without receiving confirmation.
    pub safe_abort_nonce_too_low: u64,
    /// The time to wait before resubmitting a transaction, in seconds.
    pub resubmission_timeout: u64,
    /// The HD seed used to derive the wallet private keys.
    pub mnemonic: Option<String>,
    /// The private key used for the L2 Output transactions.
    pub output_private_key: Option<String>,
    /// The derivation path used to obtain the private key for the output transactions.
    pub output_hd_path: String,
    /// Whether to use non-finalized L1 data to propose L2 blocks.
    pub allow_non_finalized: bool,
}

/// The text of an option given on the command line, or else of its fallback.
pub open spec fn given_or(option: Option<String>, fallback: String) -> Seq<char> {
    match option {
        Some(s) => s@,
        None => fallback@,
    }
}

impl Config {
    /// The configuration that command line options give: each url, the
    /// output oracle address, the mnemonic and the output private key are
    /// those of the options, or, where an option is absent, those of the
    /// environment; the numbers and flags are those of the options. Fails
    /// where the output oracle address does not parse.
    pub fn from_cli(cli: Cli, env: ConfigEnv) -> (res: Result<Config, ConfigError>)
        ensures
            res is Ok <==> hex_hash_ok(
                given_or(cli.output_oracle_address, env.output_oracle_address),
                20,
            ),
            res matches Err(e) ==> (e is InvalidOutputOracleAddress
                && e->InvalidOutputOracleAddress_0@ == given_or(
                cli.output_oracle_address,
                env.output_oracle_address,
            )),
            res matches Ok(c) ==> {
                &&& c.l1_client_rpc_url@ == given_or(cli.l1_client_rpc_url, env.l1_client_rpc_url)
                &&& c.rollup_node_rpc_url@ == given_or(
                    cli.rollup_node_rpc_url,
                    env.rollup_node_rpc_url,
                )
                &&& c.output_oracle_address@ == hex_hash_bytes(
                    given_or(cli.output_oracle_address, env.output_oracle_address),
                    20,
                )
                &&& c.polling_interval.secs_spec() == cli.polling_interval
                &&& c.polling_interval.nanos_spec() == 0
                &&& c.num_confirmation == cli.num_confirmation
                &&& c.safe_abort_nonce_too_low == cli.safe_abort_nonce_too_low
                &&& c.resubmission_timeout.secs_spec() == cli.resubmission_timeout
                &&& c.resubmission_timeout.nanos_spec() == 0
                &&& c.mnemonic@ == given_or(cli.mnemonic, env.mnemonic)
                &&& c.output_private_key@ == given_or(cli.output_private_key, env.output_private_key)
                &&& c.output_hd_path@ == cli.output_hd_path@
                &&& c.allow_non_finalized == cli.allow_non_finalized
            },
    {
        let l1_client_rpc_url = cli.l1_client_rpc_url.unwrap_or(env.l1_client_rpc_url);
        let rollup_node_rpc_url = cli.rollup_node_rpc_url.unwrap_or(env.rollup_node_rpc_url);
        let output_oracle_address = cli.output_oracle_address.unwrap_or(env.output_oracle_address);
        let mnemonic = cli.mnemonic.unwrap_or(env.mnemonic);
        let output_private_key = cli.output_private_key.unwrap_or(env.output_private_key);
        let address = match parse_address(output_oracle_address.as_str()) {
            Some(address) => address,
            None => return Err(ConfigError::InvalidOutputOracleAddress(output_oracle_address)),
        };
        Ok(Config {
            l1_client_rpc_url,
            rollup_node_rpc_url,
            output_oracle_address: address,
            polling_interval: TimeSpan::from_secs(cli.polling_interval),
            num_confirmation: cli.num_confirmation,
            safe_abort_nonce_too_low: cli.safe_abort_nonce_too_low,
            resubmission_timeout: TimeSpan::from_secs(cli.resubmission_timeout),
            mnemonic,
            output_private_key,
            output_hd_path: cli.output_hd_path,
            allow_non_finalized: cli.allow_non_finalized,
        })
    }
}

/// An option given on the command line wins over the environment; the
/// environment's value is used only where the option is absent.
pub proof fn lemma_given_option_wins(option: Option<String>, fallback: String)
    ensures
        option matches Some(s) ==> given_or(option, fallback) == s@,
        option is None ==> given_or(option, fallback) == fallback@,
{
}

} // verus!
