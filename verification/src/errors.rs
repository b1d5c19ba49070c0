//! The errors of the proposal service.

use vstd::prelude::*;

verus! {

/// An error of the proposal client.
#[derive(Debug)]
pub enum VarroError {
    /// Missing client
    MissingClient,
}

/// An error of a rollup node client.
#[derive(Debug)]
pub enum RollupNodeError {
    /// Failed to create a new rollup node from the given rpc url.
    RollupNodeInvalidUrl(String),
}

/// An error in making or using a configuration.
#[derive(Debug)]
pub enum ConfigError {
    /// L1 Client URL is invalid
    InvalidL1ClientUrl,
    /// Rollup Node RPC URL is invalid
    InvalidRollupNodeRpcUrl,
    /// Failed to create toml file on disk
    TomlFileCreation(String),
    /// Failed to translate the configuration to a toml object
    ConfigTomlConversion,
    /// Failed to write the configuration to the toml file
    TomlFileWrite,
    /// An invalid output oracle address was provided
    InvalidOutputOracleAddress(String),
    /// Failed to parse the given output private key as a 32 byte hex string.
    InvalidOutputPrivateKey(String),
}

/// A part that a client builder lacks.
#[derive(Debug, PartialEq, Eq, Structural)]
pub enum VarroBuilderError {
    /// No L1 client was given.
    MissingL1Client,
    /// No rollup node was given.
    MissingRollupNode,
    /// No output oracle was given.
    MissingOutputOracle,
    /// No proposer was given.
    MissingProposer,
    /// No output private key was given.
    MissingOutputPrivateKey,
    /// No polling interval was given.
    MissingPollingInterval,
    /// No backoff for sending to the transaction pool was given.
    MissingTxBackoff,
}

} // verus!
