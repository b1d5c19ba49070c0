//! A proposal service for rollup stacks: it decides which L2 output roots are
//! proposed to the settlement layer, and with which configuration.

pub mod bytes;

pub mod errors;

pub mod hex;

pub mod keys;

pub mod rollup;

pub mod time;

pub mod builder;

pub mod cli;

pub mod client;

pub mod common;

pub mod config;

pub mod oracle;

pub mod proposals;
