//! The data that a rollup node reports: its sync status and the outputs
//! that it computes at given L2 blocks.

use vstd::prelude::*;

verus! {

/// How far a rollup node has synced the L2 chain.
#[derive(Debug, Clone, Copy)]
pub struct SyncStatus {
    /// The latest L2 block derived from finalized L1 data.
    pub finalized_l2: u64,
    /// The latest L2 block derived from L1 data that is safe, though not yet finalized.
    pub safe_l2: u64,
}

/// A reference to an L2 block.
#[derive(Debug, Clone, Copy)]
pub struct L2BlockRef {
    /// The block's number.
    pub number: u64,
}

/// An output that a rollup node reports for an L2 block.
#[derive(Debug, Clone)]
pub struct OutputResponse {
    /// The version of the output root's format.
    pub version: Vec<u8>,
    /// The output root that a proposal commits to.
    pub output_root: Vec<u8>,
    /// The L2 block at which the output was taken.
    pub block_ref: L2BlockRef,
    /// The node's sync status when it computed the output.
    pub sync_status: SyncStatus,
}

} // verus!

verus! {

/// The output versions that proposals are made for.
#[derive(Debug, Clone, Copy)]
pub enum SupportedOutputVersion {
    /// The first output root format: its version is 32 zero bytes.
    V1,
}

/// The length of an output version, in bytes.
pub const OUTPUT_VERSION_LEN: usize = 32;

impl SupportedOutputVersion {
    /// The bytes that denote this version.
    pub open spec fn bytes(self) -> Seq<u8> {
        match self {
            SupportedOutputVersion::V1 => Seq::new(OUTPUT_VERSION_LEN as nat, |i: int| 0u8),
        }
    }

    /// Whether `version` denotes this version.
    pub fn equals(&self, version: &Vec<u8>) -> (b: bool)
        ensures
            b == (version@ == self.bytes()),
    {
        match self {
            SupportedOutputVersion::V1 => {
                if version.len() != OUTPUT_VERSION_LEN {
                    return false;
                }
                let mut i: usize = 0;
                while i < version.len()
                    invariant
                        version.len() == OUTPUT_VERSION_LEN,
                        i <= version.len(),
                        forall|j: int| 0 <= j < i ==> version@[j] == 0u8,
                    decreases version.len() - i,
                {
                    if version[i] != 0u8 {
                        assert(version@[i as int] != self.bytes()[i as int]);
                        return false;
                    }
                    i = i + 1;
                }
                assert(version@ =~= self.bytes());
                true
            },
        }
    }
}

} // verus!
