use vstd::prelude::*;

use crate::chain::Chain;
use crate::error::{ConfigIssue, SyncError};

verus! {

/// Snapshots are taken at every multiple of this block number unless told otherwise.
pub const DEFAULT_CHUNK_SIZE: u64 = 1000;

/// The reader never asks storage for more blocks than this at once.
pub const DEFAULT_READ_LIMIT: u64 = 100000;

/// Testnet snapshots older than this height cannot be replayed.
pub const TESTNET_BLOCK_THRESHOLD: u64 = 26800000;

/// The block a run from genesis starts with.
pub const GENESIS_START_BLOCK: u64 = 1;

/// The two on-disk snapshot layouts.
#[derive(Debug, Clone, Copy, PartialEq, Eq, Structural)]
pub enum SnapshotFormat {
    /// A state export of the consensus engine.
    Abci,
    /// A native account/storage dump.
    Evm,
}

/// The tunable values of a run.
#[derive(Debug, Clone, Copy, PartialEq, Eq, Structural)]
pub struct SyncConfig {
    pub chunk_size: u64,
    pub read_limit: u64,
    pub testnet_threshold: u64,
}

impl SyncConfig {
    /// The usual settings, with a chosen chunk size.
    pub fn with_chunk_size(chunk_size: u64) -> (r: SyncConfig)
        ensures
            r.chunk_size == chunk_size,
            r.read_limit == DEFAULT_READ_LIMIT,
            r.testnet_threshold == TESTNET_BLOCK_THRESHOLD,
    {
        SyncConfig { chunk_size, read_limit: DEFAULT_READ_LIMIT, testnet_threshold: TESTNET_BLOCK_THRESHOLD }
    }
}

/// Whether a run on `chain` may start without a state file.
pub open spec fn may_start_from_genesis(chain: Chain) -> bool {
    chain != Chain::Testnet
}

/// The check made before any I/O: Testnet needs a state file.
pub fn check_state_file_needed(chain: Chain, has_state_file: bool) -> (r: Result<(), SyncError>)
    ensures
        r is Ok <==> (has_state_file || may_start_from_genesis(chain)),
        r is Err ==> r == Err::<(), SyncError>(SyncError::Config(ConfigIssue::TestnetNeedsSnapshot)),
{
    if !has_state_file && chain == Chain::Testnet {
        Err(SyncError::Config(ConfigIssue::TestnetNeedsSnapshot))
    } else {
        Ok(())
    }
}

/// The block a run starts with: the restored cursor, or genesis.
pub open spec fn spec_start_block(chain: Chain, restored: Option<u64>, threshold: u64) -> Result<u64, SyncError> {
    match restored {
        None => if chain == Chain::Testnet {
            Err(SyncError::Config(ConfigIssue::TestnetNeedsSnapshot))
        } else {
            Ok(GENESIS_START_BLOCK)
        },
        Some(b) => if chain == Chain::Testnet && b < threshold {
            Err(SyncError::Config(ConfigIssue::TestnetBelowThreshold))
        } else {
            Ok(b)
        },
    }
}

/// Decides where a run starts, given the cursor of the snapshot it resumes from, if any.
pub fn resolve_start_block(chain: Chain, restored: Option<u64>, threshold: u64) -> (r: Result<u64, SyncError>)
    ensures
        r == spec_start_block(chain, restored, threshold),
{
    match restored {
        None => {
            if chain == Chain::Testnet {
                Err(SyncError::Config(ConfigIssue::TestnetNeedsSnapshot))
            } else {
                Ok(GENESIS_START_BLOCK)
            }
        },
        Some(b) => {
            if chain == Chain::Testnet && b < threshold {
                Err(SyncError::Config(ConfigIssue::TestnetBelowThreshold))
            } else {
                Ok(b)
            }
        },
    }
}

/// Picks the state file to inspect: exactly one of the two must be named.
pub fn select_state_file(abci: Option<String>, evm: Option<String>) -> (r: Result<(SnapshotFormat, String), SyncError>)
    ensures
        match (abci, evm) {
            (Some(a), None) => r matches Ok((f, s)) && f == SnapshotFormat::Abci && s@ == a@,
            (None, Some(e)) => r matches Ok((f, s)) && f == SnapshotFormat::Evm && s@ == e@,
            (None, None) => r == Err::<(SnapshotFormat, String), SyncError>(SyncError::Config(ConfigIssue::NoStateFile)),
            (Some(_), Some(_)) => r == Err::<(SnapshotFormat, String), SyncError>(SyncError::Config(ConfigIssue::AmbiguousStateFile)),
        },
{
    match (abci, evm) {
        (Some(a), None) => Ok((SnapshotFormat::Abci, a)),
        (None, Some(e)) => Ok((SnapshotFormat::Evm, e)),
        (None, None) => Err(SyncError::Config(ConfigIssue::NoStateFile)),
        (Some(_), Some(_)) => Err(SyncError::Config(ConfigIssue::AmbiguousStateFile)),
    }
}

} // verus!
