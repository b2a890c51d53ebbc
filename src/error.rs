use vstd::prelude::*;

verus! {

/// Why a run was refused before it started.
#[derive(Debug, Clone, Copy, PartialEq, Eq, Structural)]
pub enum ConfigIssue {
    /// Testnet can only be followed from a snapshot.
    TestnetNeedsSnapshot,
    /// A Testnet snapshot older than the network's threshold height.
    TestnetBelowThreshold,
    /// Neither state file was named.
    NoStateFile,
    /// Both state files were named.
    AmbiguousStateFile,
}

/// Every failure a sync run can end with.
#[derive(Debug, Clone, Copy, PartialEq, Eq, Structural)]
pub enum SyncError {
    /// The metadata request failed or its answer could not be read.
    Network,
    /// Block or snapshot storage could not be read or written.
    Io,
    /// A snapshot file is malformed or in the other format.
    Deserialization,
    /// A block was offered out of order.
    State { expected: u64, found: u64 },
    /// The requested run is not allowed.
    Config(ConfigIssue),
}

} // verus!
