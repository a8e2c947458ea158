//! The closed set of failures the reconciliation engine can report.
use vstd::prelude::*;

verus! {

/// Why a provisioning request was refused before any destructive action.
#[derive(Debug, Clone, Copy, PartialEq, Eq)]
pub enum PrivilegeReason {
    /// Rebuilding is destructive and is only allowed in unsafe (debug) mode.
    NotUnsafeMode,
    /// The connection target names no login user.
    MissingUsername,
    /// The connection target names no database, or an empty name.
    MissingDatabaseName,
    /// The login user may not create databases.
    NoCreatePrivilege,
}

/// Every failure the engine reports, as an explicit result value.
#[derive(Debug, Clone, PartialEq, Eq)]
pub enum RevError {
    /// The log's positions are not a contiguous range starting at zero.
    Discontinuity,
    /// File and log disagree at an already-applied position.
    Conflict {
        position: u64,
        file_text: String,
        log_text: String,
        file_path: String,
        target: String,
    },
    /// The log holds more statements than the file: the file is outdated.
    StaleFile { file_path: String },
    /// A schema statement was rejected when it was applied.
    ApplyFailure { position: u64, statement: String, detail: String },
    /// A file or connection operation failed.
    IoFailure { detail: String },
    /// A provisioning pre-flight check failed.
    Privilege { reason: PrivilegeReason },
}

} // verus!
