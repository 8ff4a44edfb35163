//! Error taxonomy of the runtime.
//!
//! Errors are returned, never used for normal control flow. A fatal error
//! stops the run; retry or restart policy is the caller's responsibility.

use vstd::prelude::*;

verus! {

/// Error reported by a peripheral driver on a failed read or write.
///
/// Drivers are external; the runtime only carries their numeric error code
/// upward, unchanged.
#[derive(Clone, Copy, Debug, PartialEq, Eq, Structural)]
pub struct PeripheralError {
    /// Driver-specific error code.
    pub code: u32,
}

/// A requested storage layout exceeded what the storage strategy can hold.
///
/// Detected at build time, before any block executes; the caller must not
/// proceed to `init`.
#[derive(Clone, Copy, Debug, PartialEq, Eq, Structural)]
pub struct StorageOverflowError {
    /// Size in bytes of the slot that did not fit.
    pub requested: usize,
    /// Bytes still available under the strategy's capacity when the
    /// request was made.
    pub available: usize,
}

/// Fatal conditions surfaced by system construction and the lifecycle.
#[derive(Clone, Copy, Debug, PartialEq, Eq, Structural)]
pub enum RuntimeError {
    /// The storage budget was exceeded at build time.
    StorageOverflow(StorageOverflowError),
    /// A block's `init` failed (for example a peripheral handshake failure);
    /// the scheduling loop never starts.
    Initialization(PeripheralError),
    /// A block's `step` failed; the runner stops scheduling.
    Step(PeripheralError),
    /// A declared peripheral capability had no satisfying driver bound at
    /// composition time. Carries the index of the offending declaration.
    PeripheralBinding { reference_index: usize },
    /// Lifecycle misuse: the runner was asked to step a system that is not
    /// in a runnable state - its `init` has not completed successfully, a
    /// previous tick failed, or a stop was requested.
    NotReady,
}

/// Why a block or field definition could not be built from its raw
/// attribute form.
#[derive(Clone, Copy, Debug, PartialEq, Eq, Structural)]
pub enum DefinitionError {
    /// A field definition must hold exactly one name-to-attributes entry.
    NotSingleEntry,
    /// The `type` attribute is required and was absent or not textual.
    MissingType,
    /// The `default` attribute is required for this definition kind.
    MissingDefault,
    /// A discrete state definition needs an `initial` (or `default`) value.
    MissingInitial,
    /// The `type` attribute named no known field type.
    UnknownType,
}

} // verus!
