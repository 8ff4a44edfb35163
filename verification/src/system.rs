//! The DynamicalSystem lifecycle protocol.
//!
//! Every block, and every composed system of blocks, satisfies the same
//! two-phase contract: `init` runs once and must leave every owned
//! `Output` and `DiscreteState` defined; `step` may only run after `init`
//! has returned success, and performs one discrete update.

use vstd::prelude::*;

use crate::errors::RuntimeError;

verus! {

/// Ephemeral, read-only timing context passed into every `step` call:
/// the tick index since the run started and the elapsed logical time.
/// Not persisted.
#[derive(Clone, Copy, Debug, PartialEq, Eq, Structural)]
pub struct SystemStateInfo {
    /// Index of the current tick, counted from zero.
    pub step_index: u64,
    /// Elapsed logical time in microseconds: tick index times the
    /// configured step interval.
    pub time_us: u64,
}

/// The two-phase lifecycle every block and composed system satisfies.
///
/// `ready` abstracts "`init` has completed without error". Nothing but a
/// successful `init` establishes it, and `step` demands it, so a `step`
/// can never run before `init` has returned success.
///
/// `trace` is the ghost record of the tick indices at which the system
/// has successfully stepped, oldest first. It costs nothing at runtime
/// and lets a scheduler's contract say exactly how often, and with which
/// tick indices, it drove the system.
pub trait DynamicalSystem: Sized {
    /// Whether `init` has completed without error.
    spec fn ready(&self) -> bool;

    /// Tick indices of the successful steps so far, oldest first.
    spec fn trace(&self) -> Seq<u64>;

    /// Whether `init` has completed without error, as a runtime query:
    /// what a host or scheduler checks before it dares to step.
    fn is_ready(&self) -> (r: bool)
        ensures
            r == self.ready(),
    ;

    /// Performs first-sample acquisition, state seeding and the peripheral
    /// handshake. On error the system does not proceed to scheduling.
    /// Must initialize every `Output` and `DiscreteState` it owns.
    fn init(&mut self) -> (r: Result<(), RuntimeError>)
        ensures
            r is Ok ==> final(self).ready(),
            r is Ok ==> final(self).trace() == Seq::<u64>::empty(),
    ;

    /// Performs one discrete update using current inputs, state,
    /// parameters and (optionally) peripheral I/O. May only run after a
    /// successful `init`, and must leave every `Output` and
    /// `DiscreteState` defined before returning.
    fn step(&mut self, ssi: &SystemStateInfo) -> (r: Result<(), RuntimeError>)
        requires
            old(self).ready(),
        ensures
            r is Ok ==> final(self).ready(),
            r is Ok ==> final(self).trace() == old(self).trace().push(ssi.step_index),
    ;
}

} // verus!
