//! The fixed-step scheduler.
//!
//! The runner drives the DynamicalSystem lifecycle at a fixed cadence:
//! `init` once, then one `step` per tick, each stamped with a
//! `SystemStateInfo` carrying the tick index and the elapsed logical
//! time. Time here is logical: tick `t` happens at `t` times the
//! configured interval. The host decides when wall-clock time has
//! reached the next tick boundary and how many ticks to drive; the
//! drift policy is therefore explicit: every tick is executed, none is
//! skipped to catch up, so a step that overruns its interval delays the
//! following ticks rather than dropping them.
//!
//! A failed step stops the loop and surfaces the error; the runner never
//! retries or silently skips a failed tick, because discrete-state
//! consistency across a skipped step cannot be guaranteed. Cancellation
//! is cooperative and takes effect at tick boundaries only - a step is
//! never pre-empted mid-execution, so a block's state is never observed
//! half-updated.

use vstd::prelude::*;

use crate::errors::RuntimeError;
use crate::system::{DynamicalSystem, SystemStateInfo};

verus! {

/// Configuration of a fixed-step run: the tick interval.
#[derive(Clone, Copy, Debug, PartialEq, Eq, Structural)]
pub struct FixedStepRunSettings {
    /// Duration of one scheduling tick, in microseconds.
    pub interval_us: u64,
}

/// Where the runner stands in its own lifecycle.
#[derive(Clone, Copy, Debug, PartialEq, Eq, Structural)]
pub enum RunnerPhase {
    /// Built, `init` not yet run.
    Created,
    /// `init` succeeded; ticks may be driven.
    Ready,
    /// `init` or a step failed; the error was reported to the caller.
    Failed,
    /// A stop was requested at a tick boundary.
    Stopped,
}

/// The tick indices `0, 1, ..., n - 1`: what a run of `n` ticks stamps
/// into its steps, in order.
pub open spec fn tick_indices(n: int) -> Seq<u64> {
    Seq::new(n as nat, |i: int| i as u64)
}

/// The tick indices a run reports are strictly increasing: later steps
/// always see larger indices.
pub proof fn lemma_tick_indices_strictly_increasing(n: int, i: int, j: int)
    requires
        0 <= i < j < n <= u64::MAX,
    ensures
        tick_indices(n)[i] < tick_indices(n)[j],
{
}

/// The fixed-step scheduler around one composed system.
pub struct FixedStepRunner<S: DynamicalSystem> {
    system: S,
    settings: FixedStepRunSettings,
    ticks: u64,
    elapsed_us: u64,
    phase: RunnerPhase,
}

impl<S: DynamicalSystem> FixedStepRunner<S> {
    /// The driven system.
    pub closed spec fn sys(&self) -> S {
        self.system
    }

    /// The driven system's step record.
    pub closed spec fn sys_trace(&self) -> Seq<u64> {
        self.system.trace()
    }

    /// The configured settings.
    pub closed spec fn settings_spec(&self) -> FixedStepRunSettings {
        self.settings
    }

    /// Ticks completed since the last successful `init`.
    pub closed spec fn ticks_spec(&self) -> int {
        self.ticks as int
    }

    /// Where the runner stands.
    pub closed spec fn phase_spec(&self) -> RunnerPhase {
        self.phase
    }

    /// While the runner is ready, its bookkeeping agrees with the
    /// system: the system is ready, exactly the ticks counted so far
    /// have been stepped, their stamped indices were `0..ticks` in
    /// order, and the elapsed time is ticks times the interval.
    pub closed spec fn wf(&self) -> bool {
        self.phase is Ready ==> {
            &&& self.system.ready()
            &&& self.system.trace() == tick_indices(self.ticks as int)
            &&& self.elapsed_us as int == self.ticks as int * self.settings.interval_us as int
        }
    }

    /// A runner around a composed system; `init` has not run yet.
    pub fn new(system: S, settings: FixedStepRunSettings) -> (r: Self)
        ensures
            r.wf(),
            r.phase_spec() is Created,
            r.settings_spec() == settings,
            r.ticks_spec() == 0,
    {
        FixedStepRunner { system, settings, ticks: 0, elapsed_us: 0, phase: RunnerPhase::Created }
    }

    /// Runs the system's `init` once. On success the runner becomes
    /// ready with zero ticks on the clock; if `init` fails, the run
    /// never starts and the error is reported to the caller.
    pub fn init(&mut self) -> (r: Result<(), RuntimeError>)
        ensures
            final(self).wf(),
            final(self).settings_spec() == old(self).settings_spec(),
            r is Ok ==> final(self).phase_spec() is Ready && final(self).ticks_spec() == 0,
            r is Err ==> final(self).phase_spec() is Failed,
    {
        match self.system.init() {
            Ok(()) => {
                self.ticks = 0;
                self.elapsed_us = 0;
                self.phase = RunnerPhase::Ready;
                proof {
                    assert(self.system.trace() =~= tick_indices(0));
                }
                Ok(())
            },
            Err(e) => {
                self.phase = RunnerPhase::Failed;
                Err(e)
            },
        }
    }

    /// Drives exactly `budget` ticks, one `step` per tick.
    ///
    /// Each step is stamped with the next tick index and the elapsed
    /// logical time. A runner that is not ready - never initialized,
    /// failed, or stopped - refuses to step at all. On success the
    /// system has been stepped exactly `budget` more times, and its
    /// whole step record reads `0, 1, ..., ticks - 1`: as many `step`
    /// invocations as ticks configured, with strictly increasing
    /// indices. A failed step stops the run at that tick and surfaces
    /// the block's error unchanged.
    pub fn run_ticks(&mut self, budget: u64) -> (r: Result<(), RuntimeError>)
        requires
            old(self).wf(),
            old(self).ticks_spec() + budget <= u64::MAX,
            (old(self).ticks_spec() + budget) * old(self).settings_spec().interval_us
                <= u64::MAX,
        ensures
            final(self).wf(),
            final(self).settings_spec() == old(self).settings_spec(),
            !(old(self).phase_spec() is Ready) ==> r is Err && r->Err_0 is NotReady
                && *final(self) == *old(self),
            old(self).phase_spec() is Ready && r is Ok ==> {
                &&& final(self).phase_spec() is Ready
                &&& final(self).ticks_spec() == old(self).ticks_spec() + budget
                &&& final(self).sys_trace() == tick_indices(old(self).ticks_spec() + budget)
            },
            old(self).phase_spec() is Ready && r is Err ==> {
                &&& final(self).phase_spec() is Failed
                &&& old(self).ticks_spec() <= final(self).ticks_spec() < old(self).ticks_spec()
                    + budget
            },
    {
        match self.phase {
            RunnerPhase::Ready => (),
            _ => {
                return Err(RuntimeError::NotReady);
            },
        }
        let ghost start_ticks = self.ticks as int;
        let interval = self.settings.interval_us;
        let mut driven: u64 = 0;
        while driven < budget
            invariant
                self.wf(),
                self.phase is Ready,
                old(self).phase_spec() is Ready,
                start_ticks == old(self).ticks_spec(),
                self.settings == old(self).settings_spec(),
                self.settings.interval_us == interval,
                0 <= driven <= budget,
                self.ticks as int == start_ticks + driven,
                start_ticks + budget <= u64::MAX,
                (start_ticks + budget) * interval <= u64::MAX,
            decreases budget - driven,
        {
            let ssi = SystemStateInfo { step_index: self.ticks, time_us: self.elapsed_us };
            match self.system.step(&ssi) {
                Ok(()) => {
                    proof {
                        assert(tick_indices(self.ticks as int).push(self.ticks) =~= tick_indices(
                            self.ticks as int + 1,
                        ));
                        assert((self.ticks as int + 1) * interval <= (start_ticks + budget)
                            * interval) by (nonlinear_arith)
                            requires
                                self.ticks as int + 1 <= start_ticks + budget,
                                interval >= 0,
                        ;
                        assert(self.elapsed_us as int + interval == (self.ticks as int + 1)
                            * interval) by (nonlinear_arith)
                            requires
                                self.elapsed_us as int == self.ticks as int * interval as int,
                        ;
                    }
                    self.ticks = self.ticks + 1;
                    self.elapsed_us = self.elapsed_us + interval;
                },
                Err(e) => {
                    self.phase = RunnerPhase::Failed;
                    return Err(e);
                },
            }
            driven = driven + 1;
        }
        Ok(())
    }

    /// Requests cancellation. Takes effect immediately - the runner is
    /// between ticks whenever this can be called, so no step is ever
    /// pre-empted mid-execution. A runner that is not ready keeps its
    /// phase.
    pub fn request_stop(&mut self)
        ensures
            final(self).wf(),
            final(self).settings_spec() == old(self).settings_spec(),
            final(self).ticks_spec() == old(self).ticks_spec(),
            final(self).sys() == old(self).sys(),
            old(self).phase_spec() is Ready ==> final(self).phase_spec() is Stopped,
            !(old(self).phase_spec() is Ready) ==> final(self).phase_spec() == old(
                self,
            ).phase_spec(),
    {
        match self.phase {
            RunnerPhase::Ready => {
                self.phase = RunnerPhase::Stopped;
            },
            _ => (),
        }
    }

    /// Ticks completed since the last successful `init`.
    pub fn ticks(&self) -> (r: u64)
        ensures
            r as int == self.ticks_spec(),
    {
        self.ticks
    }

    /// Where the runner stands.
    pub fn phase(&self) -> (r: RunnerPhase)
        ensures
            r == self.phase_spec(),
    {
        self.phase
    }

    /// Read access to the driven system, for diagnostics.
    pub fn system(&self) -> (r: &S)
        ensures
            *r == self.sys(),
    {
        &self.system
    }

    /// Takes the system back out of the runner.
    pub fn into_system(self) -> (r: S)
        ensures
            r == self.sys(),
    {
        self.system
    }
}

} // verus!
