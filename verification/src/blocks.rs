//! Concrete blocks, and a composed system of them.
//!
//! `OneShotDigital` is the reference sensor block: one boolean output fed
//! by a bound digital-reader capability. `SampleCounter` is a downstream
//! block: one boolean input and one persistent counter state.
//! `ComposedSystem` wires the two together, producer before consumer, and
//! is itself a block satisfying the same lifecycle protocol.

use vstd::prelude::*;

use crate::errors::RuntimeError;
use crate::peripheral::DigitalReader;
use crate::system::{DynamicalSystem, SystemStateInfo};
use crate::system_storage::{RequiresStorage, StorageSize};
use crate::variables::{DiscreteState, Input, Output};

verus! {

/// A one-shot digital sensor block: one `Output<bool>` and a bound
/// digital-reader capability. `init` seeds the output with the first
/// sensor read; each `step` overwrites it with a fresh read, stamped
/// with the current `SystemStateInfo`.
pub struct OneShotDigital<D: DigitalReader> {
    sensor: D,
    output: Output<bool>,
    trace: Ghost<Seq<u64>>,
}

impl<D: DigitalReader> OneShotDigital<D> {
    /// The currently published output value.
    pub closed spec fn out(&self) -> bool
        recommends
            self.ready(),
    {
        self.output.val()
    }

    /// A block bound to the given capability instance. Binding happens
    /// here, once, at composition time; the block exclusively owns its
    /// driver from then on.
    pub fn new(sensor: D) -> (r: Self)
        ensures
            !r.ready(),
    {
        OneShotDigital { sensor, output: Output::new(), trace: Ghost(Seq::empty()) }
    }

    /// Reads the published output; what the composed system copies into
    /// downstream inputs.
    pub fn output_value(&self) -> (r: bool)
        requires
            self.ready(),
        ensures
            r == self.out(),
    {
        self.output.get()
    }

    /// Publishes one acquired sample. This is where a sample, however
    /// it was read, becomes the block's output: the published value
    /// equals the sample, exactly.
    pub fn apply_sample(&mut self, value: bool, ssi: &SystemStateInfo)
        requires
            old(self).ready(),
        ensures
            final(self).ready(),
            final(self).out() == value,
            final(self).trace() == old(self).trace().push(ssi.step_index),
    {
        self.output.update(value, ssi);
        self.trace = Ghost(self.trace@.push(ssi.step_index));
    }
}

impl<D: DigitalReader> DynamicalSystem for OneShotDigital<D> {
    /// The output has been seeded.
    closed spec fn ready(&self) -> bool {
        self.output.is_initialized()
    }

    closed spec fn trace(&self) -> Seq<u64> {
        self.trace@
    }

    fn is_ready(&self) -> (r: bool)
        ensures
            r == self.ready(),
    {
        self.output.defined()
    }

    /// First-sample acquisition: reads the sensor once and seeds the
    /// output with it. A block that is already initialized stays as it
    /// is. On a driver error nothing is seeded and the system must not
    /// proceed to scheduling.
    fn init(&mut self) -> (r: Result<(), RuntimeError>)
        ensures
            r is Ok ==> final(self).ready(),
            r is Ok ==> final(self).trace() == Seq::<u64>::empty(),
            old(self).ready() ==> r is Ok && final(self).out() == old(self).out(),
            r is Err ==> r->Err_0 is Initialization && !final(self).ready(),
    {
        if self.output.defined() {
            self.trace = Ghost(Seq::empty());
            return Ok(());
        }
        match self.sensor.read() {
            Ok(v) => {
                self.output.initialize(v);
                self.trace = Ghost(Seq::empty());
                Ok(())
            },
            Err(e) => Err(RuntimeError::Initialization(e)),
        }
    }

    /// One discrete update: a fresh read overwrites the output. On a
    /// driver error the published output keeps its previous value and
    /// the error surfaces as a `Step` failure.
    fn step(&mut self, ssi: &SystemStateInfo) -> (r: Result<(), RuntimeError>)
        ensures
            r is Ok ==> final(self).ready(),
            r is Ok ==> final(self).trace() == old(self).trace().push(ssi.step_index),
            r is Err ==> r->Err_0 is Step && final(self).ready() && final(self).out() == old(
                self,
            ).out(),
    {
        match self.sensor.read() {
            Ok(v) => {
                self.apply_sample(v, ssi);
                Ok(())
            },
            Err(e) => Err(RuntimeError::Step(e)),
        }
    }
}

impl<D: DigitalReader> RequiresStorage for OneShotDigital<D> {
    /// One boolean output.
    open spec fn storage_size_spec(&self) -> StorageSize {
        StorageSize { parameter_bytes: 0, input_bytes: 0, output_bytes: 1, discrete_state_bytes: 0 }
    }

    fn storage_size(&self) -> (r: StorageSize)
        ensures
            r == self.storage_size_spec(),
    {
        StorageSize { parameter_bytes: 0, input_bytes: 0, output_bytes: 1, discrete_state_bytes: 0 }
    }
}

/// A downstream block: counts, in a persistent `DiscreteState`, how many
/// steps observed a `true` on its boolean input. The counter saturates at
/// `u64::MAX` rather than wrap.
pub struct SampleCounter {
    input: Input<bool>,
    count: DiscreteState<u64>,
    trace: Ghost<Seq<u64>>,
}

impl SampleCounter {
    /// The most recently latched input value.
    pub closed spec fn in_val(&self) -> bool {
        self.input.val()
    }

    /// The persistent counter value.
    pub closed spec fn count_val(&self) -> u64
        recommends
            self.ready(),
    {
        self.count.val()
    }

    /// A fresh counter block; its input reads `false` until the
    /// composition latches a produced value into it.
    pub fn new() -> (r: Self)
        ensures
            !r.ready(),
            !r.in_val(),
    {
        SampleCounter {
            input: Input::new(false),
            count: DiscreteState::new(),
            trace: Ghost(Seq::empty()),
        }
    }

    /// Reads the counter state.
    pub fn count_value(&self) -> (r: u64)
        requires
            self.ready(),
        ensures
            r == self.count_val(),
    {
        self.count.get()
    }

    /// Latches a fresh value into the block's input. Called by the
    /// composed system's propagation pass; everything else about the
    /// block - its state, its readiness, its step record - is untouched.
    pub fn latch_input(&mut self, value: bool)
        ensures
            final(self).in_val() == value,
            final(self).ready() == old(self).ready(),
            old(self).ready() ==> final(self).count_val() == old(self).count_val(),
            final(self).trace() == old(self).trace(),
    {
        self.input.latch(value);
    }
}

impl DynamicalSystem for SampleCounter {
    /// The counter state has been seeded.
    closed spec fn ready(&self) -> bool {
        self.count.is_initialized()
    }

    closed spec fn trace(&self) -> Seq<u64> {
        self.trace@
    }

    fn is_ready(&self) -> (r: bool)
        ensures
            r == self.ready(),
    {
        self.count.defined()
    }

    /// State seeding: the counter starts (or restarts) at zero. Cannot
    /// fail.
    fn init(&mut self) -> (r: Result<(), RuntimeError>)
        ensures
            r is Ok,
            final(self).ready(),
            final(self).trace() == Seq::<u64>::empty(),
            final(self).count_val() == 0,
            final(self).in_val() == old(self).in_val(),
    {
        if self.count.defined() {
            self.count.set(0);
        } else {
            self.count.initialize(0);
        }
        self.trace = Ghost(Seq::empty());
        Ok(())
    }

    /// One discrete update: the counter value after the step is exactly
    /// the value set during the step - its previous value, plus one if
    /// the latched input read `true` (saturating). Nothing else writes
    /// it. Cannot fail.
    fn step(&mut self, _ssi: &SystemStateInfo) -> (r: Result<(), RuntimeError>)
        ensures
            r is Ok,
            final(self).ready(),
            final(self).trace() == old(self).trace().push(_ssi.step_index),
            final(self).count_val() == (if old(self).in_val() && old(self).count_val()
                < u64::MAX {
                (old(self).count_val() + 1) as u64
            } else {
                old(self).count_val()
            }),
            final(self).in_val() == old(self).in_val(),
    {
        let observed = self.input.get();
        if observed {
            let current = self.count.get();
            if current < u64::MAX {
                self.count.set(current + 1);
            }
        }
        self.trace = Ghost(self.trace@.push(_ssi.step_index));
        Ok(())
    }
}

impl RequiresStorage for SampleCounter {
    /// One boolean input, one eight-byte counter state.
    open spec fn storage_size_spec(&self) -> StorageSize {
        StorageSize { parameter_bytes: 0, input_bytes: 1, output_bytes: 0, discrete_state_bytes: 8 }
    }

    fn storage_size(&self) -> (r: StorageSize)
        ensures
            r == self.storage_size_spec(),
    {
        StorageSize { parameter_bytes: 0, input_bytes: 1, output_bytes: 0, discrete_state_bytes: 8 }
    }
}

/// A two-block composed system - a sensor producing a boolean and a
/// counter consuming it - in the fixed topological order established at
/// composition time: producer before consumer.
///
/// Cross-block data flow is a value copy, never aliasing: before the
/// blocks step, the producer's current output (the value as of the end
/// of the previous step, or of `init` before the first step) is latched
/// into the consumer's input. The consumer therefore sees at step `N`
/// exactly the producer's output as of the end of step `N - 1`, and is
/// never stale by more than one step, never torn.
pub struct ComposedSystem<D: DigitalReader> {
    producer: OneShotDigital<D>,
    consumer: SampleCounter,
    trace: Ghost<Seq<u64>>,
}

impl<D: DigitalReader> ComposedSystem<D> {
    /// The producer's currently published output.
    pub closed spec fn producer_out(&self) -> bool
        recommends
            self.ready(),
    {
        self.producer.out()
    }

    /// The value currently latched into the consumer's input.
    pub closed spec fn consumer_in(&self) -> bool {
        self.consumer.in_val()
    }

    /// The consumer's persistent counter.
    pub closed spec fn consumer_count(&self) -> u64
        recommends
            self.ready(),
    {
        self.consumer.count_val()
    }

    /// Wires the two blocks together. The graph - who produces, who
    /// consumes, in which order - is fixed here and never changes while
    /// the system runs.
    pub fn new(producer: OneShotDigital<D>, consumer: SampleCounter) -> (r: Self)
        ensures
            r.ready() == (producer.ready() && consumer.ready()),
            r.ready() ==> r.producer_out() == producer.out() && r.consumer_count()
                == consumer.count_val(),
    {
        ComposedSystem { producer, consumer, trace: Ghost(Seq::empty()) }
    }

    /// Reads the consumer's counter state.
    pub fn count_value(&self) -> (r: u64)
        requires
            self.ready(),
        ensures
            r == self.consumer_count(),
    {
        self.consumer.count_value()
    }

    /// Reads the producer's published output.
    pub fn output_value(&self) -> (r: bool)
        requires
            self.ready(),
        ensures
            r == self.producer_out(),
    {
        self.producer.output_value()
    }
}

impl<D: DigitalReader> DynamicalSystem for ComposedSystem<D> {
    /// Every constituent block is ready.
    closed spec fn ready(&self) -> bool {
        self.producer.ready() && self.consumer.ready()
    }

    closed spec fn trace(&self) -> Seq<u64> {
        self.trace@
    }

    fn is_ready(&self) -> (r: bool)
        ensures
            r == self.ready(),
    {
        self.producer.is_ready() && self.consumer.is_ready()
    }

    /// Recursively initializes the constituent blocks, in topological
    /// order, then latches the producer's post-`init` output into the
    /// consumer's input, so the first step reads a defined value. On
    /// the first failure the whole `init` fails and scheduling must not
    /// start.
    fn init(&mut self) -> (r: Result<(), RuntimeError>)
        ensures
            r is Ok ==> final(self).ready(),
            r is Ok ==> final(self).trace() == Seq::<u64>::empty(),
            r is Ok ==> final(self).consumer_in() == final(self).producer_out(),
            r is Ok ==> final(self).consumer_count() == 0,
            r is Err ==> r->Err_0 is Initialization,
    {
        if !self.producer.is_ready() {
            match self.producer.init() {
                Ok(()) => (),
                Err(e) => {
                    return Err(e);
                },
            }
        }
        match self.consumer.init() {
            Ok(()) => (),
            Err(e) => {
                return Err(e);
            },
        }
        let first = self.producer.output_value();
        self.consumer.latch_input(first);
        self.trace = Ghost(Seq::empty());
        Ok(())
    }

    /// One tick of the whole system: latch, then step every block in
    /// topological order.
    ///
    /// The value latched into the consumer's input is the producer's
    /// output as of the end of the previous step, and the consumer's
    /// state after the tick is a function of its own previous state and
    /// that latched input alone - no unrelated block writes it. A failed
    /// step leaves the consumer's state untouched and surfaces the
    /// error; a failed tick is never skipped over silently.
    fn step(&mut self, ssi: &SystemStateInfo) -> (r: Result<(), RuntimeError>)
        ensures
            r is Ok ==> final(self).ready(),
            r is Ok ==> final(self).trace() == old(self).trace().push(ssi.step_index),
            r is Ok ==> final(self).consumer_in() == old(self).producer_out(),
            r is Ok ==> final(self).consumer_count() == (if old(self).producer_out() && old(
                self,
            ).consumer_count() < u64::MAX {
                (old(self).consumer_count() + 1) as u64
            } else {
                old(self).consumer_count()
            }),
            r is Err ==> r->Err_0 is Step && final(self).consumer_count() == old(
                self,
            ).consumer_count(),
    {
        let previous = self.producer.output_value();
        self.consumer.latch_input(previous);
        match self.producer.step(ssi) {
            Ok(()) => (),
            Err(e) => {
                return Err(e);
            },
        }
        match self.consumer.step(ssi) {
            Ok(()) => (),
            Err(e) => {
                return Err(e);
            },
        }
        self.trace = Ghost(self.trace@.push(ssi.step_index));
        Ok(())
    }
}

impl<D: DigitalReader> RequiresStorage for ComposedSystem<D> {
    /// The accumulated requirement of both constituent blocks.
    open spec fn storage_size_spec(&self) -> StorageSize {
        StorageSize { parameter_bytes: 0, input_bytes: 1, output_bytes: 1, discrete_state_bytes: 8 }
    }

    fn storage_size(&self) -> (r: StorageSize)
        ensures
            r == self.storage_size_spec(),
    {
        StorageSize { parameter_bytes: 0, input_bytes: 1, output_bytes: 1, discrete_state_bytes: 8 }
    }
}

} // verus!
