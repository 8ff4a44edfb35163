//! Lifecycle, propagation and scheduling behavior.

use dynsys::peripheral::SCRIPT_EXHAUSTED;
use dynsys::{
    ComposedSystem, DiscreteState, DynamicalSystem, FixedStepRunSettings, FixedStepRunner, Input,
    OneShotDigital, Output, Parameter, PeripheralError, RequiresStorage, RunnerPhase,
    RuntimeError, SampleCounter, ScriptedDigitalReader, SystemStateInfo,
};

fn settings() -> FixedStepRunSettings {
    FixedStepRunSettings { interval_us: 1000 }
}

#[test]
fn variables_hold_what_was_written() {
    let p = Parameter::new(42i32);
    assert_eq!(p.get(), 42);
    let mut i = Input::new(false);
    assert!(!i.get());
    i.latch(true);
    assert!(i.get());
    let mut o = Output::new();
    assert!(!o.defined());
    o.initialize(7i32);
    assert!(o.defined());
    assert_eq!(o.get(), 7);
    o.update(9, &SystemStateInfo { step_index: 0, time_us: 0 });
    assert_eq!(o.get(), 9);
    let mut d = DiscreteState::new();
    d.initialize(1u64);
    d.set(5);
    assert_eq!(d.get(), 5);
}

#[test]
fn one_shot_digital_replays_its_sensor() {
    // the reference scenario: a one-shot digital block bound to a mock
    // capability returning the sequence [1, 0, 1]
    let reader = ScriptedDigitalReader::new(vec![true, false, true]);
    let mut block = OneShotDigital::new(reader);
    assert!(!block.is_ready());
    block.init().unwrap();
    assert!(block.is_ready());
    assert!(block.output_value());
    let ssi = SystemStateInfo { step_index: 0, time_us: 0 };
    block.step(&ssi).unwrap();
    assert!(!block.output_value());
    let ssi = SystemStateInfo { step_index: 1, time_us: 1000 };
    block.step(&ssi).unwrap();
    assert!(block.output_value());
    // the sequence is exhausted: the next step fails, the output keeps
    // its last published value
    let ssi = SystemStateInfo { step_index: 2, time_us: 2000 };
    let e = block.step(&ssi).unwrap_err();
    assert_eq!(e, RuntimeError::Step(PeripheralError { code: SCRIPT_EXHAUSTED }));
    assert!(block.output_value());
}

#[test]
fn runner_halts_on_exhausted_sensor() {
    // the same scenario driven by the runner: init consumes the first
    // sample, two ticks consume the rest, the third tick fails and the
    // runner halts
    let reader = ScriptedDigitalReader::new(vec![true, false, true]);
    let block = OneShotDigital::new(reader);
    let mut runner = FixedStepRunner::new(block, settings());
    runner.init().unwrap();
    assert!(runner.system().output_value());
    runner.run_ticks(2).unwrap();
    assert_eq!(runner.ticks(), 2);
    assert!(runner.system().output_value());
    let e = runner.run_ticks(1).unwrap_err();
    assert_eq!(e, RuntimeError::Step(PeripheralError { code: SCRIPT_EXHAUSTED }));
    assert_eq!(runner.phase(), RunnerPhase::Failed);
    // once halted, the runner refuses further ticks
    assert_eq!(runner.run_ticks(1).unwrap_err(), RuntimeError::NotReady);
    assert_eq!(runner.ticks(), 2);
}

#[test]
fn step_never_runs_before_successful_init() {
    // a runner whose init has not run refuses to step at all
    let reader = ScriptedDigitalReader::new(vec![true]);
    let block = OneShotDigital::new(reader);
    let mut runner = FixedStepRunner::new(block, settings());
    assert_eq!(runner.phase(), RunnerPhase::Created);
    assert_eq!(runner.run_ticks(1).unwrap_err(), RuntimeError::NotReady);
    assert_eq!(runner.ticks(), 0);
    // the driven block was never stepped nor initialized
    assert!(!runner.system().is_ready());
}

#[test]
fn failed_init_never_starts_the_run() {
    // an empty script fails the very first read, during init
    let reader = ScriptedDigitalReader::new(vec![]);
    let block = OneShotDigital::new(reader);
    let mut runner = FixedStepRunner::new(block, settings());
    let e = runner.init().unwrap_err();
    assert_eq!(e, RuntimeError::Initialization(PeripheralError { code: SCRIPT_EXHAUSTED }));
    assert_eq!(runner.phase(), RunnerPhase::Failed);
    assert_eq!(runner.run_ticks(1).unwrap_err(), RuntimeError::NotReady);
}

#[test]
fn runner_drives_exactly_the_configured_ticks() {
    // a fixed-step run of k ticks invokes step exactly k times, with
    // increasing tick indices; the counter block witnesses each step
    let reader = ScriptedDigitalReader::new(vec![true; 8]);
    let producer = OneShotDigital::new(reader);
    let system = ComposedSystem::new(producer, SampleCounter::new());
    let mut runner = FixedStepRunner::new(system, settings());
    runner.init().unwrap();
    assert_eq!(runner.ticks(), 0);
    runner.run_ticks(3).unwrap();
    assert_eq!(runner.ticks(), 3);
    // every tick stepped the consumer once: with a constant true input
    // the counter counts every tick
    assert_eq!(runner.system().count_value(), 3);
    runner.run_ticks(4).unwrap();
    assert_eq!(runner.ticks(), 7);
    assert_eq!(runner.system().count_value(), 7);
}

#[test]
fn propagation_is_one_step_behind_the_producer() {
    // input seen at step N equals the producer's output at the end of
    // step N-1 (post-init for N = 1): with script [1, 1, 0, 1] the
    // counter sees 1 (post-init), 1 (after step 0), 0 (after step 1)
    let reader = ScriptedDigitalReader::new(vec![true, true, false, true]);
    let producer = OneShotDigital::new(reader);
    let system = ComposedSystem::new(producer, SampleCounter::new());
    let mut runner = FixedStepRunner::new(system, settings());
    runner.init().unwrap();
    assert_eq!(runner.system().count_value(), 0);
    runner.run_ticks(1).unwrap();
    // step 0 counted the post-init output (true)
    assert_eq!(runner.system().count_value(), 1);
    runner.run_ticks(1).unwrap();
    // step 1 counted the output of step 0 (true)
    assert_eq!(runner.system().count_value(), 2);
    runner.run_ticks(1).unwrap();
    // step 2 saw the output of step 1 (false): nothing counted
    assert_eq!(runner.system().count_value(), 2);
    // the producer's own output is meanwhile the step-2 sample
    assert!(runner.system().output_value());
}

#[test]
fn discrete_state_is_what_its_own_step_set() {
    // the counter's state after a step is exactly the value that step
    // set, and stepping the producer alone does not touch it
    let mut counter = SampleCounter::new();
    counter.init().unwrap();
    assert_eq!(counter.count_value(), 0);
    counter.latch_input(true);
    let ssi = SystemStateInfo { step_index: 0, time_us: 0 };
    counter.step(&ssi).unwrap();
    assert_eq!(counter.count_value(), 1);
    counter.latch_input(false);
    let ssi = SystemStateInfo { step_index: 1, time_us: 1000 };
    counter.step(&ssi).unwrap();
    assert_eq!(counter.count_value(), 1);

    let reader = ScriptedDigitalReader::new(vec![true, true]);
    let mut unrelated = OneShotDigital::new(reader);
    unrelated.init().unwrap();
    let ssi = SystemStateInfo { step_index: 2, time_us: 2000 };
    unrelated.step(&ssi).unwrap();
    // the unrelated block ran; the counter's state is unchanged
    assert_eq!(counter.count_value(), 1);
}

#[test]
fn stop_request_takes_effect_at_tick_boundary() {
    let reader = ScriptedDigitalReader::new(vec![true; 4]);
    let block = OneShotDigital::new(reader);
    let mut runner = FixedStepRunner::new(block, settings());
    runner.init().unwrap();
    runner.run_ticks(2).unwrap();
    runner.request_stop();
    assert_eq!(runner.phase(), RunnerPhase::Stopped);
    assert_eq!(runner.run_ticks(1).unwrap_err(), RuntimeError::NotReady);
    assert_eq!(runner.ticks(), 2);
}

#[test]
fn reinit_restarts_the_run() {
    let reader = ScriptedDigitalReader::new(vec![true; 6]);
    let block = OneShotDigital::new(reader);
    let mut runner = FixedStepRunner::new(block, settings());
    runner.init().unwrap();
    runner.run_ticks(2).unwrap();
    assert_eq!(runner.ticks(), 2);
    // a fresh init rewinds the tick clock
    runner.init().unwrap();
    assert_eq!(runner.ticks(), 0);
    runner.run_ticks(3).unwrap();
    assert_eq!(runner.ticks(), 3);
}

#[test]
fn storage_requirements_accumulate_over_the_composition() {
    let reader = ScriptedDigitalReader::new(vec![true]);
    let producer = OneShotDigital::new(reader);
    let consumer = SampleCounter::new();
    let p = producer.storage_size();
    let c = consumer.storage_size();
    let system = ComposedSystem::new(producer, consumer);
    let s = system.storage_size();
    assert_eq!(p.plus(&c), Some(s));
    assert_eq!(s.total(), Some(10));
}
