//! Block-based execution runtime for control applications on
//! resource-constrained targets.
//!
//! A control application is assembled from small computational units
//! ("blocks" - sensors, filters, controllers, actuators) that declare
//! parameters, inputs, outputs, persistent state and hardware peripheral
//! needs, and that are driven through a uniform `init`/`step` lifecycle by a
//! fixed-step scheduler.

pub mod block_def;
pub mod blocks;
pub mod errors;
pub mod peripheral;
pub mod system;
pub mod system_runner;
pub mod system_storage;
pub mod variables;

pub use block_def::{
    AttrMap, BlockDefinition, BlockModule, DiscreteStateDefinition, FieldAttrs, FieldDef,
    FieldDefEntry, FieldType, FieldValue, InputDefinition, OutputDefinition, ParameterDefinition,
    PeripheralReference, PeripheralReferenceTrait, PeripheralReferenceType, QualifiedPath,
    RustTypeRef, StructTypeRef, TraitTypeRef,
};
pub use blocks::{ComposedSystem, OneShotDigital, SampleCounter};
pub use errors::{DefinitionError, PeripheralError, RuntimeError, StorageOverflowError};
pub use peripheral::{
    check_bindings, AnalogReader, AnalogReaderMultiChannel, DigitalReader, MultiChannelReader,
    ScriptedAnalogChannel, ScriptedDigitalReader, SerialValueSink,
};
pub use system::{DynamicalSystem, SystemStateInfo};
pub use system_runner::{FixedStepRunSettings, FixedStepRunner, RunnerPhase};
pub use system_storage::{
    RequiresStorage, SlotRange, StoragePolicy, StorageSize, SystemStorage, SystemStorageBuilder,
};
pub use variables::{DiscreteState, Input, Output, Parameter};
