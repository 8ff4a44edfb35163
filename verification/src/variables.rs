//! The variable model: the four kinds of values a block owns.
//!
//! A block's data lives in `Parameter`, `Input`, `Output` and
//! `DiscreteState` containers. Each kind has its own update and
//! initialization discipline:
//!
//! - a `Parameter` is written once at composition time and read-only after;
//! - an `Input` is latched by the composed system from an upstream block's
//!   `Output` before each step (and once after `init`), and is read-only
//!   from the owning block's perspective;
//! - an `Output` is initialized exactly once during `init` and published
//!   anew on every `step`;
//! - a `DiscreteState` is initialized exactly once during `init` and
//!   mutated only by its owning block's `step`.
//!
//! `Output` and `DiscreteState` make a second initialization impossible by
//! contract, and reads are only permitted once a value is defined: there
//! are no uninitialized reads.

use vstd::prelude::*;

use crate::system::SystemStateInfo;

verus! {

/// A named, typed value supplied at composition time and fixed for the
/// lifetime of the system.
pub struct Parameter<T> {
    value: T,
}

impl<T: Copy> Parameter<T> {
    /// The value the parameter was constructed with.
    pub closed spec fn val(&self) -> T {
        self.value
    }

    /// Writes the parameter once, at construction; there is no update.
    pub fn new(value: T) -> (r: Self)
        ensures
            r.val() == value,
    {
        Parameter { value }
    }

    /// Side-effect-free read accessor.
    pub fn get(&self) -> (r: T)
        ensures
            r == self.val(),
    {
        self.value
    }
}

/// A named, typed value written by an upstream block's `Output`.
///
/// The composed system latches the producing block's current output into
/// the input before each step, so the value read during step `N` is the
/// output as of the end of step `N - 1` (or the post-`init` output before
/// the first step). The declared initial value is only ever visible to a
/// block that is stepped outside any composition.
pub struct Input<T> {
    value: T,
}

impl<T: Copy> Input<T> {
    /// The most recently latched value.
    pub closed spec fn val(&self) -> T {
        self.value
    }

    pub fn new(initial: T) -> (r: Self)
        ensures
            r.val() == initial,
    {
        Input { value: initial }
    }

    /// Latches a fresh value from the producing block's output. Called by
    /// the composed system's propagation pass, never by the owning block.
    pub fn latch(&mut self, value: T)
        ensures
            final(self).val() == value,
    {
        self.value = value;
    }

    /// Side-effect-free read accessor.
    pub fn get(&self) -> (r: T)
        ensures
            r == self.val(),
    {
        self.value
    }
}

/// A named, typed value owned and written only by its block: set to an
/// initial value during `init`, republished on every `step`, and copied to
/// downstream inputs by the composed system.
pub struct Output<T> {
    value: Option<T>,
}

impl<T: Copy> Output<T> {
    /// Whether `initialize` has run; reads are only defined after.
    pub closed spec fn is_initialized(&self) -> bool {
        self.value is Some
    }

    /// The current published value.
    pub closed spec fn val(&self) -> T
        recommends
            self.is_initialized(),
    {
        self.value->0
    }

    /// A fresh output, holding no value until the owning block's `init`.
    pub fn new() -> (r: Self)
        ensures
            !r.is_initialized(),
    {
        Output { value: None }
    }

    /// Whether the output already holds a value.
    pub fn defined(&self) -> (r: bool)
        ensures
            r == self.is_initialized(),
    {
        self.value.is_some()
    }

    /// Sets the initial value, once, during the system's `init` pass.
    /// Calling it twice is impossible by contract.
    pub fn initialize(&mut self, value: T)
        requires
            !old(self).is_initialized(),
        ensures
            final(self).is_initialized(),
            final(self).val() == value,
    {
        self.value = Some(value);
    }

    /// Publishes a new value during `step`. The value becomes visible to
    /// downstream inputs at the next propagation pass.
    pub fn update(&mut self, value: T, _ssi: &SystemStateInfo)
        requires
            old(self).is_initialized(),
        ensures
            final(self).is_initialized(),
            final(self).val() == value,
    {
        self.value = Some(value);
    }

    /// Side-effect-free read accessor; defined only after `init`.
    pub fn get(&self) -> (r: T)
        requires
            self.is_initialized(),
        ensures
            r == self.val(),
    {
        self.value.unwrap()
    }
}

/// A named, typed value that persists across steps: set to an initial
/// value during `init` and mutated only by its owning block's `step`.
pub struct DiscreteState<T> {
    value: Option<T>,
}

impl<T: Copy> DiscreteState<T> {
    /// Whether `initialize` has run; reads are only defined after.
    pub closed spec fn is_initialized(&self) -> bool {
        self.value is Some
    }

    /// The current state value.
    pub closed spec fn val(&self) -> T
        recommends
            self.is_initialized(),
    {
        self.value->0
    }

    /// A fresh state, holding no value until the owning block's `init`.
    pub fn new() -> (r: Self)
        ensures
            !r.is_initialized(),
    {
        DiscreteState { value: None }
    }

    /// Whether the state already holds a value.
    pub fn defined(&self) -> (r: bool)
        ensures
            r == self.is_initialized(),
    {
        self.value.is_some()
    }

    /// Sets the initial value, once, during the system's `init` pass.
    pub fn initialize(&mut self, value: T)
        requires
            !old(self).is_initialized(),
        ensures
            final(self).is_initialized(),
            final(self).val() == value,
    {
        self.value = Some(value);
    }

    /// Overwrites the state during the owning block's `step`.
    pub fn set(&mut self, value: T)
        requires
            old(self).is_initialized(),
        ensures
            final(self).is_initialized(),
            final(self).val() == value,
    {
        self.value = Some(value);
    }

    /// Side-effect-free read accessor; defined only after `init`.
    pub fn get(&self) -> (r: T)
        requires
            self.is_initialized(),
        ensures
            r == self.val(),
    {
        self.value.unwrap()
    }
}

} // verus!
