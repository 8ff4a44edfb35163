//! The peripheral capability protocol.
//!
//! A block declares a hardware capability it needs - "digital reader",
//! "analog reader" - as an interface, without knowing the concrete driver
//! type. Composition-time wiring supplies a concrete instance satisfying
//! the capability; binding happens once, outside the hot path, and
//! `init`/`step` only ever invoke already-bound instances. Concrete
//! drivers are external collaborators; driver instances are exclusively
//! owned by the block they are bound to.

use vstd::prelude::*;

use crate::block_def::PeripheralReference;
use crate::errors::PeripheralError;
use crate::errors::RuntimeError;

verus! {

/// Capability: a one-shot digital (boolean) sample source.
///
/// Implemented by hardware drivers outside this crate; reads must be of
/// bounded latency, since an unbounded read stalls the whole fixed-step
/// cadence. Nothing is promised of the sampled values - a driver may
/// return any value, or fail, on any call.
pub trait DigitalReader {
    /// Acquires one sample, or reports a driver error.
    fn read(&mut self) -> Result<bool, PeripheralError>;
}

/// Capability: a one-shot analog sample source, delivering raw converter
/// counts. As with `DigitalReader`, nothing is promised of the values.
pub trait AnalogReader {
    /// Acquires one raw sample, or reports a driver error.
    fn read(&mut self) -> Result<i32, PeripheralError>;
}

/// Capability: an indexed collection of analog channels behind a single
/// logical interface, so block and scheduler code stay uniform regardless
/// of channel count.
pub trait AnalogReaderMultiChannel {
    /// How many channels the aggregate fans out across.
    spec fn channel_count_spec(&self) -> int;

    /// How many channels the aggregate fans out across.
    fn channel_count(&self) -> (r: usize)
        ensures
            r == self.channel_count_spec(),
    ;

    /// Acquires one raw sample from the channel with the given index.
    fn read_channel(&mut self, id: usize) -> (r: Result<i32, PeripheralError>)
        requires
            0 <= id < old(self).channel_count_spec(),
        ensures
            final(self).channel_count_spec() == old(self).channel_count_spec(),
    ;
}

/// A digital reader that replays a fixed script of samples, one per
/// read, and fails once the script is exhausted.
///
/// This is the library's own capability instance: it stands in for a
/// hardware driver wherever a run must be reproducible - bench tests,
/// dry runs on the host, replaying a recorded sensor log.
pub struct ScriptedDigitalReader {
    samples: Vec<bool>,
    position: usize,
}

/// Error code a scripted peripheral reports once its script is over.
pub const SCRIPT_EXHAUSTED: u32 = 1;

impl ScriptedDigitalReader {
    /// The samples not yet delivered, next first.
    pub closed spec fn remaining(&self) -> Seq<bool> {
        if self.position <= self.samples.len() {
            self.samples@.skip(self.position as int)
        } else {
            Seq::empty()
        }
    }

    /// A reader that will deliver `samples` in order.
    pub fn new(samples: Vec<bool>) -> (r: Self)
        ensures
            r.remaining() == samples@,
    {
        let r = ScriptedDigitalReader { samples, position: 0 };
        proof {
            assert(r.remaining() =~= r.samples@);
        }
        r
    }
}

impl DigitalReader for ScriptedDigitalReader {
    /// Delivers the next scripted sample; fails with `SCRIPT_EXHAUSTED`
    /// once none is left.
    fn read(&mut self) -> (r: Result<bool, PeripheralError>)
        ensures
            old(self).remaining().len() > 0 ==> {
                &&& r == Ok::<bool, PeripheralError>(old(self).remaining()[0])
                &&& final(self).remaining() == old(self).remaining().skip(1)
            },
            old(self).remaining().len() == 0 ==> {
                &&& r == Err::<bool, PeripheralError>(PeripheralError { code: SCRIPT_EXHAUSTED })
                &&& final(self).remaining() == old(self).remaining()
            },
    {
        if self.position < self.samples.len() {
            let v = self.samples[self.position];
            self.position = self.position + 1;
            proof {
                assert(self.remaining() =~= old(self).remaining().skip(1));
                assert(old(self).remaining()[0] == old(self).samples@[old(self).position as int]);
            }
            Ok(v)
        } else {
            Err(PeripheralError { code: SCRIPT_EXHAUSTED })
        }
    }
}

/// An analog channel that replays a fixed script of raw samples; the
/// analog counterpart of `ScriptedDigitalReader`.
pub struct ScriptedAnalogChannel {
    samples: Vec<i32>,
    position: usize,
}

impl ScriptedAnalogChannel {
    /// The samples not yet delivered, next first.
    pub closed spec fn remaining(&self) -> Seq<i32> {
        if self.position <= self.samples.len() {
            self.samples@.skip(self.position as int)
        } else {
            Seq::empty()
        }
    }

    /// A channel that will deliver `samples` in order.
    pub fn new(samples: Vec<i32>) -> (r: Self)
        ensures
            r.remaining() == samples@,
    {
        let r = ScriptedAnalogChannel { samples, position: 0 };
        proof {
            assert(r.remaining() =~= r.samples@);
        }
        r
    }
}

impl AnalogReader for ScriptedAnalogChannel {
    /// Delivers the next scripted sample; fails with `SCRIPT_EXHAUSTED`
    /// once none is left.
    fn read(&mut self) -> (r: Result<i32, PeripheralError>)
        ensures
            old(self).remaining().len() > 0 ==> {
                &&& r == Ok::<i32, PeripheralError>(old(self).remaining()[0])
                &&& final(self).remaining() == old(self).remaining().skip(1)
            },
            old(self).remaining().len() == 0 ==> {
                &&& r == Err::<i32, PeripheralError>(PeripheralError { code: SCRIPT_EXHAUSTED })
                &&& final(self).remaining() == old(self).remaining()
            },
    {
        if self.position < self.samples.len() {
            let v = self.samples[self.position];
            self.position = self.position + 1;
            proof {
                assert(self.remaining() =~= old(self).remaining().skip(1));
                assert(old(self).remaining()[0] == old(self).samples@[old(self).position as int]);
            }
            Ok(v)
        } else {
            Err(PeripheralError { code: SCRIPT_EXHAUSTED })
        }
    }
}

/// A multi-channel aggregate over any single-channel analog capability:
/// `N` channel instances behind one indexed interface.
pub struct MultiChannelReader<C: AnalogReader> {
    channels: Vec<C>,
}

impl<C: AnalogReader> MultiChannelReader<C> {
    /// An aggregate over the given channel instances, indexed in order.
    pub fn new(channels: Vec<C>) -> (r: Self)
        ensures
            r.channel_count_spec() == channels@.len(),
    {
        MultiChannelReader { channels }
    }
}

impl<C: AnalogReader> AnalogReaderMultiChannel for MultiChannelReader<C> {
    closed spec fn channel_count_spec(&self) -> int {
        self.channels@.len() as int
    }

    fn channel_count(&self) -> (r: usize)
        ensures
            r == self.channel_count_spec(),
    {
        self.channels.len()
    }

    /// Delegates to the channel with the given index.
    fn read_channel(&mut self, id: usize) -> (r: Result<i32, PeripheralError>)
        ensures
            final(self).channel_count_spec() == old(self).channel_count_spec(),
    {
        let mut channel = self.channels.remove(id);
        let r = channel.read();
        self.channels.insert(id, channel);
        r
    }
}

/// Whether a declared capability name appears among the bound names.
pub open spec fn name_is_bound(name: Seq<char>, bound: Seq<String>) -> bool {
    exists|j: int| 0 <= j < bound.len() && (#[trigger] bound[j])@ == name
}

/// Whether one name appears among the bound names.
fn is_bound(name: &String, bound: &Vec<String>) -> (r: bool)
    ensures
        r == name_is_bound(name@, bound@),
{
    let n = bound.len();
    let mut j: usize = 0;
    while j < n
        invariant
            n == bound@.len(),
            0 <= j <= n,
            forall|jj: int| 0 <= jj < j ==> (#[trigger] bound@[jj])@ != name@,
        decreases n - j,
    {
        if bound[j] == *name {
            return true;
        }
        j = j + 1;
    }
    false
}

/// The composition-time binding check: every capability slot a block
/// declares must have been given a driver under the slot's name.
///
/// Succeeds exactly when each declared reference's name appears among
/// the bound names; otherwise fails, before `init` is ever invoked,
/// with `PeripheralBinding` carrying the index of the first declared
/// capability that no binding satisfies.
pub fn check_bindings(required: &Vec<PeripheralReference>, bound: &Vec<String>) -> (r: Result<
    (),
    RuntimeError,
>)
    ensures
        r is Ok <==> (forall|i: int|
            0 <= i < required@.len() ==> name_is_bound(
                (#[trigger] required@[i]).name_spec(),
                bound@,
            )),
        r matches Err(e) ==> (e matches RuntimeError::PeripheralBinding { reference_index } && {
            &&& 0 <= reference_index < required@.len()
            &&& !name_is_bound(required@[reference_index as int].name_spec(), bound@)
        }),
{
    let n = required.len();
    let mut i: usize = 0;
    while i < n
        invariant
            n == required@.len(),
            0 <= i <= n,
            forall|k: int|
                0 <= k < i ==> name_is_bound((#[trigger] required@[k]).name_spec(), bound@),
        decreases n - i,
    {
        let name = required[i].name();
        if !is_bound(name, bound) {
            return Err(RuntimeError::PeripheralBinding { reference_index: i });
        }
        i = i + 1;
    }
    Ok(())
}

/// Configuration marker for a serial value sink peripheral: a sink that
/// forwards each value it is handed to the device's serial console. The
/// concrete sink is a device driver outside this crate; this type is its
/// composition-time stand-in and carries no data.
pub struct SerialValueSink {}

impl SerialValueSink {
    pub fn new() -> Self {
        SerialValueSink {  }
    }
}

} // verus!
