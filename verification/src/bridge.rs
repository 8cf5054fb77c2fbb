//! The concurrency bridge: two independent single-slot "latest value wins"
//! channels connecting the hardware polling task to the network handler
//! task, one per direction. A publisher overwrites the slot unconditionally
//! and never blocks; a consumer drains the slot, at most one value at a
//! time. No history is kept: only the most recent value matters.
//!
//! The slot itself is `embassy_sync::signal::Signal`, a single-slot
//! signaling primitive with exactly these semantics; its calls stand behind
//! trusted wrappers whose contracts speak of the slot's content. The
//! suspending `wait` of the signal is an await point of the event loop and
//! stays with the unverified task plumbing; the verified code exchanges
//! values through `publish` and `try_take`, which never suspend.

use embassy_sync::blocking_mutex::raw::CriticalSectionRawMutex;
use embassy_sync::signal::Signal;
use vstd::prelude::*;

use crate::records::{Inputs, Outputs};

verus! {

/// The channel carrying sensor snapshots from the polling task to the
/// network handler.
#[verifier::external_body]
pub struct InputsBridge {
    signal: Signal<CriticalSectionRawMutex, Inputs>,
}

/// The channel carrying actuator commands from the network handler back to
/// the polling task.
#[verifier::external_body]
pub struct OutputsBridge {
    signal: Signal<CriticalSectionRawMutex, Outputs>,
}

/// The pending value of the snapshot channel, if any.
pub uninterp spec fn inputs_slot_of(b: InputsBridge) -> Option<Inputs>;

/// The pending value of the command channel, if any.
pub uninterp spec fn outputs_slot_of(b: OutputsBridge) -> Option<Outputs>;

impl InputsBridge {
    /// An empty channel, allocated once at startup.
    ///
    /// Relies on `embassy_sync::signal::Signal::new`: the new signal holds
    /// no value.
    #[verifier::external_body]
    pub fn new() -> (b: Self)
        ensures
            inputs_slot_of(b) == None::<Inputs>,
    {
        InputsBridge { signal: Signal::new() }
    }

    /// Overwrite the slot with a fresh snapshot. Never blocks: a second
    /// publish before the consumer reads simply replaces the first value.
    ///
    /// Relies on `embassy_sync::signal::Signal::signal`: it replaces the
    /// stored state with the new value and wakes a waiting consumer.
    #[verifier::external_body]
    pub fn publish(&mut self, value: Inputs)
        ensures
            inputs_slot_of(*final(self)) == Some(value),
    {
        self.signal.signal(value);
    }

    /// Drain the pending snapshot without suspending, or learn that none is
    /// pending. After the call the slot is empty.
    ///
    /// Relies on `embassy_sync::signal::Signal::try_take`: it returns the
    /// signaled value, if any, leaving the signal cleared.
    #[verifier::external_body]
    pub fn try_take(&mut self) -> (r: Option<Inputs>)
        ensures
            r == inputs_slot_of(*old(self)),
            inputs_slot_of(*final(self)) == None::<Inputs>,
    {
        self.signal.try_take()
    }
}

impl OutputsBridge {
    /// An empty channel, allocated once at startup.
    ///
    /// Relies on `embassy_sync::signal::Signal::new`: the new signal holds
    /// no value.
    #[verifier::external_body]
    pub fn new() -> (b: Self)
        ensures
            outputs_slot_of(b) == None::<Outputs>,
    {
        OutputsBridge { signal: Signal::new() }
    }

    /// Overwrite the slot with a fresh command. Never blocks: a second
    /// publish before the consumer reads simply replaces the first value.
    ///
    /// Relies on `embassy_sync::signal::Signal::signal`: it replaces the
    /// stored state with the new value and wakes a waiting consumer.
    #[verifier::external_body]
    pub fn publish(&mut self, value: Outputs)
        ensures
            outputs_slot_of(*final(self)) == Some(value),
    {
        self.signal.signal(value);
    }

    /// Drain the pending command without suspending, or learn that none is
    /// pending. After the call the slot is empty.
    ///
    /// Relies on `embassy_sync::signal::Signal::try_take`: it returns the
    /// signaled value, if any, leaving the signal cleared.
    #[verifier::external_body]
    pub fn try_take(&mut self) -> (r: Option<Outputs>)
        ensures
            r == outputs_slot_of(*old(self)),
            outputs_slot_of(*final(self)) == None::<Outputs>,
    {
        self.signal.try_take()
    }
}

/// The two channels of the bridge, both empty, allocated once at startup
/// and handed to the polling task and the network handler.
pub fn new_bridge_pair() -> (r: (InputsBridge, OutputsBridge))
    ensures
        inputs_slot_of(r.0) == None::<Inputs>,
        outputs_slot_of(r.1) == None::<Outputs>,
{
    (InputsBridge::new(), OutputsBridge::new())
}

/// The bridge exchange of one poll cycle: publish the fresh snapshot on the
/// egress channel, then drain at most one pending command from the ingress
/// channel. Never blocks on the absence of a remote command, and never
/// leaves a stale command behind.
pub fn poll_exchange(egress: &mut InputsBridge, ingress: &mut OutputsBridge, inputs: Inputs) -> (r:
    Option<Outputs>)
    ensures
        inputs_slot_of(*final(egress)) == Some(inputs),
        r == outputs_slot_of(*old(ingress)),
        outputs_slot_of(*final(ingress)) == None::<Outputs>,
{
    egress.publish(inputs);
    ingress.try_take()
}

} // verus!
