//! The event value exchanged between the poller and the session.

use vstd::prelude::*;

verus! {

/// A digital I/O event on the K-Bus: either an observed transition of an
/// input channel or a requested write to an output channel.
#[derive(Debug, Clone, Copy, PartialEq, Eq, Structural)]
pub struct KBusEvent {
    /// The zero-based channel number on which the event occurred.
    pub channel: u16,
    /// The boolean state of the channel (true = ON, false = OFF).
    pub value: bool,
}

impl KBusEvent {
    /// Builds an event for the given channel and value.
    pub fn new(channel: u16, value: bool) -> (e: KBusEvent)
        ensures
            e.channel == channel,
            e.value == value,
    {
        KBusEvent { channel, value }
    }
}

} // verus!
