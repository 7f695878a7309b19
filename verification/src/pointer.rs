//! Handles to what the object model does not own.

use vstd::prelude::*;

verus! {

/// Handle to the notification sink that the characteristics of an accessory
/// report their changes to.
///
/// The sink itself belongs to the transport layer. The object model only
/// stores the handle and hands it out; two handles name the same sink exactly
/// when their channels are equal.
#[derive(Clone, Copy, Debug, PartialEq, Eq, Hash, Structural)]
pub struct EventEmitter {
    pub channel: u64,
}

impl EventEmitter {
    /// A handle to the sink on `channel`.
    pub fn new(channel: u64) -> (e: EventEmitter)
        ensures
            e.channel == channel,
    {
        EventEmitter { channel }
    }
}

} // verus!
