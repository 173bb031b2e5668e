//! Channels that can be stopped.

use vstd::prelude::*;

verus! {

/// A channel that can be stopped.
pub trait ChannelStopabble: Sized {
    /// The channel once stopped.
    spec fn stopped_spec(&self) -> Self;

    /// Stops the channel.
    fn stop_channel(&mut self)
        ensures
            *final(self) == old(self).stopped_spec(),
    ;
}

} // verus!
