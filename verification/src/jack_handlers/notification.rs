//! The callback for changes of the audio host's sample rate.

use crate::jack_handlers::Control;
use crate::shared::SharedKeyState;
use std::sync::Arc;
use vstd::prelude::*;

verus! {

/// Passes the sample rate of the audio host on to the audio engine.
pub struct Handler {
    sample_rate: Arc<SharedKeyState>,
}

impl Handler {
    /// The shared state that this handler stores the sample rate in.
    pub closed spec fn shared(&self) -> Arc<SharedKeyState> {
        self.sample_rate
    }

    /// A handler that stores every sample rate it is told in `sample_rate`.
    pub fn new(sample_rate: Arc<SharedKeyState>) -> (handler: Handler)
        ensures
            handler.shared() == sample_rate,
    {
        Handler { sample_rate }
    }

    /// Called whenever the sample rate of the audio host changes: stores
    /// `srate` where the audio engine finds it at its next block. The handler
    /// itself stays as it is, and the audio host is always told to go on.
    pub fn sample_rate(&mut self, srate: u32) -> (control: Control)
        ensures
            control == Control::Continue,
            *final(self) == *old(self),
    {
        self.sample_rate.set_sample_rate(srate as usize);
        Control::Continue
    }
}

} // verus!
