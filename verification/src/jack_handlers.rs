//! What the callbacks of the audio host decide, apart from the samples
//! themselves.

pub mod envelope;
pub mod notification;
pub mod process;

use vstd::prelude::*;

verus! {

/// What the audio host is told when a callback returns.
#[derive(Clone, Copy, Debug, PartialEq, Eq, Structural)]
pub enum Control {
    /// Go on calling.
    Continue,
    /// Stop calling.
    Quit,
}

} // verus!
