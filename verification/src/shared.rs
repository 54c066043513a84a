//! The lock-free cell through which the keyer client, the sample-rate
//! notifier and the audio engine talk to each other.

use std::sync::atomic::AtomicBool;
use std::sync::atomic::AtomicUsize;
use std::sync::atomic::Ordering;
use vstd::prelude::*;

verus! {

/// What the audio engine reads at the start of a block: one load of each cell.
#[derive(Clone, Copy, Debug, PartialEq, Eq, Structural)]
pub struct Snapshot {
    pub key_down: bool,
    pub sample_rate: usize,
}

/// Two independent atomic cells. Neither access waits, and no operation spans
/// both cells: a reader may see a new sample rate beside an old key state.
pub struct SharedKeyState {
    key_down: AtomicBool,
    sample_rate: AtomicUsize,
}

impl SharedKeyState {
    /// Cells that hold `key_down` and `sample_rate` until the first store.
    /// What a cell holds is no part of its value: any thread may store at any
    /// time, so nothing is promised of what a later load finds.
    pub fn new(key_down: bool, sample_rate: usize) -> (shared: SharedKeyState) {
        SharedKeyState {
            key_down: AtomicBool::new(key_down),
            sample_rate: AtomicUsize::new(sample_rate),
        }
    }

    /// The key state most recently stored, by any thread.
    pub fn key_down(&self) -> (key_down: bool) {
        self.key_down.load(Ordering::SeqCst)
    }

    pub fn set_key_down(&self, key_down: bool) {
        self.key_down.store(key_down, Ordering::SeqCst)
    }

    /// The sample rate most recently stored, by any thread.
    pub fn sample_rate(&self) -> (sample_rate: usize) {
        self.sample_rate.load(Ordering::SeqCst)
    }

    pub fn set_sample_rate(&self, sample_rate: usize) {
        self.sample_rate.store(sample_rate, Ordering::SeqCst)
    }

    /// One load of each cell, the sample rate first.
    pub fn snapshot(&self) -> (snapshot: Snapshot) {
        let sample_rate = self.sample_rate();
        let key_down = self.key_down();
        Snapshot { key_down, sample_rate }
    }
}

} // verus!
