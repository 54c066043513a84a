//! The other way to keep the keying free of clicks: an envelope that opens
//! and closes in a straight line. Its amplitude is the fraction
//! `level / ramp`; per frame the level moves by one step towards the key.

use crate::jack_handlers::process::BlockPlan;
use crate::jack_handlers::process::Source;
use vstd::prelude::*;

verus! {

/// The time in which the envelope opens or closes in full, in milliseconds.
pub const RAMP_MILLIS: u64 = 5;

/// The number of frames in which the envelope opens or closes in full at
/// this sample rate: `RAMP_MILLIS` thousandths of it, rounded down, but one
/// frame at least, and no more than a frame counter can hold.
pub open spec fn ramp_frames(sample_rate: usize) -> u32 {
    let frames = sample_rate * RAMP_MILLIS / 1000;
    if frames < 1 {
        1
    } else if frames > u32::MAX {
        u32::MAX
    } else {
        frames as u32
    }
}

/// An envelope as two numbers.
pub struct EnvelopeView {
    /// The number of steps from closed to open.
    pub ramp: u32,
    /// How far the envelope is open: 0 is closed, `ramp` is open.
    pub level: u32,
}

impl EnvelopeView {
    /// What holds of every envelope.
    pub open spec fn wf(self) -> bool {
        1 <= self.ramp && self.level <= self.ramp
    }

    /// The closed envelope for this sample rate.
    pub open spec fn closed(sample_rate: usize) -> EnvelopeView {
        EnvelopeView { ramp: ramp_frames(sample_rate), level: 0 }
    }

    /// The envelope one frame on: a step further open while the key is
    /// down, a step further closed while it is up.
    pub open spec fn stepped(self, key_down: bool) -> EnvelopeView {
        if key_down && self.level < self.ramp {
            EnvelopeView { level: (self.level + 1) as u32, ..self }
        } else if !key_down && self.level > 0 {
            EnvelopeView { level: (self.level - 1) as u32, ..self }
        } else {
            self
        }
    }

    /// The envelope `frames` frames on, the key staying as it is.
    pub open spec fn after(self, key_down: bool, frames: nat) -> EnvelopeView {
        if key_down {
            EnvelopeView {
                level: if self.level + frames < self.ramp {
                    (self.level + frames) as u32
                } else {
                    self.ramp
                },
                ..self
            }
        } else {
            EnvelopeView {
                level: if self.level > frames {
                    (self.level - frames) as u32
                } else {
                    0
                },
                ..self
            }
        }
    }

    /// The envelope with another number of steps, as far open as before, to
    /// the nearest step below.
    pub open spec fn rescaled(self, ramp: u32) -> EnvelopeView {
        EnvelopeView { ramp, level: (self.level * ramp / (self.ramp as int)) as u32 }
    }

    /// While the key is up and the envelope is not closed yet, the tone goes
    /// on: the tail of the fall.
    pub open spec fn fall_tail_active(self, key_down: bool) -> bool {
        !key_down && self.level > 0
    }
}

/// The state of the envelope between two frames.
pub struct Envelope {
    ramp: u32,
    level: u32,
}

impl View for Envelope {
    type V = EnvelopeView;

    closed spec fn view(&self) -> EnvelopeView {
        EnvelopeView { ramp: self.ramp, level: self.level }
    }
}

impl Envelope {
    #[verifier::type_invariant]
    spec fn inv(self) -> bool {
        1 <= self.ramp && self.level <= self.ramp
    }

    /// A closed envelope for this sample rate.
    pub fn new(sample_rate: usize) -> (envelope: Envelope)
        ensures
            envelope@ == EnvelopeView::closed(sample_rate),
            envelope@.wf(),
    {
        Envelope { ramp: Envelope::ramp_for(sample_rate), level: 0 }
    }

    /// The number of frames of a full rise or fall at this sample rate.
    pub fn ramp_for(sample_rate: usize) -> (ramp: u32)
        ensures
            ramp == ramp_frames(sample_rate),
            ramp >= 1,
    {
        let frames: usize = sample_rate / 200;
        assert(frames == sample_rate * RAMP_MILLIS / 1000);
        if frames < 1 {
            1
        } else if frames > u32::MAX as usize {
            u32::MAX
        } else {
            frames as u32
        }
    }

    /// The number of steps from closed to open.
    pub fn ramp(&self) -> (ramp: u32)
        ensures
            ramp == self@.ramp,
            self@.wf(),
    {
        proof {
            use_type_invariant(self);
        }
        self.ramp
    }

    /// How far the envelope is open.
    pub fn level(&self) -> (level: u32)
        ensures
            level == self@.level,
            self@.wf(),
    {
        proof {
            use_type_invariant(self);
        }
        self.level
    }

    /// Whether the tone still sounds though the key is up.
    pub fn fall_tail_active(&self, key_down: bool) -> (active: bool)
        ensures
            active == self@.fall_tail_active(key_down),
    {
        !key_down && self.level > 0
    }

    /// Takes note of a new sample rate: the ramp gets the length that the
    /// rate asks for, and the envelope stays as far open as it is.
    pub fn update_sample_rate(&mut self, sample_rate: usize)
        ensures
            final(self)@ == old(self)@.rescaled(ramp_frames(sample_rate)),
            final(self)@.wf(),
    {
        proof {
            use_type_invariant(&*self);
        }
        let ramp: u32 = Envelope::ramp_for(sample_rate);
        let level: u64 = self.level as u64;
        let wide: u64 = ramp as u64;
        let old_ramp: u64 = self.ramp as u64;
        assert(level * wide <= old_ramp * wide) by (nonlinear_arith)
            requires
                level <= old_ramp,
        ;
        assert(old_ramp * wide <= 0xffff_ffff * 0xffff_ffff) by (nonlinear_arith)
            requires
                old_ramp <= 0xffff_ffff,
                wide <= 0xffff_ffff,
        ;
        assert(level * wide / (old_ramp as int) <= wide) by (nonlinear_arith)
            requires
                level * wide <= old_ramp * wide,
                old_ramp >= 1,
        ;
        let scaled: u64 = level * wide / old_ramp;
        *self = Envelope { ramp, level: scaled as u32 };
    }

    /// Goes one frame on, and returns the level at which the envelope stands
    /// in the frame that is left behind: the amplitude of that frame is the
    /// level over the ramp.
    pub fn step(&mut self, key_down: bool) -> (level: u32)
        ensures
            level == old(self)@.level,
            final(self)@ == old(self)@.stepped(key_down),
            final(self)@.wf(),
    {
        proof {
            use_type_invariant(&*self);
        }
        let level: u32 = self.level;
        if key_down {
            if self.level < self.ramp {
                self.level = self.level + 1;
            }
        } else {
            if self.level > 0 {
                self.level = self.level - 1;
            }
        }
        level
    }
}

/// To go on by a number of frames is to step that many times.
pub proof fn lemma_after_steps(e: EnvelopeView, key_down: bool, frames: nat)
    requires
        e.wf(),
    ensures
        e.after(key_down, 0) == e,
        e.after(key_down, frames + 1) == e.after(key_down, frames).stepped(key_down),
        e.after(key_down, frames).wf(),
{
}

/// From one frame to the next the envelope moves by one step at most,
/// whatever the key does: the amplitude never jumps by more than one part in
/// `ramp`, and the length of the ramp stays.
pub proof fn lemma_no_click(e: EnvelopeView, key_down: bool)
    requires
        e.wf(),
    ensures
        e.stepped(key_down).wf(),
        e.stepped(key_down).ramp == e.ramp,
        e.stepped(key_down).level - e.level <= 1,
        e.level - e.stepped(key_down).level <= 1,
        key_down ==> e.stepped(key_down).level >= e.level,
        !key_down ==> e.stepped(key_down).level <= e.level,
{
}

/// Once the key has been up for as many frames as the ramp is long, the
/// envelope is closed, and it stays closed for as long as the key stays up:
/// the fall has no tail left, and every frame is planned as silence.
pub proof fn lemma_silent_after_fall(e: EnvelopeView, frames: nat)
    requires
        e.wf(),
        frames >= e.ramp,
    ensures
        e.after(false, frames).level == 0,
        !e.after(false, frames).fall_tail_active(false),
        e.after(false, frames).stepped(false) == e.after(false, frames),
        forall|plan: BlockPlan, n: u32| #[trigger]
            plan.enveloped_input(n, e.after(false, frames).level) == Source::Silence,
{
}

/// Once the key has been down for as many frames as the ramp is long, the
/// envelope is open, and it stays open for as long as the key stays down.
pub proof fn lemma_open_after_rise(e: EnvelopeView, frames: nat)
    requires
        e.wf(),
        frames >= e.ramp,
    ensures
        e.after(true, frames).level == e.ramp,
        e.after(true, frames).stepped(true) == e.after(true, frames),
{
}

/// A rise or a fall in full takes exactly as many frames as the ramp is long:
/// one frame before its end the envelope is one step short of it.
pub proof fn lemma_ramp_is_linear(e: EnvelopeView, frames: nat)
    requires
        e.wf(),
        frames <= e.ramp,
    ensures
        e.level == 0 ==> e.after(true, frames).level == frames,
        e.level == e.ramp ==> e.after(false, frames).level == e.ramp - frames,
{
}

/// A key that goes down again while the envelope is still closing turns the
/// envelope round where it stands: the rise goes on from the level that the
/// fall had reached, and nothing of the fall is left.
pub proof fn lemma_rise_cancels_fall(e: EnvelopeView, fallen: nat, risen: nat)
    requires
        e.wf(),
        fallen < e.level,
    ensures
        e.after(false, fallen).after(true, risen).level == if e.level - fallen + risen < e.ramp {
            e.level - fallen + risen
        } else {
            e.ramp as int
        },
        !e.after(false, fallen).after(true, risen).fall_tail_active(true),
{
}

/// A sample rate that asks for the ramp that the envelope has leaves the
/// envelope as it is.
pub proof fn lemma_same_ramp(e: EnvelopeView)
    requires
        e.wf(),
    ensures
        e.rescaled(e.ramp) == e,
{
    assert(e.level * e.ramp / (e.ramp as int) == e.level) by (nonlinear_arith)
        requires
            e.ramp >= 1,
    ;
}

} // verus!
