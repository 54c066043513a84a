//! The callback that runs once per audio block: it follows the sample rate
//! and the key line, and says for every frame of the block what the tone
//! generator has to feed to the filter that keeps the keying free of clicks.

use crate::jack_handlers::Control;
use crate::shared::SharedKeyState;
use crate::shared::Snapshot;
use std::sync::Arc;
use vstd::prelude::*;

verus! {

/// The number of values of the audio host's frame counter.
pub const FRAME_TIMES: u64 = 0x1_0000_0000;

/// The number of frames from frame time `from` up to frame time `to`. The
/// frame counter has 32 bits and starts again at zero after its last value.
pub open spec fn elapsed(from: u32, to: u32) -> int {
    if to >= from {
        to - from
    } else {
        to - from + FRAME_TIMES
    }
}

/// What the audio engine remembers from one block to the next.
#[derive(Clone, Copy, Debug, PartialEq, Eq, Structural)]
pub struct EngineState {
    /// The sample rate that the coefficients of the filter were computed for.
    pub last_sample_rate: usize,
    /// The state of the key line during the last block.
    pub last_key_down: bool,
    /// The frame time of the block in which the key line last changed.
    pub key_transition_frame_time: u32,
    /// The frame time of the block in which the key last went down: where the
    /// tone has phase zero.
    pub tone_start_frame_time: u32,
}

/// What the tone generator puts out for one frame, before the keying is
/// freed of clicks.
#[derive(Clone, Copy, Debug, PartialEq, Eq, Structural)]
pub enum Source {
    /// The sine at this many frames after its start.
    Tone { position: u64 },
    /// Zero.
    Silence,
}

/// What is to be done for one block.
#[derive(Clone, Copy, Debug, PartialEq, Eq, Structural)]
pub struct BlockPlan {
    /// Whether the sample rate is another than during the last block, so that
    /// the coefficients of the filter must be computed anew before the block
    /// is written.
    pub rate_changed: bool,
    /// The sample rate of this block.
    pub sample_rate: usize,
    /// Whether the key is down during this block.
    pub key_down: bool,
    /// The number of frames from the start of the tone to the first frame of
    /// this block.
    pub position: u32,
}

impl EngineState {
    /// The engine before its first block, at this sample rate: key up, and no
    /// frame gone by.
    pub open spec fn initial(sample_rate: usize) -> EngineState {
        EngineState {
            last_sample_rate: sample_rate,
            last_key_down: false,
            key_transition_frame_time: 0,
            tone_start_frame_time: 0,
        }
    }

    /// The engine after it has taken note of the sample rate.
    pub open spec fn rated(self, sample_rate: usize) -> EngineState {
        EngineState { last_sample_rate: sample_rate, ..self }
    }

    /// The engine after it has taken note of the key line at the start of the
    /// block at `frame_time`: a change of the key line is marked with that
    /// frame time, and where the key went down the tone starts there, at
    /// phase zero.
    pub open spec fn keyed(self, key_down: bool, frame_time: u32) -> EngineState {
        if key_down == self.last_key_down {
            self
        } else if key_down {
            EngineState {
                last_key_down: true,
                key_transition_frame_time: frame_time,
                tone_start_frame_time: frame_time,
                ..self
            }
        } else {
            EngineState { last_key_down: false, key_transition_frame_time: frame_time, ..self }
        }
    }

    /// The position in the tone of the frame at `frame_time`: the number of
    /// frames since the tone started.
    pub open spec fn phase_position(self, frame_time: u32) -> int {
        elapsed(self.tone_start_frame_time, frame_time)
    }

    /// The engine after the block at `block_start`, for which it found the
    /// shared state as in `snapshot`, and the plan for that block.
    pub open spec fn processed(self, snapshot: Snapshot, block_start: u32) -> (
        EngineState,
        BlockPlan,
    ) {
        let after = self.rated(snapshot.sample_rate).keyed(snapshot.key_down, block_start);
        (
            after,
            BlockPlan {
                rate_changed: snapshot.sample_rate != self.last_sample_rate,
                sample_rate: snapshot.sample_rate,
                key_down: snapshot.key_down,
                position: after.phase_position(block_start) as u32,
            },
        )
    }

    pub fn new(sample_rate: usize) -> (state: EngineState)
        ensures
            state == EngineState::initial(sample_rate),
    {
        EngineState {
            last_sample_rate: sample_rate,
            last_key_down: false,
            key_transition_frame_time: 0,
            tone_start_frame_time: 0,
        }
    }

    /// Takes note of the sample rate, and says whether it has changed.
    pub fn update_sample_rate(&mut self, sample_rate: usize) -> (changed: bool)
        ensures
            changed == (sample_rate != old(self).last_sample_rate),
            *final(self) == old(self).rated(sample_rate),
    {
        if sample_rate == self.last_sample_rate {
            return false;
        }
        self.last_sample_rate = sample_rate;
        true
    }

    /// Takes note of the key line at the start of the block at `frame_time`.
    pub fn update_tx_key_line(&mut self, key_down: bool, frame_time: u32)
        ensures
            *final(self) == old(self).keyed(key_down, frame_time),
    {
        if key_down == self.last_key_down {
            return ;
        }
        self.key_transition_frame_time = frame_time;
        if key_down {
            self.tone_start_frame_time = frame_time;
        }
        self.last_key_down = key_down;
    }

    /// The number of frames from the start of the tone to the frame at
    /// `frame_time`.
    pub fn position(&self, frame_time: u32) -> (position: u32)
        ensures
            position == self.phase_position(frame_time),
    {
        frame_time.wrapping_sub(self.tone_start_frame_time)
    }

    /// Does the work of one block that needs no samples: follows the sample
    /// rate and the key line as found in `snapshot`, and plans the block that
    /// starts at `block_start`.
    pub fn process(&mut self, snapshot: Snapshot, block_start: u32) -> (plan: BlockPlan)
        ensures
            (*final(self), plan) == old(self).processed(snapshot, block_start),
    {
        let rate_changed = self.update_sample_rate(snapshot.sample_rate);
        self.update_tx_key_line(snapshot.key_down, block_start);
        BlockPlan {
            rate_changed,
            sample_rate: snapshot.sample_rate,
            key_down: snapshot.key_down,
            position: self.position(block_start),
        }
    }
}

impl BlockPlan {
    /// The position in the tone of frame `n` of the block.
    pub open spec fn tone_position(self, n: u32) -> int {
        self.position + n
    }

    /// What is fed to a filter for frame `n` of the block: with the key down
    /// the tone, with the key up zero. The filter alone lets the tone die
    /// away.
    pub open spec fn input(self, n: u32) -> Source {
        if self.key_down {
            Source::Tone { position: self.tone_position(n) as u64 }
        } else {
            Source::Silence
        }
    }

    /// What is shaped by an envelope for frame `n` of the block, where the
    /// envelope stands at `level` in that frame: the tone as long as the
    /// envelope is open at all, be the key down or up; else zero.
    pub open spec fn enveloped_input(self, n: u32, level: u32) -> Source {
        if level > 0 {
            Source::Tone { position: self.tone_position(n) as u64 }
        } else {
            Source::Silence
        }
    }

    /// What is fed to a filter for frame `n` of the block.
    pub fn source(&self, n: u32) -> (source: Source)
        ensures
            source == self.input(n),
    {
        if self.key_down {
            Source::Tone { position: self.position as u64 + n as u64 }
        } else {
            Source::Silence
        }
    }

    /// What is shaped by an envelope that stands at `level` in frame `n` of
    /// the block.
    pub fn enveloped_source(&self, n: u32, level: u32) -> (source: Source)
        ensures
            source == self.enveloped_input(n, level),
    {
        if level > 0 {
            Source::Tone { position: self.position as u64 + n as u64 }
        } else {
            Source::Silence
        }
    }
}

/// The frame time `frames` frames after `frame_time`.
pub open spec fn later(frame_time: u32, frames: u32) -> u32 {
    ((frame_time + frames) % (FRAME_TIMES as int)) as u32
}

/// While the key stays down the tone goes on from block to block without a
/// step in its phase: the first frame of a block has the position that
/// follows on the position of the last frame of the block before it. This
/// holds as long as the key has been down for fewer frames than the frame
/// counter has values.
pub proof fn lemma_phase_continuity(
    s: EngineState,
    first: Snapshot,
    second: Snapshot,
    block_start: u32,
    frames: u32,
)
    requires
        first.key_down,
        second.key_down,
        s.processed(first, block_start).1.position + frames < FRAME_TIMES,
    ensures
        ({
            let (s1, plan1) = s.processed(first, block_start);
            let (s2, plan2) = s1.processed(second, later(block_start, frames));
            &&& s2.tone_start_frame_time == s1.tone_start_frame_time
            &&& plan2.position == plan1.position + frames
            &&& frames > 0 ==> plan2.input(0) == (Source::Tone {
                position: (plan1.input((frames - 1) as u32)->position + 1) as u64,
            })
        }),
{
}

/// Within a block the positions of the tone are those of consecutive frames.
pub proof fn lemma_positions_are_consecutive(plan: BlockPlan, n: u32)
    requires
        plan.key_down,
        n < u32::MAX,
    ensures
        plan.input((n + 1) as u32)->position == plan.input(n)->position + 1,
        plan.input(0)->position == plan.position,
{
}

/// When the key goes down the tone starts at phase zero, in the first frame
/// of the block in which the engine finds the key down.
pub proof fn lemma_tone_starts_at_zero(s: EngineState, snapshot: Snapshot, block_start: u32)
    requires
        !s.last_key_down,
        snapshot.key_down,
    ensures
        s.processed(snapshot, block_start).0.key_transition_frame_time == block_start,
        s.processed(snapshot, block_start).0.tone_start_frame_time == block_start,
        s.processed(snapshot, block_start).1.input(0) == (Source::Tone { position: 0 }),
{
}

/// With the key up every frame of the block is fed with zero.
pub proof fn lemma_silence_while_key_up(s: EngineState, snapshot: Snapshot, block_start: u32, n: u32)
    requires
        !snapshot.key_down,
    ensures
        s.processed(snapshot, block_start).1.input(n) == Source::Silence,
{
}

/// A sample rate that is the same as in the block before changes nothing:
/// the coefficients are not computed again, and if the key line has not
/// changed either the engine is in the same state as before.
pub proof fn lemma_same_rate_twice(
    s: EngineState,
    first: Snapshot,
    second: Snapshot,
    first_start: u32,
    second_start: u32,
)
    requires
        second.sample_rate == first.sample_rate,
    ensures
        ({
            let (s1, plan1) = s.processed(first, first_start);
            let (s2, plan2) = s1.processed(second, second_start);
            &&& !plan2.rate_changed
            &&& s2.last_sample_rate == s1.last_sample_rate
            &&& second.key_down == first.key_down ==> s2 == s1
        }),
{
}

/// The audio engine: the state of the engine together with the shared state
/// that it reads at the start of each block.
pub struct Handler {
    shared: Arc<SharedKeyState>,
    state: EngineState,
}

impl View for Handler {
    type V = EngineState;

    closed spec fn view(&self) -> EngineState {
        self.state
    }
}

impl Handler {
    /// An engine at the sample rate that `shared` holds now, whatever it is.
    pub fn new(shared: Arc<SharedKeyState>) -> (handler: Handler)
        ensures
            exists|sample_rate: usize| handler@ == EngineState::initial(sample_rate),
    {
        let sample_rate: usize = shared.sample_rate();
        let state = EngineState::new(sample_rate);
        Handler { shared, state }
    }

    pub fn state(&self) -> (state: EngineState)
        ensures
            state == self@,
    {
        self.state
    }

    /// Called once per block, with the frame time of its first frame: reads
    /// the shared state once and does as `EngineState::process` says for what
    /// it found there, whatever that is.
    pub fn process(&mut self, last_frame_time: u32) -> (outcome: (Control, BlockPlan))
        ensures
            outcome.0 == Control::Continue,
            exists|snapshot: Snapshot|
                (final(self)@, outcome.1) == #[trigger] old(self)@.processed(
                    snapshot,
                    last_frame_time,
                ),
    {
        let snapshot = self.shared.snapshot();
        let plan = self.state.process(snapshot, last_frame_time);
        assert((self@, plan) == old(self)@.processed(snapshot, last_frame_time));
        (Control::Continue, plan)
    }
}

} // verus!
