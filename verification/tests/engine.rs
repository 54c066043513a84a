use keyjack::jack_handlers::notification;
use keyjack::jack_handlers::process::{BlockPlan, EngineState, Handler, Source};
use keyjack::jack_handlers::Control;
use keyjack::shared::{SharedKeyState, Snapshot};
use std::sync::Arc;

fn snapshot(key_down: bool, sample_rate: usize) -> Snapshot {
    Snapshot { key_down, sample_rate }
}

#[test]
fn a_new_engine_has_the_key_up() {
    assert_eq!(
        EngineState::new(48000),
        EngineState {
            last_sample_rate: 48000,
            last_key_down: false,
            key_transition_frame_time: 0,
            tone_start_frame_time: 0,
        }
    );
}

#[test]
fn update_sample_rate_says_whether_the_rate_changed() {
    let mut state = EngineState::new(48000);
    assert!(!state.update_sample_rate(48000));
    assert_eq!(state, EngineState::new(48000));
    assert!(state.update_sample_rate(44100));
    assert_eq!(state.last_sample_rate, 44100);
    assert!(!state.update_sample_rate(44100));
    assert_eq!(state.last_sample_rate, 44100);
    assert!(state.update_sample_rate(48000));
    assert_eq!(state, EngineState::new(48000));
}

#[test]
fn update_tx_key_line_marks_the_edges() {
    let mut state = EngineState::new(48000);
    state.update_tx_key_line(false, 100);
    assert_eq!(state, EngineState::new(48000));

    state.update_tx_key_line(true, 256);
    assert!(state.last_key_down);
    assert_eq!(state.key_transition_frame_time, 256);
    assert_eq!(state.tone_start_frame_time, 256);

    state.update_tx_key_line(true, 512);
    assert_eq!(state.key_transition_frame_time, 256);
    assert_eq!(state.tone_start_frame_time, 256);

    state.update_tx_key_line(false, 768);
    assert!(!state.last_key_down);
    assert_eq!(state.key_transition_frame_time, 768);
    assert_eq!(state.tone_start_frame_time, 256);

    state.update_tx_key_line(true, 1024);
    assert_eq!(state.key_transition_frame_time, 1024);
    assert_eq!(state.tone_start_frame_time, 1024);
}

#[test]
fn position_counts_the_frames_since_the_tone_started() {
    let mut state = EngineState::new(48000);
    state.update_tx_key_line(true, 1000);
    assert_eq!(state.position(1000), 0);
    assert_eq!(state.position(1001), 1);
    assert_eq!(state.position(1256), 256);
    assert_eq!(state.position(u32::MAX), u32::MAX - 1000);
}

#[test]
fn position_follows_the_frame_counter_round() {
    let mut state = EngineState::new(48000);
    state.update_tx_key_line(true, u32::MAX - 9);
    assert_eq!(state.position(u32::MAX), 9);
    assert_eq!(state.position(0), 10);
    assert_eq!(state.position(90), 100);
}

#[test]
fn process_plans_the_block() {
    let mut state = EngineState::new(48000);
    let plan = state.process(snapshot(false, 48000), 0);
    assert_eq!(
        plan,
        BlockPlan { rate_changed: false, sample_rate: 48000, key_down: false, position: 0 }
    );
    let plan = state.process(snapshot(true, 44100), 1024);
    assert_eq!(
        plan,
        BlockPlan { rate_changed: true, sample_rate: 44100, key_down: true, position: 0 }
    );
    assert_eq!(
        state,
        EngineState {
            last_sample_rate: 44100,
            last_key_down: true,
            key_transition_frame_time: 1024,
            tone_start_frame_time: 1024,
        }
    );
    let plan = state.process(snapshot(true, 44100), 2048);
    assert_eq!(
        plan,
        BlockPlan { rate_changed: false, sample_rate: 44100, key_down: true, position: 1024 }
    );
    let plan = state.process(snapshot(false, 44100), 3072);
    assert_eq!(
        plan,
        BlockPlan { rate_changed: false, sample_rate: 44100, key_down: false, position: 2048 }
    );
    assert_eq!(state.key_transition_frame_time, 3072);
    assert_eq!(state.tone_start_frame_time, 1024);
}

#[test]
fn the_tone_starts_at_phase_zero() {
    for block_start in [0u32, 1, 4096, u32::MAX] {
        let mut state = EngineState::new(48000);
        let plan = state.process(snapshot(true, 48000), block_start);
        assert_eq!(plan.source(0), Source::Tone { position: 0 });
        assert_eq!(plan.source(1), Source::Tone { position: 1 });
    }
}

#[test]
fn the_tone_goes_on_from_block_to_block() {
    let frames: u32 = 256;
    let mut state = EngineState::new(48000);
    let mut block_start: u32 = u32::MAX - 1000;
    let mut expected: u64 = 0;
    for _ in 0..40 {
        let plan = state.process(snapshot(true, 48000), block_start);
        for n in 0..frames {
            assert_eq!(plan.source(n), Source::Tone { position: expected });
            expected += 1;
        }
        block_start = block_start.wrapping_add(frames);
    }
    assert_eq!(expected, 40 * 256);
}

#[test]
fn the_tone_goes_on_over_blocks_of_any_length() {
    let mut state = EngineState::new(48000);
    let mut block_start: u32 = 77;
    let mut expected: u64 = 0;
    for frames in [1u32, 64, 3, 1024, 0, 17, 4096] {
        let plan = state.process(snapshot(true, 48000), block_start);
        for n in 0..frames {
            assert_eq!(plan.source(n), Source::Tone { position: expected });
            expected += 1;
        }
        block_start += frames;
    }
}

#[test]
fn with_the_key_up_the_filter_is_fed_with_zero() {
    let mut state = EngineState::new(48000);
    state.process(snapshot(true, 48000), 0);
    let plan = state.process(snapshot(false, 48000), 256);
    for n in [0u32, 1, 255, u32::MAX] {
        assert_eq!(plan.source(n), Source::Silence);
    }
}

#[test]
fn the_position_of_a_frame_does_not_wrap_within_a_block() {
    let plan = BlockPlan {
        rate_changed: false,
        sample_rate: 48000,
        key_down: true,
        position: u32::MAX,
    };
    assert_eq!(plan.source(u32::MAX), Source::Tone { position: 2 * (u32::MAX as u64) });
    assert_eq!(plan.source(1), Source::Tone { position: 1 << 32 });
}

#[test]
fn under_an_envelope_the_tone_sounds_while_the_envelope_is_open() {
    let mut state = EngineState::new(48000);
    state.process(snapshot(true, 48000), 1000);
    let plan = state.process(snapshot(false, 48000), 1256);
    assert_eq!(plan.enveloped_source(0, 240), Source::Tone { position: 256 });
    assert_eq!(plan.enveloped_source(5, 1), Source::Tone { position: 261 });
    assert_eq!(plan.enveloped_source(6, 0), Source::Silence);

    let plan = state.process(snapshot(true, 48000), 1512);
    assert_eq!(plan.enveloped_source(0, 0), Source::Silence);
    assert_eq!(plan.enveloped_source(1, 1), Source::Tone { position: 1 });
}

#[test]
fn the_same_rate_twice_changes_nothing() {
    let mut state = EngineState::new(48000);
    let first = state.process(snapshot(true, 96000), 512);
    let after_first = state;
    let second = state.process(snapshot(true, 96000), 1024);
    assert!(first.rate_changed);
    assert!(!second.rate_changed);
    assert_eq!(state, after_first);
    assert_eq!(second.source(0), first.source(512));
}

#[test]
fn the_handler_starts_at_the_rate_it_finds() {
    let shared = Arc::new(SharedKeyState::new(false, 44100));
    let handler = Handler::new(Arc::clone(&shared));
    assert_eq!(handler.state(), EngineState::new(44100));
}

#[test]
fn the_handler_follows_the_shared_state() {
    let shared = Arc::new(SharedKeyState::new(false, 48000));
    let mut handler = Handler::new(Arc::clone(&shared));

    let (control, plan) = handler.process(0);
    assert_eq!(control, Control::Continue);
    assert_eq!(
        plan,
        BlockPlan { rate_changed: false, sample_rate: 48000, key_down: false, position: 0 }
    );

    shared.set_key_down(true);
    let (control, plan) = handler.process(256);
    assert_eq!(control, Control::Continue);
    assert_eq!(
        plan,
        BlockPlan { rate_changed: false, sample_rate: 48000, key_down: true, position: 0 }
    );

    shared.set_sample_rate(96000);
    let (_, plan) = handler.process(512);
    assert_eq!(
        plan,
        BlockPlan { rate_changed: true, sample_rate: 96000, key_down: true, position: 256 }
    );

    shared.set_key_down(false);
    let (_, plan) = handler.process(768);
    assert_eq!(
        plan,
        BlockPlan { rate_changed: false, sample_rate: 96000, key_down: false, position: 512 }
    );
    assert_eq!(
        handler.state(),
        EngineState {
            last_sample_rate: 96000,
            last_key_down: false,
            key_transition_frame_time: 768,
            tone_start_frame_time: 256,
        }
    );
}

#[test]
fn the_notification_handler_passes_the_rate_on() {
    let shared = Arc::new(SharedKeyState::new(false, 48000));
    let mut handler = notification::Handler::new(Arc::clone(&shared));
    assert_eq!(handler.sample_rate(44100), Control::Continue);
    assert_eq!(shared.sample_rate(), 44100);
    assert_eq!(handler.sample_rate(u32::MAX), Control::Continue);
    assert_eq!(shared.sample_rate(), u32::MAX as usize);
    assert!(!shared.key_down());
}

#[test]
fn the_engine_sees_a_new_rate_at_its_next_block() {
    let shared = Arc::new(SharedKeyState::new(false, 48000));
    let mut notifier = notification::Handler::new(Arc::clone(&shared));
    let mut engine = Handler::new(Arc::clone(&shared));
    notifier.sample_rate(48000);
    assert!(!engine.process(0).1.rate_changed);
    notifier.sample_rate(22050);
    assert!(engine.process(128).1.rate_changed);
    notifier.sample_rate(22050);
    assert!(!engine.process(256).1.rate_changed);
    assert_eq!(engine.state().last_sample_rate, 22050);
}
