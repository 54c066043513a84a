use keyjack::jack_handlers::process::Handler;
use keyjack::shared::{SharedKeyState, Snapshot};
use std::sync::Arc;

#[test]
fn the_cells_start_with_what_they_were_made_with() {
    let shared = SharedKeyState::new(true, 44100);
    assert!(shared.key_down());
    assert_eq!(shared.sample_rate(), 44100);
    let shared = SharedKeyState::new(false, 0);
    assert!(!shared.key_down());
    assert_eq!(shared.sample_rate(), 0);
}

#[test]
fn each_cell_is_set_by_itself() {
    let shared = SharedKeyState::new(false, 48000);
    shared.set_key_down(true);
    assert!(shared.key_down());
    assert_eq!(shared.sample_rate(), 48000);
    shared.set_sample_rate(96000);
    assert!(shared.key_down());
    assert_eq!(shared.sample_rate(), 96000);
    shared.set_key_down(false);
    assert!(!shared.key_down());
    assert_eq!(shared.sample_rate(), 96000);
    shared.set_sample_rate(usize::MAX);
    assert_eq!(shared.sample_rate(), usize::MAX);
}

#[test]
fn a_snapshot_holds_both_cells() {
    let shared = SharedKeyState::new(false, 48000);
    assert_eq!(shared.snapshot(), Snapshot { key_down: false, sample_rate: 48000 });
    shared.set_key_down(true);
    shared.set_sample_rate(22050);
    assert_eq!(shared.snapshot(), Snapshot { key_down: true, sample_rate: 22050 });
}

#[test]
fn every_toggle_of_the_key_line_is_seen_by_the_next_block() {
    let shared = Arc::new(SharedKeyState::new(false, 48000));
    let writer = Arc::clone(&shared);
    let mut engine = Handler::new(Arc::clone(&shared));
    for toggle in 0..5000u32 {
        let frame_time = toggle.wrapping_mul(64);
        let before = engine.state().last_key_down;
        writer.set_key_down(toggle % 2 == 0);
        let (_, plan) = engine.process(frame_time);
        assert_eq!(plan.key_down, toggle % 2 == 0);
        assert_ne!(plan.key_down, before);
        assert_eq!(engine.state().key_transition_frame_time, frame_time);
    }
}
