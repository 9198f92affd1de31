//! The timed state machine: start, pause/resume accounting, ticks, stop,
//! and the empty-state guard.

use art_practice::data::{AutoStepState, ProgramData};
use art_practice::transform::ImageData;

fn rgb_image() -> ImageData {
    ImageData { width: 2, height: 1, channels: 3, pixels: vec![10, 20, 30, 40, 50, 60] }
}

fn loaded_program() -> ProgramData {
    let mut p = ProgramData::new();
    p.images_paths = vec![
        String::from("a.png"),
        String::from("b.png"),
        String::from("c.png"),
    ];
    p
}

fn time_left(p: &ProgramData) -> Option<u64> {
    p.state.get_data().expect("session is active").time_left
}

#[test]
fn start_with_no_images_is_a_no_op() {
    // The empty-state guard: with zero images, start leaves the state
    // stopped and makes no snapshot.
    let mut p = ProgramData::new();
    p.start(0, Some(rgb_image()));
    assert!(matches!(p.state, AutoStepState::Stopped));
    assert!(p.state.get_data().is_none());
}

#[test]
fn start_with_empty_schedule_is_a_no_op() {
    let mut p = loaded_program();
    p.config.schedule = vec![];
    p.start(0, Some(rgb_image()));
    assert!(matches!(p.state, AutoStepState::Stopped));
    assert!(p.state.get_data().is_none());
}

#[test]
fn start_with_degenerate_schedule_is_a_no_op() {
    // A block with zero repetitions or a zero duration cannot drive a
    // session; start rejects it and stays stopped.
    let mut p = loaded_program();
    p.config.schedule = vec![(0, 5)];
    p.start(0, Some(rgb_image()));
    assert!(matches!(p.state, AutoStepState::Stopped));
    let mut q = loaded_program();
    q.config.schedule = vec![(2, 0)];
    q.start(0, Some(rgb_image()));
    assert!(matches!(q.state, AutoStepState::Stopped));
}

#[test]
fn start_primes_first_block_duration() {
    let mut p = loaded_program();
    p.start(0, Some(rgb_image()));
    assert!(matches!(p.state, AutoStepState::Playing(_)));
    let d = p.state.get_data().unwrap();
    assert_eq!(d.current_image_id, 0);
    assert_eq!(d.current, (0, 0));
    // The default schedule starts with 30-second blocks.
    assert_eq!(d.time_left, Some(30_000));
}

#[test]
fn pause_resume_keeps_exact_remaining_time() {
    // Pause after exactly 5 s of an image shown for 30 s, resume at once:
    // 25 s remain.
    let mut p = loaded_program();
    p.start(0, Some(rgb_image()));
    p.tick(1_000, None);
    assert_eq!(time_left(&p), Some(29_000));
    p.start(4_000, None); // pause after 4 more seconds
    assert!(matches!(p.state, AutoStepState::Paused(_)));
    assert_eq!(time_left(&p), Some(25_000));
    p.start(0, None); // resume immediately
    assert!(matches!(p.state, AutoStepState::Playing(_)));
    assert_eq!(time_left(&p), Some(25_000));
}

#[test]
fn overshooting_pause_clamps_to_expiry() {
    // Pausing across more wall-clock time than remains (a suspended
    // process) clamps to the expiry sentinel instead of going negative,
    // and the next tick treats it as a normal expiry.
    let mut p = loaded_program();
    p.start(0, Some(rgb_image()));
    p.start(90_000, None); // pause long after the 30 s ran out
    assert_eq!(time_left(&p), None);
    p.start(0, None); // resume
    p.tick(0, Some(rgb_image()));
    let d = p.state.get_data().unwrap();
    assert_eq!(d.current_image_id, 1);
    assert_eq!(d.current, (0, 1));
    assert_eq!(d.time_left, Some(30_000));
}

#[test]
fn tick_counts_down_and_expires() {
    let mut p = loaded_program();
    p.start(0, Some(rgb_image()));
    p.tick(29_999, None);
    assert_eq!(time_left(&p), Some(1));
    p.tick(1, None);
    assert_eq!(time_left(&p), Some(0));
    p.tick(20, None);
    assert_eq!(time_left(&p), None); // expired, awaiting the next image
    // Without a decoded image the expired tick changes nothing.
    p.tick(20, None);
    assert_eq!(time_left(&p), None);
    let before = p.state.get_data().unwrap().current_image_id;
    assert_eq!(before, 0);
    // With the image the session advances and re-primes the clock.
    p.tick(20, Some(rgb_image()));
    let d = p.state.get_data().unwrap();
    assert_eq!(d.current_image_id, 1);
    assert_eq!(d.current, (0, 1));
    assert_eq!(d.time_left, Some(30_000));
}

#[test]
fn tick_advance_resets_transforms() {
    let mut p = loaded_program();
    p.start(0, Some(rgb_image()));
    p.toggle_black_and_white();
    p.toggle_mirror();
    assert!(p.black_and_white && p.mirrored);
    p.tick(30_001, None); // expire
    p.tick(0, Some(rgb_image()));
    assert!(!p.black_and_white && !p.mirrored);
    let d = p.state.get_data().unwrap();
    assert_eq!(d.current_image.pixels, rgb_image().pixels);
}

#[test]
fn tick_while_paused_changes_nothing() {
    let mut p = loaded_program();
    p.start(0, Some(rgb_image()));
    p.start(10_000, None); // pause with 20 s left
    assert_eq!(time_left(&p), Some(20_000));
    p.tick(5_000, None);
    assert!(matches!(p.state, AutoStepState::Paused(_)));
    assert_eq!(time_left(&p), Some(20_000));
}

#[test]
fn toggle_works_without_a_session_and_start_resets_it() {
    // The toggle flags live outside the snapshot, so they can be flipped
    // while stopped; a fresh start resets them and shows the new base
    // untransformed.
    let mut p = loaded_program();
    p.toggle_black_and_white();
    assert!(p.black_and_white);
    p.start(0, Some(rgb_image()));
    let d = p.state.get_data().unwrap();
    assert!(!p.black_and_white);
    assert_eq!(d.current_image.pixels, rgb_image().pixels);
}

#[test]
fn tick_while_stopped_is_a_no_op() {
    let mut p = loaded_program();
    p.tick(1_000, None);
    assert!(matches!(p.state, AutoStepState::Stopped));
}

#[test]
fn stop_discards_snapshot_and_keeps_images_and_toggles() {
    // The snapshot goes; the image list stays (reshuffled); the toggles
    // live outside the snapshot and survive the stop.
    let mut p = loaded_program();
    p.start(0, Some(rgb_image()));
    p.toggle_mirror();
    p.stop();
    assert!(matches!(p.state, AutoStepState::Stopped));
    assert!(p.state.get_data().is_none());
    assert!(!p.black_and_white);
    assert!(p.mirrored);
    let mut names = p.images_paths.clone();
    names.sort();
    assert_eq!(names, vec!["a.png", "b.png", "c.png"]);
}

#[test]
fn skip_block_advances_block_and_time() {
    let mut p = loaded_program();
    p.config.schedule = vec![(2, 5), (3, 10)];
    p.start(0, Some(rgb_image()));
    assert_eq!(time_left(&p), Some(5_000));
    p.skip_block(rgb_image());
    let d = p.state.get_data().unwrap();
    assert_eq!(d.current, (1, 0));
    assert_eq!(d.time_left, Some(10_000));
    assert_eq!(d.current_image_id, 1);
}

#[test]
fn next_keeps_schedule_position() {
    let mut p = loaded_program();
    p.config.schedule = vec![(2, 5), (3, 10)];
    p.start(0, Some(rgb_image()));
    p.tick(2_000, None);
    p.next(rgb_image());
    let d = p.state.get_data().unwrap();
    assert_eq!(d.current, (0, 0)); // schedule position untouched
    assert_eq!(d.current_image_id, 1);
    assert_eq!(d.time_left, Some(5_000)); // re-primed for the same block
}
