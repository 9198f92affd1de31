//! Schedule stepping: the worked example, wraparound and block skips.

use art_practice::data::AutoStepData;
use art_practice::transform::ImageData;

fn rgb_image() -> ImageData {
    ImageData { width: 2, height: 1, channels: 3, pixels: vec![10, 20, 30, 40, 50, 60] }
}

fn snapshot_at(pos: (usize, usize)) -> AutoStepData {
    AutoStepData {
        current_image_id: 0,
        current_image: rgb_image(),
        unmodified_image: rgb_image(),
        current: pos,
        time_left: Some(5_000),
    }
}

#[test]
fn schedule_example_positions() {
    // Two images at 5 s, then three at 10 s: stepping from (0,0) yields
    // (0,1), (1,0), (1,1), (1,2), and the fifth step wraps to (0,0).
    let schedule: Vec<(usize, usize)> = vec![(2, 5), (3, 10)];
    let mut d = snapshot_at((0, 0));
    d.step_forward(&schedule);
    assert_eq!(d.current, (0, 1));
    d.step_forward(&schedule);
    assert_eq!(d.current, (1, 0));
    d.step_forward(&schedule);
    assert_eq!(d.current, (1, 1));
    d.step_forward(&schedule);
    assert_eq!(d.current, (1, 2));
    d.step_forward(&schedule);
    assert_eq!(d.current, (0, 0));
}

#[test]
fn wraparound_full_cycle() {
    // One step per repetition in the schedule returns to the start, from
    // any position.
    let schedule: Vec<(usize, usize)> = vec![(2, 5), (3, 10)];
    let total: usize = 2 + 3;
    for start in [(0usize, 0usize), (0, 1), (1, 0), (1, 2)] {
        let mut d = snapshot_at(start);
        for _ in 0..total {
            d.step_forward(&schedule);
        }
        assert_eq!(d.current, start);
    }
}

#[test]
fn wraparound_single_block_schedule() {
    // A single-block, single-repetition schedule follows the same rule:
    // every step wraps straight back to (0, 0).
    let schedule: Vec<(usize, usize)> = vec![(1, 7)];
    let mut d = snapshot_at((0, 0));
    d.step_forward(&schedule);
    assert_eq!(d.current, (0, 0));
}

#[test]
fn block_skip_lands_on_repetition_zero() {
    let schedule: Vec<(usize, usize)> = vec![(2, 5), (3, 10), (4, 20)];
    let mut d = snapshot_at((1, 2));
    d.step_forward_block(&schedule);
    assert_eq!(d.current, (2, 0));
    d.step_forward_block(&schedule);
    assert_eq!(d.current, (0, 0));
}

#[test]
fn block_skip_cycles_in_len_steps() {
    // Applying the block skip once per block returns to repetition zero of
    // the starting block; from (0, 0) that is (0, 0) again.
    let schedule: Vec<(usize, usize)> = vec![(2, 5), (3, 10), (4, 20)];
    let mut d = snapshot_at((0, 0));
    for _ in 0..schedule.len() {
        d.step_forward_block(&schedule);
    }
    assert_eq!(d.current, (0, 0));
}

#[test]
fn current_duration_reads_the_block() {
    let schedule: Vec<(usize, usize)> = vec![(2, 5), (3, 10)];
    let d = snapshot_at((1, 2));
    assert_eq!(d.get_current_duration(&schedule), 10);
    let d0 = snapshot_at((0, 1));
    assert_eq!(d0.get_current_duration(&schedule), 5);
}
