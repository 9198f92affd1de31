//! The image sequencer: extension filtering, cyclic advance, and the
//! reshuffle on wraparound.

use art_practice::data::{AutoStepData, ProgramData};
use art_practice::delegate::Delegate;
use art_practice::sequencer::filter_image_paths;
use art_practice::transform::ImageData;

fn rgb_image() -> ImageData {
    ImageData { width: 2, height: 1, channels: 3, pixels: vec![10, 20, 30, 40, 50, 60] }
}

fn snapshot_at_id(id: usize) -> AutoStepData {
    AutoStepData {
        current_image_id: id,
        current_image: rgb_image(),
        unmodified_image: rgb_image(),
        current: (0, 0),
        time_left: Some(5_000),
    }
}

#[test]
fn filter_keeps_only_image_files() {
    let listing = vec![
        String::from("a.png"),
        String::from("notes.txt"),
        String::from("b.jpeg"),
        String::from("c.jpg"),
        String::from("d.bmp"),
        String::from("e.gif"),
        String::from("f.png.bak"),
        String::from("png"),
    ];
    let kept = filter_image_paths(&listing);
    assert_eq!(kept, vec!["a.png", "b.jpeg", "c.jpg", "d.bmp", "e.gif"]);
}

#[test]
fn advance_cycles_and_reports_the_wrap() {
    let mut d = snapshot_at_id(0);
    assert!(!d.set_next_image(3, rgb_image()));
    assert_eq!(d.current_image_id, 1);
    assert!(!d.set_next_image(3, rgb_image()));
    assert_eq!(d.current_image_id, 2);
    // The third advance runs past the last image: back to index zero, and
    // the wrap is reported so the caller reshuffles.
    assert!(d.set_next_image(3, rgb_image()));
    assert_eq!(d.current_image_id, 0);
}

#[test]
fn three_images_visited_once_then_reshuffled_on_wrap() {
    // Loaded with three images, advancing visits each index exactly once;
    // the wrap triggers a reshuffle whose result is still a permutation of
    // the same three paths.
    let mut p = ProgramData::new();
    p.images_paths = vec![String::from("A.png"), String::from("B.png"), String::from("C.png")];
    p.start(0, Some(rgb_image()));
    let mut visited = vec![p.state.get_data().unwrap().current_image_id];
    for _ in 0..2 {
        let wrapped = p.next(rgb_image());
        assert!(!wrapped);
        visited.push(p.state.get_data().unwrap().current_image_id);
    }
    visited.sort();
    assert_eq!(visited, vec![0, 1, 2]);
    let wrapped = p.next(rgb_image());
    assert!(wrapped);
    assert_eq!(p.state.get_data().unwrap().current_image_id, 0);
    let mut names = p.images_paths.clone();
    names.sort();
    assert_eq!(names, vec!["A.png", "B.png", "C.png"]);
}

#[test]
fn reload_replaces_filters_and_stops() {
    let mut p = ProgramData::new();
    p.images_paths = vec![String::from("old.png")];
    p.start(0, Some(rgb_image()));
    p.toggle_black_and_white();
    p.reload(vec![
        String::from("x.gif"),
        String::from("skip.me"),
        String::from("y.bmp"),
    ]);
    assert!(p.state.get_data().is_none());
    // The toggles survive the stop that a reload forces.
    assert!(p.black_and_white);
    let mut names = p.images_paths.clone();
    names.sort();
    assert_eq!(names, vec!["x.gif", "y.bmp"]);
}

#[test]
fn delegate_command_records_directory_and_reloads() {
    let mut p = ProgramData::new();
    let handled = Delegate.command(
        &mut p,
        String::from("/pictures"),
        vec![String::from("p.png"), String::from("q.txt")],
    );
    assert!(handled);
    assert_eq!(p.config.current_directory.as_deref(), Some("/pictures"));
    assert_eq!(p.images_paths, vec!["p.png"]);
    assert!(matches!(p.state, art_practice::data::AutoStepState::Stopped));
}

#[test]
fn config_defaults_and_schedule_editing() {
    let mut p = ProgramData::new();
    assert_eq!(p.config.schedule, vec![(5, 30), (5, 60)]);
    assert!(p.config.current_directory.is_none());
    assert!(p.config.schedule_valid());
    // Adding copies the last block; removing drops it again.
    p.config.schedule_add();
    assert_eq!(p.config.schedule, vec![(5, 30), (5, 60), (5, 60)]);
    p.config.schedule_remove();
    p.config.schedule_remove();
    p.config.schedule_remove();
    assert_eq!(p.config.schedule, vec![]);
    // An empty schedule gets the default block back.
    p.config.schedule_add();
    assert_eq!(p.config.schedule, vec![(5, 30)]);
}

#[test]
fn filter_is_case_sensitive_and_needs_the_dot() {
    let listing = vec![
        String::from("UPPER.PNG"),
        String::from("noext"),
        String::from("trailingdotpng"),
        String::from("ok.png"),
    ];
    let kept = filter_image_paths(&listing);
    assert_eq!(kept, vec!["ok.png"]);
}

#[test]
fn filter_drops_dot_files() {
    // A hidden file whose whole name is the extension has no extension:
    // the dot must be preceded by a character of the file name.
    let listing = vec![
        String::from(".png"),
        String::from("dir/.png"),
        String::from("dir/a.png"),
        String::from(".hidden.png"),
    ];
    let kept = filter_image_paths(&listing);
    // A hidden file with a real extension after its leading dot keeps it.
    assert_eq!(kept, vec!["dir/a.png", ".hidden.png"]);
}

#[test]
fn schedule_validity_accepts_the_duration_bound() {
    let mut p = ProgramData::new();
    p.config.schedule = vec![(1, 1_000_000_000)];
    assert!(p.config.schedule_valid());
    p.config.schedule = vec![(1, 1_000_000_001)];
    assert!(!p.config.schedule_valid());
}

#[test]
fn schedule_validity_rejects_degenerate_blocks() {
    let mut p = ProgramData::new();
    p.config.schedule = vec![];
    assert!(!p.config.schedule_valid());
    p.config.schedule = vec![(0, 5)];
    assert!(!p.config.schedule_valid());
    p.config.schedule = vec![(2, 0)];
    assert!(!p.config.schedule_valid());
    p.config.schedule = vec![(2, 5), (0, 10)];
    assert!(!p.config.schedule_valid());
    p.config.schedule = vec![(1, 1)];
    assert!(p.config.schedule_valid());
}
