//! The data model: configuration, playback snapshot and session state.

use vstd::prelude::*;
use crate::schedule::{
    lemma_step_forward_pos_wf, pos_wf, schedule_wf, step_forward_block_pos, step_forward_pos,
    MAX_DURATION_SECS,
};
use crate::sequencer::{advance_wraps, filter_image_paths, keep_image_paths, next_image_id, shuffle_paths};
use crate::transform::{
    apply_transforms, flip_horizontal, flip_view, gray_view, grayscale_rgb, ImageData,
};

verus! {

/// The persisted configuration: the chosen source directory and the
/// schedule, an ordered list of `(repeat_count, duration_seconds)` blocks.
pub struct Config {
    pub current_directory: Option<String>,
    pub schedule: Vec<(usize, usize)>,
}

impl Config {
    /// The configuration used when none was saved: no directory chosen yet,
    /// five images at 30 seconds, then five at 60.
    pub fn new() -> (c: Config)
        ensures
            c.current_directory is None,
            c.schedule@ == seq![(5usize, 30usize), (5usize, 60usize)],
    {
        let mut schedule: Vec<(usize, usize)> = Vec::new();
        schedule.push((5, 30));
        schedule.push((5, 60));
        Config { current_directory: None, schedule }
    }

    /// Whether the schedule may drive a session: non-empty, at least one
    /// repetition per block, and durations of at least one second that can
    /// be counted in milliseconds.
    pub fn schedule_valid(&self) -> (r: bool)
        ensures
            r == schedule_wf(self.schedule@),
    {
        if self.schedule.len() == 0 {
            return false;
        }
        let mut i: usize = 0;
        while i < self.schedule.len()
            invariant
                i <= self.schedule@.len(),
                0 < self.schedule@.len() <= usize::MAX,
                forall|k: int| 0 <= k < i ==> 1 <= (#[trigger] self.schedule@[k]).0,
                forall|k: int|
                    0 <= k < i ==> 1 <= (#[trigger] self.schedule@[k]).1 <= MAX_DURATION_SECS,
            decreases self.schedule@.len() - i,
        {
            let (reps, dur) = self.schedule[i];
            if reps < 1 || dur < 1 || dur > MAX_DURATION_SECS {
                return false;
            }
            i += 1;
        }
        true
    }

    /// Append one block to the schedule: a copy of the last one, or the
    /// default block when the schedule is empty.
    pub fn schedule_add(&mut self)
        ensures
            final(self).schedule@ == old(self).schedule@.push(
                if old(self).schedule@.len() > 0 {
                    old(self).schedule@.last()
                } else {
                    (5usize, 30usize)
                },
            ),
            final(self).current_directory == old(self).current_directory,
    {
        let block: (usize, usize) = if self.schedule.len() > 0 {
            self.schedule[self.schedule.len() - 1]
        } else {
            (5, 30)
        };
        self.schedule.push(block);
    }

    /// Remove the last block of the schedule, if there is one.
    pub fn schedule_remove(&mut self)
        ensures
            final(self).schedule@ == if old(self).schedule@.len() > 0 {
                old(self).schedule@.drop_last()
            } else {
                old(self).schedule@
            },
            final(self).current_directory == old(self).current_directory,
    {
        if self.schedule.len() > 0 {
            self.schedule.pop();
        }
    }
}

/// The playback snapshot, alive only while a session is playing or paused.
pub struct AutoStepData {
    /// Index of the displayed image within the sequencer's current ordering.
    pub current_image_id: usize,
    /// The displayed image: the base with the active transforms applied.
    pub current_image: ImageData,
    /// The untransformed base image behind `current_image`.
    pub unmodified_image: ImageData,
    /// The schedule position, as `(block, repetition)`.
    pub current: (usize, usize),
    /// Remaining display time for the current image, in milliseconds.
    /// `None` is the expiry sentinel: the time has run out and the next
    /// image has not been primed yet.
    pub time_left: Option<u64>,
}

impl AutoStepData {
    /// A fresh snapshot: the first image, position `(0, 0)`, and the first
    /// block's duration on the clock.
    pub fn new(data: &ProgramData, image: ImageData) -> (d: AutoStepData)
        requires
            schedule_wf(data.config.schedule@),
        ensures
            d.current_image_id == 0,
            d.current == (0usize, 0usize),
            d.time_left == Some((data.config.schedule@[0].1 * 1000) as u64),
            d.current_image@ == image@,
            d.unmodified_image@ == image@,
    {
        let duration_secs = data.config.schedule[0].1;
        let time_ms: u64 = (duration_secs as u64) * 1000;
        AutoStepData {
            current_image_id: 0,
            current_image: image.clone(),
            unmodified_image: image,
            current: (0, 0),
            time_left: Some(time_ms),
        }
    }

    /// Show the image decoded for index `id` of the sequencer's ordering;
    /// both the displayed and the base buffer become this image.
    pub fn set_image_id(&mut self, id: usize, image: ImageData)
        ensures
            final(self).current_image_id == id,
            final(self).current_image@ == image@,
            final(self).unmodified_image@ == image@,
            final(self).current == old(self).current,
            final(self).time_left == old(self).time_left,
    {
        self.current_image_id = id;
        self.current_image = image.clone();
        self.unmodified_image = image;
    }

    /// Advance to the next of `num_images` images, wrapping to index zero
    /// past the last; reports the wrap so that the caller can reshuffle.
    pub fn set_next_image(&mut self, num_images: usize, image: ImageData) -> (end: bool)
        requires
            old(self).current_image_id < num_images,
        ensures
            end == advance_wraps(old(self).current_image_id as int, num_images as int),
            final(self).current_image_id == next_image_id(
                old(self).current_image_id as int,
                num_images as int,
            ),
            final(self).current_image@ == image@,
            final(self).unmodified_image@ == image@,
            final(self).current == old(self).current,
            final(self).time_left == old(self).time_left,
    {
        let id = self.current_image_id;
        if id < num_images - 1 {
            self.set_image_id(id + 1, image);
            false
        } else {
            self.set_image_id(0, image);
            true
        }
    }

    /// One schedule step: the next repetition of the current block, the
    /// start of the next block, or `(0, 0)` again after the last.
    pub fn step_forward(&mut self, schedule: &Vec<(usize, usize)>)
        requires
            schedule_wf(schedule@),
            pos_wf(old(self).current, schedule@),
        ensures
            final(self).current == step_forward_pos(old(self).current, schedule@),
            pos_wf(final(self).current, schedule@),
            final(self).current_image_id == old(self).current_image_id,
            final(self).current_image == old(self).current_image,
            final(self).unmodified_image == old(self).unmodified_image,
            final(self).time_left == old(self).time_left,
    {
        proof {
            lemma_step_forward_pos_wf(self.current, schedule@);
        }
        let (big_step, small_step) = self.current;
        let current_big_step_length = schedule[big_step].0;
        self.current = if small_step >= current_big_step_length - 1 {
            if big_step >= schedule.len() - 1 {
                (0, 0)
            } else {
                (big_step + 1, 0)
            }
        } else {
            (big_step, small_step + 1)
        };
    }

    /// Skip the rest of the current block: the start of the next block, or
    /// `(0, 0)` again from the last.
    pub fn step_forward_block(&mut self, schedule: &Vec<(usize, usize)>)
        requires
            schedule_wf(schedule@),
            pos_wf(old(self).current, schedule@),
        ensures
            final(self).current == step_forward_block_pos(old(self).current, schedule@),
            pos_wf(final(self).current, schedule@),
            final(self).current_image_id == old(self).current_image_id,
            final(self).current_image == old(self).current_image,
            final(self).unmodified_image == old(self).unmodified_image,
            final(self).time_left == old(self).time_left,
    {
        proof {
            lemma_step_forward_pos_wf(self.current, schedule@);
        }
        let (big_step, _) = self.current;
        self.current = if big_step >= schedule.len() - 1 {
            (0, 0)
        } else {
            (big_step + 1, 0)
        };
    }

    /// The configured display duration, in seconds, at the current position.
    pub fn get_current_duration(&self, schedule: &Vec<(usize, usize)>) -> (d: usize)
        requires
            self.current.0 < schedule@.len(),
        ensures
            d == schedule@[self.current.0 as int].1,
    {
        schedule[self.current.0].1
    }

    /// Rebuild the displayed image from the unmodified base under the given
    /// toggles: the base, grayscaled if `bw`, then mirrored if `mirror`.
    /// Recomputing from the base is what keeps toggling free of cumulative
    /// loss.
    pub fn restore_image(&mut self, bw: bool, mirror: bool)
        requires
            old(self).unmodified_image@.wf(),
        ensures
            final(self).current_image@ == apply_transforms(
                old(self).unmodified_image@,
                bw,
                mirror,
            ),
            final(self).current_image@.wf(),
            final(self).unmodified_image == old(self).unmodified_image,
            final(self).current_image_id == old(self).current_image_id,
            final(self).current == old(self).current,
            final(self).time_left == old(self).time_left,
    {
        self.current_image = self.unmodified_image.clone();
        if bw {
            self.make_bw();
        }
        if mirror {
            self.mirror();
        }
    }

    /// Replace the displayed image with its grayscale version, computed
    /// from the pixel buffer by the standard luma mapping and tagged as a
    /// single-channel image.
    pub fn make_bw(&mut self)
        requires
            old(self).current_image@.wf(),
        ensures
            final(self).current_image@ == gray_view(old(self).current_image@),
            final(self).current_image@.wf(),
            final(self).unmodified_image == old(self).unmodified_image,
            final(self).current_image_id == old(self).current_image_id,
            final(self).current == old(self).current,
            final(self).time_left == old(self).time_left,
    {
        if self.current_image.channels == 3 {
            let luma = grayscale_rgb(
                &self.current_image.pixels,
                self.current_image.width,
                self.current_image.height,
            );
            self.current_image = ImageData {
                width: self.current_image.width,
                height: self.current_image.height,
                channels: 1,
                pixels: luma,
            };
            proof {
                assert(self.current_image@ =~= gray_view(old(self).current_image@));
            }
        }
    }

    /// Replace the displayed image with its mirror image: a horizontal flip
    /// of the pixel buffer, same dimensions.
    pub fn mirror(&mut self)
        requires
            old(self).current_image@.wf(),
        ensures
            final(self).current_image@ == flip_view(old(self).current_image@),
            final(self).current_image@.wf(),
            final(self).unmodified_image == old(self).unmodified_image,
            final(self).current_image_id == old(self).current_image_id,
            final(self).current == old(self).current,
            final(self).time_left == old(self).time_left,
    {
        let flipped = flip_horizontal(
            &self.current_image.pixels,
            self.current_image.width,
            self.current_image.height,
            self.current_image.channels,
        );
        self.current_image = ImageData {
            width: self.current_image.width,
            height: self.current_image.height,
            channels: self.current_image.channels,
            pixels: flipped,
        };
        proof {
            assert(self.current_image@ =~= flip_view(old(self).current_image@));
        }
    }
}

/// Whether a session is active and, if so, whether it is advancing.
pub enum AutoStepState {
    Stopped,
    Paused(AutoStepData),
    Playing(AutoStepData),
}

impl AutoStepState {
    /// The snapshot of an active session, if one is alive.
    pub fn get_data(&self) -> (r: Option<&AutoStepData>)
        ensures
            (*self is Stopped) == (r is None),
            *self matches AutoStepState::Paused(d) ==> r matches Some(x) && *x == d,
            *self matches AutoStepState::Playing(d) ==> r matches Some(x) && *x == d,
    {
        match self {
            AutoStepState::Stopped => None,
            AutoStepState::Paused(data) | AutoStepState::Playing(data) => Some(data),
        }
    }
}

/// The whole program state that the scheduling core owns.
pub struct ProgramData {
    /// The image paths of the chosen directory, in the sequencer's current
    /// (shuffled) order.
    pub images_paths: Vec<String>,
    pub config: Config,
    pub state: AutoStepState,
    /// The grayscale toggle; owned outside the snapshot so it survives a
    /// stop.
    pub black_and_white: bool,
    /// The mirror toggle.
    pub mirrored: bool,
}

/// Consistency of an active snapshot with the rest of the program state.
pub open spec fn snapshot_wf(d: AutoStepData, p: ProgramData) -> bool {
    &&& schedule_wf(p.config.schedule@)
    &&& 0 < p.images_paths@.len()
    &&& d.current_image_id < p.images_paths@.len()
    &&& pos_wf(d.current, p.config.schedule@)
    &&& d.unmodified_image@.wf()
    &&& d.current_image@ == apply_transforms(d.unmodified_image@, p.black_and_white, p.mirrored)
}

/// The session invariant: whenever a session is active, its snapshot is
/// consistent with the schedule, the image list and the toggles — in
/// particular the displayed image is always the unmodified base under the
/// active toggles.
pub open spec fn session_wf(p: ProgramData) -> bool {
    match p.state {
        AutoStepState::Stopped => true,
        AutoStepState::Paused(d) => snapshot_wf(d, p),
        AutoStepState::Playing(d) => snapshot_wf(d, p),
    }
}

impl ProgramData {
    /// A fresh program state: no images, the default configuration, no
    /// session, both transforms off.
    pub fn new() -> (p: ProgramData)
        ensures
            p.images_paths@.len() == 0,
            p.config.current_directory is None,
            p.config.schedule@ == seq![(5usize, 30usize), (5usize, 60usize)],
            p.state is Stopped,
            !p.black_and_white,
            !p.mirrored,
            session_wf(p),
    {
        ProgramData {
            images_paths: Vec::new(),
            config: Config::new(),
            state: AutoStepState::Stopped,
            black_and_white: false,
            mirrored: false,
        }
    }

    /// Replace the image list with the image files of a fresh directory
    /// listing, when one is given, and shuffle the list; with `None` the
    /// current list is only reshuffled.  A fresh listing may change the
    /// list's length, so it is only taken while no session is active.
    pub fn prepare_images(&mut self, reload: Option<Vec<String>>)
        requires
            session_wf(*old(self)),
            reload is Some ==> old(self).state is Stopped,
        ensures
            session_wf(*final(self)),
            final(self).config == old(self).config,
            final(self).state == old(self).state,
            final(self).black_and_white == old(self).black_and_white,
            final(self).mirrored == old(self).mirrored,
            match reload {
                Some(ps) => final(self).images_paths@.to_multiset() == keep_image_paths(
                    ps@,
                ).to_multiset(),
                None => final(self).images_paths@.to_multiset()
                    == old(self).images_paths@.to_multiset() && final(self).images_paths@.len()
                    == old(self).images_paths@.len(),
            },
    {
        match reload {
            Some(ps) => {
                self.images_paths = filter_image_paths(&ps);
            },
            None => {},
        }
        shuffle_paths(&mut self.images_paths);
    }

    /// Switch both transforms off.  The callers that change the displayed
    /// image pair this with showing the new, untransformed base.
    pub fn reset_transformations(&mut self)
        ensures
            !final(self).black_and_white,
            !final(self).mirrored,
            final(self).images_paths == old(self).images_paths,
            final(self).config == old(self).config,
            final(self).state == old(self).state,
    {
        self.black_and_white = false;
        self.mirrored = false;
    }
}

} // verus!
