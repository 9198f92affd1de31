//! The timed state machine that drives a session: start toggling between
//! playing and paused, stop, the periodic tick, immediate skips, the
//! transform toggles, and reloading the image set.
//!
//! Wall-clock time stays outside the library: the application measures the
//! milliseconds elapsed since the last tick or resume and hands them in,
//! and it decodes and hands in an image file whenever a command needs one.
//! Remaining time is counted in whole milliseconds and clamped to the
//! expiry sentinel `None`, so it is never negative; the next tick treats a
//! clamped value exactly like an ordinary expiry.

use vstd::prelude::*;
use crate::data::{session_wf, AutoStepData, AutoStepState, ProgramData};
use crate::schedule::{pos_wf, schedule_wf, step_forward_block_pos, step_forward_pos};
use crate::sequencer::{advance_wraps, keep_image_paths, next_image_id, shuffle_paths};
use crate::transform::{apply_transforms, ImageData};

verus! {

/// Remaining time after `elapsed` milliseconds pass: counted down exactly
/// while any time is left, and clamped to the expiry sentinel `None` once
/// spent — even when the elapsed time overshoots, as after a long suspend.
pub open spec fn sub_clamp(t: Option<u64>, elapsed: u64) -> Option<u64> {
    match t {
        Some(v) => if elapsed <= v {
            Some((v - elapsed) as u64)
        } else {
            None
        },
        None => None,
    }
}

/// The snapshot `d` with its remaining time replaced.
pub open spec fn with_time_left(d: AutoStepData, t: Option<u64>) -> AutoStepData {
    AutoStepData {
        current_image_id: d.current_image_id,
        current_image: d.current_image,
        unmodified_image: d.unmodified_image,
        current: d.current,
        time_left: t,
    }
}

/// The program state `p` with its session state replaced.
pub open spec fn with_state(p: ProgramData, st: AutoStepState) -> ProgramData {
    ProgramData {
        images_paths: p.images_paths,
        config: p.config,
        state: st,
        black_and_white: p.black_and_white,
        mirrored: p.mirrored,
    }
}

/// What the start command does to an active session: playing becomes
/// paused with the elapsed time deducted from the remaining time, and
/// paused becomes playing with the remaining time untouched.
pub open spec fn start_transition(p: ProgramData, elapsed_ms: u64) -> ProgramData {
    match p.state {
        AutoStepState::Playing(d) => with_state(
            p,
            AutoStepState::Paused(with_time_left(d, sub_clamp(d.time_left, elapsed_ms))),
        ),
        AutoStepState::Paused(d) => with_state(p, AutoStepState::Playing(d)),
        AutoStepState::Stopped => p,
    }
}

/// Whether a stopped session may start: there are images to show and the
/// schedule can drive a session.
pub open spec fn can_start(p: ProgramData) -> bool {
    0 < p.images_paths@.len() && schedule_wf(p.config.schedule@)
}

/// How an image advance relates the new snapshot and program state to the
/// old ones: the sequencer moved one image on (wrapping past the last),
/// the schedule position became `pos2`, the clock was primed with that
/// position's duration, the new image shows untransformed with both
/// toggles off, and the image list was reshuffled exactly when the advance
/// wrapped.
pub open spec fn advanced_snapshot(
    p: ProgramData,
    d: AutoStepData,
    img: ImageData,
    q: ProgramData,
    d2: AutoStepData,
    wrapped: bool,
    pos2: (usize, usize),
) -> bool {
    &&& wrapped == advance_wraps(d.current_image_id as int, p.images_paths@.len() as int)
    &&& d2.current_image_id == next_image_id(
        d.current_image_id as int,
        p.images_paths@.len() as int,
    )
    &&& d2.current == pos2
    &&& d2.time_left == Some((p.config.schedule@[pos2.0 as int].1 * 1000) as u64)
    &&& d2.current_image@ == img@
    &&& d2.unmodified_image@ == img@
    &&& !q.black_and_white && !q.mirrored
    &&& q.config == p.config
    &&& if wrapped {
        q.images_paths@.to_multiset() == p.images_paths@.to_multiset()
            && q.images_paths@.len() == p.images_paths@.len()
    } else {
        q.images_paths == p.images_paths
    }
}

/// The snapshot `d2` shows the same image as `d` re-derived under the
/// given toggles, with everything else untouched.
pub open spec fn retoggled_snapshot(
    d: AutoStepData,
    d2: AutoStepData,
    black_and_white: bool,
    mirrored: bool,
) -> bool {
    &&& d2.current_image@ == apply_transforms(d.unmodified_image@, black_and_white, mirrored)
    &&& d2.unmodified_image == d.unmodified_image
    &&& d2.current_image_id == d.current_image_id
    &&& d2.current == d.current
    &&& d2.time_left == d.time_left
}

/// How far the schedule position moves when a command advances the image.
enum StepMode {
    /// Keep the position: an immediate skip outside the schedule.
    Keep,
    /// One forward step: the tick advancing on expiry.
    Single,
    /// Skip the rest of the block.
    Block,
}

/// The position a step mode moves `pos` to.
spec fn stepped_pos(mode: StepMode, pos: (usize, usize), s: Seq<(usize, usize)>) -> (usize, usize) {
    match mode {
        StepMode::Keep => pos,
        StepMode::Single => step_forward_pos(pos, s),
        StepMode::Block => step_forward_block_pos(pos, s),
    }
}

fn count_down(t: Option<u64>, elapsed_ms: u64) -> (r: Option<u64>)
    ensures
        r == sub_clamp(t, elapsed_ms),
{
    match t {
        Some(v) => if elapsed_ms <= v {
            Some(v - elapsed_ms)
        } else {
            None
        },
        None => None,
    }
}

impl ProgramData {
    /// Advance the snapshot to the given image, move the schedule position
    /// as the mode says, prime the clock with the new position's duration,
    /// and reset both toggles.  Reports whether the sequencer wrapped; the
    /// caller reshuffles then.
    fn advance_snapshot_exec(
        &mut self,
        d: &mut AutoStepData,
        image: ImageData,
        mode: StepMode,
    ) -> (wrapped: bool)
        requires
            schedule_wf(old(self).config.schedule@),
            pos_wf(old(d).current, old(self).config.schedule@),
            old(d).current_image_id < old(self).images_paths@.len(),
            image@.wf(),
        ensures
            final(self).images_paths == old(self).images_paths,
            final(self).config == old(self).config,
            final(self).state == old(self).state,
            !final(self).black_and_white,
            !final(self).mirrored,
            wrapped == advance_wraps(
                old(d).current_image_id as int,
                old(self).images_paths@.len() as int,
            ),
            final(d).current_image_id == next_image_id(
                old(d).current_image_id as int,
                old(self).images_paths@.len() as int,
            ),
            final(d).current == stepped_pos(mode, old(d).current, old(self).config.schedule@),
            pos_wf(final(d).current, old(self).config.schedule@),
            final(d).time_left == Some(
                (old(self).config.schedule@[final(d).current.0 as int].1 * 1000) as u64,
            ),
            final(d).current_image@ == image@,
            final(d).unmodified_image@ == image@,
    {
        let num = self.images_paths.len();
        let wrapped = d.set_next_image(num, image);
        match mode {
            StepMode::Keep => {},
            StepMode::Single => d.step_forward(&self.config.schedule),
            StepMode::Block => d.step_forward_block(&self.config.schedule),
        }
        let duration_secs = d.get_current_duration(&self.config.schedule);
        d.time_left = Some((duration_secs as u64) * 1000);
        self.reset_transformations();
        wrapped
    }

    /// The start command.  Playing pauses, with the elapsed wall-clock
    /// milliseconds since the last resume or tick deducted from the
    /// remaining time (clamped at expiry); paused resumes with the
    /// remaining time untouched.  Stopped starts a fresh session at the
    /// first image and position `(0, 0)` — but only when there are images,
    /// the schedule is valid, and the first image was decoded; otherwise
    /// the command is a no-op and the state stays stopped.
    pub fn start(&mut self, elapsed_ms: u64, first_image: Option<ImageData>)
        requires
            session_wf(*old(self)),
            first_image matches Some(img) ==> img@.wf(),
        ensures
            session_wf(*final(self)),
            !(old(self).state is Stopped) ==> *final(self) == start_transition(
                *old(self),
                elapsed_ms,
            ),
            old(self).state is Stopped ==> if can_start(*old(self)) && first_image is Some {
                &&& final(self).state matches AutoStepState::Playing(d)
                &&& (first_image matches Some(img) ==> d.current_image@ == img@
                    && d.unmodified_image@ == img@)
                &&& d.current_image_id == 0
                &&& d.current == (0usize, 0usize)
                &&& d.time_left == Some((old(self).config.schedule@[0].1 * 1000) as u64)
                &&& !final(self).black_and_white
                &&& !final(self).mirrored
                &&& final(self).images_paths == old(self).images_paths
                &&& final(self).config == old(self).config
            } else {
                *final(self) == *old(self)
            },
    {
        let mut st = AutoStepState::Stopped;
        core::mem::swap(&mut st, &mut self.state);
        match st {
            AutoStepState::Playing(mut d) => {
                d.time_left = count_down(d.time_left, elapsed_ms);
                self.state = AutoStepState::Paused(d);
            },
            AutoStepState::Paused(d) => {
                self.state = AutoStepState::Playing(d);
            },
            AutoStepState::Stopped => {
                if self.images_paths.len() > 0 && self.config.schedule_valid() {
                    match first_image {
                        Some(image) => {
                            self.reset_transformations();
                            let d = AutoStepData::new(self, image);
                            self.state = AutoStepState::Playing(d);
                        },
                        None => {},
                    }
                }
            },
        }
    }

    /// The stop command: discard any snapshot and reshuffle the image
    /// list for the next session.  The transform toggles belong to the
    /// session owner, not to the snapshot, and survive the stop.
    pub fn stop(&mut self)
        requires
            session_wf(*old(self)),
        ensures
            session_wf(*final(self)),
            final(self).state is Stopped,
            final(self).black_and_white == old(self).black_and_white,
            final(self).mirrored == old(self).mirrored,
            final(self).config == old(self).config,
            final(self).images_paths@.to_multiset() == old(self).images_paths@.to_multiset(),
            final(self).images_paths@.len() == old(self).images_paths@.len(),
    {
        self.state = AutoStepState::Stopped;
        self.prepare_images(None);
    }

    /// The periodic tick, meaningful only while playing.  While time
    /// remains it is counted down by the elapsed milliseconds, clamping to
    /// the expiry sentinel.  On an expired clock the session advances: the
    /// next image (which the caller decodes and hands in), one schedule
    /// step, the new position's duration on the clock, transforms reset —
    /// and a reshuffle when the sequencer wrapped.  Without a decoded image
    /// an expired tick leaves the state unchanged until the caller can
    /// supply one.
    pub fn tick(&mut self, elapsed_ms: u64, next_image: Option<ImageData>) -> (wrapped: bool)
        requires
            session_wf(*old(self)),
            next_image matches Some(img) ==> img@.wf(),
        ensures
            session_wf(*final(self)),
            !(old(self).state is Playing) ==> *final(self) == *old(self) && !wrapped,
            old(self).state matches AutoStepState::Playing(d) ==> match d.time_left {
                Some(t) => *final(self) == with_state(
                    *old(self),
                    AutoStepState::Playing(with_time_left(d, sub_clamp(Some(t), elapsed_ms))),
                ) && !wrapped,
                None => match next_image {
                    Some(img) => final(self).state matches AutoStepState::Playing(d2)
                        && advanced_snapshot(
                        *old(self),
                        d,
                        img,
                        *final(self),
                        d2,
                        wrapped,
                        step_forward_pos(d.current, old(self).config.schedule@),
                    ),
                    None => *final(self) == *old(self) && !wrapped,
                },
            },
    {
        let mut st = AutoStepState::Stopped;
        core::mem::swap(&mut st, &mut self.state);
        match st {
            AutoStepState::Playing(mut d) => {
                if d.time_left.is_some() {
                    d.time_left = count_down(d.time_left, elapsed_ms);
                    self.state = AutoStepState::Playing(d);
                    false
                } else {
                    match next_image {
                        Some(image) => {
                            let wrapped = self.advance_snapshot_exec(
                                &mut d,
                                image,
                                StepMode::Single,
                            );
                            self.state = AutoStepState::Playing(d);
                            if wrapped {
                                shuffle_paths(&mut self.images_paths);
                            }
                            wrapped
                        },
                        None => {
                            self.state = AutoStepState::Playing(d);
                            false
                        },
                    }
                }
            },
            AutoStepState::Paused(d) => {
                self.state = AutoStepState::Paused(d);
                false
            },
            AutoStepState::Stopped => {
                false
            },
        }
    }

    /// The immediate skip: show the next image at once, leaving the
    /// schedule position alone, with the clock re-primed for the current
    /// position and the transforms reset.  A no-op while stopped.
    pub fn next(&mut self, image: ImageData) -> (wrapped: bool)
        requires
            session_wf(*old(self)),
            image@.wf(),
        ensures
            session_wf(*final(self)),
            old(self).state is Stopped ==> *final(self) == *old(self) && !wrapped,
            old(self).state matches AutoStepState::Playing(d) ==> final(self).state matches
                AutoStepState::Playing(d2) && advanced_snapshot(
                *old(self),
                d,
                image,
                *final(self),
                d2,
                wrapped,
                d.current,
            ),
            old(self).state matches AutoStepState::Paused(d) ==> final(self).state matches
                AutoStepState::Paused(d2) && advanced_snapshot(
                *old(self),
                d,
                image,
                *final(self),
                d2,
                wrapped,
                d.current,
            ),
    {
        let mut st = AutoStepState::Stopped;
        core::mem::swap(&mut st, &mut self.state);
        match st {
            AutoStepState::Stopped => false,
            AutoStepState::Playing(mut d) => {
                let wrapped = self.advance_snapshot_exec(&mut d, image, StepMode::Keep);
                self.state = AutoStepState::Playing(d);
                if wrapped {
                    shuffle_paths(&mut self.images_paths);
                }
                wrapped
            },
            AutoStepState::Paused(mut d) => {
                let wrapped = self.advance_snapshot_exec(&mut d, image, StepMode::Keep);
                self.state = AutoStepState::Paused(d);
                if wrapped {
                    shuffle_paths(&mut self.images_paths);
                }
                wrapped
            },
        }
    }

    /// The block skip: show the next image at once and skip the rest of
    /// the current block, with the clock primed for the new block's
    /// duration and the transforms reset.  A no-op while stopped.
    pub fn skip_block(&mut self, image: ImageData) -> (wrapped: bool)
        requires
            session_wf(*old(self)),
            image@.wf(),
        ensures
            session_wf(*final(self)),
            old(self).state is Stopped ==> *final(self) == *old(self) && !wrapped,
            old(self).state matches AutoStepState::Playing(d) ==> final(self).state matches
                AutoStepState::Playing(d2) && advanced_snapshot(
                *old(self),
                d,
                image,
                *final(self),
                d2,
                wrapped,
                step_forward_block_pos(d.current, old(self).config.schedule@),
            ),
            old(self).state matches AutoStepState::Paused(d) ==> final(self).state matches
                AutoStepState::Paused(d2) && advanced_snapshot(
                *old(self),
                d,
                image,
                *final(self),
                d2,
                wrapped,
                step_forward_block_pos(d.current, old(self).config.schedule@),
            ),
    {
        let mut st = AutoStepState::Stopped;
        core::mem::swap(&mut st, &mut self.state);
        match st {
            AutoStepState::Stopped => false,
            AutoStepState::Playing(mut d) => {
                let wrapped = self.advance_snapshot_exec(&mut d, image, StepMode::Block);
                self.state = AutoStepState::Playing(d);
                if wrapped {
                    shuffle_paths(&mut self.images_paths);
                }
                wrapped
            },
            AutoStepState::Paused(mut d) => {
                let wrapped = self.advance_snapshot_exec(&mut d, image, StepMode::Block);
                self.state = AutoStepState::Paused(d);
                if wrapped {
                    shuffle_paths(&mut self.images_paths);
                }
                wrapped
            },
        }
    }

    /// Flip the grayscale toggle.  On an active session the displayed
    /// image is recomputed from the unmodified base under the new toggles,
    /// so switching the toggle off restores exactly what the other toggle
    /// alone would show.
    pub fn toggle_black_and_white(&mut self)
        requires
            session_wf(*old(self)),
        ensures
            session_wf(*final(self)),
            final(self).black_and_white == !old(self).black_and_white,
            final(self).mirrored == old(self).mirrored,
            final(self).config == old(self).config,
            final(self).images_paths == old(self).images_paths,
            old(self).state is Stopped ==> final(self).state is Stopped,
            old(self).state matches AutoStepState::Playing(d) ==> final(self).state matches
                AutoStepState::Playing(d2) && retoggled_snapshot(
                d,
                d2,
                !old(self).black_and_white,
                old(self).mirrored,
            ),
            old(self).state matches AutoStepState::Paused(d) ==> final(self).state matches
                AutoStepState::Paused(d2) && retoggled_snapshot(
                d,
                d2,
                !old(self).black_and_white,
                old(self).mirrored,
            ),
    {
        self.black_and_white = !self.black_and_white;
        let bw = self.black_and_white;
        let mirror = self.mirrored;
        let mut st = AutoStepState::Stopped;
        core::mem::swap(&mut st, &mut self.state);
        match st {
            AutoStepState::Stopped => {},
            AutoStepState::Playing(mut d) => {
                d.restore_image(bw, mirror);
                self.state = AutoStepState::Playing(d);
            },
            AutoStepState::Paused(mut d) => {
                d.restore_image(bw, mirror);
                self.state = AutoStepState::Paused(d);
            },
        }
    }

    /// Flip the mirror toggle; as with grayscale, the displayed image is
    /// recomputed from the unmodified base under the new toggles.
    pub fn toggle_mirror(&mut self)
        requires
            session_wf(*old(self)),
        ensures
            session_wf(*final(self)),
            final(self).mirrored == !old(self).mirrored,
            final(self).black_and_white == old(self).black_and_white,
            final(self).config == old(self).config,
            final(self).images_paths == old(self).images_paths,
            old(self).state is Stopped ==> final(self).state is Stopped,
            old(self).state matches AutoStepState::Playing(d) ==> final(self).state matches
                AutoStepState::Playing(d2) && retoggled_snapshot(
                d,
                d2,
                old(self).black_and_white,
                !old(self).mirrored,
            ),
            old(self).state matches AutoStepState::Paused(d) ==> final(self).state matches
                AutoStepState::Paused(d2) && retoggled_snapshot(
                d,
                d2,
                old(self).black_and_white,
                !old(self).mirrored,
            ),
    {
        self.mirrored = !self.mirrored;
        let bw = self.black_and_white;
        let mirror = self.mirrored;
        let mut st = AutoStepState::Stopped;
        core::mem::swap(&mut st, &mut self.state);
        match st {
            AutoStepState::Stopped => {},
            AutoStepState::Playing(mut d) => {
                d.restore_image(bw, mirror);
                self.state = AutoStepState::Playing(d);
            },
            AutoStepState::Paused(mut d) => {
                d.restore_image(bw, mirror);
                self.state = AutoStepState::Paused(d);
            },
        }
    }

    /// Replace the image set with the image files of a fresh directory
    /// listing: any running session stops and the filtered listing is
    /// shuffled.  The transform toggles survive, as on any stop.
    pub fn reload(&mut self, paths: Vec<String>)
        requires
            session_wf(*old(self)),
        ensures
            session_wf(*final(self)),
            final(self).state is Stopped,
            final(self).black_and_white == old(self).black_and_white,
            final(self).mirrored == old(self).mirrored,
            final(self).config == old(self).config,
            final(self).images_paths@.to_multiset() == keep_image_paths(paths@).to_multiset(),
    {
        self.state = AutoStepState::Stopped;
        self.prepare_images(Some(paths));
    }
}

/// A clock event of an active session, as it acts on the remaining time:
/// ticks and pauses deduct the elapsed wall-clock time, resuming leaves
/// the remaining time untouched.
pub enum ClockEvent {
    Tick { elapsed_ms: u64 },
    Pause { elapsed_ms: u64 },
    Resume,
}

/// What one clock event leaves on the clock.
pub open spec fn apply_clock_event(t: Option<u64>, e: ClockEvent) -> Option<u64> {
    match e {
        ClockEvent::Tick { elapsed_ms } => sub_clamp(t, elapsed_ms),
        ClockEvent::Pause { elapsed_ms } => sub_clamp(t, elapsed_ms),
        ClockEvent::Resume => t,
    }
}

/// What a whole sequence of clock events leaves on the clock.
pub open spec fn run_clock(t: Option<u64>, events: Seq<ClockEvent>) -> Option<u64>
    decreases events.len(),
{
    if events.len() == 0 {
        t
    } else {
        run_clock(apply_clock_event(t, events[0]), events.drop_first())
    }
}

/// Non-negative remaining time: after any sequence of tick, pause and
/// resume events, the observable remaining time is either the expiry
/// sentinel or a number of milliseconds no larger than what the clock
/// started with — never negative, and an expired clock stays expired.
pub proof fn lemma_time_never_negative(t0: Option<u64>, events: Seq<ClockEvent>)
    ensures
        run_clock(t0, events) matches Some(v) ==> t0 matches Some(v0) && 0 <= v <= v0,
        t0 is None ==> run_clock(t0, events) is None,
    decreases events.len(),
{
    if events.len() > 0 {
        lemma_time_never_negative(apply_clock_event(t0, events[0]), events.drop_first());
    }
}

/// Pause/resume fidelity: pausing a playing session with `d_ms` on the
/// clock after exactly `t_ms` elapsed milliseconds, then resuming at once,
/// leaves a playing session with exactly `d_ms - t_ms` on the clock and
/// everything else untouched.
pub proof fn lemma_pause_resume_fidelity(p: ProgramData, d_ms: u64, t_ms: u64)
    requires
        p.state matches AutoStepState::Playing(d) && d.time_left == Some(d_ms),
        t_ms <= d_ms,
    ensures
        p.state matches AutoStepState::Playing(d) ==> ({
            let q = start_transition(start_transition(p, t_ms), 0u64);
            &&& q.state == AutoStepState::Playing(
                with_time_left(d, Some((d_ms - t_ms) as u64)),
            )
            &&& q.images_paths == p.images_paths
            &&& q.config == p.config
            &&& q.black_and_white == p.black_and_white
            &&& q.mirrored == p.mirrored
        }),
{
}

} // verus!
