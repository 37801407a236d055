//! Seeking in a scripted history, and the gallery's controls.

use crate::gallery::scripts::{source_script, timeline};
use crate::gallery::timeline::{checkpoint_views, CheckpointView, EventView, Timeline};
use crate::gallery::{catalog, catalog_sources, Source};
use crate::hud::still::ScreenshotState;
use crate::hud::{Model, ModelView, TrackStep, FRAME_INTERVAL};
use crate::ipc::{HudConfig, StatusSnapshotView};
use vstd::prelude::*;

verus! {

/// How the gallery shows a history.
#[derive(Clone, Copy, Debug, PartialEq, Eq, Structural)]
pub struct ViewOptions {
    pub labels: bool,
    pub reduced_motion: bool,
}

impl Default for ViewOptions {
    fn default() -> (result: Self)
        ensures
            result == (ViewOptions { labels: false, reduced_motion: false }),
    {
        ViewOptions { labels: false, reduced_motion: false }
    }
}

impl ViewOptions {
    /// A status as it is shown with these options.
    pub open spec fn shown(self, status: StatusSnapshotView) -> StatusSnapshotView {
        StatusSnapshotView {
            hud: HudConfig {
                labels: self.labels,
                reduced_motion: Some(self.reduced_motion),
            },
            ..status
        }
    }
}

/// The display after a scripted input.
pub open spec fn fed(model: ModelView, event: EventView, options: ViewOptions) -> ModelView {
    match event.input {
        Some(status) => model.applied(options.shown(status), event.at),
        None => model.disconnected(event.at),
    }
}

/// The display after all inputs from the given one on that are not later than a
/// moment.
pub open spec fn caught_up(
    model: ModelView,
    events: Seq<EventView>,
    next: nat,
    moment: u64,
    options: ViewOptions,
) -> ModelView
    decreases events.len() - next,
{
    if next < events.len() && events[next as int].at <= moment {
        caught_up(fed(model, events[next as int], options), events, next + 1, moment, options)
    } else {
        model
    }
}

/// The first input from the given one on that is later than a moment.
pub open spec fn next_after(events: Seq<EventView>, next: nat, moment: u64) -> nat
    decreases events.len() - next,
{
    if next < events.len() && events[next as int].at <= moment {
        next_after(events, next + 1, moment)
    } else {
        next
    }
}

/// The moment of a frame.
pub open spec fn moment_of(frame: nat) -> u64 {
    (frame * FRAME_INTERVAL) as u64
}

/// The first input that a frame has not shown yet.
pub open spec fn next_at(events: Seq<EventView>, frames: nat) -> nat
    decreases frames,
{
    if frames == 0 {
        0
    } else {
        next_after(events, next_at(events, (frames - 1) as nat), moment_of((frames - 1) as nat))
    }
}

/// The display after the given number of frames, without the track's steps.
pub open spec fn model_at(events: Seq<EventView>, frames: nat, options: ViewOptions) -> ModelView
    decreases frames,
{
    if frames == 0 {
        ModelView::started(0)
    } else {
        let frame = (frames - 1) as nat;
        ModelView {
            track: Seq::empty(),
            ..caught_up(
                model_at(events, frame, options),
                events,
                next_at(events, frame),
                moment_of(frame),
                options,
            ).refreshed(moment_of(frame))
        }
    }
}

/// A history and the place that has been reached in it.
pub struct Replay {
    pub timeline: Timeline,
    pub model: Model,
    pub frame: Option<u32>,
    pub next_event: usize,
}

impl Replay {
    /// Frames shown so far.
    pub open spec fn frames(&self) -> nat {
        match self.frame {
            Some(frame) => frame as nat + 1,
            None => 0,
        }
    }

    /// The display is what the frames so far, and nothing else, have made of it.
    pub open spec fn wf(&self, options: ViewOptions) -> bool {
        &&& self.timeline@.wf()
        &&& self.frame is Some ==> self.frame->0 <= self.timeline.end
        &&& self.model@ == model_at(self.timeline@.events, self.frames(), options)
        &&& self.next_event == next_at(self.timeline@.events, self.frames())
    }

    /// A history of which nothing has been shown.
    pub fn new(timeline: Timeline) -> (result: Self)
        requires
            timeline@.wf(),
        ensures
            result.timeline == timeline,
            result.frame is None,
            forall|options: ViewOptions| result.wf(options),
    {
        Replay { timeline, model: Model::new(0), frame: None, next_event: 0 }
    }

    /// Start again where the target lies behind.
    pub fn rewind(&mut self, target: u32, options: ViewOptions)
        requires
            old(self).wf(options),
        ensures
            final(self).wf(options),
            final(self).timeline == old(self).timeline,
            final(self).frame == if old(self).frame is Some && target < old(self).frame->0 {
                None
            } else {
                old(self).frame
            },
    {
        let behind = match self.frame {
            Some(current) => target < current,
            None => false,
        };
        if behind {
            self.model = Model::new(0);
            self.frame = None;
            self.next_event = 0;
        }
    }

    /// Show the next frame, and hand over the steps that the track takes in it.
    pub fn advance(&mut self, options: ViewOptions) -> (steps: Vec<TrackStep>)
        requires
            old(self).wf(options),
            old(self).frames() <= old(self).timeline.end,
        ensures
            final(self).wf(options),
            final(self).timeline == old(self).timeline,
            final(self).frame == Some(old(self).frames() as u32),
            steps@ == caught_up(
                old(self).model@,
                old(self).timeline@.events,
                old(self).next_event as nat,
                moment_of(old(self).frames()),
                options,
            ).refreshed(moment_of(old(self).frames())).track,
    {
        let frame: u32 = match self.frame {
            Some(current) => current + 1,
            None => 0,
        };
        let moment: u64 = (frame as u64) * FRAME_INTERVAL;
        let ghost events = self.timeline@.events;
        let ghost before = self.model@;
        let ghost first = self.next_event as nat;
        while self.next_event < self.timeline.events.len()
            && self.timeline.events[self.next_event].at <= moment
            invariant
                self.timeline == old(self).timeline,
                self.timeline@.wf(),
                events == self.timeline@.events,
                caught_up(self.model@, events, self.next_event as nat, moment, options)
                    == caught_up(before, events, first, moment, options),
                next_after(events, self.next_event as nat, moment) == next_after(
                    events,
                    first,
                    moment,
                ),
            decreases self.timeline.events@.len() - self.next_event,
        {
            let event = &self.timeline.events[self.next_event];
            assert(events[self.next_event as int] == event@);
            let at: u64 = event.at;
            match &event.input {
                Some(status) => {
                    let mut status = status.clone();
                    status.hud.labels = options.labels;
                    status.hud.reduced_motion = Some(options.reduced_motion);
                    self.model.apply(status, at);
                },
                None => self.model.disconnected(at),
            }
            self.next_event += 1;
        }
        proof {
            if self.next_event < events.len() {
                assert(events[self.next_event as int] == self.timeline.events@[self.next_event as int]@);
            }
        }
        self.model.refresh(moment);
        self.frame = Some(frame);
        self.model.take_track()
    }

    /// Show the frames up to a target, from the start where it lies behind.
    pub fn seek(&mut self, target: u32, options: ViewOptions)
        requires
            old(self).wf(options),
        ensures
            final(self).wf(options),
            final(self).timeline == old(self).timeline,
            final(self).frame == Some(
                if target <= old(self).timeline.end {
                    target
                } else {
                    old(self).timeline.end
                },
            ),
    {
        let target: u32 = if target <= self.timeline.end {
            target
        } else {
            self.timeline.end
        };
        self.rewind(target, options);
        while self.frame.is_none() || self.frame.unwrap() < target
            invariant
                self.wf(options),
                self.timeline == old(self).timeline,
                target <= self.timeline.end,
                self.frame is Some ==> self.frame->0 <= target,
            decreases target + 1 - self.frames(),
        {
            let _steps = self.advance(options);
        }
    }

    /// The checkpoint that was passed last, or the first one.
    pub fn checkpoint(&self) -> (result: usize)
        requires
            self.timeline@.wf(),
        ensures
            result == passed_checkpoint(
                self.timeline@.checkpoints,
                moment_of(
                    match self.frame {
                        Some(frame) => frame as nat,
                        None => 0,
                    },
                ),
            ),
    {
        let frame: u32 = match self.frame {
            Some(frame) => frame,
            None => 0,
        };
        let moment: u64 = (frame as u64) * FRAME_INTERVAL;
        let ghost checkpoints = self.timeline@.checkpoints;
        let mut index: usize = 0;
        while index < self.timeline.checkpoints.len() && self.timeline.checkpoints[index].at
            <= moment
            invariant
                index <= checkpoints.len(),
                checkpoints == checkpoint_views(self.timeline.checkpoints@),
                passed_count(checkpoints, 0, moment) == passed_count(
                    checkpoints,
                    index as nat,
                    moment,
                ),
            decreases checkpoints.len() - index,
        {
            assert(checkpoints[index as int] == self.timeline.checkpoints@[index as int]@);
            index += 1;
        }
        proof {
            if index < checkpoints.len() {
                assert(checkpoints[index as int] == self.timeline.checkpoints@[index as int]@);
            }
        }
        if index > 0 {
            index - 1
        } else {
            0
        }
    }
}

/// The first checkpoint from the given one on that is later than a moment.
pub open spec fn passed_count(checkpoints: Seq<CheckpointView>, from: nat, moment: u64) -> nat
    decreases checkpoints.len() - from,
{
    if from < checkpoints.len() && checkpoints[from as int].at <= moment {
        passed_count(checkpoints, from + 1, moment)
    } else {
        from
    }
}

/// The checkpoint that was passed last, or the first one.
pub open spec fn passed_checkpoint(checkpoints: Seq<CheckpointView>, moment: u64) -> nat {
    if passed_count(checkpoints, 0, moment) > 0 {
        (passed_count(checkpoints, 0, moment) - 1) as nat
    } else {
        0
    }
}

/// Seeking is a function of the frame alone: whatever was shown before, going to a
/// frame shows what replaying the history up to it shows.
pub proof fn seeking_forgets_the_way(a: Replay, b: Replay, options: ViewOptions)
    requires
        a.wf(options),
        b.wf(options),
        a.timeline == b.timeline,
        a.frame == b.frame,
    ensures
        a.model@ == b.model@,
        a.next_event == b.next_event,
{
}

/// Keys that the gallery answers, as pressed in one frame.
#[derive(Clone, Copy, Debug, PartialEq, Eq, Structural)]
pub struct GalleryKeys {
    pub escape: bool,
    pub replay: bool,
    pub page_up: bool,
    pub page_down: bool,
    pub space: bool,
    pub left: bool,
    pub right: bool,
    pub home: bool,
    pub end: bool,
}

/// What the window does after the keys of a frame.
#[derive(Clone, Copy, Debug, PartialEq, Eq, Structural)]
pub enum KeyEffect {
    /// Close the window.
    Close,
    /// Take the keyboard away from the focused control.
    ReleaseFocus,
    /// Nothing further.
    Stay,
}

/// The gallery: a catalog, an entry of it, and its replay.
pub struct Gallery {
    pub selected: usize,
    pub replay: Replay,
    pub options: ViewOptions,
    pub playing: bool,
    pub anchor_frame: u32,
}

impl Gallery {
    /// The replay is that of the selected entry, with the options in force.
    pub open spec fn wf(&self) -> bool {
        &&& self.selected < catalog_sources().len()
        &&& self.replay.wf(self.options)
        &&& self.replay.frame is Some
        &&& self.replay.timeline@ == source_script(
            catalog_sources()[self.selected as int],
            self.options.reduced_motion,
        )
    }

    /// The shown frame.
    pub open spec fn current(&self) -> u32 {
        self.replay.frame->0
    }

    /// The gallery on its first entry, at that entry's focus.
    pub fn new() -> (result: Self)
        ensures
            result.wf(),
            result.selected == 0,
            !result.playing,
            result.options == (ViewOptions { labels: false, reduced_motion: false }),
            result.current() == clamped(result.replay.timeline.focus, result.replay.timeline.end),
            result.anchor_frame == result.current(),
    {
        let options = ViewOptions::default();
        let sources = catalog();
        let mut replay = Replay::new(timeline(sources[0], false));
        let focus: u32 = replay.timeline.focus;
        replay.seek(focus, options);
        let anchor_frame: u32 = match replay.frame {
            Some(frame) => frame,
            None => 0,
        };
        Gallery { selected: 0, replay, options, playing: false, anchor_frame }
    }

    /// Show a frame, and play on from there.
    pub fn seek(&mut self, frame: u32)
        requires
            old(self).wf(),
        ensures
            final(self).wf(),
            final(self).selected == old(self).selected,
            final(self).options == old(self).options,
            final(self).playing == old(self).playing,
            final(self).replay.timeline == old(self).replay.timeline,
            final(self).current() == clamped(frame, old(self).replay.timeline.end),
            final(self).anchor_frame == final(self).current(),
    {
        self.replay.seek(frame, self.options);
        self.anchor_frame = match self.replay.frame {
            Some(frame) => frame,
            None => 0,
        };
    }

    fn rebuild(&mut self, target: Option<u32>)
        requires
            old(self).selected < catalog_sources().len(),
        ensures
            final(self).wf(),
            final(self).selected == old(self).selected,
            final(self).options == old(self).options,
            final(self).playing == old(self).playing,
            final(self).current() == clamped(
                match target {
                    Some(frame) => frame,
                    None => final(self).replay.timeline.focus,
                },
                final(self).replay.timeline.end,
            ),
            final(self).anchor_frame == final(self).current(),
    {
        let sources = catalog();
        let timeline = timeline(sources[self.selected], self.options.reduced_motion);
        let frame: u32 = match target {
            Some(frame) => frame,
            None => timeline.focus,
        };
        self.replay = Replay::new(timeline);
        self.replay.seek(frame, self.options);
        self.anchor_frame = match self.replay.frame {
            Some(frame) => frame,
            None => 0,
        };
    }

    /// Choose other options: the same frame of the history with these options.
    pub fn set_options(&mut self, options: ViewOptions)
        requires
            old(self).wf(),
        ensures
            final(self).wf(),
            final(self).options == options,
            final(self).selected == old(self).selected,
            final(self).playing == old(self).playing,
            final(self).current() == clamped(old(self).current(), final(self).replay.timeline.end),
            final(self).anchor_frame == final(self).current(),
    {
        let current = self.replay.frame;
        self.options = options;
        self.rebuild(current);
    }

    /// Choose an entry: its history at its focus, paused, with its own motion.
    pub fn select(&mut self, index: usize)
        requires
            old(self).wf(),
            index < catalog_sources().len(),
        ensures
            final(self).wf(),
            final(self).selected == index,
            !final(self).playing,
            final(self).options.labels == old(self).options.labels,
            final(self).options.reduced_motion == starts_reduced(catalog_sources()[index as int]),
            final(self).current() == clamped(
                final(self).replay.timeline.focus,
                final(self).replay.timeline.end,
            ),
            final(self).anchor_frame == final(self).current(),
    {
        let sources = catalog();
        self.selected = index;
        self.playing = false;
        self.options.reduced_motion = sources[index].reduced_motion();
        self.rebuild(None);
    }

    /// Play or pause; at the end, play from the start.
    pub fn toggle_play(&mut self)
        requires
            old(self).wf(),
        ensures
            final(self).wf(),
            final(self).selected == old(self).selected,
            final(self).options == old(self).options,
            final(self).playing == !old(self).playing,
            final(self).replay.timeline == old(self).replay.timeline,
            final(self).current() == if !old(self).playing && old(self).current()
                == old(self).replay.timeline.end {
                0
            } else {
                old(self).current()
            },
            final(self).anchor_frame == final(self).current(),
    {
        if !self.playing && self.replay.frame == Some(self.replay.timeline.end) {
            self.seek(0);
        }
        self.playing = !self.playing;
        self.anchor_frame = match self.replay.frame {
            Some(frame) => frame,
            None => 0,
        };
    }

    /// Play the whole history from the start.
    pub fn replay(&mut self)
        requires
            old(self).wf(),
        ensures
            final(self).wf(),
            final(self).selected == old(self).selected,
            final(self).options == old(self).options,
            final(self).playing,
            final(self).replay.timeline == old(self).replay.timeline,
            final(self).current() == 0,
            final(self).anchor_frame == 0,
    {
        self.seek(0);
        self.playing = true;
    }

    /// Pause, and go one frame forward or back.
    pub fn step(&mut self, forward: bool)
        requires
            old(self).wf(),
        ensures
            final(self).wf(),
            final(self).selected == old(self).selected,
            final(self).options == old(self).options,
            !final(self).playing,
            final(self).replay.timeline == old(self).replay.timeline,
            final(self).current() == stepped(
                old(self).current(),
                old(self).replay.timeline.end,
                forward,
            ),
            final(self).anchor_frame == final(self).current(),
    {
        self.playing = false;
        let current: u32 = match self.replay.frame {
            Some(frame) => frame,
            None => 0,
        };
        let next: u32 = if forward {
            current.saturating_add(1)
        } else {
            current.saturating_sub(1)
        };
        self.seek(next);
    }

    /// Show the frame that playback has reached, and pause at the end.
    pub fn play_to(&mut self, elapsed_frames: u32)
        requires
            old(self).wf(),
        ensures
            final(self).wf(),
            final(self).selected == old(self).selected,
            final(self).options == old(self).options,
            final(self).anchor_frame == old(self).anchor_frame,
            final(self).replay.timeline == old(self).replay.timeline,
            !old(self).playing ==> final(self).current() == old(self).current(),
            old(self).playing ==> final(self).current() == if old(self).anchor_frame
                + elapsed_frames <= old(self).replay.timeline.end {
                (old(self).anchor_frame + elapsed_frames) as u32
            } else {
                old(self).replay.timeline.end
            },
            final(self).playing == (old(self).playing && final(self).current()
                != old(self).replay.timeline.end),
    {
        if self.playing {
            let reached: u32 = self.anchor_frame.saturating_add(elapsed_frames);
            let target: u32 = if reached <= self.replay.timeline.end {
                reached
            } else {
                self.replay.timeline.end
            };
            self.replay.seek(target, self.options);
            if target == self.replay.timeline.end {
                self.playing = false;
            }
        }
    }

    /// Answer the keys of a frame. Review commands work whatever has the focus;
    /// the others leave a control that takes text alone.
    pub fn keyboard(&mut self, keys: GalleryKeys, control_has_keyboard: bool) -> (effect: KeyEffect)
        requires
            old(self).wf(),
        ensures
            final(self).wf(),
            final(self).options.labels == old(self).options.labels,
            effect == if keys.escape {
                KeyEffect::Close
            } else if keys.replay || keys.page_up || keys.page_down {
                KeyEffect::ReleaseFocus
            } else {
                KeyEffect::Stay
            },
            keys.escape || (effect == KeyEffect::Stay && control_has_keyboard) ==> *final(self)
                == *old(self),
            !keys.escape && keys.replay ==> final(self).playing && final(self).current() == 0
                && final(self).selected == old(self).selected && final(self).options
                == old(self).options,
            effect == KeyEffect::ReleaseFocus && !keys.replay ==> (
            final(self).options.reduced_motion == starts_reduced(
                catalog_sources()[final(self).selected as int],
            )) && final(self).current() == clamped(
                final(self).replay.timeline.focus,
                final(self).replay.timeline.end,
            ),
            effect == KeyEffect::ReleaseFocus ==> (final(self).anchor_frame
                == final(self).current()),
            effect == KeyEffect::Stay ==> final(self).anchor_frame == if !control_has_keyboard && (
            keys.space || keys.left || keys.right || keys.home || keys.end) {
                final(self).current()
            } else {
                old(self).anchor_frame
            },
            !keys.escape && !keys.replay && keys.page_up ==> !final(self).playing
                && final(self).selected == if old(self).selected > 0 {
                old(self).selected - 1
            } else {
                0
            },
            !keys.escape && !keys.replay && !keys.page_up && keys.page_down
                ==> !final(self).playing && final(self).selected == if old(self).selected + 1
                < catalog_sources().len() {
                old(self).selected + 1
            } else {
                catalog_sources().len() - 1
            },
            effect == KeyEffect::Stay ==> final(self).selected == old(self).selected
                && final(self).options == old(self).options && final(self).replay.timeline
                == old(self).replay.timeline,
            effect == KeyEffect::Stay && !control_has_keyboard ==> final(self).current()
                == played_position(
                old(self).current(),
                old(self).replay.timeline.end,
                old(self).playing,
                keys,
            ),
            effect == KeyEffect::Stay && !control_has_keyboard ==> final(self).playing == (
            old(self).playing != keys.space && !(keys.left || keys.right || keys.home || keys.end)),
    {
        if keys.escape {
            return KeyEffect::Close;
        }
        let count: usize = catalog().len();
        if keys.replay {
            self.replay();
            return KeyEffect::ReleaseFocus;
        }
        if keys.page_up {
            let previous: usize = if self.selected > 0 {
                self.selected - 1
            } else {
                0
            };
            self.select(previous);
            return KeyEffect::ReleaseFocus;
        }
        if keys.page_down {
            let next: usize = if self.selected + 1 < count {
                self.selected + 1
            } else {
                count - 1
            };
            self.select(next);
            return KeyEffect::ReleaseFocus;
        }
        if control_has_keyboard {
            return KeyEffect::Stay;
        }
        if keys.space {
            self.toggle_play();
        }
        if keys.left {
            self.step(false);
        }
        if keys.right {
            self.step(true);
        }
        if keys.home {
            self.playing = false;
            self.seek(0);
        }
        if keys.end {
            self.playing = false;
            let end: u32 = self.replay.timeline.end;
            self.seek(end);
        }
        KeyEffect::Stay
    }
}

/// A frame, or the last one where it lies behind that.
pub open spec fn clamped(frame: u32, end: u32) -> u32 {
    if frame <= end {
        frame
    } else {
        end
    }
}

/// Whether an entry starts with reduced motion.
pub open spec fn starts_reduced(source: Source) -> bool {
    source == Source::State(ScreenshotState::ReducedMotion) || source
        == Source::State(ScreenshotState::ReducedMotionCleaning) || source
        == Source::State(ScreenshotState::ReducedMotionSent)
}

/// The frame before or behind a frame, within the history.
pub open spec fn stepped(frame: u32, end: u32, forward: bool) -> u32 {
    if forward {
        if frame < end {
            (frame + 1) as u32
        } else {
            end
        }
    } else if frame > 0 {
        (frame - 1) as u32
    } else {
        0
    }
}

/// The frame after the playback keys of one frame, in the order in which they act.
pub open spec fn played_position(frame: u32, end: u32, playing: bool, keys: GalleryKeys) -> u32 {
    let toggled = if keys.space && !playing && frame == end {
        0
    } else {
        frame
    };
    let back = if keys.left {
        stepped(toggled, end, false)
    } else {
        toggled
    };
    let forth = if keys.right {
        stepped(back, end, true)
    } else {
        back
    };
    if keys.end {
        end
    } else if keys.home {
        0
    } else {
        forth
    }
}

} // verus!
