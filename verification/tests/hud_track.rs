//! The display's model together with a track that is drawn as it says.

use cantrip::hud::still::{preview_outcome, preview_snapshot, SCREENSHOT_WAVEFORM};
use cantrip::hud::{
    completed_cells, FramePlan, FrameTarget, Kind, Model, TrackShape, TrackStep, CELLS,
    DISCONNECT_DELAY, FRAME_INTERVAL, MILLISECOND, POLL_INTERVAL, RESULT_FADE, SECOND, SETTLE,
    STATUS_STALE_AFTER, SUCCESS_HOLD,
};
use cantrip::ipc::{
    AudioSignal, AudioWaveform, Completeness, Delivery, Stage, StateKind, StatusSnapshot,
    AUDIO_WAVEFORM_BINS,
};
use std::ops::{Deref, DerefMut};

const NOW: u64 = 1_000 * SECOND;
const WAVEFORM_RELEASE: u64 = 420 * MILLISECOND;
const CELL_SIZE: f32 = 3.0;
const CELL_PITCH: f32 = 5.0;

#[derive(Clone, Copy, Debug, PartialEq)]
struct TrackColumn {
    upper: f32,
    lower: f32,
    opacity: f32,
    center_opacity: f32,
}

impl TrackColumn {
    fn centered(height: f32, opacity: f32) -> Self {
        Self {
            upper: height / 2.0,
            lower: height / 2.0,
            opacity,
            center_opacity: opacity,
        }
    }

    fn blend(self, to: Self, mix: impl Fn(f32, f32, f32) -> f32) -> Self {
        Self {
            upper: mix(self.upper, to.upper, 0.01),
            lower: mix(self.lower, to.lower, 0.01),
            opacity: mix(self.opacity, to.opacity, 1.0 / 255.0),
            center_opacity: mix(self.center_opacity, to.center_opacity, 1.0 / 255.0),
        }
    }

    /// How bright the middle of the center row is drawn.
    fn center(self) -> u8 {
        let top = (-CELL_SIZE / 2.0).max(-self.upper);
        let bottom = (CELL_SIZE / 2.0).min(self.lower);
        let coverage = (bottom - top).clamp(0.0, CELL_SIZE) / CELL_SIZE;
        (255.0 * self.center_opacity * coverage).round() as u8
    }
}

type TrackFrame = [TrackColumn; CELLS];

fn seconds(nanoseconds: u64) -> f32 {
    std::time::Duration::from_nanos(nanoseconds).as_secs_f32()
}

struct TrackMotion {
    from: TrackFrame,
    to: TrackFrame,
    presented: TrackFrame,
    since: u64,
    duration: u64,
    signal_easing: bool,
}

impl TrackMotion {
    fn new(now: u64) -> Self {
        let quiet = [TrackColumn::centered(2.0, 0.3); CELLS];
        Self {
            from: quiet,
            to: quiet,
            presented: quiet,
            since: now,
            duration: 0,
            signal_easing: false,
        }
    }

    fn frame(&self, now: u64) -> TrackFrame {
        self.frame_toward(now, self.to)
    }

    fn frame_toward(&self, now: u64, to: TrackFrame) -> TrackFrame {
        let elapsed = now.saturating_sub(self.since);
        if self.duration == 0 {
            return to;
        }
        if elapsed == 0 {
            return self.from;
        }
        if self.signal_easing {
            let attack = (-3.0 * seconds(elapsed) / seconds(self.duration)).exp();
            let release = (-3.0 * seconds(elapsed) / seconds(WAVEFORM_RELEASE)).exp();
            return std::array::from_fn(|index| {
                self.from[index].blend(to[index], |from, to, epsilon| {
                    let residual = (from - to) * if to >= from { attack } else { release };
                    if residual.abs() < epsilon {
                        to
                    } else {
                        to + residual
                    }
                })
            });
        }
        if elapsed >= self.duration {
            return to;
        }
        let t = seconds(elapsed) / seconds(self.duration);
        let eased = t * t * (3.0 - 2.0 * t);
        std::array::from_fn(|index| {
            self.from[index].blend(to[index], |from, to, _| from + (to - from) * eased)
        })
    }

    fn moving(&self, now: u64) -> bool {
        self.from != self.to && self.frame(now) != self.to
    }
}

fn recording_frame(waveform: Option<AudioWaveform>) -> TrackFrame {
    let extent = |magnitude: u16| {
        let amplitude = if magnitude <= 32 {
            0.0
        } else {
            (1.6 * f32::from(magnitude) / 32767.0).clamp(0.0, 1.0).sqrt()
        };
        1.0 + 15.5 * amplitude
    };
    waveform
        .unwrap_or([[0; 2]; AUDIO_WAVEFORM_BINS])
        .map(|[minimum, maximum]| {
            let upper: f32 = extent(maximum.max(0) as u16);
            let lower: f32 = extent(minimum.min(0).unsigned_abs());
            let opacity = 0.3 + 0.7 * (upper.max(lower) - 1.0) / 15.5;
            TrackColumn {
                upper,
                lower,
                opacity,
                center_opacity: opacity,
            }
        })
}

fn activity_frame(
    kind: Kind,
    age: u64,
    progress: Option<(u32, u32)>,
    reduced: bool,
) -> TrackFrame {
    let phase = if reduced { 0.0 } else { seconds(age) } * std::f32::consts::TAU;
    if kind == Kind::Finishing {
        let midpoint = (CELLS / 6 - 1) as f32 / 2.0;
        return std::array::from_fn(|index| {
            let distance = ((index / 6) as f32 - midpoint).abs() / midpoint;
            let pulse = if reduced {
                0.5
            } else {
                ((1.0 + (phase / 1.8 + distance * std::f32::consts::PI).cos()) / 2.0).powi(3)
            };
            if (1..5).contains(&(index % 6)) {
                TrackColumn::centered(13.0, 0.22 + 0.7 * pulse)
            } else {
                TrackColumn::centered(13.0, 0.0)
            }
        });
    }
    let filled = progress.map(completed_cells);
    std::array::from_fn(|index| {
        let position = index as f32 / (CELLS - 1) as f32;
        let envelope = (std::f32::consts::PI * position).sin().powi(2);
        let forward = (1.0 + (std::f32::consts::TAU * position - phase / 2.6).cos()) / 2.0;
        let returning = (1.0 + (std::f32::consts::TAU * position + phase / 3.9).cos()) / 2.0;
        let energy = (0.2 + 0.8 * envelope) * (0.65 * forward + 0.35 * returning);
        let mut column = TrackColumn::centered(5.0 + 20.0 * energy, 0.3 + 0.65 * energy);
        if let Some(filled) = filled {
            column.center_opacity = if index < filled { 1.0 } else { 0.16 };
        }
        column
    })
}

fn resolved_frame() -> TrackFrame {
    let rows = [0.0, 1.0, 2.0, 2.0, 1.0, 0.0, -1.0, -1.0, -2.0, -3.0];
    let mut frame = [TrackColumn::centered(CELL_SIZE, 0.0); CELLS];
    let first = (CELLS - rows.len()) / 2;
    for (index, row) in rows.into_iter().enumerate() {
        frame[first + index] = TrackColumn {
            upper: CELL_SIZE / 2.0 - row * CELL_PITCH,
            lower: (row + 1.0) * CELL_PITCH + CELL_SIZE / 2.0,
            opacity: 1.0,
            center_opacity: 1.0,
        };
    }
    frame
}

fn shape_frame(shape: TrackShape) -> TrackFrame {
    match shape {
        TrackShape::Recording(waveform) => recording_frame(waveform),
        TrackShape::Activity {
            kind,
            age,
            progress,
            reduced,
        } => activity_frame(kind, age, progress, reduced),
        TrackShape::Resolved => resolved_frame(),
        TrackShape::Attention => [TrackColumn::centered(3.0, 0.55); CELLS],
        TrackShape::Quiet => [TrackColumn::centered(3.0, 0.35); CELLS],
    }
}

/// A model and the track that it moves.
struct Display {
    model: Model,
    track: TrackMotion,
}

impl Deref for Display {
    type Target = Model;

    fn deref(&self) -> &Model {
        &self.model
    }
}

impl DerefMut for Display {
    fn deref_mut(&mut self) -> &mut Model {
        &mut self.model
    }
}

impl Display {
    fn new(now: u64) -> Self {
        Self {
            model: Model::new(now),
            track: TrackMotion::new(now),
        }
    }

    fn follow(&mut self) {
        for step in self.model.take_track() {
            match step {
                TrackStep::Reset { at } => self.track = TrackMotion::new(at),
                TrackStep::Target {
                    shape,
                    at,
                    duration,
                    state_change,
                    reduced,
                } => {
                    self.track.from = if state_change {
                        self.track.presented
                    } else {
                        self.track.frame(at)
                    };
                    self.track.to = shape_frame(shape);
                    self.track.since = at;
                    self.track.duration = if reduced { 0 } else { duration };
                    self.track.signal_easing = !state_change;
                }
                TrackStep::PresentTrack { at } => self.track.presented = self.track.frame(at),
                TrackStep::PresentFrame { at, plan } => {
                    self.track.presented = self.planned(at, plan);
                }
                TrackStep::Since { at } => self.track.since = at,
            }
        }
    }

    fn planned(&self, now: u64, plan: FramePlan) -> TrackFrame {
        let target = |target: FrameTarget| match target {
            FrameTarget::Destination => self.track.to,
            FrameTarget::Activity {
                kind,
                age,
                progress,
                reduced,
            } => activity_frame(kind, age, progress, reduced),
        };
        match plan {
            FramePlan::Presented => self.track.presented,
            FramePlan::Still(to) => target(to),
            FramePlan::Toward(to) => self.track.frame_toward(now, target(to)),
        }
    }

    fn apply(&mut self, status: StatusSnapshot, now: u64) {
        self.model.apply(status, now);
        self.follow();
    }

    fn refresh(&mut self, now: u64) {
        self.model.refresh(now);
        self.follow();
    }

    fn refresh_connection(&mut self, last_status: u64, now: u64) {
        self.model.refresh_connection(last_status, now);
        self.follow();
    }

    fn disconnected(&mut self, now: u64) {
        self.model.disconnected(now);
        self.follow();
    }

    fn present(&mut self, now: u64) {
        self.model.present_frame(now);
        self.follow();
    }

    fn frame(&self, now: u64) -> TrackFrame {
        self.planned(now, self.model.frame(now))
    }

    fn animate(&self, now: u64) -> bool {
        self.model.animate(self.track.moving(now))
    }
}

fn recording(elapsed: u64, signal: Option<AudioSignal>) -> StatusSnapshot {
    let mut status = preview_snapshot(StateKind::Recording);
    status.elapsed = elapsed;
    status.signal = signal;
    status
}

fn signal(active: bool) -> AudioSignal {
    AudioSignal {
        level: if active { 94 } else { 0 },
        silent: !active,
        waveform: if active {
            SCREENSHOT_WAVEFORM
        } else {
            [[0; 2]; AUDIO_WAVEFORM_BINS]
        },
    }
}

#[test]
fn silent_recording_stays_at_rest_from_its_first_frame() {
    let now = NOW;
    let mut model = Display::new(now);
    model.apply(recording(0, Some(signal(false))), now);
    let quiet = [TrackColumn::centered(2.0, 0.3); CELLS];
    assert_eq!(model.track.frame(now), quiet);
    assert_eq!(model.track.frame(now + SETTLE / 2), quiet);
    model.apply(recording(1, Some(signal(false))), now + SECOND);
    assert_eq!(model.track.frame(now + SECOND), quiet);
}

#[test]
fn phase_changes_preserve_the_last_presented_pixels_and_can_be_interrupted() {
    let now = NOW;
    let mut model = Display::new(now);
    model.apply(recording(0, Some(signal(true))), now);
    let shown = model.frame(now + 55 * MILLISECOND);
    model.present(now + 55 * MILLISECOND);
    assert_eq!(model.track.presented, shown);
    let mut processing = preview_snapshot(StateKind::Processing);
    processing.stage = Some(Stage::Transcribing {
        completed: 0,
        total: 5,
    });
    let stop = now + 60 * MILLISECOND;
    model.apply(processing.clone(), stop);
    assert_eq!(model.frame(stop), shown);
    let settling = model.frame(stop + SETTLE / 2);
    let destination = activity_frame(Kind::Working, SETTLE / 2, Some((0, 5)), false);
    for ((from, mid), to) in shown.into_iter().zip(settling).zip(destination) {
        assert!(mid.upper >= from.upper.min(to.upper) && mid.upper <= from.upper.max(to.upper));
        assert!(mid.lower >= from.lower.min(to.lower) && mid.lower <= from.lower.max(to.lower));
        assert!(
            mid.opacity >= from.opacity.min(to.opacity)
                && mid.opacity <= from.opacity.max(to.opacity)
        );
    }
    let finishing = stop + SECOND;
    let flowing = model.frame(finishing - FRAME_INTERVAL);
    model.present(finishing - FRAME_INTERVAL);
    processing.stage = Some(Stage::CleaningUp);
    model.apply(processing, finishing);
    assert_eq!(
        model.frame(finishing),
        flowing,
        "changing work rhythms must not pop"
    );
    let mut idle = preview_snapshot(StateKind::Idle);
    idle.outcome = Some(preview_outcome(Completeness::Complete, Delivery::Pasted));
    model.apply(idle, finishing + SETTLE);
    assert_eq!(model.kind, Some(Kind::Resolved));
    let mut next = recording(0, Some(signal(true)));
    next.operation_id = Some("next".to_owned());
    model.apply(next, finishing + SETTLE + MILLISECOND);
    assert_eq!(model.kind, Some(Kind::Recording));
    assert!(model.result.is_none());
}

#[test]
fn listening_keeps_sampling_between_eases_but_freezes_on_disconnect() {
    let now = NOW;
    let mut model = Display::new(now);
    model.apply(recording(0, Some(signal(true))), now);
    let settled = now + SETTLE + POLL_INTERVAL;
    assert!(
        model.animate(settled),
        "the next microphone update must not wait through an idle poll"
    );
    model.disconnected(settled);
    assert!(!model.animate(settled), "lost input must not keep moving");
}

#[test]
fn flowing_activity_cannot_advance_measured_progress_or_outlive_its_connection() {
    let now = NOW;
    let mut model = Display::new(now);
    let mut status = preview_snapshot(StateKind::Processing);
    status.stage = Some(Stage::Transcribing {
        completed: 12,
        total: 30,
    });
    model.apply(status.clone(), now);
    let first = model.frame(now + SECOND);
    let second = model.frame(now + 2 * SECOND);
    assert_ne!(
        first, second,
        "determinate work must still show fluid activity"
    );
    let completed = first[23].center();
    let pending = first[24].center();
    assert!(
        completed > pending,
        "the reported chunk boundary must remain visible"
    );
    assert_eq!(
        (second[23].center(), second[24].center()),
        (completed, pending),
        "activity must not change either side of the measured boundary"
    );
    let before_report = model.frame(now + 2 * SECOND);
    model.apply(status.clone(), now + 2 * SECOND);
    assert_eq!(
        model.frame(now + 2 * SECOND),
        before_report,
        "polling an unchanged chunk count must not restart the ripple"
    );
    model.present(now + 2 * SECOND);
    assert_eq!(model.track.presented, second);
    model.disconnected(now + 2 * SECOND);
    assert!(!model.animate(now + 2 * SECOND));
    assert_eq!(model.frame(now + 2100 * MILLISECOND), second);
    status.stage = Some(Stage::CleaningUp);
    status.hud.reduced_motion = Some(true);
    model.apply(status, now + 3 * SECOND);
    assert!(
        model.progress.is_none(),
        "cleanup must discard transcription fill"
    );
    assert!(!model.animate(now + 4 * SECOND));
    assert_eq!(
        model.frame(now + 4 * SECOND),
        model.frame(now + 8 * SECOND)
    );
    assert_eq!(completed_cells((30, 30)), CELLS);
    assert_eq!(completed_cells((31, 30)), 0);
}

#[test]
fn reduced_motion_preserves_measured_data_and_explicit_override_wins() {
    let now = NOW;
    let mut model = Display::new(now);
    model.desktop_reduced_motion = true;
    let mut status = recording(0, Some(signal(true)));
    model.apply(status.clone(), now);
    assert!(!model.animate(now));
    assert_eq!(
        model.track.frame(now),
        recording_frame(status.signal.map(|s| s.waveform))
    );
    status.hud.reduced_motion = Some(false);
    status.signal = Some(signal(false));
    model.apply(status, now + 100 * MILLISECOND);
    assert!(model.animate(now + 100 * MILLISECOND));
}

#[test]
fn success_holds_after_settling_and_repeated_status_cannot_extend_it() {
    for reduced in [false, true] {
        let now = NOW;
        let mut model = Display::new(now);
        let mut active = recording(0, Some(signal(true)));
        active.hud.reduced_motion = Some(reduced);
        model.apply(active, now);
        let delivered = now + SECOND;
        model.present(delivered);
        let mut idle = preview_snapshot(StateKind::Idle);
        idle.hud.reduced_motion = Some(reduced);
        idle.outcome = Some(preview_outcome(Completeness::Complete, Delivery::Pasted));
        model.apply(idle.clone(), delivered);
        let settled = delivered + if reduced { 0 } else { SETTLE };
        let held_frame = model.frame(settled);
        let hold_end = settled + SUCCESS_HOLD;
        model.apply(idle.clone(), hold_end - FRAME_INTERVAL);
        assert_eq!(model.kind, Some(Kind::Resolved));
        assert_eq!(model.frame(hold_end - FRAME_INTERVAL), held_frame);
        assert_eq!(
            model.alpha(hold_end - FRAME_INTERVAL),
            RESULT_FADE,
            "the transition must not consume the settled hold"
        );
        if !reduced {
            let fading = hold_end + RESULT_FADE / 2;
            model.refresh(fading);
            let alpha = model.alpha(fading);
            assert!(alpha > 0 && alpha < RESULT_FADE);
        }
        let hidden = hold_end + if reduced { 0 } else { RESULT_FADE };
        model.apply(idle, hidden);
        assert!(
            model.kind.is_none(),
            "unchanged snapshots must neither extend nor replay the result"
        );
    }
}

#[test]
fn stalled_status_requests_stop_presenting_live_capture() {
    let now = NOW;
    let mut model = Display::new(now);
    model.apply(recording(0, Some(signal(true))), now);
    model.refresh_connection(now, now + STATUS_STALE_AFTER);
    assert!(!model.animate(now + STATUS_STALE_AFTER));
    model.refresh_connection(now, now + STATUS_STALE_AFTER + DISCONNECT_DELAY);
    assert_eq!(model.kind, Some(Kind::Attention));
    assert!(model.waveform.is_none());
    assert!(model.progress.is_none());
    let restored = now + STATUS_STALE_AFTER + SECOND;
    model.apply(recording(3, Some(signal(true))), restored);
    assert_eq!(model.kind, Some(Kind::Recording));
    assert!(model.lost_since.is_none());
}
