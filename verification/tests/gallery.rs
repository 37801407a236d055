use cantrip::gallery::replay::{Gallery, GalleryKeys, KeyEffect, Replay, ViewOptions};
use cantrip::gallery::scripts::{catalog_timeline, timeline};
use cantrip::gallery::timeline::{frame_at, milliseconds};
use cantrip::gallery::{catalog, Journey, Source};
use cantrip::hud::still::ScreenshotState;

fn no_keys() -> GalleryKeys {
    GalleryKeys {
        escape: false,
        replay: false,
        page_up: false,
        page_down: false,
        space: false,
        left: false,
        right: false,
        home: false,
        end: false,
    }
}

#[test]
fn backward_seek_restores_expired_epoch_notice_and_dismissed_outcome() {
    for (state, visible_at) in [
        (ScreenshotState::Reconnected, milliseconds(4000)),
        (ScreenshotState::Dismissed, milliseconds(3840)),
    ] {
        let mut replay = Replay::new(catalog_timeline(state, false));
        replay.seek(frame_at(visible_at), ViewOptions::default());
        let shown = |replay: &Replay| {
            (
                replay.model.kind,
                format!("{:?}", replay.model.caption),
                format!("{:?}", replay.model.result),
                format!("{:?}", replay.model.snapshot),
            )
        };
        let visible = shown(&replay);
        assert!(
            visible.0.is_some(),
            "the recovery notice must be visible before it expires or is dismissed"
        );
        replay.seek(replay.timeline.end, ViewOptions::default());
        assert!(
            replay.model.kind.is_none(),
            "completed history must reach transparent idle"
        );
        replay.seek(frame_at(visible_at), ViewOptions::default());
        assert_eq!(
            shown(&replay),
            visible,
            "seeking backward must replay epoch and dismissal history, not reuse terminal \
             freshness state"
        );
    }
}

#[test]
fn replay_shortcut_works_while_a_native_control_has_focus() {
    let mut gallery = Gallery::new();
    let effect = gallery.keyboard(
        GalleryKeys {
            replay: true,
            ..no_keys()
        },
        true,
    );
    assert_ne!(effect, KeyEffect::Close);
    assert!(gallery.playing, "the replay shortcut must start playback");
    assert_eq!(
        gallery.replay.frame,
        Some(0),
        "replay must return the visible timeline to its origin"
    );
    assert!(
        gallery.replay.model.kind.is_none(),
        "replay must present transparent idle before recording begins"
    );
}

#[test]
fn steps_and_ends_move_the_view() {
    let mut gallery = Gallery::new();
    gallery.seek(0);
    gallery.step(true);
    assert_eq!(gallery.replay.frame, Some(1));
    gallery.step(false);
    assert_eq!(gallery.replay.frame, Some(0));
    gallery.keyboard(
        GalleryKeys {
            end: true,
            ..no_keys()
        },
        false,
    );
    let end = gallery.replay.timeline.end;
    assert_eq!(gallery.replay.frame, Some(end));
    gallery.keyboard(
        GalleryKeys {
            home: true,
            ..no_keys()
        },
        false,
    );
    assert_eq!(gallery.replay.frame, Some(0));
    assert_eq!(
        gallery.keyboard(
            GalleryKeys {
                escape: true,
                ..no_keys()
            },
            false
        ),
        KeyEffect::Close
    );
}

#[test]
fn playing_ends_at_the_end() {
    let mut gallery = Gallery::new();
    gallery.replay();
    gallery.play_to(3);
    assert_eq!(gallery.replay.frame, Some(3));
    assert!(gallery.playing);
    gallery.play_to(u32::MAX);
    assert_eq!(gallery.replay.frame, Some(gallery.replay.timeline.end));
    assert!(!gallery.playing);
    gallery.select(1);
    assert_eq!(gallery.selected, 1);
}

#[test]
fn every_source_has_a_script() {
    let sources = catalog();
    assert!(sources.contains(&Source::Journey(Journey::Measured)));
    for source in sources {
        assert!(!source.title().is_empty());
        assert!(!source.description().is_empty());
        let script = timeline(source, source.reduced_motion());
        assert!(script.focus <= script.end);
        assert!(script
            .events
            .windows(2)
            .all(|pair| pair[0].at <= pair[1].at));
    }
}

#[test]
fn seeking_forgets_the_way() {
    let mut straight = Replay::new(timeline(Source::Journey(Journey::Raw), false));
    let mut wandering = Replay::new(timeline(Source::Journey(Journey::Raw), false));
    straight.seek(120, ViewOptions::default());
    wandering.seek(300, ViewOptions::default());
    wandering.seek(20, ViewOptions::default());
    wandering.seek(120, ViewOptions::default());
    assert_eq!(straight.model.kind, wandering.model.kind);
    assert_eq!(straight.model.caption, wandering.model.caption);
    assert_eq!(straight.frame, wandering.frame);
    assert_eq!(straight.checkpoint(), wandering.checkpoint());
}
