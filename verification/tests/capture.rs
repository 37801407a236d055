use cantrip::capture::{
    display_stderr, find_live_wav_data, next_stop, peak_level, pw_record_args, signed_level,
    verify_wav, CaptureError, InputSignal, SignalMonitor, StopEvent, StopStep, AUDIO_WAVEFORM_BINS,
    NO_SIGNAL_GRACE, WAV_HEADER_SCAN_LIMIT,
};

const SECOND: u64 = 1_000_000_000;
const SIGNAL_WINDOW_SAMPLES: usize = 3_200;

fn wav(samples: &[i16]) -> Vec<u8> {
    let data_len = (samples.len() * 2) as u32;
    let mut bytes = Vec::with_capacity(44 + data_len as usize);
    bytes.extend_from_slice(b"RIFF");
    bytes.extend_from_slice(&(36 + data_len).to_le_bytes());
    bytes.extend_from_slice(b"WAVEfmt ");
    bytes.extend_from_slice(&16_u32.to_le_bytes());
    bytes.extend_from_slice(&1_u16.to_le_bytes());
    bytes.extend_from_slice(&1_u16.to_le_bytes());
    bytes.extend_from_slice(&16_000_u32.to_le_bytes());
    bytes.extend_from_slice(&32_000_u32.to_le_bytes());
    bytes.extend_from_slice(&2_u16.to_le_bytes());
    bytes.extend_from_slice(&16_u16.to_le_bytes());
    bytes.extend_from_slice(b"data");
    bytes.extend_from_slice(&data_len.to_le_bytes());
    for sample in samples {
        bytes.extend_from_slice(&sample.to_le_bytes());
    }
    bytes
}

/// Look at a growing file as the recorder does: find the audio once, then measure the
/// window.
fn sample(monitor: &mut SignalMonitor, file: &[u8], now: u64) -> Option<InputSignal> {
    let data_offset = match monitor.data_offset {
        Some(offset) => offset,
        None => {
            let header = file[..file.len().min(WAV_HEADER_SCAN_LIMIT)].to_vec();
            let offset = find_live_wav_data(&header).expect("a wave file")?;
            monitor.locate(offset);
            offset
        }
    };
    let window = monitor
        .window(data_offset, file.len() as u64)
        .expect("the window fits");
    let start = window.start as usize;
    let end = file.len().min(start + window.length);
    Some(monitor.measure(&file[start..end].to_vec(), window.length, now))
}

#[test]
fn clipped_samples_fill_their_columns() {
    let started = 100 * SECOND;
    for (sample_value, level) in [(i16::MAX, 100), (i16::MIN, -100)] {
        let file = wav(&[sample_value; AUDIO_WAVEFORM_BINS]);
        let mut monitor = SignalMonitor::new(started);
        let signal = sample(&mut monitor, &file, started + SECOND).expect("WAV header is ready");
        assert_eq!(signal.level, 100);
        assert!(!signal.silent);
        assert_eq!(signal.waveform, [[level, level]; AUDIO_WAVEFORM_BINS]);
    }
}

#[test]
fn columns_without_a_sample_rest() {
    let started = 100 * SECOND;
    let file = wav(&[i16::MAX]);
    let mut monitor = SignalMonitor::new(started);
    let signal = sample(&mut monitor, &file, started + SECOND).expect("WAV header is ready");
    let mut expected = [[0, 0]; AUDIO_WAVEFORM_BINS];
    expected[0] = [100, 100];
    assert_eq!(signal.waveform, expected);
}

#[test]
fn live_signal_tracks_peak_and_sustained_digital_silence() {
    let mut file = wav(&[0, 16_384, -8_192]);
    let started = 100 * SECOND;
    let mut monitor = SignalMonitor::new(started);

    let active = sample(&mut monitor, &file, started + SECOND).expect("WAV header is ready");
    assert!(active.level >= 85, "half-scale PCM should render high");
    assert!(active.waveform.iter().flatten().any(|level| *level > 0));
    assert!(active.waveform.iter().flatten().any(|level| *level < 0));
    assert!(!active.silent);

    file.extend_from_slice(&[0; 64]);
    let silent =
        sample(&mut monitor, &file, started + 4 * SECOND).expect("WAV header remains ready");
    assert_eq!(silent.level, 0);
    assert_eq!(silent.waveform, [[0, 0]; AUDIO_WAVEFORM_BINS]);
    assert!(silent.silent, "three seconds without signal must warn");

    file.extend_from_slice(&(-1_000_i16).to_le_bytes());
    let restored =
        sample(&mut monitor, &file, started + 5 * SECOND).expect("WAV header remains ready");
    assert!(restored.level > 0);
    assert!(restored.waveform.iter().flatten().any(|level| *level < 0));
    assert!(
        !restored.silent,
        "signal must clear the warning immediately"
    );
}

#[test]
fn live_signal_downsamples_chronological_min_max_bins() {
    let samples: Vec<i16> = (1..=AUDIO_WAVEFORM_BINS)
        .flat_map(|index| {
            let amplitude = i16::try_from(index * 2_000).expect("test amplitude fits i16");
            [-amplitude, amplitude]
        })
        .collect();
    let file = wav(&samples);
    let started = 100 * SECOND;
    let signal = sample(&mut SignalMonitor::new(started), &file, started + SECOND)
        .expect("WAV header is ready");

    assert!(
        signal
            .waveform
            .iter()
            .all(|[minimum, maximum]| *minimum == -*maximum),
        "each bin must preserve both measured PCM edges"
    );
    assert!(
        signal
            .waveform
            .windows(2)
            .all(|pair| pair[0][1] < pair[1][1]),
        "bins must remain chronological"
    );
}

#[test]
fn live_signal_discards_backlog_before_newest_fixed_window() {
    let mut file = wav(&[1_000, -1_000]);
    let started = 100 * SECOND;
    let mut monitor = SignalMonitor::new(started);
    sample(&mut monitor, &file, started + SECOND).expect("WAV header is ready");

    let mut backlog = vec![i16::MAX; SIGNAL_WINDOW_SAMPLES];
    backlog.extend(std::iter::repeat_n(0, SIGNAL_WINDOW_SAMPLES));
    let bytes: Vec<u8> = backlog.into_iter().flat_map(i16::to_le_bytes).collect();
    file.extend_from_slice(&bytes);

    let newest =
        sample(&mut monitor, &file, started + 4 * SECOND).expect("WAV header remains ready");
    assert_eq!(newest.level, 0, "older loud PCM must not affect the peak");
    assert_eq!(
        newest.waveform,
        [[0, 0]; AUDIO_WAVEFORM_BINS],
        "older loud PCM must not affect the envelope"
    );
    assert!(
        newest.silent,
        "silence timing must follow the newest fixed window"
    );
}

#[test]
fn peak_level_reserves_zero_for_near_digital_silence() {
    assert_eq!(peak_level(0), 0);
    assert_eq!(peak_level(32), 0);
    assert!(peak_level(33) > 0);
    assert_eq!(peak_level(i16::MAX as u16), 100);
}

/// The level as decibels below full scale, on a scale that starts at minus sixty.
#[test]
fn every_level_follows_the_decibel_scale() {
    for peak in 33..=32_768_u16 {
        let dbfs = 20.0 * (f32::from(peak) / f32::from(i16::MAX)).log10();
        let expected = (((dbfs + 60.0) / 60.0).clamp(0.0, 1.0) * 100.0)
            .ceil()
            .clamp(1.0, 100.0) as u8;
        assert_eq!(peak_level(peak), expected, "peak {peak}");
    }
}

#[test]
fn levels_grow_and_keep_their_sign() {
    for peak in 0..i16::MAX {
        assert!(peak_level(peak as u16) <= peak_level(peak as u16 + 1));
        assert_eq!(signed_level(-peak), -signed_level(peak));
    }
    assert_eq!(signed_level(i16::MIN), -100);
}

#[test]
fn a_split_sample_is_kept_for_the_next_measurement() {
    let mut file = wav(&[]);
    let started = SECOND;
    let mut monitor = SignalMonitor::new(started);
    file.push(0x00);
    let first = sample(&mut monitor, &file, started).expect("WAV header is ready");
    assert_eq!(first.level, 0);
    assert_eq!(monitor.trailing_byte, Some(0x00));
    file.push(0x40);
    let second = sample(&mut monitor, &file, started).expect("WAV header remains ready");
    assert_eq!(second.level, peak_level(0x4000));
    assert_eq!(monitor.trailing_byte, None);
    let quiet = sample(&mut monitor, &file, started + NO_SIGNAL_GRACE)
        .expect("WAV header remains ready");
    assert!(quiet.silent);
}

#[test]
fn audio_is_found_behind_other_chunks() {
    let mut header = b"RIFF\x00\x00\x00\x00WAVE".to_vec();
    header.extend_from_slice(b"LIST\x03\x00\x00\x00abc\x00data\x00\x00\x00\x00");
    assert_eq!(find_live_wav_data(&header), Ok(Some(32)));
    assert_eq!(find_live_wav_data(&header[..20].to_vec()), Ok(None));
    assert_eq!(find_live_wav_data(&b"RI".to_vec()), Ok(None));
    assert_eq!(
        find_live_wav_data(&b"RIFX\x00\x00\x00\x00WAVE".to_vec()),
        Err(CaptureError::NotWave)
    );
}

#[test]
fn pw_record_args_without_source() {
    assert_eq!(
        pw_record_args("/tmp/recording.wav", None),
        vec![
            "--rate",
            "16000",
            "--channels",
            "1",
            "--format",
            "s16",
            "/tmp/recording.wav"
        ]
    );
}

#[test]
fn pw_record_args_with_source() {
    assert_eq!(
        pw_record_args("/tmp/recording.wav", Some("alsa_input.pci-1")),
        vec![
            "--rate",
            "16000",
            "--channels",
            "1",
            "--format",
            "s16",
            "--target",
            "alsa_input.pci-1",
            "/tmp/recording.wav"
        ]
    );
}

#[test]
fn a_recording_needs_more_than_a_header() {
    assert_eq!(verify_wav(44), Err(CaptureError::Empty));
    assert_eq!(verify_wav(45), Ok(()));
}

#[test]
fn a_silent_recorder_is_said_to_be_silent() {
    assert_eq!(display_stderr("no such device"), "no such device");
    assert_eq!(display_stderr(""), "(no stderr output)");
}

#[test]
fn a_recorder_is_interrupted_before_it_is_killed() {
    assert_eq!(
        next_stop(StopStep::Check, StopEvent::Running),
        StopStep::Interrupt
    );
    assert_eq!(
        next_stop(StopStep::Interrupt, StopEvent::Signalled),
        StopStep::Await
    );
    assert_eq!(
        next_stop(StopStep::Interrupt, StopEvent::Unsignalled),
        StopStep::Recheck
    );
    assert_eq!(
        next_stop(StopStep::Await, StopEvent::Exited),
        StopStep::Stopped
    );
    assert_eq!(
        next_stop(StopStep::Await, StopEvent::Running),
        StopStep::Kill
    );
}

#[test]
fn measured_columns_are_drawn_across_the_track() {
    let mut waveform = [[0; 2]; AUDIO_WAVEFORM_BINS];
    waveform[0] = [-100, 50];
    let drawn = InputSignal {
        level: 90,
        waveform,
        silent: false,
    }
    .drawn();
    assert_eq!(drawn.level, 90);
    assert!(!drawn.silent);
    assert!(drawn.waveform[0][0] < 0 && drawn.waveform[0][1] > 0);
    assert_eq!(drawn.waveform[59], [0, 0]);
}
