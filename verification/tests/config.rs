use cantrip::config::{Config, ConfigError, InjectionMode, PostprocConfig, SttConfig};

#[test]
fn validation_rejects_enabled_postproc_without_model() {
    let config = Config {
        postproc: PostprocConfig {
            enabled: true,
            ..PostprocConfig::default()
        },
        ..Config::default()
    };
    let error = config
        .validate()
        .expect_err("empty postproc model must fail");
    assert!(error
        .message()
        .contains("postproc.enabled = true requires postproc.model"));
    assert_eq!(error, ConfigError::PostprocModelMissing);
}

#[test]
fn validation_rejects_out_of_range_passes() {
    let config = Config {
        postproc: PostprocConfig {
            passes: 0,
            ..PostprocConfig::default()
        },
        ..Config::default()
    };
    let error = config.validate().expect_err("passes = 0 must fail");
    assert!(error
        .message()
        .contains("postproc.passes must be between 1 and 3"));
    assert_eq!(error, ConfigError::Passes(0));
}

#[test]
fn validation_rejects_huge_min_chars() {
    let config = Config {
        postproc: PostprocConfig {
            min_chars: 10_001,
            ..PostprocConfig::default()
        },
        ..Config::default()
    };
    let error = config.validate().expect_err("huge min_chars must fail");
    assert!(error
        .message()
        .contains("postproc.min_chars must be at most 10000"));
    assert_eq!(error, ConfigError::MinChars(10_001));
}

#[test]
fn validation_rejects_zero_timeout_ms() {
    let config = Config {
        postproc: PostprocConfig {
            timeout_ms: 0,
            ..PostprocConfig::default()
        },
        ..Config::default()
    };
    let error = config.validate().expect_err("timeout_ms = 0 must fail");
    assert!(error
        .message()
        .contains("postproc.timeout_ms must be between 1000 and 120000"));
}

#[test]
fn validation_rejects_oversized_timeout_ms() {
    let config = Config {
        postproc: PostprocConfig {
            timeout_ms: 120_001,
            ..PostprocConfig::default()
        },
        ..Config::default()
    };
    let error = config
        .validate()
        .expect_err("timeout_ms = 120001 must fail");
    assert!(error
        .message()
        .contains("postproc.timeout_ms must be between 1000 and 120000"));
    assert_eq!(error, ConfigError::Timeout(120_001));
}

#[test]
fn validation_accepts_timeout_ms_bounds() {
    for timeout_ms in [1_000, 120_000] {
        let config = Config {
            postproc: PostprocConfig {
                timeout_ms,
                ..PostprocConfig::default()
            },
            ..Config::default()
        };
        config.validate().expect("timeout_ms bound should validate");
    }
}

#[test]
fn validation_rejects_unknown_local_stt_model() {
    let config = Config {
        stt: SttConfig {
            model: "missing-model".to_owned(),
            ..SttConfig::default()
        },
        ..Config::default()
    };
    let error = config
        .validate()
        .expect_err("unknown local model must fail");
    let message = error.message();
    assert!(message.contains("missing-model"));
    assert!(message.contains("parakeet-tdt-0.6b-v3-int8"));
}

#[test]
fn stt_endpoint_rejects_transcriptions_path() {
    let config = Config {
        stt: SttConfig {
            endpoint: Some("https://api.openai.com/v1/audio/transcriptions".into()),
            model: "whisper-large-v3".into(),
            ..Default::default()
        },
        ..Default::default()
    };
    let err = config.validate().expect_err("full path must fail");
    assert!(
        err.message().contains("API base"),
        "unexpected error: {err:?}"
    );
    assert_eq!(err, ConfigError::EndpointPath);
}

#[test]
fn stt_endpoint_accepts_api_base() {
    let config = Config {
        stt: SttConfig {
            endpoint: Some("https://api.openai.com/v1".into()),
            model: "whisper-large-v3".into(),
            ..Default::default()
        },
        ..Default::default()
    };
    config.validate().expect("base URL should validate");
}

#[test]
fn stt_endpoint_rejects_empty() {
    let config = Config {
        stt: SttConfig {
            endpoint: Some("  ".into()),
            model: "whisper-large-v3".into(),
            ..Default::default()
        },
        ..Default::default()
    };
    assert!(config.validate().is_err());
    assert_eq!(config.validate(), Err(ConfigError::EndpointEmpty));
}

#[test]
fn remote_recognition_needs_a_model() {
    let config = Config {
        stt: SttConfig {
            endpoint: Some("https://api.openai.com/v1".into()),
            model: " \t".into(),
            ..Default::default()
        },
        ..Default::default()
    };
    assert_eq!(config.validate(), Err(ConfigError::EndpointModelMissing));
}

#[test]
fn defaults_are_those_of_an_empty_file() {
    let config = Config::default();
    assert_eq!(config.injection, InjectionMode::Auto);
    assert!(config.keep_warm);
    assert_eq!(config.audio_source, None);
    assert!(config.vocabulary.is_empty());
    assert!(!config.postproc.enabled);
    assert_eq!(config.postproc.endpoint, "http://localhost:11434/v1");
    assert_eq!(config.postproc.timeout_ms, 30_000);
    assert_eq!(config.postproc.passes, 1);
    assert_eq!(config.postproc.min_chars, 40);
    assert_eq!(config.postproc.api_key_id, None);
    assert_eq!(config.validate(), Ok(()));
}
