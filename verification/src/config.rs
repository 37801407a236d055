//! User configuration, its defaults and its limits.

pub mod laws;

use crate::ipc::HudConfig;
use crate::text::{blank, chars_of, decimal, is_blank, push_decimal, same, trim, trimmed};
use vstd::prelude::*;
use vstd::string::*;

verus! {

/// Longest transcript that may be exempt from cleanup, in characters.
pub const MIN_CHARS_LIMIT: usize = 10_000;

/// Shortest and longest time for a cleanup.
pub const TIMEOUT_MINIMUM: u64 = 1_000;

pub const TIMEOUT_MAXIMUM: u64 = 120_000;

/// How text is delivered.
#[derive(Clone, Copy, Debug, PartialEq, Eq, Structural)]
pub enum InjectionMode {
    Auto,
    Type,
    Paste,
    Clipboard,
}

/// Whether anonymous job reports are sent.
#[derive(Clone, Copy, Debug, PartialEq, Eq, Structural)]
pub struct TelemetryConfig {
    pub enabled: bool,
}

/// How speech is transcribed: by a local model, or by a remote one at an endpoint.
#[derive(Debug, PartialEq, Eq)]
pub struct SttConfig {
    pub model: String,
    pub endpoint: Option<String>,
    pub api_key_id: Option<String>,
}

/// What a [`SttConfig`] holds.
pub struct SttConfigView {
    pub model: Seq<char>,
    pub endpoint: Option<Seq<char>>,
    pub api_key_id: Option<Seq<char>>,
}

impl View for SttConfig {
    type V = SttConfigView;

    open spec fn view(&self) -> SttConfigView {
        SttConfigView {
            model: self.model@,
            endpoint: match self.endpoint { Some(inner) => Some(inner@), None => None },
            api_key_id: match self.api_key_id { Some(inner) => Some(inner@), None => None },
        }
    }
}

impl Clone for SttConfig {
    fn clone(&self) -> (result: Self)
        ensures
            result@ == self@,
    {
        SttConfig {
            model: self.model.clone(),
            endpoint: self.endpoint.clone(),
            api_key_id: self.api_key_id.clone(),
        }
    }
}

/// How transcribed text is cleaned up. A transcript of fewer than `min_chars`
/// characters is left alone.
#[derive(Debug, PartialEq, Eq)]
pub struct PostprocConfig {
    pub enabled: bool,
    pub endpoint: String,
    pub model: String,
    pub api_key_id: Option<String>,
    pub timeout_ms: u64,
    pub passes: u8,
    pub min_chars: usize,
    pub instructions: String,
}

/// What a [`PostprocConfig`] holds.
pub struct PostprocConfigView {
    pub enabled: bool,
    pub endpoint: Seq<char>,
    pub model: Seq<char>,
    pub api_key_id: Option<Seq<char>>,
    pub timeout_ms: u64,
    pub passes: u8,
    pub min_chars: usize,
    pub instructions: Seq<char>,
}

impl View for PostprocConfig {
    type V = PostprocConfigView;

    open spec fn view(&self) -> PostprocConfigView {
        PostprocConfigView {
            enabled: self.enabled,
            endpoint: self.endpoint@,
            model: self.model@,
            api_key_id: match self.api_key_id { Some(inner) => Some(inner@), None => None },
            timeout_ms: self.timeout_ms,
            passes: self.passes,
            min_chars: self.min_chars,
            instructions: self.instructions@,
        }
    }
}

impl Clone for PostprocConfig {
    fn clone(&self) -> (result: Self)
        ensures
            result@ == self@,
    {
        PostprocConfig {
            enabled: self.enabled,
            endpoint: self.endpoint.clone(),
            model: self.model.clone(),
            api_key_id: self.api_key_id.clone(),
            timeout_ms: self.timeout_ms,
            passes: self.passes,
            min_chars: self.min_chars,
            instructions: self.instructions.clone(),
        }
    }
}

/// The user's configuration.
#[derive(Debug, PartialEq, Eq)]
pub struct Config {
    pub injection: InjectionMode,
    pub keep_warm: bool,
    pub audio_source: Option<String>,
    pub vocabulary: Vec<String>,
    pub stt: SttConfig,
    pub postproc: PostprocConfig,
    pub hud: HudConfig,
    pub telemetry: TelemetryConfig,
}

/// What a [`Config`] holds.
pub struct ConfigView {
    pub injection: InjectionMode,
    pub keep_warm: bool,
    pub audio_source: Option<Seq<char>>,
    pub vocabulary: Seq<Seq<char>>,
    pub stt: SttConfigView,
    pub postproc: PostprocConfigView,
    pub hud: HudConfig,
    pub telemetry: TelemetryConfig,
}

impl View for Config {
    type V = ConfigView;

    open spec fn view(&self) -> ConfigView {
        ConfigView {
            injection: self.injection,
            keep_warm: self.keep_warm,
            audio_source: match self.audio_source { Some(inner) => Some(inner@), None => None },
            vocabulary: Seq::new(self.vocabulary@.len(), |i: int| self.vocabulary@[i]@),
            stt: self.stt@,
            postproc: self.postproc@,
            hud: self.hud,
            telemetry: self.telemetry,
        }
    }
}

impl Clone for Config {
    fn clone(&self) -> (result: Self)
        ensures
            result@ == self@,
    {
        Config {
            injection: self.injection,
            keep_warm: self.keep_warm,
            audio_source: self.audio_source.clone(),
            vocabulary: self.vocabulary.clone(),
            stt: self.stt.clone(),
            postproc: self.postproc.clone(),
            hud: self.hud,
            telemetry: self.telemetry,
        }
    }
}

/// The local transcription that is used unless something else is configured.
pub open spec fn default_stt() -> SttConfigView {
    SttConfigView { model: "parakeet-tdt-0.6b-v3-int8"@, endpoint: None, api_key_id: None }
}

/// The cleanup settings that apply unless something else is configured.
pub open spec fn default_postproc() -> PostprocConfigView {
    PostprocConfigView {
        enabled: false,
        endpoint: "http://localhost:11434/v1"@,
        model: Seq::empty(),
        api_key_id: None,
        timeout_ms: 30_000,
        passes: 1,
        min_chars: 40,
        instructions: Seq::empty(),
    }
}

/// The configuration that applies unless something else is configured.
pub open spec fn default_config() -> ConfigView {
    ConfigView {
        injection: InjectionMode::Auto,
        keep_warm: true,
        audio_source: None,
        vocabulary: Seq::empty(),
        stt: default_stt(),
        postproc: default_postproc(),
        hud: HudConfig { labels: false, reduced_motion: None },
        telemetry: TelemetryConfig { enabled: false },
    }
}

impl Default for SttConfig {
    fn default() -> (result: Self)
        ensures
            result@ == default_stt(),
    {
        SttConfig {
            model: "parakeet-tdt-0.6b-v3-int8".to_owned(),
            endpoint: None,
            api_key_id: None,
        }
    }
}

impl SttConfigView {
    /// The local model that is loaded ahead.
    pub open spec fn loaded_model(self) -> Seq<char> {
        if self.endpoint is Some {
            default_stt().model
        } else {
            self.model
        }
    }
}

impl SttConfig {
    /// The local model that is loaded ahead: the configured one, or the default one
    /// where transcription is remote and only falls back to it.
    pub fn warm_model(&self) -> (result: &str)
        ensures
            result@ == self@.loaded_model(),
    {
        if self.endpoint.is_some() {
            "parakeet-tdt-0.6b-v3-int8"
        } else {
            self.model.as_str()
        }
    }
}

impl Default for PostprocConfig {
    fn default() -> (result: Self)
        ensures
            result@ == default_postproc(),
    {
        PostprocConfig {
            enabled: false,
            endpoint: "http://localhost:11434/v1".to_owned(),
            model: String::new(),
            api_key_id: None,
            timeout_ms: 30_000,
            // One cleanup round is enough for modern instruct models; a second
            // pass doubles cloud latency for little gain on residual errors.
            passes: 1,
            min_chars: 40,
            instructions: String::new(),
        }
    }
}

impl Default for Config {
    fn default() -> (result: Self)
        ensures
            result@ == default_config(),
    {
        let result = Config {
            injection: InjectionMode::Auto,
            keep_warm: true,
            audio_source: None,
            vocabulary: Vec::new(),
            stt: SttConfig::default(),
            postproc: PostprocConfig::default(),
            hud: HudConfig::default(),
            telemetry: TelemetryConfig { enabled: false },
        };
        assert(result@.vocabulary =~= Seq::empty());
        result
    }
}

/// Why a configuration cannot be used.
#[derive(Debug, PartialEq, Eq)]
pub enum ConfigError {
    /// Cleanup is on without a model.
    PostprocModelMissing,
    /// The number of cleanup passes.
    Passes(u8),
    /// The length below which a transcript is left alone.
    MinChars(usize),
    /// The time for a cleanup.
    Timeout(u64),
    /// The endpoint is set and blank.
    EndpointEmpty,
    /// The endpoint is a request path.
    EndpointPath,
    /// The endpoint is set without a model.
    EndpointModelMissing,
    /// The local model is none that is known.
    UnknownModel(String),
}

/// A text without the slashes at its end.
pub open spec fn without_slashes(s: Seq<char>) -> Seq<char>
    decreases s.len(),
{
    if s.len() > 0 && s.last() == '/' {
        without_slashes(s.drop_last())
    } else {
        s
    }
}

/// Whether a text ends with another one.
pub open spec fn has_suffix(s: Seq<char>, suffix: Seq<char>) -> bool {
    s.len() >= suffix.len() && s.skip(s.len() - suffix.len()) == suffix
}

/// Whether a local model of that name is known.
pub open spec fn is_known_model(name: Seq<char>) -> bool {
    name == "parakeet-tdt-0.6b-v3-int8"@
}

/// The first rule that a configuration breaks.
pub enum ConfigFault {
    PostprocModelMissing,
    Passes,
    MinChars,
    Timeout,
    EndpointEmpty,
    EndpointPath,
    EndpointModelMissing,
    UnknownModel,
}

impl ConfigView {
    /// The first rule that the configuration breaks, if any.
    pub open spec fn fault(self) -> Option<ConfigFault> {
        if self.postproc.enabled && is_blank(self.postproc.model) {
            Some(ConfigFault::PostprocModelMissing)
        } else if !(1 <= self.postproc.passes <= 3) {
            Some(ConfigFault::Passes)
        } else if self.postproc.min_chars > MIN_CHARS_LIMIT {
            Some(ConfigFault::MinChars)
        } else if !(TIMEOUT_MINIMUM <= self.postproc.timeout_ms <= TIMEOUT_MAXIMUM) {
            Some(ConfigFault::Timeout)
        } else {
            match self.stt.endpoint {
                Some(endpoint) => if is_blank(endpoint) {
                    Some(ConfigFault::EndpointEmpty)
                } else if has_suffix(without_slashes(trimmed(endpoint)), "/audio/transcriptions"@) {
                    Some(ConfigFault::EndpointPath)
                } else if is_blank(self.stt.model) {
                    Some(ConfigFault::EndpointModelMissing)
                } else {
                    None
                },
                None => if is_known_model(self.stt.model) {
                    None
                } else {
                    Some(ConfigFault::UnknownModel)
                },
            }
        }
    }

    /// Whether an error is what the broken rule is reported as.
    pub open spec fn reports(self, error: ConfigError) -> bool {
        match error {
            ConfigError::PostprocModelMissing => self.fault() == Some(
                ConfigFault::PostprocModelMissing,
            ),
            ConfigError::Passes(passes) => self.fault() == Some(ConfigFault::Passes) && passes
                == self.postproc.passes,
            ConfigError::MinChars(min_chars) => self.fault() == Some(ConfigFault::MinChars)
                && min_chars == self.postproc.min_chars,
            ConfigError::Timeout(timeout_ms) => self.fault() == Some(ConfigFault::Timeout)
                && timeout_ms == self.postproc.timeout_ms,
            ConfigError::EndpointEmpty => self.fault() == Some(ConfigFault::EndpointEmpty),
            ConfigError::EndpointPath => self.fault() == Some(ConfigFault::EndpointPath),
            ConfigError::EndpointModelMissing => self.fault() == Some(
                ConfigFault::EndpointModelMissing,
            ),
            ConfigError::UnknownModel(model) => self.fault() == Some(ConfigFault::UnknownModel)
                && model@ == self.stt.model,
        }
    }
}

fn ends_with(chars: &Vec<char>, end: usize, suffix: &str) -> (result: bool)
    requires
        end <= chars@.len(),
    ensures
        result == has_suffix(chars@.take(end as int), suffix@),
{
    let expected = chars_of(suffix);
    if end < expected.len() {
        return false;
    }
    let start: usize = end - expected.len();
    let ghost tail = chars@.take(end as int).skip(start as int);
    let mut index: usize = 0;
    while index < expected.len()
        invariant
            index <= expected@.len(),
            start + expected@.len() == end <= chars@.len(),
            expected@ == suffix@,
            tail == chars@.take(end as int).skip(start as int),
            forall|i: int| 0 <= i < index ==> tail[i] == expected@[i],
        decreases expected@.len() - index,
    {
        if chars[start + index] != expected[index] {
            assert(tail[index as int] != suffix@[index as int]);
            return false;
        }
        index += 1;
    }
    assert(tail =~= suffix@);
    true
}

/// Whether an endpoint is a request path and no base of an interface.
fn request_path(endpoint: &str) -> (result: bool)
    ensures
        result == has_suffix(without_slashes(endpoint@), "/audio/transcriptions"@),
{
    let chars = chars_of(endpoint);
    let mut end: usize = chars.len();
    assert(chars@.take(end as int) =~= endpoint@);
    while end > 0 && chars[end - 1] == '/'
        invariant
            end <= chars@.len(),
            chars@ == endpoint@,
            without_slashes(chars@.take(end as int)) == without_slashes(endpoint@),
        decreases end,
    {
        assert(chars@.take(end as int).drop_last() =~= chars@.take(end - 1));
        end -= 1;
    }
    ends_with(&chars, end, "/audio/transcriptions")
}

impl Config {
    /// Check that the configuration can be used.
    pub fn validate(&self) -> (result: Result<(), ConfigError>)
        ensures
            match result {
                Ok(()) => self@.fault() is None,
                Err(error) => self@.reports(error),
            },
    {
        if self.postproc.enabled && blank(self.postproc.model.as_str()) {
            return Err(ConfigError::PostprocModelMissing);
        }
        if self.postproc.passes < 1 || self.postproc.passes > 3 {
            return Err(ConfigError::Passes(self.postproc.passes));
        }
        if self.postproc.min_chars > MIN_CHARS_LIMIT {
            return Err(ConfigError::MinChars(self.postproc.min_chars));
        }
        if self.postproc.timeout_ms < TIMEOUT_MINIMUM || self.postproc.timeout_ms
            > TIMEOUT_MAXIMUM {
            return Err(ConfigError::Timeout(self.postproc.timeout_ms));
        }
        match &self.stt.endpoint {
            Some(endpoint) => {
                if blank(endpoint.as_str()) {
                    return Err(ConfigError::EndpointEmpty);
                }
                // Requests go to a path below the endpoint: it is the base of the
                // interface, never the request path itself.
                if request_path(trim(endpoint.as_str())) {
                    return Err(ConfigError::EndpointPath);
                }
                if blank(self.stt.model.as_str()) {
                    return Err(ConfigError::EndpointModelMissing);
                }
            },
            None => {
                if !same(self.stt.model.as_str(), "parakeet-tdt-0.6b-v3-int8") {
                    return Err(ConfigError::UnknownModel(self.stt.model.clone()));
                }
            },
        }
        Ok(())
    }
}

impl ConfigError {
    /// What is told of the error.
    pub open spec fn words(self) -> Seq<char> {
        match self {
            ConfigError::PostprocModelMissing => "postproc.enabled = true requires postproc.model"@,
            ConfigError::Passes(passes) => "postproc.passes must be between 1 and 3, got "@
                + decimal(passes as nat),
            ConfigError::MinChars(min_chars) => "postproc.min_chars must be at most 10000, got "@
                + decimal(min_chars as nat),
            ConfigError::Timeout(timeout_ms) => "postproc.timeout_ms must be between 1000 and 120000, got "@
                + decimal(timeout_ms as nat),
            ConfigError::EndpointEmpty => "stt.endpoint must not be empty when set"@,
            ConfigError::EndpointPath => "stt.endpoint must be the API base URL (e.g. https://api.openai.com/v1),                      not the full /audio/transcriptions path"@,
            ConfigError::EndpointModelMissing => "stt.endpoint requires a non-empty stt.model"@,
            ConfigError::UnknownModel(model) => "unknown local model "@ + model@
                + "; known models: parakeet-tdt-0.6b-v3-int8"@,
        }
    }

    /// What is told of the error.
    pub fn message(&self) -> (result: String)
        ensures
            result@ == self.words(),
    {
        match self {
            ConfigError::PostprocModelMissing => "postproc.enabled = true requires postproc.model".to_owned(),
            ConfigError::Passes(passes) => {
                let mut message: String = "postproc.passes must be between 1 and 3, got ".to_owned();
                push_decimal(&mut message, *passes as u64);
                message
            },
            ConfigError::MinChars(min_chars) => {
                let mut message: String = "postproc.min_chars must be at most 10000, got ".to_owned();
                push_decimal(&mut message, *min_chars as u64);
                message
            },
            ConfigError::Timeout(timeout_ms) => {
                let mut message: String = "postproc.timeout_ms must be between 1000 and 120000, got ".to_owned();
                push_decimal(&mut message, *timeout_ms);
                message
            },
            ConfigError::EndpointEmpty => "stt.endpoint must not be empty when set".to_owned(),
            ConfigError::EndpointPath => "stt.endpoint must be the API base URL (e.g. https://api.openai.com/v1),                      not the full /audio/transcriptions path".to_owned(),
            ConfigError::EndpointModelMissing => "stt.endpoint requires a non-empty stt.model".to_owned(),
            ConfigError::UnknownModel(model) => {
                let mut message: String = "unknown local model ".to_owned();
                message.append(model.as_str());
                message.append("; known models: parakeet-tdt-0.6b-v3-int8");
                message
            },
        }
    }
}

/// The configuration that applies unless something else is configured can be used.
pub proof fn default_configuration_is_valid()
    ensures
        default_config().fault() is None,
{
}

/// Nothing leaves the machine unless it is configured to: recognition is local, and
/// clean-up and telemetry are off.
pub proof fn extras_are_off_by_default()
    ensures
        default_config().stt.endpoint is None,
        !default_config().postproc.enabled,
        !default_config().telemetry.enabled,
{
}

} // verus!
