//! Which configurations are accepted, and what is said of the others.

use crate::config::{
    default_config, has_suffix, without_slashes, ConfigError, ConfigFault, ConfigView,
    InjectionMode, SttConfigView,
};
use crate::text::{decimal, is_blank, is_white_space, trimmed};
use vstd::prelude::*;

verus! {

/// Whether a text says anything.
pub open spec fn says_something(text: Seq<char>) -> bool {
    exists|i: int| 0 <= i < text.len() && !is_white_space(#[trigger] text[i])
}

proof fn lemma_says(text: Seq<char>)
    ensures
        is_blank(text) <==> !says_something(text),
{
    if !is_blank(text) {
        let i = choose|i: int| 0 <= i < text.len() && !is_white_space(#[trigger] text[i]);
        assert(!is_white_space(text[i]));
    }
}

/// A configuration is accepted exactly where cleanup has a model if it is on, one to three
/// passes, at most ten thousand characters to leave alone, and a second to two minutes of
/// time; and where transcription has an endpoint that is set, is no request path and comes
/// with a model, or else the local model that is known.
pub proof fn configuration_is_accepted_within_its_limits(config: ConfigView)
    ensures
        config.fault() is None <==> {
            &&& config.postproc.enabled ==> says_something(config.postproc.model)
            &&& 1 <= config.postproc.passes <= 3
            &&& config.postproc.min_chars <= 10_000
            &&& 1_000 <= config.postproc.timeout_ms <= 120_000
            &&& config.stt.endpoint is Some ==> says_something(config.stt.endpoint->0)
                && !has_suffix(
                without_slashes(trimmed(config.stt.endpoint->0)),
                "/audio/transcriptions"@,
            ) && says_something(config.stt.model)
            &&& config.stt.endpoint is None ==> config.stt.model == "parakeet-tdt-0.6b-v3-int8"@
        },
{
    lemma_says(config.postproc.model);
    lemma_says(config.stt.model);
    if config.stt.endpoint is Some {
        lemma_says(config.stt.endpoint->0);
    }
}

/// What is said of a configuration is wrong with it, and tells the value that is.
pub proof fn reports_are_true(config: ConfigView, error: ConfigError)
    requires
        config.reports(error),
    ensures
        match error {
            ConfigError::PostprocModelMissing => config.postproc.enabled && !says_something(
                config.postproc.model,
            ),
            ConfigError::Passes(passes) => passes == config.postproc.passes && (passes < 1
                || passes > 3),
            ConfigError::MinChars(min_chars) => min_chars == config.postproc.min_chars && min_chars
                > 10_000,
            ConfigError::Timeout(timeout_ms) => timeout_ms == config.postproc.timeout_ms && (
            timeout_ms < 1_000 || timeout_ms > 120_000),
            ConfigError::EndpointEmpty => config.stt.endpoint is Some && !says_something(
                config.stt.endpoint->0,
            ),
            ConfigError::EndpointPath => config.stt.endpoint is Some && has_suffix(
                without_slashes(trimmed(config.stt.endpoint->0)),
                "/audio/transcriptions"@,
            ),
            ConfigError::EndpointModelMissing => config.stt.endpoint is Some && !says_something(
                config.stt.model,
            ),
            ConfigError::UnknownModel(model) => config.stt.endpoint is None && model@
                == config.stt.model && model@ != "parakeet-tdt-0.6b-v3-int8"@,
        },
{
    lemma_says(config.postproc.model);
    lemma_says(config.stt.model);
    if config.stt.endpoint is Some {
        lemma_says(config.stt.endpoint->0);
    }
}

/// Of several faults the cleanup's are told first, in the order of its settings.
pub proof fn cleanup_is_checked_first(config: ConfigView)
    ensures
        config.postproc.enabled && !says_something(config.postproc.model) ==> config.fault()
            == Some(ConfigFault::PostprocModelMissing),
        !config.postproc.enabled && (config.postproc.passes < 1 || config.postproc.passes > 3)
            ==> config.fault() == Some(ConfigFault::Passes),
        !config.postproc.enabled && config.postproc.passes == 1 && config.postproc.min_chars
            > 10_000 ==> config.fault() == Some(ConfigFault::MinChars),
        !config.postproc.enabled && config.postproc.passes == 1 && config.postproc.min_chars
            <= 10_000 && (config.postproc.timeout_ms < 1_000 || config.postproc.timeout_ms
            > 120_000) ==> config.fault() == Some(ConfigFault::Timeout),
{
    lemma_says(config.postproc.model);
}

/// Slashes at the end of an endpoint do not hide a request path.
pub proof fn slashes_hide_no_request_path(base: Seq<char>, path: Seq<char>)
    requires
        path.len() > 0,
        path.last() != '/',
    ensures
        has_suffix(without_slashes(base + path), path),
        without_slashes(base + path) == base + path,
        without_slashes((base + path).push('/')) == base + path,
        without_slashes((base + path).push('/').push('/')) == base + path,
{
    let whole = base + path;
    assert(whole.last() == path.last());
    assert(whole.push('/').drop_last() =~= whole);
    assert(whole.push('/').push('/').drop_last() =~= whole.push('/'));
    assert(whole.skip(whole.len() - path.len()) =~= path);
}

/// By default text is delivered as it can be, the model is kept ready, and cleanup would make
/// one pass within half a minute over what has forty characters or more.
pub proof fn defaults_are_modest()
    ensures
        ({
            let config = default_config();
            &&& config.injection == InjectionMode::Auto
            &&& config.keep_warm
            &&& config.audio_source is None
            &&& config.vocabulary.len() == 0
            &&& config.stt.model == "parakeet-tdt-0.6b-v3-int8"@
            &&& config.stt.endpoint is None && config.stt.api_key_id is None
            &&& !config.postproc.enabled
            &&& config.postproc.endpoint == "http://localhost:11434/v1"@
            &&& config.postproc.model.len() == 0 && config.postproc.instructions.len() == 0
            &&& config.postproc.api_key_id is None
            &&& config.postproc.timeout_ms == 30_000
            &&& config.postproc.passes == 1
            &&& config.postproc.min_chars == 40
            &&& !config.hud.labels && config.hud.reduced_motion is None
            &&& !config.telemetry.enabled
        }),
{
}

/// The model that is loaded ahead is the one that transcribes locally, and where
/// transcription is remote the one that would.
pub proof fn local_model_is_loaded_ahead(stt: SttConfigView)
    ensures
        stt.endpoint is None ==> stt.loaded_model() == stt.model,
        stt.endpoint is Some ==> stt.loaded_model() == "parakeet-tdt-0.6b-v3-int8"@,
{
}

/// A limit that was exceeded is told with the value that did.
pub proof fn limits_are_told_with_the_value(passes: u8, min_chars: usize, timeout_ms: u64)
    ensures
        ConfigError::Passes(passes).words() == "postproc.passes must be between 1 and 3, got "@
            + decimal(passes as nat),
        ConfigError::MinChars(min_chars).words()
            == "postproc.min_chars must be at most 10000, got "@ + decimal(min_chars as nat),
        ConfigError::Timeout(timeout_ms).words()
            == "postproc.timeout_ms must be between 1000 and 120000, got "@ + decimal(
            timeout_ms as nat,
        ),
        ConfigError::PostprocModelMissing.words()
            == "postproc.enabled = true requires postproc.model"@,
        ConfigError::EndpointEmpty.words() == "stt.endpoint must not be empty when set"@,
        ConfigError::EndpointModelMissing.words()
            == "stt.endpoint requires a non-empty stt.model"@,
{
}

/// A model that is not known, and an endpoint that is a request path, are told as such.
pub proof fn models_and_endpoints_are_told(model: String)
    ensures
        ConfigError::UnknownModel(model).words() == "unknown local model "@ + model@
            + "; known models: parakeet-tdt-0.6b-v3-int8"@,
        ConfigError::EndpointPath.words()
            == "stt.endpoint must be the API base URL (e.g. https://api.openai.com/v1),                      not the full /audio/transcriptions path"@,
{
}

} // verus!
