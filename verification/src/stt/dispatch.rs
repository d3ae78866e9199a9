//! Routing a transcription request to the selected provider.

use vstd::prelude::*;
use vstd::string::StringExecFns;
use crate::error::{AppError, AppErrorView, prefixed};
use crate::recording::outcome::{StatusEvent, StatusKind, text_view};
use crate::stt::{SttProvider, provider_named};

verus! {

/// The shortest time allowed to a cloud provider, in seconds.
pub const MIN_TIMEOUT_SECS: u64 = 5;

/// The longest time allowed to a cloud provider, in seconds.
pub const MAX_TIMEOUT_SECS: u64 = 180;

/// The model of the OpenAI transcription provider where none is chosen.
pub open spec fn default_transcribe_model() -> Seq<char> {
    "gpt-4o-mini-transcribe"@
}

/// A timeout brought into the allowed range.
pub open spec fn clamped_timeout(secs: u64) -> u64 {
    if secs < MIN_TIMEOUT_SECS {
        MIN_TIMEOUT_SECS
    } else if secs > MAX_TIMEOUT_SECS {
        MAX_TIMEOUT_SECS
    } else {
        secs
    }
}

/// Brings a timeout into the allowed range.
pub fn clamp_timeout(secs: u64) -> (t: u64)
    ensures
        t == clamped_timeout(secs),
        MIN_TIMEOUT_SECS <= t <= MAX_TIMEOUT_SECS,
{
    if secs < MIN_TIMEOUT_SECS {
        MIN_TIMEOUT_SECS
    } else if secs > MAX_TIMEOUT_SECS {
        MAX_TIMEOUT_SECS
    } else {
        secs
    }
}

/// The client that speaks to a cloud provider.
#[derive(Debug, Clone, Copy, PartialEq, Eq, Structural)]
pub enum EngineKind {
    ElevenLabs,
    /// The OpenAI transcription interface.
    OpenAiWhisper,
    /// Chat completions with audio input, as OpenRouter offers them.
    OpenRouterAudio,
    Mistral,
}

/// The client for a provider; the local engine has none.
pub open spec fn engine_of(p: SttProvider) -> Option<EngineKind> {
    match p {
        SttProvider::ElevenLabs => Some(EngineKind::ElevenLabs),
        SttProvider::OpenAI => Some(EngineKind::OpenAiWhisper),
        SttProvider::OpenAITranscribe => Some(EngineKind::OpenAiWhisper),
        SttProvider::OpenRouter => Some(EngineKind::OpenRouterAudio),
        SttProvider::CustomOpenAiCompatible => Some(EngineKind::OpenRouterAudio),
        SttProvider::Mistral => Some(EngineKind::Mistral),
        SttProvider::Vosk => None,
    }
}

/// The name under which a provider's credential is stored.
pub open spec fn key_name_of(p: SttProvider) -> Seq<char> {
    match p {
        SttProvider::Vosk => "vosk"@,
        SttProvider::ElevenLabs => "elevenlabs"@,
        SttProvider::OpenAI => "openai"@,
        SttProvider::OpenAITranscribe => "openai"@,
        SttProvider::OpenRouter => "openrouter"@,
        SttProvider::CustomOpenAiCompatible => "custom_openai_compatible"@,
        SttProvider::Mistral => "mistral"@,
    }
}

/// The model handed to a provider's client: the one chosen, else for the
/// OpenAI transcription provider its default, else none.
pub open spec fn model_for(p: SttProvider, model: Option<Seq<char>>) -> Option<Seq<char>> {
    match model {
        Some(m) => Some(m),
        None => if p == SttProvider::OpenAITranscribe {
            Some(default_transcribe_model())
        } else {
            None
        },
    }
}

/// The endpoint handed to a provider's client: ElevenLabs and Mistral
/// have their own, the others take the one configured.
pub open spec fn endpoint_for(p: SttProvider, base_url: Option<Seq<char>>) -> Option<Seq<char>> {
    match p {
        SttProvider::ElevenLabs => None,
        SttProvider::Mistral => None,
        SttProvider::Vosk => None,
        _ => base_url,
    }
}

/// How a cloud provider is called.
#[derive(Debug, Clone, PartialEq, Eq)]
pub struct CloudRoute {
    /// The client.
    pub engine: EngineKind,
    /// The name under which the credential is stored.
    pub key_name: &'static str,
    /// The model, where one is set.
    pub model: Option<String>,
    /// The endpoint, where one is set.
    pub base_url: Option<String>,
    /// Whether the call cannot be made without an endpoint.
    pub endpoint_required: bool,
    /// After how many seconds the call is given up.
    pub timeout_secs: u64,
}

/// Where a request goes.
#[derive(Debug, Clone, PartialEq, Eq)]
pub enum Route {
    /// To the local engine, which takes the samples as they are.
    Local,
    /// To a cloud provider, which takes the samples as a WAV file.
    Cloud(CloudRoute),
}

/// The route for a provider and the settings of the cycle.
pub fn route(
    provider: SttProvider,
    model: Option<String>,
    base_url: Option<String>,
    timeout_secs: u64,
) -> (r: Route)
    ensures
        provider == SttProvider::Vosk ==> r is Local,
        provider != SttProvider::Vosk ==> (r matches Route::Cloud(c) && Some(c.engine)
            == engine_of(provider) && c.key_name@ == key_name_of(provider) && text_view(c.model) == model_for(
            provider,
            text_view(model),
        ) && text_view(c.base_url) == endpoint_for(provider, text_view(base_url))
            && c.endpoint_required == (provider == SttProvider::CustomOpenAiCompatible)
            && c.timeout_secs == clamped_timeout(timeout_secs)),
{
    let timeout: u64 = clamp_timeout(timeout_secs);
    match provider {
        SttProvider::Vosk => Route::Local,
        SttProvider::ElevenLabs => Route::Cloud(
            CloudRoute {
                engine: EngineKind::ElevenLabs,
                key_name: "elevenlabs",
                model,
                base_url: None,
                endpoint_required: false,
                timeout_secs: timeout,
            },
        ),
        SttProvider::OpenAI => Route::Cloud(
            CloudRoute {
                engine: EngineKind::OpenAiWhisper,
                key_name: "openai",
                model,
                base_url,
                endpoint_required: false,
                timeout_secs: timeout,
            },
        ),
        SttProvider::OpenAITranscribe => {
            let chosen: Option<String> = match model {
                Some(m) => Some(m),
                None => Some(String::from_str("gpt-4o-mini-transcribe")),
            };
            Route::Cloud(
                CloudRoute {
                    engine: EngineKind::OpenAiWhisper,
                    key_name: "openai",
                    model: chosen,
                    base_url,
                    endpoint_required: false,
                    timeout_secs: timeout,
                },
            )
        },
        SttProvider::OpenRouter => Route::Cloud(
            CloudRoute {
                engine: EngineKind::OpenRouterAudio,
                key_name: "openrouter",
                model,
                base_url,
                endpoint_required: false,
                timeout_secs: timeout,
            },
        ),
        SttProvider::CustomOpenAiCompatible => Route::Cloud(
            CloudRoute {
                engine: EngineKind::OpenRouterAudio,
                key_name: "custom_openai_compatible",
                model,
                base_url,
                endpoint_required: true,
                timeout_secs: timeout,
            },
        ),
        SttProvider::Mistral => Route::Cloud(
            CloudRoute {
                engine: EngineKind::Mistral,
                key_name: "mistral",
                model,
                base_url: None,
                endpoint_required: false,
                timeout_secs: timeout,
            },
        ),
    }
}

/// The provider that the settings name. A name that selects none is an
/// error that quotes it.
pub fn select_provider(name: &str) -> (r: Result<SttProvider, AppError>)
    ensures
        match provider_named(name@) {
            Some(p) => r == Ok::<SttProvider, AppError>(p),
            None => r matches Err(e) && e@ == AppErrorView::Stt(
                "Unsupported STT provider: "@ + name@,
            ),
        },
{
    match SttProvider::parse(name) {
        Some(p) => Ok(p),
        None => Err(AppError::Stt(prefixed("Unsupported STT provider: ", name))),
    }
}

/// The credential for a cloud call: what the secret store holds under
/// `key_name`. None is an error that names the key.
pub fn require_key(key_name: &str, key: Option<String>) -> (r: Result<String, AppError>)
    ensures
        match key {
            Some(k) => r matches Ok(got) && got@ == k@,
            None => r matches Err(e) && e@ == AppErrorView::Stt(
                "No API key configured for "@ + key_name@,
            ),
        },
{
    match key {
        Some(k) => Ok(k),
        None => Err(AppError::Stt(prefixed("No API key configured for ", key_name))),
    }
}

/// The endpoint for a call that cannot be made without one.
pub fn require_endpoint(base_url: Option<String>) -> (r: Result<String, AppError>)
    ensures
        match base_url {
            Some(u) => r matches Ok(got) && got@ == u@,
            None => r matches Err(e) && e@ == AppErrorView::Stt(
                "Custom provider requires OpenAI-compatible endpoint."@,
            ),
        },
{
    match base_url {
        Some(u) => Ok(u),
        None => Err(
            AppError::Stt(String::from_str("Custom provider requires OpenAI-compatible endpoint.")),
        ),
    }
}

/// The error of a cloud call that was given up after its timeout. It is
/// reported as it is, the call is not made again.
pub fn timeout_error() -> (e: AppError)
    ensures
        e@ == AppErrorView::Stt("Cloud STT timeout. Check internet and try again."@),
{
    AppError::Stt(String::from_str("Cloud STT timeout. Check internet and try again."))
}

/// The notice sent where the local engine has no model loaded; the
/// transcript is then empty.
pub fn model_missing_notice() -> (n: StatusEvent)
    ensures
        n@ == (
            StatusKind::Error,
            Some("Vosk model not loaded. Please download and load a model in Settings."@),
        ),
{
    StatusEvent::error(
        String::from_str("Vosk model not loaded. Please download and load a model in Settings."),
    )
}

/// The error of the local engine where no model is loaded.
pub fn model_missing_error() -> (e: AppError)
    ensures
        e@ == AppErrorView::Stt("No Vosk model loaded"@),
{
    AppError::Stt(String::from_str("No Vosk model loaded"))
}

} // verus!
