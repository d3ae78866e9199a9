//! Checking that a provider can be reached: what is asked of whom, and
//! how the answer is reported. Asking is the caller's part.

use vstd::prelude::*;
use vstd::string::StringExecFns;
use crate::error::prefixed;
use crate::providers::{
    compat_model, endpoint_given, normalize_compat_model, normalize_endpoint, GEMINI_FLASH,
    GROQ_URL, OPENAI_URL, OPENROUTER_GEMINI_FLASH, OPENROUTER_URL, TOGETHER_URL,
};
use crate::recording::outcome::text_view;
use crate::text::{decimal, to_decimal, concat3};

verus! {

/// Where Ollama lists its models.
pub const OLLAMA_TAGS_URL: &'static str = "http://127.0.0.1:11434/api/tags";

/// Where LM Studio lists its models.
pub const LM_STUDIO_MODELS_URL: &'static str = "http://127.0.0.1:1234/v1/models";

/// How the name of a custom transcription endpoint reads in messages.
pub const COMPAT_STT_LABEL: &'static str = "OpenAI-compatible STT endpoint";

/// What is said where the custom provider has no endpoint.
pub const ENDPOINT_MISSING: &'static str =
    "Custom OpenAI-compatible provider requires endpoint configuration";

/// How long a check of a service on this machine may take, in seconds.
pub const LOCAL_CHECK_TIMEOUT_SECS: u64 = 6;

/// How long a check of a cloud provider may take, in seconds.
pub const CLOUD_CHECK_TIMEOUT_SECS: u64 = 12;

/// The outcome of a check, for the user interface.
#[derive(Debug, Clone, PartialEq, Eq)]
pub struct ProviderHealth {
    /// Whether the provider can be used.
    pub ok: bool,
    /// Whether a credential is there, or none is needed.
    pub has_key: bool,
    /// How long the provider took to answer, in milliseconds.
    pub latency_ms: Option<u128>,
    /// The outcome in words.
    pub status: String,
}

/// An outcome as a mathematical value.
pub struct ProviderHealthView {
    pub ok: bool,
    pub has_key: bool,
    pub latency_ms: Option<u128>,
    pub status: Seq<char>,
}

impl View for ProviderHealth {
    type V = ProviderHealthView;

    open spec fn view(&self) -> ProviderHealthView {
        ProviderHealthView {
            ok: self.ok,
            has_key: self.has_key,
            latency_ms: self.latency_ms,
            status: self.status@,
        }
    }
}

/// `before`, the number, `after`.
pub open spec fn timed_text(before: Seq<char>, ms: u128, after: Seq<char>) -> Seq<char> {
    before + decimal(ms as nat) + after
}

impl ProviderHealth {
    /// The outcome for the local transcription engine, which is always
    /// there.
    pub fn local_ready() -> (h: Self)
        ensures
            h@ == (ProviderHealthView {
                ok: true,
                has_key: true,
                latency_ms: None,
                status: "Local provider ready"@,
            }),
    {
        ProviderHealth {
            ok: true,
            has_key: true,
            latency_ms: None,
            status: String::from_str("Local provider ready"),
        }
    }

    /// The outcome where the provider's credential is missing.
    pub fn missing_key(key_provider: &str) -> (h: Self)
        ensures
            h@ == (ProviderHealthView {
                ok: false,
                has_key: false,
                latency_ms: None,
                status: "Missing API key for "@ + key_provider@,
            }),
    {
        ProviderHealth {
            ok: false,
            has_key: false,
            latency_ms: None,
            status: prefixed("Missing API key for ", key_provider),
        }
    }

    /// The outcome where the provider answered well after `ms`
    /// milliseconds.
    pub fn reachable(ms: u128) -> (h: Self)
        ensures
            h@ == (ProviderHealthView {
                ok: true,
                has_key: true,
                latency_ms: Some(ms),
                status: timed_text("OK ("@, ms, " ms)"@),
            }),
    {
        let n: String = to_decimal(ms);
        ProviderHealth {
            ok: true,
            has_key: true,
            latency_ms: Some(ms),
            status: concat3("OK (", n.as_str(), " ms)"),
        }
    }

    /// The outcome where the check failed after `ms` milliseconds, with
    /// the failure in words.
    pub fn failed(ms: u128, message: String) -> (h: Self)
        ensures
            h@ == (ProviderHealthView {
                ok: false,
                has_key: true,
                latency_ms: Some(ms),
                status: message@,
            }),
    {
        ProviderHealth { ok: false, has_key: true, latency_ms: Some(ms), status: message }
    }

    /// The outcome where a service on this machine answered well.
    pub fn local_service_ready(ms: u128) -> (h: Self)
        ensures
            h@ == (ProviderHealthView {
                ok: true,
                has_key: true,
                latency_ms: Some(ms),
                status: timed_text("Local service ready ("@, ms, " ms)"@),
            }),
    {
        let n: String = to_decimal(ms);
        ProviderHealth {
            ok: true,
            has_key: true,
            latency_ms: Some(ms),
            status: concat3("Local service ready (", n.as_str(), " ms)"),
        }
    }

    /// The outcome where a service on this machine answered with a
    /// status that is no success.
    pub fn local_service_error(ms: u128, http_status: &str) -> (h: Self)
        ensures
            h@ == (ProviderHealthView {
                ok: false,
                has_key: true,
                latency_ms: Some(ms),
                status: "Local service error: HTTP "@ + http_status@,
            }),
    {
        ProviderHealth::failed(ms, prefixed("Local service error: HTTP ", http_status))
    }

    /// The outcome where a service on this machine did not answer.
    pub fn local_service_unavailable(ms: u128, cause: &str) -> (h: Self)
        ensures
            h@ == (ProviderHealthView {
                ok: false,
                has_key: true,
                latency_ms: Some(ms),
                status: "Local service unavailable: "@ + cause@,
            }),
    {
        ProviderHealth::failed(ms, prefixed("Local service unavailable: ", cause))
    }
}

/// What a check does first.
#[derive(Debug, Clone, PartialEq, Eq)]
pub enum HealthPlan {
    /// Nothing: the local transcription engine is ready.
    LocalReady,
    /// Ask the service on this machine at this address.
    LocalService(&'static str),
    /// Look up the credential stored under this name, then ask the
    /// provider.
    Cloud(String),
}

/// A plan as a mathematical value.
pub enum HealthPlanView {
    LocalReady,
    LocalService(Seq<char>),
    Cloud(Seq<char>),
}

impl View for HealthPlan {
    type V = HealthPlanView;

    open spec fn view(&self) -> HealthPlanView {
        match self {
            HealthPlan::LocalReady => HealthPlanView::LocalReady,
            HealthPlan::LocalService(url) => HealthPlanView::LocalService(url@),
            HealthPlan::Cloud(name) => HealthPlanView::Cloud(name@),
        }
    }
}

/// The plan for a provider's name. Both OpenAI providers share one
/// credential.
pub open spec fn plan_for(provider: Seq<char>) -> HealthPlanView {
    if provider == "vosk"@ {
        HealthPlanView::LocalReady
    } else if provider == "ollama"@ {
        HealthPlanView::LocalService(OLLAMA_TAGS_URL@)
    } else if provider == "lmstudio"@ {
        HealthPlanView::LocalService(LM_STUDIO_MODELS_URL@)
    } else if provider == "openai_transcribe"@ {
        HealthPlanView::Cloud("openai"@)
    } else {
        HealthPlanView::Cloud(provider)
    }
}

/// Decides what a check of a provider does first.
pub fn health_plan(provider: &str) -> (plan: HealthPlan)
    ensures
        plan@ == plan_for(provider@),
{
    if provider.eq("vosk") {
        HealthPlan::LocalReady
    } else if provider.eq("ollama") {
        HealthPlan::LocalService(OLLAMA_TAGS_URL)
    } else if provider.eq("lmstudio") {
        HealthPlan::LocalService(LM_STUDIO_MODELS_URL)
    } else if provider.eq("openai_transcribe") {
        HealthPlan::Cloud(String::from_str("openai"))
    } else {
        HealthPlan::Cloud(provider.to_owned())
    }
}

/// How the credential is sent.
#[derive(Debug, Clone, Copy, PartialEq, Eq, Structural)]
pub enum KeyHeader {
    /// As a bearer token.
    Bearer,
    /// In the header `xi-api-key`.
    XiApiKey,
}

/// What is asked of a cloud provider.
#[derive(Debug, Clone, PartialEq, Eq)]
pub enum Probe {
    /// Get this address.
    Get { url: &'static str, header: KeyHeader, label: &'static str },
    /// Post a chat completion of one token to `base_url`, with this
    /// model.
    Chat { base_url: String, model: String, label: String },
}

/// A probe as a mathematical value.
pub enum ProbeView {
    Get { url: Seq<char>, header: KeyHeader, label: Seq<char> },
    Chat { base_url: Seq<char>, model: Seq<char>, label: Seq<char> },
}

impl View for Probe {
    type V = ProbeView;

    open spec fn view(&self) -> ProbeView {
        match self {
            Probe::Get { url, header, label } => ProbeView::Get {
                url: url@,
                header: *header,
                label: label@,
            },
            Probe::Chat { base_url, model, label } => ProbeView::Chat {
                base_url: base_url@,
                model: model@,
                label: label@,
            },
        }
    }
}

/// What is asked of a transcription provider, or why nothing can be.
///
/// With an endpoint a chat completion is posted there. Without one the
/// providers known by name are asked for their list of models, ElevenLabs
/// for the user; the custom provider and unknown names are refused.
pub open spec fn stt_probe_for(
    provider: Seq<char>,
    model: Option<Seq<char>>,
    endpoint: Option<Seq<char>>,
) -> Result<ProbeView, Seq<char>> {
    match endpoint_given(endpoint) {
        Some(base) => Ok(
            ProbeView::Chat {
                base_url: base,
                model: compat_model(provider, base, model, GEMINI_FLASH@),
                label: COMPAT_STT_LABEL@,
            },
        ),
        None => if provider == "custom_openai_compatible"@ {
            Err(ENDPOINT_MISSING@)
        } else if provider == "openai"@ || provider == "openai_transcribe"@ {
            Ok(
                ProbeView::Get {
                    url: "https://api.openai.com/v1/models"@,
                    header: KeyHeader::Bearer,
                    label: "OpenAI"@,
                },
            )
        } else if provider == "openrouter"@ {
            Ok(
                ProbeView::Get {
                    url: "https://openrouter.ai/api/v1/models"@,
                    header: KeyHeader::Bearer,
                    label: "OpenRouter"@,
                },
            )
        } else if provider == "elevenlabs"@ {
            Ok(
                ProbeView::Get {
                    url: "https://api.elevenlabs.io/v1/user"@,
                    header: KeyHeader::XiApiKey,
                    label: "ElevenLabs"@,
                },
            )
        } else if provider == "mistral"@ {
            Ok(
                ProbeView::Get {
                    url: "https://api.mistral.ai/v1/models"@,
                    header: KeyHeader::Bearer,
                    label: "Mistral"@,
                },
            )
        } else {
            Err("Unsupported STT provider: "@ + provider)
        },
    }
}

/// The view of a probe or a refusal.
pub open spec fn probe_view(r: Result<Probe, String>) -> Result<ProbeView, Seq<char>> {
    match r {
        Ok(p) => Ok(p@),
        Err(m) => Err(m@),
    }
}

/// Decides what is asked of a transcription provider.
pub fn check_stt_provider(provider: &str, model: Option<String>, endpoint: Option<String>) -> (r:
    Result<Probe, String>)
    ensures
        probe_view(r) == stt_probe_for(provider@, text_view(model), text_view(endpoint)),
{
    match normalize_endpoint(&endpoint) {
        Some(base) => {
            let name: String = normalize_compat_model(provider, base.as_str(), model, GEMINI_FLASH);
            Ok(Probe::Chat { base_url: base, model: name, label: String::from_str(COMPAT_STT_LABEL) })
        },
        None => {
            if provider.eq("custom_openai_compatible") {
                Err(String::from_str(ENDPOINT_MISSING))
            } else if provider.eq("openai") || provider.eq("openai_transcribe") {
                Ok(
                    Probe::Get {
                        url: "https://api.openai.com/v1/models",
                        header: KeyHeader::Bearer,
                        label: "OpenAI",
                    },
                )
            } else if provider.eq("openrouter") {
                Ok(
                    Probe::Get {
                        url: "https://openrouter.ai/api/v1/models",
                        header: KeyHeader::Bearer,
                        label: "OpenRouter",
                    },
                )
            } else if provider.eq("elevenlabs") {
                Ok(
                    Probe::Get {
                        url: "https://api.elevenlabs.io/v1/user",
                        header: KeyHeader::XiApiKey,
                        label: "ElevenLabs",
                    },
                )
            } else if provider.eq("mistral") {
                Ok(
                    Probe::Get {
                        url: "https://api.mistral.ai/v1/models",
                        header: KeyHeader::Bearer,
                        label: "Mistral",
                    },
                )
            } else {
                Err(prefixed("Unsupported STT provider: ", provider))
            }
        },
    }
}

/// The endpoint and the default model of an enhancement provider known
/// by name.
pub open spec fn known_chat_target(provider: Seq<char>) -> Option<(Seq<char>, Seq<char>)> {
    if provider == "openrouter"@ {
        Some((OPENROUTER_URL@, OPENROUTER_GEMINI_FLASH@))
    } else if provider == "together"@ {
        Some((TOGETHER_URL@, "meta-llama/Meta-Llama-3.1-8B-Instruct-Turbo"@))
    } else if provider == "groq"@ {
        Some((GROQ_URL@, "llama-3.1-8b-instant"@))
    } else if provider == "openai"@ {
        Some((OPENAI_URL@, "gpt-4o-mini"@))
    } else {
        None
    }
}

/// What is asked of an enhancement provider, or why nothing can be: a
/// chat completion at the endpoint given, else at the provider known by
/// name.
pub open spec fn chat_probe_for(
    provider: Seq<char>,
    model: Option<Seq<char>>,
    endpoint: Option<Seq<char>>,
) -> Result<ProbeView, Seq<char>> {
    match endpoint_given(endpoint) {
        Some(base) => Ok(
            ProbeView::Chat {
                base_url: base,
                model: compat_model(provider, base, model, GEMINI_FLASH@),
                label: provider,
            },
        ),
        None => if provider == "custom_openai_compatible"@ {
            Err(ENDPOINT_MISSING@)
        } else {
            match known_chat_target(provider) {
                Some(target) => Ok(
                    ProbeView::Chat {
                        base_url: target.0,
                        model: compat_model(provider, target.0, model, target.1),
                        label: provider,
                    },
                ),
                None => Err("Unsupported enhancement provider: "@ + provider),
            }
        },
    }
}

fn chat_probe(provider: &str, base: &'static str, model: Option<String>, default_model: &str) -> (p:
    Probe)
    ensures
        p@ == (ProbeView::Chat {
            base_url: base@,
            model: compat_model(provider@, base@, text_view(model), default_model@),
            label: provider@,
        }),
{
    let name: String = normalize_compat_model(provider, base, model, default_model);
    Probe::Chat { base_url: String::from_str(base), model: name, label: provider.to_owned() }
}

/// Decides what is asked of an enhancement provider.
pub fn check_openai_compatible_chat(
    provider: &str,
    model: Option<String>,
    endpoint: Option<String>,
) -> (r: Result<Probe, String>)
    ensures
        probe_view(r) == chat_probe_for(provider@, text_view(model), text_view(endpoint)),
{
    match normalize_endpoint(&endpoint) {
        Some(base) => {
            let name: String = normalize_compat_model(provider, base.as_str(), model, GEMINI_FLASH);
            Ok(Probe::Chat { base_url: base, model: name, label: provider.to_owned() })
        },
        None => {
            if provider.eq("custom_openai_compatible") {
                Err(String::from_str(ENDPOINT_MISSING))
            } else if provider.eq("openrouter") {
                Ok(chat_probe(provider, OPENROUTER_URL, model, OPENROUTER_GEMINI_FLASH))
            } else if provider.eq("together") {
                Ok(
                    chat_probe(
                        provider,
                        TOGETHER_URL,
                        model,
                        "meta-llama/Meta-Llama-3.1-8B-Instruct-Turbo",
                    ),
                )
            } else if provider.eq("groq") {
                Ok(chat_probe(provider, GROQ_URL, model, "llama-3.1-8b-instant"))
            } else if provider.eq("openai") {
                Ok(chat_probe(provider, OPENAI_URL, model, "gpt-4o-mini"))
            } else {
                Err(prefixed("Unsupported enhancement provider: ", provider))
            }
        },
    }
}

/// The message where a probe did not reach the provider.
pub fn network_error_text(label: &str, cause: &str) -> (m: String)
    ensures
        m@ == label@ + " network error: "@ + cause@,
{
    concat3(label, " network error: ", cause)
}

/// The message where the provider answered a probe with a status that is
/// no success.
pub fn api_error_text(label: &str, http_status: &str) -> (m: String)
    ensures
        m@ == label@ + " API error: HTTP "@ + http_status@,
{
    concat3(label, " API error: HTTP ", http_status)
}

/// The outcome of a check from what the probe came to.
pub fn check_provider_health(ms: u128, probed: Result<(), String>) -> (h: ProviderHealth)
    ensures
        match probed {
            Ok(_) => h@ == (ProviderHealthView {
                ok: true,
                has_key: true,
                latency_ms: Some(ms),
                status: timed_text("OK ("@, ms, " ms)"@),
            }),
            Err(message) => h@ == (ProviderHealthView {
                ok: false,
                has_key: true,
                latency_ms: Some(ms),
                status: message@,
            }),
        },
{
    match probed {
        Ok(_) => ProviderHealth::reachable(ms),
        Err(message) => ProviderHealth::failed(ms, message),
    }
}

} // verus!
