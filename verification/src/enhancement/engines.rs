//! The settings of the clients that rewrite a transcript: which endpoint
//! and model each uses, and which client a request goes to. Sending is
//! the caller's part.

use vstd::prelude::*;
use vstd::string::StringExecFns;
use crate::enhancement::prompt::{EnhancementConfig, EnhancementConfigView, EnhancementMode};
use crate::enhancement::tw_dict::{
    collect_relevant_hints, has_mixed_script, has_cjk, has_ascii_letter, relevant_hints,
};
use crate::error::{AppError, AppErrorView, prefixed};
use crate::providers::{
    endpoint_given, model_name_for, normalize_endpoint, resolve_model_name, at_openrouter,
    DEEPSEEK_URL, GROQ_URL, OPENAI_URL, OPENROUTER_HOST, OPENROUTER_URL, TOGETHER_URL,
};
use crate::recording::outcome::text_view;
use crate::stt::engines::or_default;
use crate::text::{has_slice, trimmed, without_trailing, contains, trim_end_slashes};

verus! {

/// Where Ollama listens unless told otherwise.
pub const OLLAMA_URL: &'static str = "http://localhost:11434";

/// Where LM Studio listens.
pub const LM_STUDIO_URL: &'static str = "http://localhost:1234/v1";

/// The client of a model that runs on this machine, under Ollama or LM
/// Studio.
#[derive(Debug, Clone, PartialEq, Eq)]
pub struct OllamaEngine {
    pub base_url: String,
}

impl OllamaEngine {
    /// A client for the endpoint given, or for Ollama's own, without the
    /// `/` at its end.
    pub fn new(base_url: Option<String>) -> (e: Self)
        ensures
            e.base_url@ == without_trailing(or_default(text_view(base_url), OLLAMA_URL@), '/'),
    {
        let base: String = match base_url {
            Some(u) => u,
            None => String::from_str(OLLAMA_URL),
        };
        OllamaEngine { base_url: trim_end_slashes(base.as_str()).to_owned() }
    }

    /// A client for LM Studio.
    pub fn lm_studio() -> (e: Self)
        ensures
            e.base_url@ == without_trailing(LM_STUDIO_URL@, '/'),
    {
        OllamaEngine::new(Some(String::from_str(LM_STUDIO_URL)))
    }

    /// Where the client sends its request: an endpoint with `/v1` in it
    /// speaks the chat completions interface, any other Ollama's own.
    pub fn chat_url(&self) -> (url: String)
        ensures
            url@ == self.base_url@ + (if has_slice(self.base_url@, "/v1"@) {
                "/chat/completions"@
            } else {
                "/api/chat"@
            }),
    {
        if contains(self.base_url.as_str(), "/v1") {
            prefixed(self.base_url.as_str(), "/chat/completions")
        } else {
            prefixed(self.base_url.as_str(), "/api/chat")
        }
    }

    /// The name by which the client is shown.
    pub fn provider_name(&self) -> (n: &'static str)
        ensures
            n@ == "Ollama"@,
    {
        "Ollama"
    }
}

/// The endpoint of a provider that is known by name; OpenAI's for any
/// other name.
pub open spec fn known_endpoint(provider: Seq<char>) -> Seq<char> {
    if provider == "openrouter"@ {
        OPENROUTER_URL@
    } else if provider == "together"@ {
        TOGETHER_URL@
    } else if provider == "groq"@ {
        GROQ_URL@
    } else if provider == "deepseek"@ {
        DEEPSEEK_URL@
    } else {
        OPENAI_URL@
    }
}

/// Whether an endpoint is at one of the providers that are known by
/// name.
pub open spec fn at_known_host(base_url: Seq<char>) -> bool {
    has_slice(base_url, OPENROUTER_HOST@) || has_slice(base_url, "openai.com"@) || has_slice(
        base_url,
        "together.xyz"@,
    ) || has_slice(base_url, "groq.com"@)
}

/// The client of a provider that speaks the chat completions interface.
#[derive(Debug, Clone, PartialEq, Eq)]
pub struct OpenAiCompatEngine {
    pub api_key: String,
    pub base_url: String,
}

impl OpenAiCompatEngine {
    /// A client for an endpoint, kept without the `/` at its end.
    pub fn new(api_key: String, base_url: String) -> (e: Self)
        ensures
            e.api_key@ == api_key@,
            e.base_url@ == without_trailing(base_url@, '/'),
    {
        OpenAiCompatEngine { api_key, base_url: trim_end_slashes(base_url.as_str()).to_owned() }
    }

    /// A client for a provider that is known by name.
    pub fn for_provider(api_key: String, provider: &str) -> (e: Self)
        ensures
            e.api_key@ == api_key@,
            e.base_url@ == without_trailing(known_endpoint(provider@), '/'),
    {
        let url: &str = if provider.eq("openrouter") {
            OPENROUTER_URL
        } else if provider.eq("together") {
            TOGETHER_URL
        } else if provider.eq("groq") {
            GROQ_URL
        } else if provider.eq("deepseek") {
            DEEPSEEK_URL
        } else {
            OPENAI_URL
        };
        OpenAiCompatEngine::new(api_key, String::from_str(url))
    }

    /// The name under which a model is asked for at this client's
    /// endpoint.
    pub fn normalize_model(&self, model: &str) -> (name: String)
        ensures
            name@ == model_name_for(trimmed(model@), has_slice(self.base_url@, OPENROUTER_HOST@)),
    {
        resolve_model_name(model.trim(), at_openrouter(self.base_url.as_str()))
    }

    /// Where the client sends its request.
    pub fn chat_url(&self) -> (url: String)
        ensures
            url@ == self.base_url@ + "/chat/completions"@,
    {
        prefixed(self.base_url.as_str(), "/chat/completions")
    }

    /// How the endpoint is named in the log: `default` at a provider
    /// known by name, else `custom`.
    pub fn endpoint_mode(&self) -> (mode: &'static str)
        ensures
            mode@ == if at_known_host(self.base_url@) {
                "default"@
            } else {
                "custom"@
            },
    {
        let base: &str = self.base_url.as_str();
        if at_openrouter(base) || contains(base, "openai.com") || contains(base, "together.xyz")
            || contains(base, "groq.com") {
            "default"
        } else {
            "custom"
        }
    }

    /// The name by which the client is shown.
    pub fn provider_name(&self) -> (n: &'static str)
        ensures
            n@ == "OpenAI Compatible"@,
    {
        "OpenAI Compatible"
    }
}

/// The client that a request goes to.
#[derive(Debug, Clone, Copy, PartialEq, Eq, Structural)]
pub enum EnhancementRoute {
    /// Ollama on this machine.
    Ollama,
    /// LM Studio on this machine.
    LmStudio,
    /// A cloud provider, which needs a credential.
    Cloud,
}

/// The route for a provider's name.
pub open spec fn route_for(provider: Seq<char>) -> EnhancementRoute {
    if provider == "ollama"@ {
        EnhancementRoute::Ollama
    } else if provider == "lmstudio"@ {
        EnhancementRoute::LmStudio
    } else {
        EnhancementRoute::Cloud
    }
}

/// Decides which client a request goes to.
pub fn enhancement_route(provider: &str) -> (route: EnhancementRoute)
    ensures
        route == route_for(provider@),
{
    if provider.eq("ollama") {
        EnhancementRoute::Ollama
    } else if provider.eq("lmstudio") {
        EnhancementRoute::LmStudio
    } else {
        EnhancementRoute::Cloud
    }
}

/// Whether a request to a cloud provider lacks the endpoint that it
/// needs: the provider is the custom one and the endpoint is absent or
/// blank.
pub open spec fn lacks_endpoint(provider: Seq<char>, endpoint: Option<Seq<char>>) -> bool {
    provider == "custom_openai_compatible"@ && match endpoint {
        Some(url) => trimmed(url).len() == 0,
        None => true,
    }
}

/// Checks that the custom provider has its endpoint; this comes before
/// the credential is looked up.
pub fn check_endpoint(provider: &str, endpoint: &Option<String>) -> (r: Result<(), AppError>)
    ensures
        r is Err == lacks_endpoint(provider@, text_view(*endpoint)),
        r matches Err(e) ==> e@ == AppErrorView::Enhancement(
            "Custom OpenAI-compatible provider requires endpoint."@,
        ),
{
    let blank: bool = match endpoint {
        Some(url) => url.as_str().trim().is_empty(),
        None => true,
    };
    if provider.eq("custom_openai_compatible") && blank {
        Err(
            AppError::Enhancement(
                String::from_str("Custom OpenAI-compatible provider requires endpoint."),
            ),
        )
    } else {
        Ok(())
    }
}

/// The client for a cloud provider, from what the secret store holds for
/// it: without a credential there is none; with an endpoint the client is
/// for that endpoint, else for the provider known by name.
pub fn cloud_engine(provider: &str, endpoint: Option<String>, key: Option<String>) -> (r: Result<
    OpenAiCompatEngine,
    AppError,
>)
    ensures
        match key {
            Some(k) => r matches Ok(engine) && engine.api_key@ == k@ && engine.base_url@
                == without_trailing(
                or_default(endpoint_given(text_view(endpoint)), known_endpoint(provider@)),
                '/',
            ),
            None => r matches Err(e) && e@ == AppErrorView::Enhancement(
                "No API key configured for "@ + provider@,
            ),
        },
{
    match key {
        Some(k) => {
            match normalize_endpoint(&endpoint) {
                Some(url) => Ok(OpenAiCompatEngine::new(k, url)),
                None => Ok(OpenAiCompatEngine::for_provider(k, provider)),
            }
        },
        None => Err(AppError::Enhancement(prefixed("No API key configured for ", provider))),
    }
}

/// The settings of a request to correct a text: the language given or
/// English, whether the text mixes scripts, and the usage hints that
/// apply to it.
pub fn correction_config(text: &str, model: String, language: Option<String>) -> (config:
    EnhancementConfig)
    ensures
        config@ == (EnhancementConfigView {
            mode: EnhancementMode::FixGrammar,
            language: or_default(text_view(language), "en"@),
            model: model@,
            custom_prompt: None,
            source_has_mixed_script: has_cjk(text@) && has_ascii_letter(text@),
            tw_lexicon_hints: relevant_hints(text@, or_default(text_view(language), "en"@)),
        }),
{
    let lang: String = match language {
        Some(l) => l,
        None => String::from_str("en"),
    };
    let hints: Vec<String> = collect_relevant_hints(text, lang.as_str());
    EnhancementConfig {
        mode: EnhancementMode::FixGrammar,
        language: lang,
        model,
        custom_prompt: None,
        source_has_mixed_script: has_mixed_script(text),
        tw_lexicon_hints: hints,
    }
}

} // verus!
