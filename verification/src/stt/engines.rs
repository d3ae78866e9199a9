//! The settings of the cloud transcription clients: which model and
//! endpoint each uses, what it tells the provider, and how the audio is
//! sent. Sending is the caller's part.

use vstd::prelude::*;
use vstd::string::StringExecFns;
use base64::Engine;
use crate::error::{AppError, AppErrorView};
use crate::providers::{
    endpoint_given, is_gemini_shorthand, normalize_endpoint, at_openrouter, GEMINI_FLASH,
    GEMINI_FLASH_PREVIEW, OPENAI_URL, OPENROUTER_GEMINI_FLASH, OPENROUTER_HOST, OPENROUTER_URL,
};
use crate::recording::outcome::text_view;
use crate::text::{ascii_lowercased, has_slice, trimmed, starts_with, concat3};

verus! {

/// The model of ElevenLabs where none is chosen.
pub const ELEVENLABS_MODEL: &'static str = "scribe_v2";

/// Where ElevenLabs takes audio.
pub const ELEVENLABS_URL: &'static str = "https://api.elevenlabs.io/v1/speech-to-text";

/// The model of Mistral where none is chosen.
pub const MISTRAL_MODEL: &'static str = "mistral-vox-latest";

/// Where Mistral takes audio.
pub const MISTRAL_URL: &'static str = "https://api.mistral.ai/v1/audio/transcriptions";

/// The model of OpenAI where none is chosen.
pub const WHISPER_MODEL: &'static str = "whisper-1";

/// What the OpenAI client asks for Taiwanese Mandarin.
pub const WHISPER_PROMPT_ZH: &'static str = "請輸出臺灣繁體中文逐字稿，只回傳辨識文字。";

/// What the OpenAI client asks for Japanese.
pub const WHISPER_PROMPT_JA: &'static str = "日本語で文字起こしし、認識結果のみ返してください。";

/// What the OpenAI client asks for English.
pub const WHISPER_PROMPT_EN: &'static str = "Transcribe in English and return transcript text only.";

/// What the OpenRouter client asks for Taiwanese Mandarin.
pub const CHAT_PROMPT_ZH: &'static str = "請直接輸出「臺灣繁體中文」逐字稿，不要解釋，不要額外標點修飾。";

/// What the OpenRouter client asks for any other language.
pub const CHAT_PROMPT_OTHER: &'static str = "Return plain transcript text only. No explanation.";

/// `chosen`, or `fallback` where nothing is chosen.
pub open spec fn or_default(chosen: Option<Seq<char>>, fallback: Seq<char>) -> Seq<char> {
    match chosen {
        Some(c) => c,
        None => fallback,
    }
}

fn text_or(chosen: Option<String>, fallback: &str) -> (s: String)
    ensures
        s@ == or_default(text_view(chosen), fallback@),
{
    match chosen {
        Some(c) => c,
        None => String::from_str(fallback),
    }
}

/// The client of ElevenLabs.
#[derive(Debug, Clone, PartialEq, Eq)]
pub struct ElevenLabsEngine {
    pub api_key: String,
    pub model: String,
}

impl ElevenLabsEngine {
    /// A client with the model chosen, or the provider's default.
    pub fn new(api_key: String, model: Option<String>) -> (e: Self)
        ensures
            e.api_key@ == api_key@,
            e.model@ == or_default(text_view(model), ELEVENLABS_MODEL@),
    {
        ElevenLabsEngine { api_key, model: text_or(model, ELEVENLABS_MODEL) }
    }

    /// The name by which the client is shown.
    pub fn provider_name(&self) -> (n: &'static str)
        ensures
            n@ == "ElevenLabs Scribe"@,
    {
        "ElevenLabs Scribe"
    }
}

/// The client of Mistral.
#[derive(Debug, Clone, PartialEq, Eq)]
pub struct MistralEngine {
    pub api_key: String,
    pub model: String,
}

impl MistralEngine {
    /// A client with the model chosen, or the provider's default.
    pub fn new(api_key: String, model: Option<String>) -> (e: Self)
        ensures
            e.api_key@ == api_key@,
            e.model@ == or_default(text_view(model), MISTRAL_MODEL@),
    {
        MistralEngine { api_key, model: text_or(model, MISTRAL_MODEL) }
    }

    /// The name by which the client is shown.
    pub fn provider_name(&self) -> (n: &'static str)
        ensures
            n@ == "Mistral Vox"@,
    {
        "Mistral Vox"
    }
}

/// What the OpenAI client asks of the provider for a language: for `zh`
/// and `zh-tw` a transcript in Taiwanese Mandarin, for tags that begin
/// with `ja` or `en` one in that language, nothing for any other. The
/// tag is judged with its ASCII capital letters made small.
pub open spec fn whisper_prompt(language: Seq<char>) -> Option<Seq<char>> {
    let tag = ascii_lowercased(language);
    if tag == "zh"@ || tag == "zh-tw"@ {
        Some(WHISPER_PROMPT_ZH@)
    } else if "ja"@.is_prefix_of(tag) {
        Some(WHISPER_PROMPT_JA@)
    } else if "en"@.is_prefix_of(tag) {
        Some(WHISPER_PROMPT_EN@)
    } else {
        None
    }
}

/// The client of OpenAI's transcription interface, at OpenAI or at an
/// endpoint that speaks the same.
#[derive(Debug, Clone, PartialEq, Eq)]
pub struct OpenAiWhisperEngine {
    pub api_key: String,
    pub model: String,
    pub base_url: String,
}

impl OpenAiWhisperEngine {
    /// A client for the endpoint given in its bare form, or for OpenAI,
    /// with the model chosen or the default.
    pub fn new(api_key: String, model: Option<String>, base_url: Option<String>) -> (e: Self)
        ensures
            e.api_key@ == api_key@,
            e.model@ == or_default(text_view(model), WHISPER_MODEL@),
            e.base_url@ == or_default(endpoint_given(text_view(base_url)), OPENAI_URL@),
    {
        let endpoint: Option<String> = normalize_endpoint(&base_url);
        OpenAiWhisperEngine {
            api_key,
            model: text_or(model, WHISPER_MODEL),
            base_url: text_or(endpoint, OPENAI_URL),
        }
    }

    /// What the client asks of the provider for a language.
    pub fn build_prompt(language: &str) -> (prompt: Option<String>)
        ensures
            text_view(prompt) == whisper_prompt(language@),
    {
        let tag: String = language.to_ascii_lowercase();
        if tag.as_str().eq("zh") || tag.as_str().eq("zh-tw") {
            Some(String::from_str(WHISPER_PROMPT_ZH))
        } else if starts_with(tag.as_str(), "ja") {
            Some(String::from_str(WHISPER_PROMPT_JA))
        } else if starts_with(tag.as_str(), "en") {
            Some(String::from_str(WHISPER_PROMPT_EN))
        } else {
            None
        }
    }

    /// Where the client sends audio.
    pub fn transcription_url(&self) -> (url: String)
        ensures
            url@ == self.base_url@ + "/audio/transcriptions"@,
    {
        crate::error::prefixed(self.base_url.as_str(), "/audio/transcriptions")
    }

    /// The name by which the client is shown.
    pub fn provider_name(&self) -> (n: &'static str)
        ensures
            n@ == "OpenAI Whisper"@,
    {
        "OpenAI Whisper"
    }
}

/// What the OpenRouter client asks of the provider for a language.
pub open spec fn chat_prompt(language: Seq<char>) -> Seq<char> {
    if ascii_lowercased(language) == ascii_lowercased("zh"@) || ascii_lowercased(language)
        == ascii_lowercased("zh-tw"@) {
        CHAT_PROMPT_ZH@
    } else {
        CHAT_PROMPT_OTHER@
    }
}

/// The model that the OpenRouter client asks for: the one chosen or the
/// default, without white space at its ends; a short name of the default
/// model becomes OpenRouter's name for it where the endpoint is at
/// OpenRouter.
pub open spec fn chat_model(model: Option<Seq<char>>, base_url: Seq<char>) -> Seq<char> {
    let name = trimmed(or_default(model, OPENROUTER_GEMINI_FLASH@));
    if is_gemini_shorthand(name) && has_slice(base_url, OPENROUTER_HOST@) {
        OPENROUTER_GEMINI_FLASH@
    } else {
        name
    }
}

/// The text that stands for bytes in the standard base64 alphabet with
/// padding, as the `base64` crate's standard engine writes it.
pub uninterp spec fn base64_standard(bytes: Seq<u8>) -> Seq<char>;

/// Whether the text that stands for `len` bytes, four characters for
/// every three bytes begun, has a length that a buffer can have.
pub open spec fn base64_fits(len: nat) -> bool {
    (len + 2) / 3 * 4 <= isize::MAX
}

/// `Engine::encode` of `base64::engine::general_purpose::STANDARD`: the
/// bytes in base64. The function panics where the length of the result
/// overflows, and the buffer for it cannot be had beyond `isize::MAX`;
/// such input is left out. The result is named, not restated.
#[verifier::external_body]
fn encode_base64(bytes: &[u8]) -> (text: String)
    requires
        base64_fits(bytes@.len()),
    ensures
        text@ == base64_standard(bytes@),
{
    base64::engine::general_purpose::STANDARD.encode(bytes)
}

/// The client that sends audio in a chat completion, at OpenRouter or at
/// an endpoint that speaks the same.
#[derive(Debug, Clone, PartialEq, Eq)]
pub struct OpenRouterAudioEngine {
    pub api_key: String,
    pub model: String,
    pub base_url: String,
}

impl OpenRouterAudioEngine {
    /// A client for the endpoint given in its bare form, or for
    /// OpenRouter, with the model that `chat_model` names.
    pub fn new(api_key: String, model: Option<String>, base_url: Option<String>) -> (e: Self)
        ensures
            e.api_key@ == api_key@,
            e.base_url@ == or_default(endpoint_given(text_view(base_url)), OPENROUTER_URL@),
            e.model@ == chat_model(text_view(model), e.base_url@),
    {
        let endpoint: Option<String> = normalize_endpoint(&base_url);
        let base: String = text_or(endpoint, OPENROUTER_URL);
        let wanted: String = text_or(model, OPENROUTER_GEMINI_FLASH);
        let name: &str = wanted.as_str().trim();
        let resolved: String = if (name.eq(GEMINI_FLASH) || name.eq(GEMINI_FLASH_PREVIEW))
            && at_openrouter(base.as_str()) {
            String::from_str(OPENROUTER_GEMINI_FLASH)
        } else {
            name.to_owned()
        };
        OpenRouterAudioEngine { api_key, model: resolved, base_url: base }
    }

    /// What the client asks of the provider for a language: for `zh` and
    /// `zh-tw`, in any mix of ASCII capital and small letters, a
    /// transcript in Taiwanese Mandarin, else a plain transcript.
    pub fn transcription_prompt(language: &str) -> (prompt: String)
        ensures
            prompt@ == chat_prompt(language@),
    {
        if language.eq_ignore_ascii_case("zh") || language.eq_ignore_ascii_case("zh-tw") {
            String::from_str(CHAT_PROMPT_ZH)
        } else {
            String::from_str(CHAT_PROMPT_OTHER)
        }
    }

    /// Where the client sends its request.
    pub fn chat_url(&self) -> (url: String)
        ensures
            url@ == self.base_url@ + "/chat/completions"@,
    {
        crate::error::prefixed(self.base_url.as_str(), "/chat/completions")
    }

    /// Whether the request names this application to the provider, as
    /// OpenRouter asks.
    pub fn names_application(&self) -> (b: bool)
        ensures
            b == has_slice(self.base_url@, OPENROUTER_HOST@),
    {
        at_openrouter(self.base_url.as_str())
    }

    /// The audio as it stands in the request: the bytes of the WAV file
    /// in base64.
    pub fn audio_payload(wav: &[u8]) -> (text: String)
        requires
            base64_fits(wav@.len()),
        ensures
            text@ == base64_standard(wav@),
    {
        encode_base64(wav)
    }

    /// The audio as it stands in the request, where its length allows.
    pub fn try_audio_payload(wav: &[u8]) -> (text: Option<String>)
        ensures
            text is Some == base64_fits(wav@.len()),
            text matches Some(t) ==> t@ == base64_standard(wav@),
    {
        let len: usize = wav.len();
        let groups: usize = len / 3 + (if len % 3 == 0 {
            0
        } else {
            1
        });
        assert(groups == (len + 2) / 3);
        if groups <= (isize::MAX as usize) / 4 {
            Some(encode_base64(wav))
        } else {
            None
        }
    }

    /// The name by which the client is shown.
    pub fn provider_name(&self) -> (n: &'static str)
        ensures
            n@ == "OpenRouter Audio (Experimental)"@,
    {
        "OpenRouter Audio (Experimental)"
    }
}

/// The message of a provider's refusal: the provider, the status of the
/// reply and its body.
pub open spec fn api_error_text(label: Seq<char>, status: Seq<char>, body: Seq<char>) -> Seq<char> {
    label + " API error ("@ + status + "): "@ + body
}

/// The error for a provider's reply that is no success.
pub fn api_error(label: &str, status: &str, body: &str) -> (e: AppError)
    ensures
        e@ == AppErrorView::Stt(api_error_text(label@, status@, body@)),
{
    let head: String = concat3(label, " API error (", status);
    AppError::Stt(concat3(head.as_str(), "): ", body))
}

/// The error for a request that did not reach the provider.
pub fn request_failed_error(label: &str, cause: &str) -> (e: AppError)
    ensures
        e@ == AppErrorView::Stt(label@ + " request failed: "@ + cause@),
{
    AppError::Stt(concat3(label, " request failed: ", cause))
}

/// The error for a direct transcription request to the custom provider,
/// which has an endpoint only in the recording pipeline.
pub fn direct_custom_error(api_key: &str) -> (e: AppError)
    ensures
        e@ == AppErrorView::Stt(
            "Custom OpenAI-compatible STT requires endpoint in current recording pipeline. Provider key exists: "@
                + (if api_key@.len() > 0 {
                "true"@
            } else {
                "false"@
            }),
        ),
{
    let exists: &str = if api_key.is_empty() {
        "false"
    } else {
        "true"
    };
    AppError::Stt(
        crate::error::prefixed(
            "Custom OpenAI-compatible STT requires endpoint in current recording pipeline. Provider key exists: ",
            exists,
        ),
    )
}

} // verus!
