//! Transcription: the providers, how a request is routed to one of them,
//! and what is done to the transcript afterwards.

pub mod converter;
pub mod dispatch;
pub mod engines;
pub mod vosk_engine;

use vstd::prelude::*;
use vstd::string::StringExecFns;

verus! {

/// What a transcription engine is told about the audio.
#[derive(Debug, Clone, PartialEq, Eq)]
pub struct SttConfig {
    /// The language spoken, as a tag such as `en` or `zh-TW`.
    pub language: String,
    /// The rate of the samples, per second.
    pub sample_rate: u32,
}

impl Default for SttConfig {
    /// English at 16 kHz.
    fn default() -> (c: Self)
        ensures
            c.language@ == "en"@,
            c.sample_rate == 16000,
    {
        SttConfig { language: String::from_str("en"), sample_rate: 16000 }
    }
}

/// The transcription providers.
#[derive(Debug, Clone, Copy, PartialEq, Eq, Structural)]
pub enum SttProvider {
    /// The local engine.
    Vosk,
    ElevenLabs,
    OpenAI,
    OpenAITranscribe,
    OpenRouter,
    CustomOpenAiCompatible,
    Mistral,
}

/// The name by which settings and requests select a provider.
pub open spec fn provider_name(p: SttProvider) -> Seq<char> {
    match p {
        SttProvider::Vosk => "vosk"@,
        SttProvider::ElevenLabs => "elevenlabs"@,
        SttProvider::OpenAI => "openai"@,
        SttProvider::OpenAITranscribe => "openai_transcribe"@,
        SttProvider::OpenRouter => "openrouter"@,
        SttProvider::CustomOpenAiCompatible => "custom_openai_compatible"@,
        SttProvider::Mistral => "mistral"@,
    }
}

/// The provider that a name selects, if any. Names are matched exactly.
pub open spec fn provider_named(name: Seq<char>) -> Option<SttProvider> {
    if name == "vosk"@ {
        Some(SttProvider::Vosk)
    } else if name == "elevenlabs"@ {
        Some(SttProvider::ElevenLabs)
    } else if name == "openai"@ {
        Some(SttProvider::OpenAI)
    } else if name == "openai_transcribe"@ {
        Some(SttProvider::OpenAITranscribe)
    } else if name == "openrouter"@ {
        Some(SttProvider::OpenRouter)
    } else if name == "custom_openai_compatible"@ {
        Some(SttProvider::CustomOpenAiCompatible)
    } else if name == "mistral"@ {
        Some(SttProvider::Mistral)
    } else {
        None
    }
}

impl SttProvider {
    /// The provider's name.
    pub fn name(&self) -> (n: &'static str)
        ensures
            n@ == provider_name(*self),
    {
        match self {
            SttProvider::Vosk => "vosk",
            SttProvider::ElevenLabs => "elevenlabs",
            SttProvider::OpenAI => "openai",
            SttProvider::OpenAITranscribe => "openai_transcribe",
            SttProvider::OpenRouter => "openrouter",
            SttProvider::CustomOpenAiCompatible => "custom_openai_compatible",
            SttProvider::Mistral => "mistral",
        }
    }

    /// The provider that a name selects, if any.
    pub fn parse(name: &str) -> (p: Option<SttProvider>)
        ensures
            p == provider_named(name@),
    {
        if name.eq("vosk") {
            Some(SttProvider::Vosk)
        } else if name.eq("elevenlabs") {
            Some(SttProvider::ElevenLabs)
        } else if name.eq("openai") {
            Some(SttProvider::OpenAI)
        } else if name.eq("openai_transcribe") {
            Some(SttProvider::OpenAITranscribe)
        } else if name.eq("openrouter") {
            Some(SttProvider::OpenRouter)
        } else if name.eq("custom_openai_compatible") {
            Some(SttProvider::CustomOpenAiCompatible)
        } else if name.eq("mistral") {
            Some(SttProvider::Mistral)
        } else {
            None
        }
    }
}

/// Every provider is selected by its own name, and a name selects none but
/// the provider that bears it.
pub proof fn lemma_provider_names_select(p: SttProvider, name: Seq<char>)
    ensures
        provider_named(provider_name(p)) == Some(p),
        provider_named(name) == Some(p) ==> name == provider_name(p),
{
    reveal_strlit("vosk");
    reveal_strlit("elevenlabs");
    reveal_strlit("openai");
    reveal_strlit("openai_transcribe");
    reveal_strlit("openrouter");
    reveal_strlit("custom_openai_compatible");
    reveal_strlit("mistral");
    assert("vosk"@.len() == 4);
    assert("elevenlabs"@.len() == 10);
    assert("openai"@.len() == 6);
    assert("openai_transcribe"@.len() == 17);
    assert("openrouter"@[4] == 'r');
    assert("elevenlabs"@[4] == 'e');
    assert("custom_openai_compatible"@.len() == 24);
    assert("mistral"@.len() == 7);
}

} // verus!
