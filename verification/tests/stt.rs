use voxlore::error::AppError;
use voxlore::stt::converter::{
    converted_or_given, needs_s2t_conversion, post_process, simplified_to_traditional,
};
use voxlore::stt::dispatch::{
    clamp_timeout, model_missing_error, model_missing_notice, require_endpoint, require_key, route,
    select_provider, timeout_error, CloudRoute, EngineKind, Route,
};
use voxlore::stt::engines::{
    api_error, direct_custom_error, request_failed_error, ElevenLabsEngine, MistralEngine,
    OpenAiWhisperEngine, OpenRouterAudioEngine,
};
use voxlore::stt::vosk_engine::{
    auto_load_vosk_model, feed_plan, model_dir_missing_error, model_not_downloaded_error,
    pick_transcript, VoskManager, VoskModelStatus,
};
use voxlore::stt::{SttConfig, SttProvider};

#[test]
fn timeout_is_kept_within_5_and_180_seconds() {
    assert_eq!(clamp_timeout(0), 5);
    assert_eq!(clamp_timeout(4), 5);
    assert_eq!(clamp_timeout(5), 5);
    assert_eq!(clamp_timeout(45), 45);
    assert_eq!(clamp_timeout(180), 180);
    assert_eq!(clamp_timeout(181), 180);
    assert_eq!(clamp_timeout(u64::MAX), 180);
}

#[test]
fn providers_are_selected_by_exact_name() {
    let all = [
        (SttProvider::Vosk, "vosk"),
        (SttProvider::ElevenLabs, "elevenlabs"),
        (SttProvider::OpenAI, "openai"),
        (SttProvider::OpenAITranscribe, "openai_transcribe"),
        (SttProvider::OpenRouter, "openrouter"),
        (SttProvider::CustomOpenAiCompatible, "custom_openai_compatible"),
        (SttProvider::Mistral, "mistral"),
    ];
    for (p, name) in all {
        assert_eq!(p.name(), name);
        assert_eq!(SttProvider::parse(name), Some(p));
        assert_eq!(select_provider(name), Ok(p));
    }
    assert_eq!(SttProvider::parse("Vosk"), None);
    assert_eq!(SttProvider::parse(""), None);
    assert_eq!(
        select_provider("whisper"),
        Err(AppError::Stt("Unsupported STT provider: whisper".into()))
    );
}

#[test]
fn default_config_is_english_at_16_khz() {
    let c = SttConfig::default();
    assert_eq!(c.language, "en");
    assert_eq!(c.sample_rate, 16000);
}

#[test]
fn local_provider_is_routed_locally() {
    assert_eq!(route(SttProvider::Vosk, Some("m".into()), Some("u".into()), 45), Route::Local);
}

#[test]
fn cloud_providers_have_their_client_key_model_and_endpoint() {
    let cloud = |engine, key_name, model: Option<&str>, base_url: Option<&str>, endpoint_required| {
        Route::Cloud(CloudRoute {
            engine,
            key_name,
            model: model.map(String::from),
            base_url: base_url.map(String::from),
            endpoint_required,
            timeout_secs: 180,
        })
    };
    let m = || Some("m".to_string());
    let u = || Some("https://u".to_string());
    assert_eq!(
        route(SttProvider::ElevenLabs, m(), u(), 999),
        cloud(EngineKind::ElevenLabs, "elevenlabs", Some("m"), None, false)
    );
    assert_eq!(
        route(SttProvider::OpenAI, None, u(), 999),
        cloud(EngineKind::OpenAiWhisper, "openai", None, Some("https://u"), false)
    );
    assert_eq!(
        route(SttProvider::OpenAITranscribe, None, None, 999),
        cloud(EngineKind::OpenAiWhisper, "openai", Some("gpt-4o-mini-transcribe"), None, false)
    );
    assert_eq!(
        route(SttProvider::OpenAITranscribe, m(), None, 999),
        cloud(EngineKind::OpenAiWhisper, "openai", Some("m"), None, false)
    );
    assert_eq!(
        route(SttProvider::OpenRouter, m(), u(), 999),
        cloud(EngineKind::OpenRouterAudio, "openrouter", Some("m"), Some("https://u"), false)
    );
    assert_eq!(
        route(SttProvider::CustomOpenAiCompatible, m(), None, 999),
        cloud(EngineKind::OpenRouterAudio, "custom_openai_compatible", Some("m"), None, true)
    );
    assert_eq!(
        route(SttProvider::Mistral, None, u(), 999),
        cloud(EngineKind::Mistral, "mistral", None, None, false)
    );
}

#[test]
fn missing_key_and_endpoint_are_errors() {
    assert_eq!(require_key("openai", Some("k-123".into())), Ok("k-123".to_string()));
    assert_eq!(
        require_key("openai", None),
        Err(AppError::Stt("No API key configured for openai".into()))
    );
    assert_eq!(require_endpoint(Some("https://u".into())), Ok("https://u".to_string()));
    assert_eq!(
        require_endpoint(None),
        Err(AppError::Stt("Custom provider requires OpenAI-compatible endpoint.".into()))
    );
    assert_eq!(
        timeout_error(),
        AppError::Stt("Cloud STT timeout. Check internet and try again.".into())
    );
    assert_eq!(
        model_missing_notice().message.as_deref(),
        Some("Vosk model not loaded. Please download and load a model in Settings.")
    );
    assert_eq!(model_missing_error(), AppError::Stt("No Vosk model loaded".into()));
}

#[test]
fn traditional_chinese_tags_ask_for_conversion() {
    for tag in ["zh-tw", "zh-TW", "ZH_TW", "zh-Hant", "zh-hant"] {
        assert!(needs_s2t_conversion(tag), "{tag}");
    }
    for tag in ["zh", "zh-cn", "en", "", "zh-tw ", "zh-hant-tw"] {
        assert!(!needs_s2t_conversion(tag), "{tag}");
    }
}

#[test]
fn simplified_becomes_traditional() {
    let converted = simplified_to_traditional("开放中文转换是完全由 Rust 实现的。");
    assert_eq!(converted, "開放中文轉換是完全由 Rust 實現的。");
    assert_eq!(simplified_to_traditional("plain ascii"), "plain ascii");
    assert_eq!(simplified_to_traditional(""), "");
}

#[test]
fn transcript_is_converted_only_for_traditional_chinese() {
    assert_eq!(post_process("汉语".into(), "zh-TW"), "漢語");
    assert_eq!(post_process("汉语".into(), "zh-CN"), "汉语");
    assert_eq!(post_process("汉语".into(), "en"), "汉语");
}

#[test]
fn text_is_kept_where_there_is_no_conversion() {
    assert_eq!(converted_or_given("汉语", None), "汉语");
    assert_eq!(converted_or_given("汉语", Some("漢語".into())), "漢語");
}

#[test]
fn clients_fall_back_to_their_default_models() {
    let e = ElevenLabsEngine::new("k".into(), None);
    assert_eq!((e.api_key.as_str(), e.model.as_str()), ("k", "scribe_v2"));
    assert_eq!(ElevenLabsEngine::new("k".into(), Some("x".into())).model, "x");
    assert_eq!(e.provider_name(), "ElevenLabs Scribe");
    let m = MistralEngine::new("k".into(), None);
    assert_eq!(m.model, "mistral-vox-latest");
    assert_eq!(m.provider_name(), "Mistral Vox");
    let w = OpenAiWhisperEngine::new("k".into(), None, None);
    assert_eq!(w.model, "whisper-1");
    assert_eq!(w.base_url, "https://api.openai.com/v1");
    assert_eq!(w.transcription_url(), "https://api.openai.com/v1/audio/transcriptions");
    assert_eq!(w.provider_name(), "OpenAI Whisper");
}

#[test]
fn endpoints_lose_blanks_and_trailing_slashes() {
    let w = OpenAiWhisperEngine::new("k".into(), Some("m".into()), Some("  https://h/v1//  ".into()));
    assert_eq!(w.base_url, "https://h/v1");
    assert_eq!(w.model, "m");
    let blank = OpenAiWhisperEngine::new("k".into(), None, Some("   ".into()));
    assert_eq!(blank.base_url, "https://api.openai.com/v1");
    let slashes = OpenAiWhisperEngine::new("k".into(), None, Some(" /// ".into()));
    assert_eq!(slashes.base_url, "https://api.openai.com/v1");
}

#[test]
fn whisper_prompt_follows_the_language() {
    assert_eq!(
        OpenAiWhisperEngine::build_prompt("ZH-TW").as_deref(),
        Some("請輸出臺灣繁體中文逐字稿，只回傳辨識文字。")
    );
    assert_eq!(
        OpenAiWhisperEngine::build_prompt("zh").as_deref(),
        Some("請輸出臺灣繁體中文逐字稿，只回傳辨識文字。")
    );
    assert_eq!(
        OpenAiWhisperEngine::build_prompt("ja-JP").as_deref(),
        Some("日本語で文字起こしし、認識結果のみ返してください。")
    );
    assert_eq!(
        OpenAiWhisperEngine::build_prompt("EN").as_deref(),
        Some("Transcribe in English and return transcript text only.")
    );
    assert_eq!(OpenAiWhisperEngine::build_prompt("zh-cn"), None);
    assert_eq!(OpenAiWhisperEngine::build_prompt("de"), None);
}

#[test]
fn openrouter_client_resolves_short_model_names_at_openrouter_only() {
    let d = OpenRouterAudioEngine::new("k".into(), None, None);
    assert_eq!(d.base_url, "https://openrouter.ai/api/v1");
    assert_eq!(d.model, "google/gemini-3-flash-preview");
    assert!(d.names_application());
    assert_eq!(d.chat_url(), "https://openrouter.ai/api/v1/chat/completions");
    assert_eq!(d.provider_name(), "OpenRouter Audio (Experimental)");
    let short = OpenRouterAudioEngine::new("k".into(), Some(" gemini-3-flash ".into()), None);
    assert_eq!(short.model, "google/gemini-3-flash-preview");
    let elsewhere = OpenRouterAudioEngine::new(
        "k".into(),
        Some("gemini-3-flash-preview".into()),
        Some("https://litellm.local/v1/".into()),
    );
    assert_eq!(elsewhere.model, "gemini-3-flash-preview");
    assert_eq!(elsewhere.base_url, "https://litellm.local/v1");
    assert!(!elsewhere.names_application());
    let other = OpenRouterAudioEngine::new("k".into(), Some(" my-model\n".into()), None);
    assert_eq!(other.model, "my-model");
}

#[test]
fn chat_prompt_follows_the_language() {
    assert_eq!(
        OpenRouterAudioEngine::transcription_prompt("Zh-TW"),
        "請直接輸出「臺灣繁體中文」逐字稿，不要解釋，不要額外標點修飾。"
    );
    assert_eq!(
        OpenRouterAudioEngine::transcription_prompt("ZH"),
        "請直接輸出「臺灣繁體中文」逐字稿，不要解釋，不要額外標點修飾。"
    );
    assert_eq!(
        OpenRouterAudioEngine::transcription_prompt("zh-cn"),
        "Return plain transcript text only. No explanation."
    );
}

#[test]
fn audio_is_sent_in_base64() {
    assert_eq!(OpenRouterAudioEngine::audio_payload(b"hello world~"), "aGVsbG8gd29ybGR+");
    assert_eq!(OpenRouterAudioEngine::audio_payload(&[]), "");
    assert_eq!(OpenRouterAudioEngine::audio_payload(&[0xff]), "/w==");
    assert_eq!(OpenRouterAudioEngine::audio_payload(&[0xff, 0xfe]), "//4=");
    assert_eq!(OpenRouterAudioEngine::try_audio_payload(b"Man").as_deref(), Some("TWFu"));
}

#[test]
fn provider_errors_quote_status_and_body() {
    assert_eq!(
        api_error("OpenRouter", "429 Too Many Requests", "slow down"),
        AppError::Stt("OpenRouter API error (429 Too Many Requests): slow down".into())
    );
    assert_eq!(
        request_failed_error("Mistral", "dns"),
        AppError::Stt("Mistral request failed: dns".into())
    );
    assert_eq!(
        direct_custom_error("k"),
        AppError::Stt(
            "Custom OpenAI-compatible STT requires endpoint in current recording pipeline. Provider key exists: true"
                .into()
        )
    );
    assert_eq!(
        direct_custom_error(""),
        AppError::Stt(
            "Custom OpenAI-compatible STT requires endpoint in current recording pipeline. Provider key exists: false"
                .into()
        )
    );
}

#[test]
fn model_is_loaded_and_let_go() {
    let mut v: VoskManager<u32> = VoskManager::new();
    assert!(!v.is_loaded());
    assert_eq!(v.status(), VoskModelStatus { loaded: false, model_id: None, model_path: None });
    assert_eq!(v.loaded_model(), Err(AppError::Stt("No Vosk model loaded".into())));
    v.load_model("vosk-model-small-en", "/models/en", 42);
    assert!(v.is_loaded());
    assert_eq!(v.loaded_model(), Ok(&42));
    assert_eq!(
        v.status(),
        VoskModelStatus {
            loaded: true,
            model_id: Some("vosk-model-small-en".into()),
            model_path: Some("/models/en".into())
        }
    );
    assert_eq!(v.unload_model(), Some(42));
    assert_eq!(v.status(), VoskModelStatus { loaded: false, model_id: None, model_path: None });
    assert_eq!(v.unload_model(), None);
    assert_eq!(
        model_dir_missing_error("/x"),
        AppError::Stt("Model directory does not exist: /x".into())
    );
    assert_eq!(
        model_not_downloaded_error("m"),
        AppError::Stt("Model not downloaded: m. Download it first.".into())
    );
}

#[test]
fn audio_is_fed_in_runs_of_4000() {
    assert_eq!(feed_plan(0), vec![]);
    assert_eq!(feed_plan(1), vec![(0, 1)]);
    assert_eq!(feed_plan(4000), vec![(0, 4000)]);
    assert_eq!(feed_plan(4001), vec![(0, 4000), (4000, 4001)]);
    assert_eq!(feed_plan(10_000), vec![(0, 4000), (4000, 8000), (8000, 10_000)]);
}

#[test]
fn transcript_is_the_single_result_or_the_first_alternative() {
    assert_eq!(pick_transcript(Some("a".into()), Some(vec!["b".into()])), "a");
    assert_eq!(pick_transcript(None, Some(vec!["b".into(), "c".into()])), "b");
    assert_eq!(pick_transcript(None, Some(vec![])), "");
    assert_eq!(pick_transcript(None, None), "");
}

#[test]
fn startup_model_fits_the_language_if_one_does() {
    let on_disk: Vec<String> =
        vec!["vosk-model-small-en-us".into(), "vosk-model-small-cn".into(), "vosk-model-ja".into()];
    assert_eq!(auto_load_vosk_model(&on_disk, "zh"), Some(1));
    assert_eq!(auto_load_vosk_model(&on_disk, "ja"), Some(2));
    assert_eq!(auto_load_vosk_model(&on_disk, "en"), Some(0));
    assert_eq!(auto_load_vosk_model(&on_disk, "fr"), Some(0));
    assert_eq!(auto_load_vosk_model(&on_disk, "ko"), Some(0));
    assert_eq!(auto_load_vosk_model(&Vec::new(), "en"), None);
}
