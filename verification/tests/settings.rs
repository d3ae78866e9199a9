use voxlore::error::AppError;
use voxlore::health::{
    api_error_text, check_openai_compatible_chat, check_provider_health, check_stt_provider,
    health_plan, network_error_text, HealthPlan, KeyHeader, Probe, ProviderHealth,
};
use voxlore::permissions::{
    accessibility_word, check_accessibility, check_microphone, check_permissions,
    microphone_decision, microphone_denied_error, microphone_denied_notice,
    microphone_refused_error, microphone_status, open_microphone_settings, request_accessibility,
    request_microphone, request_microphone_access, request_opens_settings, MicrophoneAccess,
    MicrophoneDecision,
};
use voxlore::providers::{
    content_or, normalize_compat_model, normalize_endpoint, request_id_headers,
    response_request_id,
};
use voxlore::recording::slot::Phase;
use voxlore::security::keystore::{KeyStore, SecretChange, SecretRead, SERVICE_NAME};
use voxlore::settings::{
    get_app_info, greet, normalize_endpoint_setting, normalize_model_setting, AppState, Settings,
    SettingsUpdate,
};
use voxlore::text::{join, to_decimal};

fn no_update() -> SettingsUpdate {
    SettingsUpdate {
        widget_position: None,
        floating_window_enabled: None,
        stt_language: None,
        stt_provider: None,
        stt_model: None,
        stt_base_url: None,
        cloud_timeout_secs: None,
        debug_logging_enabled: None,
    }
}

#[test]
fn initial_settings() {
    let s = Settings::default();
    assert_eq!(
        s,
        Settings {
            widget_position: "bottom-right".into(),
            floating_window_enabled: false,
            stt_language: "en".into(),
            stt_provider: "vosk".into(),
            stt_model: None,
            stt_base_url: None,
            cloud_timeout_secs: 45,
            debug_logging_enabled: true,
        }
    );
}

#[test]
fn an_empty_update_changes_nothing() {
    let mut s = Settings::default();
    s.stt_model = Some("m".into());
    let before = s.clone();
    s.sync_settings(no_update());
    assert_eq!(s, before);
}

#[test]
fn update_is_brought_into_form() {
    let mut s = Settings::default();
    s.sync_settings(SettingsUpdate {
        widget_position: Some("top-left".into()),
        floating_window_enabled: Some(true),
        stt_language: Some("zh-TW".into()),
        stt_provider: Some("openai".into()),
        stt_model: Some("  whisper-1 ".into()),
        stt_base_url: Some(" https://h/v1// ".into()),
        cloud_timeout_secs: Some(1000),
        debug_logging_enabled: Some(false),
    });
    assert_eq!(
        s,
        Settings {
            widget_position: "top-left".into(),
            floating_window_enabled: true,
            stt_language: "zh-TW".into(),
            stt_provider: "openai".into(),
            stt_model: Some("whisper-1".into()),
            stt_base_url: Some("https://h/v1".into()),
            cloud_timeout_secs: 180,
            debug_logging_enabled: false,
        }
    );
    let mut u = no_update();
    u.stt_model = Some("   ".into());
    u.stt_base_url = Some("".into());
    u.cloud_timeout_secs = Some(1);
    s.sync_settings(u);
    assert_eq!(s.stt_model, None);
    assert_eq!(s.stt_base_url, None);
    assert_eq!(s.cloud_timeout_secs, 5);
    assert_eq!(s.stt_provider, "openai");
}

#[test]
fn kept_forms() {
    assert_eq!(normalize_model_setting(" m "), Some("m".to_string()));
    assert_eq!(normalize_model_setting("\t\n"), None);
    assert_eq!(normalize_endpoint_setting(" https://h/ "), Some("https://h".to_string()));
    assert_eq!(normalize_endpoint_setting(" / "), Some(String::new()));
    assert_eq!(normalize_endpoint_setting("  "), None);
}

#[test]
fn application_state_starts_empty() {
    let state: AppState<u8, u8> = AppState::default();
    assert_eq!(state.session.current_phase(), Phase::Idle);
    assert_eq!(state.settings, Settings::default());
    assert_eq!(state.targets.recording_target(), None);
    assert_eq!(state.targets.preview_target(), None);
    assert_eq!(state.preview_text, None);
}

#[test]
fn application_facts() {
    let info = get_app_info("0.1.0");
    assert_eq!(info.name, "Voxlore");
    assert_eq!(info.version, "0.1.0");
    assert_eq!(greet("Ada"), "Hello, Ada! Welcome to Voxlore.");
}

#[test]
fn numbers_in_decimal() {
    assert_eq!(to_decimal(0), "0");
    assert_eq!(to_decimal(7), "7");
    assert_eq!(to_decimal(10), "10");
    assert_eq!(to_decimal(1234567890), "1234567890");
    assert_eq!(to_decimal(u128::MAX), "340282366920938463463374607431768211455");
}

#[test]
fn strings_are_joined() {
    assert_eq!(join(&vec![], ", "), "");
    assert_eq!(join(&vec!["a".to_string()], ", "), "a");
    assert_eq!(join(&vec!["a".to_string(), "".to_string(), "c".to_string()], ", "), "a, , c");
}

#[test]
fn endpoints_in_bare_form() {
    assert_eq!(normalize_endpoint(&None), None);
    assert_eq!(normalize_endpoint(&Some(" https://h/v1/ ".into())), Some("https://h/v1".to_string()));
    assert_eq!(normalize_endpoint(&Some(" // ".into())), None);
    assert_eq!(normalize_endpoint(&Some("".into())), None);
}

#[test]
fn model_names_for_compatible_endpoints() {
    let n = |provider: &str, base: &str, model: Option<&str>, default: &str| {
        normalize_compat_model(provider, base, model.map(String::from), default)
    };
    assert_eq!(n("openrouter", "https://openrouter.ai/api/v1", None, "gemini-3-flash"), "google/gemini-3-flash-preview");
    assert_eq!(n("openrouter", "https://openrouter.ai/api/v1", Some(" gemini-3-flash-preview "), "x"), "google/gemini-3-flash-preview");
    assert_eq!(n("openrouter", "https://elsewhere/v1", Some("gemini-3-flash-preview"), "x"), "gemini-3-flash");
    assert_eq!(n("openai", "https://openrouter.ai/api/v1", Some("gemini-3-flash"), "x"), "gemini-3-flash");
    assert_eq!(n("groq", "https://api.groq.com/openai/v1", Some("  "), "llama-3.1-8b-instant"), "llama-3.1-8b-instant");
    assert_eq!(n("groq", "https://api.groq.com/openai/v1", Some(" mine "), "d"), "mine");
}

#[test]
fn request_id_is_the_first_header_that_is_filled() {
    assert_eq!(request_id_headers(), vec!["x-request-id", "request-id", "x-correlation-id", "trace-id"]);
    assert_eq!(response_request_id(&vec![None, None, None, None]), "n/a");
    assert_eq!(response_request_id(&vec![]), "n/a");
    assert_eq!(
        response_request_id(&vec![Some("  ".into()), None, Some(" abc ".into()), Some("d".into())]),
        " abc "
    );
    assert_eq!(response_request_id(&vec![Some("r1".into()), Some("r2".into())]), "r1");
}

#[test]
fn reply_content_is_trimmed() {
    assert_eq!(content_or(Some("  fixed text \n".into()), "orig"), "fixed text");
    assert_eq!(content_or(None, " orig "), "orig");
    assert_eq!(content_or(None, ""), "");
}

#[test]
fn health_plans() {
    assert_eq!(health_plan("vosk"), HealthPlan::LocalReady);
    assert_eq!(health_plan("ollama"), HealthPlan::LocalService("http://127.0.0.1:11434/api/tags"));
    assert_eq!(health_plan("lmstudio"), HealthPlan::LocalService("http://127.0.0.1:1234/v1/models"));
    assert_eq!(health_plan("openai_transcribe"), HealthPlan::Cloud("openai".into()));
    assert_eq!(health_plan("mistral"), HealthPlan::Cloud("mistral".into()));
}

#[test]
fn health_outcomes() {
    assert_eq!(
        ProviderHealth::local_ready(),
        ProviderHealth { ok: true, has_key: true, latency_ms: None, status: "Local provider ready".into() }
    );
    assert_eq!(
        ProviderHealth::missing_key("openai"),
        ProviderHealth { ok: false, has_key: false, latency_ms: None, status: "Missing API key for openai".into() }
    );
    assert_eq!(
        check_provider_health(321, Ok(())),
        ProviderHealth { ok: true, has_key: true, latency_ms: Some(321), status: "OK (321 ms)".into() }
    );
    assert_eq!(
        check_provider_health(12, Err("OpenAI API error: HTTP 401 Unauthorized".into())),
        ProviderHealth {
            ok: false,
            has_key: true,
            latency_ms: Some(12),
            status: "OpenAI API error: HTTP 401 Unauthorized".into()
        }
    );
    assert_eq!(ProviderHealth::local_service_ready(5).status, "Local service ready (5 ms)");
    assert_eq!(
        ProviderHealth::local_service_error(5, "500 Internal Server Error").status,
        "Local service error: HTTP 500 Internal Server Error"
    );
    assert!(!ProviderHealth::local_service_error(5, "500").ok);
    assert_eq!(
        ProviderHealth::local_service_unavailable(6000, "connection refused").status,
        "Local service unavailable: connection refused"
    );
    assert_eq!(network_error_text("Mistral", "dns"), "Mistral network error: dns");
    assert_eq!(api_error_text("groq", "404 Not Found"), "groq API error: HTTP 404 Not Found");
}

#[test]
fn transcription_probes() {
    let get = |url, header, label| Ok(Probe::Get { url, header, label });
    assert_eq!(check_stt_provider("openai", None, None), get("https://api.openai.com/v1/models", KeyHeader::Bearer, "OpenAI"));
    assert_eq!(check_stt_provider("openai_transcribe", None, Some("  ".into())), get("https://api.openai.com/v1/models", KeyHeader::Bearer, "OpenAI"));
    assert_eq!(check_stt_provider("openrouter", None, None), get("https://openrouter.ai/api/v1/models", KeyHeader::Bearer, "OpenRouter"));
    assert_eq!(check_stt_provider("elevenlabs", None, None), get("https://api.elevenlabs.io/v1/user", KeyHeader::XiApiKey, "ElevenLabs"));
    assert_eq!(check_stt_provider("mistral", None, None), get("https://api.mistral.ai/v1/models", KeyHeader::Bearer, "Mistral"));
    assert_eq!(
        check_stt_provider("custom_openai_compatible", None, None),
        Err("Custom OpenAI-compatible provider requires endpoint configuration".to_string())
    );
    assert_eq!(check_stt_provider("vosk2", None, None), Err("Unsupported STT provider: vosk2".to_string()));
    assert_eq!(
        check_stt_provider("custom_openai_compatible", None, Some("https://h/v1/".into())),
        Ok(Probe::Chat {
            base_url: "https://h/v1".into(),
            model: "gemini-3-flash".into(),
            label: "OpenAI-compatible STT endpoint".into()
        })
    );
    assert_eq!(
        check_stt_provider("openrouter", Some("gemini-3-flash".into()), Some("https://openrouter.ai/api/v1".into())),
        Ok(Probe::Chat {
            base_url: "https://openrouter.ai/api/v1".into(),
            model: "google/gemini-3-flash-preview".into(),
            label: "OpenAI-compatible STT endpoint".into()
        })
    );
}

#[test]
fn enhancement_probes() {
    let chat = |base: &str, model: &str, label: &str| {
        Ok(Probe::Chat { base_url: base.into(), model: model.into(), label: label.into() })
    };
    assert_eq!(check_openai_compatible_chat("openrouter", None, None), chat("https://openrouter.ai/api/v1", "google/gemini-3-flash-preview", "openrouter"));
    assert_eq!(check_openai_compatible_chat("together", None, None), chat("https://api.together.xyz/v1", "meta-llama/Meta-Llama-3.1-8B-Instruct-Turbo", "together"));
    assert_eq!(check_openai_compatible_chat("groq", Some(" m ".into()), None), chat("https://api.groq.com/openai/v1", "m", "groq"));
    assert_eq!(check_openai_compatible_chat("openai", None, None), chat("https://api.openai.com/v1", "gpt-4o-mini", "openai"));
    assert_eq!(check_openai_compatible_chat("deepseek", None, Some("https://api.deepseek.com/v1/".into())), chat("https://api.deepseek.com/v1", "gemini-3-flash", "deepseek"));
    assert_eq!(
        check_openai_compatible_chat("deepseek", None, None),
        Err("Unsupported enhancement provider: deepseek".to_string())
    );
    assert_eq!(
        check_openai_compatible_chat("custom_openai_compatible", None, Some(" ".into())),
        Err("Custom OpenAI-compatible provider requires endpoint configuration".to_string())
    );
}

#[test]
fn secret_store_outcomes() {
    let k = KeyStore::new();
    assert_eq!(SERVICE_NAME, "app.voxlore");
    assert_eq!(k.service_name(), "app.voxlore");
    assert_eq!(k.entry_error("bad"), AppError::Security("Keyring entry error: bad".into()));
    assert_eq!(k.get_result("openai", SecretRead::Found("s".into())), Ok(Some("s".to_string())));
    assert_eq!(k.get_result("openai", SecretRead::NoEntry), Ok(None));
    assert_eq!(
        k.get_result("openai", SecretRead::Failed("locked".into())),
        Err(AppError::Security("Failed to get key for openai: locked".into()))
    );
    assert_eq!(k.has_result("openai", SecretRead::Found("s".into())), Ok(true));
    assert_eq!(k.has_result("openai", SecretRead::NoEntry), Ok(false));
    assert_eq!(
        k.has_result("openai", SecretRead::Failed("locked".into())),
        Err(AppError::Security("Failed to check key for openai: locked".into()))
    );
    assert_eq!(k.delete_result("openai", SecretChange::Done), Ok(()));
    assert_eq!(k.delete_result("openai", SecretChange::NoEntry), Ok(()));
    assert_eq!(
        k.delete_result("openai", SecretChange::Failed("locked".into())),
        Err(AppError::Security("Failed to delete key for openai: locked".into()))
    );
    assert_eq!(k.save_result("openai", Ok(())), Ok(()));
    assert_eq!(
        k.save_result("openai", Err("locked".into())),
        Err(AppError::Security("Failed to save key for openai: locked".into()))
    );
}

#[test]
fn microphone_words_and_decisions() {
    let words = ["not_determined", "restricted", "denied", "granted"];
    for (code, word) in words.iter().enumerate() {
        assert_eq!(MicrophoneAccess::from_code(code as i64).word(), *word);
    }
    assert_eq!(MicrophoneAccess::from_code(4), MicrophoneAccess::Unknown);
    assert_eq!(MicrophoneAccess::from_code(-1).word(), "unknown");
    assert_eq!(microphone_decision("granted"), MicrophoneDecision::Proceed);
    assert_eq!(microphone_decision("not_determined"), MicrophoneDecision::Ask);
    for refused in ["denied", "restricted", "unknown", ""] {
        assert_eq!(microphone_decision(refused), MicrophoneDecision::Refuse);
    }
    assert!(request_opens_settings("denied"));
    assert!(request_opens_settings("restricted"));
    assert!(!request_opens_settings("not_determined"));
    assert!(!request_opens_settings("granted"));
    assert_eq!(accessibility_word(true, true), "granted");
    assert_eq!(accessibility_word(true, false), "denied");
    assert_eq!(accessibility_word(false, true), "denied");
}

#[test]
fn microphone_refusals() {
    assert_eq!(
        microphone_denied_notice().message.as_deref(),
        Some("Microphone access denied. Please grant permission in System Settings > Privacy > Microphone.")
    );
    assert_eq!(microphone_denied_error(), AppError::Audio("Microphone access denied".into()));
    assert_eq!(
        microphone_refused_error("denied"),
        AppError::Audio("Microphone permission denied. Open System Settings > Privacy > Microphone.".into())
    );
}

#[test]
fn platform_without_permissions_grants_everything() {
    assert_eq!(check_microphone(), "granted");
    assert_eq!(check_accessibility(), "granted");
    assert_eq!(microphone_status(), "granted");
    assert!(request_microphone());
    assert!(request_microphone_access());
    request_accessibility();
    open_microphone_settings();
    let p = check_permissions();
    assert_eq!((p.microphone.as_str(), p.accessibility.as_str()), ("granted", "granted"));
}
