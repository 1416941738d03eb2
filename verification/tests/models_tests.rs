use dictation_core::models::{parse_model_id, LocalWhisperConfig, WhisperModel};
use dictation_core::output::{keystroke_for, output_text_with_mode, Keystroke, OutputMode, OutputStep};
use dictation_core::providers::{
    create_llm_provider, select_llm_provider, select_stt_provider, LlmConfig, LlmProviderKind,
    SttProviderKind,
};
use dictation_core::recordings::RecordingStore;
use dictation_core::request_log::{logs_to_show, store_is_full, LogLevel, RequestStatus};

#[test]
fn test_model_filenames() {
    assert_eq!(WhisperModel::Tiny.filename(), "ggml-tiny.bin");
    assert_eq!(WhisperModel::BaseEn.filename(), "ggml-base.en.bin");
    assert_eq!(WhisperModel::LargeV3.filename(), "ggml-large-v3.bin");
}

#[test]
fn test_model_urls() {
    let url = WhisperModel::Base.download_url();
    assert!(url.contains("huggingface.co"));
    assert!(url.contains("ggml-base.bin"));
}

#[test]
fn test_english_only_models() {
    assert!(WhisperModel::TinyEn.is_english_only());
    assert!(WhisperModel::BaseEn.is_english_only());
    assert!(!WhisperModel::Tiny.is_english_only());
    assert!(!WhisperModel::LargeV3.is_english_only());
}

#[test]
fn test_all_models() {
    let models = WhisperModel::all();
    assert!(models.len() >= 10);
}

#[test]
fn model_catalogue_values() {
    let models = WhisperModel::all();
    assert_eq!(models.len(), 12);
    assert_eq!(models[0], WhisperModel::Tiny);
    assert_eq!(models[11], WhisperModel::LargeV3Turbo);
    assert_eq!(WhisperModel::default(), WhisperModel::Base);
    assert_eq!(
        WhisperModel::LargeV3Turbo.download_url(),
        "https://huggingface.co/ggerganov/whisper.cpp/resolve/main/ggml-large-v3-turbo.bin"
    );
    assert_eq!(WhisperModel::Tiny.size_bytes(), 75_000_000);
    assert_eq!(WhisperModel::BaseEn.size_bytes(), 142_000_000);
    assert_eq!(WhisperModel::Small.size_bytes(), 466_000_000);
    assert_eq!(WhisperModel::MediumEn.size_bytes(), 1_500_000_000);
    assert_eq!(WhisperModel::LargeV2.size_bytes(), 2_900_000_000);
    assert_eq!(WhisperModel::LargeV3Turbo.size_bytes(), 1_600_000_000);
    assert_eq!(WhisperModel::MediumEn.display_name(), "Medium English (1.5GB)");
    assert_eq!(WhisperModel::LargeV1.display_name(), "Large v1 (2.9GB)");
    assert_eq!(models.iter().filter(|m| m.is_english_only()).count(), 4);
    let config = LocalWhisperConfig::default();
    assert_eq!(config.language.as_deref(), Some("en"));
    assert!(config.model_path.is_empty() && !config.translate && config.n_threads == 0);
}

#[test]
fn model_ids_are_read_ignoring_case() {
    assert_eq!(parse_model_id("tiny").ok(), Some(WhisperModel::Tiny));
    assert_eq!(parse_model_id("Tiny-En").ok(), Some(WhisperModel::TinyEn));
    assert_eq!(parse_model_id("BASE_EN").ok(), Some(WhisperModel::BaseEn));
    assert_eq!(parse_model_id("smallen").ok(), Some(WhisperModel::SmallEn));
    assert_eq!(parse_model_id("Medium").ok(), Some(WhisperModel::Medium));
    assert_eq!(parse_model_id("large-v1").ok(), Some(WhisperModel::LargeV1));
    assert_eq!(parse_model_id("LargeV2").ok(), Some(WhisperModel::LargeV2));
    assert_eq!(parse_model_id("large_v3").ok(), Some(WhisperModel::LargeV3));
    assert_eq!(parse_model_id("large-v3-turbo").ok(), Some(WhisperModel::LargeV3Turbo));
    let unknown = parse_model_id("Huge").expect_err("unknown id");
    assert_eq!(unknown.message, "Unknown model: Huge");
    assert!(parse_model_id("").is_err());
    assert!(parse_model_id("large-v3_turbo").is_err());
}

#[test]
fn output_modes_and_their_steps() {
    assert_eq!(OutputMode::from_str("paste"), OutputMode::Paste);
    assert_eq!(OutputMode::from_str("paste_and_clipboard"), OutputMode::PasteAndClipboard);
    assert_eq!(OutputMode::from_str("clipboard"), OutputMode::Clipboard);
    assert_eq!(OutputMode::from_str("keystrokes"), OutputMode::Keystrokes);
    assert_eq!(
        OutputMode::from_str("keystrokes_and_clipboard"),
        OutputMode::KeystrokesAndClipboard
    );
    assert_eq!(OutputMode::from_str("auto_paste"), OutputMode::Paste);
    assert_eq!(OutputMode::from_str("Clipboard"), OutputMode::Paste);
    assert_eq!(OutputMode::from_str(""), OutputMode::Paste);
    assert_eq!(OutputMode::default(), OutputMode::Paste);

    assert_eq!(output_text_with_mode(OutputMode::Paste), vec![OutputStep::PasteRestoringClipboard]);
    assert_eq!(
        output_text_with_mode(OutputMode::PasteAndClipboard),
        vec![OutputStep::PasteKeepingClipboard]
    );
    assert_eq!(output_text_with_mode(OutputMode::Clipboard), vec![OutputStep::CopyToClipboard]);
    assert_eq!(output_text_with_mode(OutputMode::Keystrokes), vec![OutputStep::TypeKeystrokes]);
    assert_eq!(
        output_text_with_mode(OutputMode::KeystrokesAndClipboard),
        vec![OutputStep::CopyToClipboard, OutputStep::TypeKeystrokes]
    );
    assert_eq!(keystroke_for('\n'), Keystroke::Return);
    assert_eq!(keystroke_for('\t'), Keystroke::Tab);
    assert_eq!(keystroke_for('v'), Keystroke::Unicode('v'));
}

#[test]
fn provider_selection() {
    assert_eq!(select_stt_provider("openai", "k", false), Some(SttProviderKind::OpenAi));
    assert_eq!(select_stt_provider("groq", "k", false), Some(SttProviderKind::Groq));
    assert_eq!(select_stt_provider("deepgram", "k", true), Some(SttProviderKind::Deepgram));
    assert_eq!(select_stt_provider("groq", "", true), None);
    assert_eq!(select_stt_provider("local-whisper", "", true), Some(SttProviderKind::LocalWhisper));
    assert_eq!(select_stt_provider("local-whisper", "k", false), None);
    assert_eq!(select_stt_provider("Groq", "k", false), None);
    assert_eq!(SttProviderKind::LocalWhisper.name(), "local-whisper");

    let disabled = LlmConfig { api_key: "k".to_string(), ..Default::default() };
    assert!(select_llm_provider(&disabled).is_none());
    let no_key = LlmConfig { enabled: true, ..Default::default() };
    assert!(select_llm_provider(&no_key).is_none());
    let ollama = LlmConfig { enabled: true, provider: "ollama".to_string(), ..Default::default() };
    let setup = select_llm_provider(&ollama).expect("ollama needs no key");
    assert_eq!(setup.kind, LlmProviderKind::Ollama);
    assert_eq!(setup.base_url.as_deref(), Some("http://localhost:11434"));
    assert_eq!(setup.timeout_ms, 30_000);
    let custom = LlmConfig {
        provider: "ollama".to_string(),
        ollama_url: Some("http://custom:11434".to_string()),
        model: Some("phi3".to_string()),
        ..Default::default()
    };
    let setup = create_llm_provider(&custom);
    assert_eq!(setup.base_url.as_deref(), Some("http://custom:11434"));
    assert_eq!(setup.model.as_deref(), Some("phi3"));
    let anthropic = LlmConfig {
        enabled: true,
        provider: "anthropic".to_string(),
        api_key: "k".to_string(),
        timeout_ms: 5,
        ..Default::default()
    };
    let setup = select_llm_provider(&anthropic).expect("anthropic");
    assert_eq!(setup.kind, LlmProviderKind::Anthropic);
    assert_eq!(setup.api_key, "k");
    assert_eq!(setup.base_url, None);
    assert_eq!(setup.timeout_ms, 5);
    let other = LlmConfig { provider: "mystery".to_string(), ..Default::default() };
    assert_eq!(create_llm_provider(&other).kind, LlmProviderKind::OpenAi);
    assert_eq!(setup.duplicate().api_key, "k");
}

#[test]
fn request_ids_and_log_order() {
    assert!(RecordingStore::is_safe_request_id("3f2a-AZ_09"));
    assert!(!RecordingStore::is_safe_request_id(""));
    assert!(!RecordingStore::is_safe_request_id("   "));
    assert!(!RecordingStore::is_safe_request_id("../etc"));
    assert!(!RecordingStore::is_safe_request_id("a b"));
    assert!(!RecordingStore::is_safe_request_id("a.wav"));
    assert!(!RecordingStore::is_safe_request_id("caf\u{e9}"));
    assert_eq!(RecordingStore::file_name_for_id("abc"), "abc.wav");
    let store = RecordingStore::new("/data/recordings".to_string());
    assert_eq!(store.directory(), "/data/recordings");
    assert_eq!(store.wav_path_if_exists("abc", true), Ok(Some("abc.wav".to_string())));
    assert_eq!(store.wav_path_if_exists("abc", false), Ok(None));
    assert_eq!(store.wav_path_if_exists("../abc", true), Err("Invalid request id".to_string()));
    assert_eq!(store.wav_path_if_exists("", false), Err("Invalid request id".to_string()));
    assert!(store.has(true, false) && store.has(false, true) && store.has(true, true));
    assert!(!store.has(false, false));

    assert_eq!(logs_to_show(3, None), vec![2, 1, 0]);
    assert_eq!(logs_to_show(3, Some(2)), vec![2, 1]);
    assert_eq!(logs_to_show(3, Some(9)), vec![2, 1, 0]);
    assert_eq!(logs_to_show(0, Some(9)), Vec::<usize>::new());
    assert_eq!(logs_to_show(5, Some(0)), Vec::<usize>::new());
    assert!(!store_is_full(99));
    assert!(store_is_full(100));
    assert_ne!(LogLevel::Info, LogLevel::Debug);
    assert_ne!(RequestStatus::InProgress, RequestStatus::Cancelled);
}
