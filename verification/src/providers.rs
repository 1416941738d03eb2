//! Provider selection: which transcription and rewrite services a
//! configuration asks for. The services themselves live outside the library.

use vstd::prelude::*;
use vstd::string::StringExecFns;
use crate::prompts::{default_sections, PromptSections};
use crate::text::{contains, starts_with, str_contains, str_eq, str_starts_with};

verus! {

/// Default address of a local Ollama daemon.
pub const DEFAULT_OLLAMA_URL: &'static str = "http://localhost:11434";

/// Default timeout of a rewrite request, in milliseconds.
pub const DEFAULT_LLM_TIMEOUT_MS: u64 = 30_000;

/// Errors reported by a rewrite provider.
#[derive(Debug, Clone)]
pub enum LlmError {
    /// The request did not reach the service or the connection broke.
    Network(String),
    /// The request timed out after the given number of milliseconds.
    Timeout(u64),
    /// The service answered with an error.
    Api(String),
    /// The response could not be understood.
    InvalidResponse(String),
    /// No API key is configured for the named provider.
    NoApiKey(String),
}

/// How the audio handed to a transcription provider is encoded.
#[derive(Debug, Clone, Copy, PartialEq, Eq, Structural)]
pub enum AudioEncoding {
    /// A WAV file.
    Wav,
    /// Raw 16-bit PCM samples.
    Pcm16,
}

/// Format descriptor of the audio handed to a transcription provider.
#[derive(Debug, Clone, Copy, PartialEq, Eq, Structural)]
pub struct AudioFormat {
    /// Samples per second.
    pub sample_rate: u32,
    /// Number of channels.
    pub channels: u16,
    /// Encoding of the bytes.
    pub encoding: AudioEncoding,
}

impl Default for AudioFormat {
    /// Mono WAV at 16 kHz.
    fn default() -> (f: Self)
        ensures
            f == (AudioFormat { sample_rate: 16000, channels: 1, encoding: AudioEncoding::Wav }),
    {
        AudioFormat { sample_rate: 16000, channels: 1, encoding: AudioEncoding::Wav }
    }
}

/// The transcription services that can be selected.
#[derive(Debug, Clone, Copy, PartialEq, Eq, Structural)]
pub enum SttProviderKind {
    /// Hosted, chat-completion or multipart upload.
    OpenAi,
    /// Hosted, multipart upload.
    Groq,
    /// Hosted.
    Deepgram,
    /// Local inference.
    LocalWhisper,
}

/// The rewrite services that can be selected.
#[derive(Debug, Clone, Copy, PartialEq, Eq, Structural)]
pub enum LlmProviderKind {
    /// Hosted; the default.
    OpenAi,
    /// Hosted.
    Anthropic,
    /// Local daemon; needs no API key.
    Ollama,
}

/// Configuration of transcript rewriting.
#[derive(Debug, Clone)]
pub struct LlmConfig {
    /// Whether rewriting is enabled.
    pub enabled: bool,
    /// Name of the rewrite provider.
    pub provider: String,
    /// API key for the provider.
    pub api_key: String,
    /// Optional model override.
    pub model: Option<String>,
    /// Address of the Ollama daemon, if not the default.
    pub ollama_url: Option<String>,
    /// Timeout of one rewrite request, in milliseconds.
    pub timeout_ms: u64,
    /// The prompt sections to send.
    pub prompts: PromptSections,
}

/// Whether this is the default rewrite configuration: rewriting disabled,
/// provider `openai` without key or model, default timeout and prompts.
pub open spec fn default_llm_config(c: LlmConfig) -> bool {
    &&& !c.enabled
    &&& c.provider@ == "openai"@
    &&& c.api_key@.len() == 0
    &&& c.model is None
    &&& c.ollama_url is None
    &&& c.timeout_ms == DEFAULT_LLM_TIMEOUT_MS
    &&& default_sections(c.prompts)
}

impl Default for LlmConfig {
    /// Rewriting disabled; provider `openai` with default prompts.
    fn default() -> (c: Self)
        ensures
            default_llm_config(c),
    {
        LlmConfig {
            enabled: false,
            provider: String::from_str("openai"),
            api_key: String::new(),
            model: None,
            ollama_url: None,
            timeout_ms: DEFAULT_LLM_TIMEOUT_MS,
            prompts: PromptSections::default(),
        }
    }
}

/// What is needed to build a rewrite provider.
#[derive(Debug, Clone)]
pub struct LlmProviderSetup {
    /// Which service.
    pub kind: LlmProviderKind,
    /// API key (unused by Ollama).
    pub api_key: String,
    /// Model override, if any.
    pub model: Option<String>,
    /// Address of the daemon; present for Ollama only.
    pub base_url: Option<String>,
    /// Timeout of one request, in milliseconds.
    pub timeout_ms: u64,
}

/// The transcription service a provider name and key select: a hosted
/// service needs its name and a non-empty key; local inference needs a model
/// path instead.
pub open spec fn stt_selection(
    provider: Seq<char>,
    api_key: Seq<char>,
    has_model_path: bool,
) -> Option<SttProviderKind> {
    if provider == "openai"@ && api_key.len() > 0 {
        Some(SttProviderKind::OpenAi)
    } else if provider == "groq"@ && api_key.len() > 0 {
        Some(SttProviderKind::Groq)
    } else if provider == "deepgram"@ && api_key.len() > 0 {
        Some(SttProviderKind::Deepgram)
    } else if provider == "local-whisper"@ && has_model_path {
        Some(SttProviderKind::LocalWhisper)
    } else {
        None
    }
}

/// The rewrite service a provider name selects; unknown names select the
/// default.
pub open spec fn llm_kind(provider: Seq<char>) -> LlmProviderKind {
    if provider == "anthropic"@ {
        LlmProviderKind::Anthropic
    } else if provider == "ollama"@ {
        LlmProviderKind::Ollama
    } else {
        LlmProviderKind::OpenAi
    }
}

/// Whether a configuration asks for a rewrite provider: rewriting enabled
/// and either a key given or the provider one that needs none.
pub open spec fn wants_llm(config: LlmConfig) -> bool {
    config.enabled && (config.api_key@.len() > 0 || config.provider@ == "ollama"@)
}

/// The address of the Ollama daemon: the configured one, else the default.
pub open spec fn ollama_address(config: LlmConfig) -> Seq<char> {
    match config.ollama_url {
        Some(url) => url@,
        None => DEFAULT_OLLAMA_URL@,
    }
}

/// Whether `setup` is what `config` describes.
pub open spec fn setup_matches(config: LlmConfig, setup: LlmProviderSetup) -> bool {
    &&& setup.kind == llm_kind(config.provider@)
    &&& setup.api_key == config.api_key
    &&& setup.model == config.model
    &&& setup.timeout_ms == config.timeout_ms
    &&& match setup.base_url {
        Some(url) => setup.kind == LlmProviderKind::Ollama && url@ == ollama_address(config),
        None => setup.kind != LlmProviderKind::Ollama,
    }
}

impl SttProviderKind {
    /// The provider's name.
    pub fn name(&self) -> (n: &'static str)
        ensures
            n@ == match *self {
                SttProviderKind::OpenAi => "openai"@,
                SttProviderKind::Groq => "groq"@,
                SttProviderKind::Deepgram => "deepgram"@,
                SttProviderKind::LocalWhisper => "local-whisper"@,
            },
    {
        match self {
            SttProviderKind::OpenAi => "openai",
            SttProviderKind::Groq => "groq",
            SttProviderKind::Deepgram => "deepgram",
            SttProviderKind::LocalWhisper => "local-whisper",
        }
    }
}

/// Select the transcription provider for a provider name, its key and
/// whether a local model path is configured.
pub fn select_stt_provider(provider: &str, api_key: &str, has_model_path: bool) -> (kind: Option<
    SttProviderKind,
>)
    ensures
        kind == stt_selection(provider@, api_key@, has_model_path),
{
    let keyed = !api_key.is_empty();
    if str_eq(provider, "openai") && keyed {
        Some(SttProviderKind::OpenAi)
    } else if str_eq(provider, "groq") && keyed {
        Some(SttProviderKind::Groq)
    } else if str_eq(provider, "deepgram") && keyed {
        Some(SttProviderKind::Deepgram)
    } else if str_eq(provider, "local-whisper") && has_model_path {
        Some(SttProviderKind::LocalWhisper)
    } else {
        None
    }
}

/// Copy an optional string.
fn copy_optional(text: &Option<String>) -> (copy: Option<String>)
    ensures
        copy == *text,
{
    match text {
        Some(s) => Some(s.clone()),
        None => None,
    }
}

impl LlmProviderSetup {
    /// An equal copy.
    pub fn duplicate(&self) -> (copy: Self)
        ensures
            copy == *self,
    {
        LlmProviderSetup {
            kind: self.kind,
            api_key: self.api_key.clone(),
            model: copy_optional(&self.model),
            base_url: copy_optional(&self.base_url),
            timeout_ms: self.timeout_ms,
        }
    }
}

/// Describe the rewrite provider that the configuration names.
pub fn create_llm_provider(config: &LlmConfig) -> (setup: LlmProviderSetup)
    ensures
        setup_matches(*config, setup),
{
    let kind = if str_eq(config.provider.as_str(), "anthropic") {
        LlmProviderKind::Anthropic
    } else if str_eq(config.provider.as_str(), "ollama") {
        LlmProviderKind::Ollama
    } else {
        LlmProviderKind::OpenAi
    };
    let base_url = match kind {
        LlmProviderKind::Ollama => Some(
            match &config.ollama_url {
                Some(url) => url.clone(),
                None => DEFAULT_OLLAMA_URL.to_owned(),
            },
        ),
        _ => None,
    };
    LlmProviderSetup {
        kind,
        api_key: config.api_key.clone(),
        model: copy_optional(&config.model),
        base_url,
        timeout_ms: config.timeout_ms,
    }
}

/// Select the rewrite provider, if the configuration asks for one.
pub fn select_llm_provider(config: &LlmConfig) -> (setup: Option<LlmProviderSetup>)
    ensures
        setup is Some <==> wants_llm(*config),
        setup matches Some(s) ==> setup_matches(*config, s),
{
    if config.enabled && (!config.api_key.as_str().is_empty() || str_eq(
        config.provider.as_str(),
        "ollama",
    )) {
        Some(create_llm_provider(config))
    } else {
        None
    }
}

/// Added to the system prompt for models that answer in structured output.
pub const STRUCTURED_OUTPUT_INSTRUCTION: &'static str =
    "\n\nReturn ONLY valid JSON that matches the provided JSON Schema (no markdown, no extra keys).";

/// Whether a transcription model takes audio through chat completions
/// rather than as a file upload: its name holds both `gpt-4o` and `audio`.
pub fn is_gpt4o_audio(model: &str) -> (b: bool)
    ensures
        b == (contains(model@, "gpt-4o"@) && contains(model@, "audio"@)),
{
    str_contains(model, "gpt-4o") && str_contains(model, "audio")
}

/// Whether a rewrite model supports structured outputs: the `gpt-4.1`
/// family does.
pub fn supports_structured_outputs(model: &str) -> (b: bool)
    ensures
        b == starts_with(model@, "gpt-4.1"@),
{
    str_starts_with(model, "gpt-4.1")
}

/// The system prompt to send to a rewrite model: the prompt itself, with
/// the structured-output instruction added for models that support it.
pub fn system_prompt_for(model: &str, system_prompt: &str) -> (prompt: String)
    ensures
        prompt@ == if starts_with(model@, "gpt-4.1"@) {
            system_prompt@ + STRUCTURED_OUTPUT_INSTRUCTION@
        } else {
            system_prompt@
        },
{
    let prompt = String::from_str(system_prompt);
    if supports_structured_outputs(model) {
        prompt.concat(STRUCTURED_OUTPUT_INSTRUCTION)
    } else {
        prompt
    }
}

/// The message of an API error: the service, the status in parentheses,
/// then what the service answered.
pub fn api_error_message(service: &str, status: &str, body: &str) -> (message: String)
    ensures
        message@ == service@ + " API error ("@ + status@ + "): "@ + body@,
{
    String::from_str(service).concat(" API error (").concat(status).concat("): ").concat(body)
}

} // verus!
