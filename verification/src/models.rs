//! The catalogue of local Whisper models: file names, download addresses,
//! sizes and the identifiers they are selected by.

use vstd::prelude::*;
use vstd::string::StringExecFns;
use crate::text::{lowercase, str_eq, str_to_lowercase};

verus! {

/// Where model files are downloaded from; the file name follows.
pub const MODEL_URL_PREFIX: &'static str =
    "https://huggingface.co/ggerganov/whisper.cpp/resolve/main/";

/// Start of the message for an identifier that names no model.
pub const UNKNOWN_MODEL_PREFIX: &'static str = "Unknown model: ";

/// Available Whisper model sizes.
#[derive(Debug, Clone, Copy, PartialEq, Eq, Structural)]
pub enum WhisperModel {
    /// `ggml-tiny.bin`.
    Tiny,
    /// `ggml-tiny.en.bin`.
    TinyEn,
    /// `ggml-base.bin`.
    Base,
    /// `ggml-base.en.bin`.
    BaseEn,
    /// `ggml-small.bin`.
    Small,
    /// `ggml-small.en.bin`.
    SmallEn,
    /// `ggml-medium.bin`.
    Medium,
    /// `ggml-medium.en.bin`.
    MediumEn,
    /// `ggml-large-v1.bin`.
    LargeV1,
    /// `ggml-large-v2.bin`.
    LargeV2,
    /// `ggml-large-v3.bin`.
    LargeV3,
    /// `ggml-large-v3-turbo.bin`.
    LargeV3Turbo,
}

/// Error of a model management command.
#[derive(Debug, Clone)]
pub struct WhisperCommandError {
    /// What went wrong.
    pub message: String,
}

impl WhisperCommandError {
    /// An error with the given message.
    pub fn from(message: String) -> (e: Self)
        ensures
            e.message == message,
    {
        WhisperCommandError { message }
    }
}

/// Information about a Whisper model.
#[derive(Debug, Clone)]
pub struct WhisperModelInfo {
    /// Identifier the model is selected by.
    pub id: String,
    /// Human-readable name.
    pub name: String,
    /// File name of the model.
    pub filename: String,
    /// Approximate size in bytes.
    pub size_bytes: u64,
    /// The size as shown to the user.
    pub size_display: String,
    /// Where to download the model from.
    pub download_url: String,
    /// Whether the model handles English only.
    pub is_english_only: bool,
    /// Whether the model file is present.
    pub is_downloaded: bool,
}

/// Configuration for the local Whisper provider.
#[derive(Debug, Clone)]
pub struct LocalWhisperConfig {
    /// Path to the model file.
    pub model_path: String,
    /// Language to use (`None` for auto-detect).
    pub language: Option<String>,
    /// Whether to translate to English.
    pub translate: bool,
    /// Number of threads to use (0 = auto).
    pub n_threads: u32,
}

impl Default for LocalWhisperConfig {
    /// No model path, English, no translation, automatic thread count.
    fn default() -> (c: Self)
        ensures
            c.model_path@.len() == 0,
            c.language matches Some(l) && l@ == "en"@,
            !c.translate,
            c.n_threads == 0,
    {
        LocalWhisperConfig {
            model_path: String::new(),
            language: Some(String::from_str("en")),
            translate: false,
            n_threads: 0,
        }
    }
}

impl Default for WhisperModel {
    fn default() -> (m: Self)
        ensures
            m == WhisperModel::Base,
    {
        WhisperModel::Base
    }
}

/// The model that a lowercase identifier names, if any. Each model answers
/// to its name written together, with an underscore or with a hyphen.
pub open spec fn model_for_id(id: Seq<char>) -> Option<WhisperModel> {
    if id == "tiny"@ {
        Some(WhisperModel::Tiny)
    } else     if id == "tinyen"@ || id == "tiny_en"@ || id == "tiny-en"@ {
        Some(WhisperModel::TinyEn)
    } else     if id == "base"@ {
        Some(WhisperModel::Base)
    } else     if id == "baseen"@ || id == "base_en"@ || id == "base-en"@ {
        Some(WhisperModel::BaseEn)
    } else     if id == "small"@ {
        Some(WhisperModel::Small)
    } else     if id == "smallen"@ || id == "small_en"@ || id == "small-en"@ {
        Some(WhisperModel::SmallEn)
    } else     if id == "medium"@ {
        Some(WhisperModel::Medium)
    } else     if id == "mediumen"@ || id == "medium_en"@ || id == "medium-en"@ {
        Some(WhisperModel::MediumEn)
    } else     if id == "largev1"@ || id == "large_v1"@ || id == "large-v1"@ {
        Some(WhisperModel::LargeV1)
    } else     if id == "largev2"@ || id == "large_v2"@ || id == "large-v2"@ {
        Some(WhisperModel::LargeV2)
    } else     if id == "largev3"@ || id == "large_v3"@ || id == "large-v3"@ {
        Some(WhisperModel::LargeV3)
    } else     if id == "largev3turbo"@ || id == "large_v3_turbo"@ || id == "large-v3-turbo"@ {
        Some(WhisperModel::LargeV3Turbo)
    } else {
        None
    }
}

impl WhisperModel {
    /// The model's file name.
    pub open spec fn spec_filename(&self) -> Seq<char> {
        match *self {
            WhisperModel::Tiny => "ggml-tiny.bin"@,
            WhisperModel::TinyEn => "ggml-tiny.en.bin"@,
            WhisperModel::Base => "ggml-base.bin"@,
            WhisperModel::BaseEn => "ggml-base.en.bin"@,
            WhisperModel::Small => "ggml-small.bin"@,
            WhisperModel::SmallEn => "ggml-small.en.bin"@,
            WhisperModel::Medium => "ggml-medium.bin"@,
            WhisperModel::MediumEn => "ggml-medium.en.bin"@,
            WhisperModel::LargeV1 => "ggml-large-v1.bin"@,
            WhisperModel::LargeV2 => "ggml-large-v2.bin"@,
            WhisperModel::LargeV3 => "ggml-large-v3.bin"@,
            WhisperModel::LargeV3Turbo => "ggml-large-v3-turbo.bin"@,
        }
    }

    /// The model's approximate size in bytes.
    pub open spec fn spec_size_bytes(&self) -> u64 {
        match *self {
            WhisperModel::Tiny => 75000000,
            WhisperModel::TinyEn => 75000000,
            WhisperModel::Base => 142000000,
            WhisperModel::BaseEn => 142000000,
            WhisperModel::Small => 466000000,
            WhisperModel::SmallEn => 466000000,
            WhisperModel::Medium => 1500000000,
            WhisperModel::MediumEn => 1500000000,
            WhisperModel::LargeV1 => 2900000000,
            WhisperModel::LargeV2 => 2900000000,
            WhisperModel::LargeV3 => 2900000000,
            WhisperModel::LargeV3Turbo => 1600000000,
        }
    }

    /// Whether the model handles English only.
    pub open spec fn spec_is_english_only(&self) -> bool {
        *self == WhisperModel::TinyEn || *self == WhisperModel::BaseEn || *self
            == WhisperModel::SmallEn || *self == WhisperModel::MediumEn
    }

    /// Get the model filename.
    pub fn filename(&self) -> (name: &'static str)
        ensures
            name@ == self.spec_filename(),
    {
        match self {
            WhisperModel::Tiny => "ggml-tiny.bin",
            WhisperModel::TinyEn => "ggml-tiny.en.bin",
            WhisperModel::Base => "ggml-base.bin",
            WhisperModel::BaseEn => "ggml-base.en.bin",
            WhisperModel::Small => "ggml-small.bin",
            WhisperModel::SmallEn => "ggml-small.en.bin",
            WhisperModel::Medium => "ggml-medium.bin",
            WhisperModel::MediumEn => "ggml-medium.en.bin",
            WhisperModel::LargeV1 => "ggml-large-v1.bin",
            WhisperModel::LargeV2 => "ggml-large-v2.bin",
            WhisperModel::LargeV3 => "ggml-large-v3.bin",
            WhisperModel::LargeV3Turbo => "ggml-large-v3-turbo.bin",
        }
    }

    /// Get the download address: the common prefix, then the file name.
    pub fn download_url(&self) -> (url: String)
        ensures
            url@ == MODEL_URL_PREFIX@ + self.spec_filename(),
    {
        String::from_str(MODEL_URL_PREFIX).concat(self.filename())
    }

    /// Get the approximate model size in bytes.
    #[verifier::when_used_as_spec(spec_size_bytes)]
    pub fn size_bytes(&self) -> (size: u64)
        ensures
            size == self.spec_size_bytes(),
    {
        match self {
            WhisperModel::Tiny => 75_000_000,
            WhisperModel::TinyEn => 75_000_000,
            WhisperModel::Base => 142_000_000,
            WhisperModel::BaseEn => 142_000_000,
            WhisperModel::Small => 466_000_000,
            WhisperModel::SmallEn => 466_000_000,
            WhisperModel::Medium => 1_500_000_000,
            WhisperModel::MediumEn => 1_500_000_000,
            WhisperModel::LargeV1 => 2_900_000_000,
            WhisperModel::LargeV2 => 2_900_000_000,
            WhisperModel::LargeV3 => 2_900_000_000,
            WhisperModel::LargeV3Turbo => 1_600_000_000,
        }
    }

    /// Get the human-readable model name.
    pub fn display_name(&self) -> (name: &'static str)
        ensures
            name@ == match *self {
                WhisperModel::Tiny => "Tiny (75MB)"@,
                WhisperModel::TinyEn => "Tiny English (75MB)"@,
                WhisperModel::Base => "Base (142MB)"@,
                WhisperModel::BaseEn => "Base English (142MB)"@,
                WhisperModel::Small => "Small (466MB)"@,
                WhisperModel::SmallEn => "Small English (466MB)"@,
                WhisperModel::Medium => "Medium (1.5GB)"@,
                WhisperModel::MediumEn => "Medium English (1.5GB)"@,
                WhisperModel::LargeV1 => "Large v1 (2.9GB)"@,
                WhisperModel::LargeV2 => "Large v2 (2.9GB)"@,
                WhisperModel::LargeV3 => "Large v3 (2.9GB)"@,
                WhisperModel::LargeV3Turbo => "Large v3 Turbo (1.6GB)"@,
            },
    {
        match self {
            WhisperModel::Tiny => "Tiny (75MB)",
            WhisperModel::TinyEn => "Tiny English (75MB)",
            WhisperModel::Base => "Base (142MB)",
            WhisperModel::BaseEn => "Base English (142MB)",
            WhisperModel::Small => "Small (466MB)",
            WhisperModel::SmallEn => "Small English (466MB)",
            WhisperModel::Medium => "Medium (1.5GB)",
            WhisperModel::MediumEn => "Medium English (1.5GB)",
            WhisperModel::LargeV1 => "Large v1 (2.9GB)",
            WhisperModel::LargeV2 => "Large v2 (2.9GB)",
            WhisperModel::LargeV3 => "Large v3 (2.9GB)",
            WhisperModel::LargeV3Turbo => "Large v3 Turbo (1.6GB)",
        }
    }

    /// Check if this is an English-only model.
    #[verifier::when_used_as_spec(spec_is_english_only)]
    pub fn is_english_only(&self) -> (b: bool)
        ensures
            b == self.spec_is_english_only(),
    {
        matches!(
            self,
            WhisperModel::TinyEn | WhisperModel::BaseEn | WhisperModel::SmallEn
                | WhisperModel::MediumEn
        )
    }

    /// Whether a file of `actual_size` bytes can be this model in full: it
    /// must have at least half the expected size.
    pub fn is_plausible_size(&self, actual_size: u64) -> (ok: bool)
        ensures
            ok == (actual_size >= self.spec_size_bytes() / 2),
    {
        actual_size >= self.size_bytes() / 2
    }

    /// The identifier the model is listed under: its name in lowercase,
    /// written together.
    pub fn id(&self) -> (id: &'static str)
        ensures
            id@ == match *self {
                WhisperModel::Tiny => "tiny"@,
                WhisperModel::TinyEn => "tinyen"@,
                WhisperModel::Base => "base"@,
                WhisperModel::BaseEn => "baseen"@,
                WhisperModel::Small => "small"@,
                WhisperModel::SmallEn => "smallen"@,
                WhisperModel::Medium => "medium"@,
                WhisperModel::MediumEn => "mediumen"@,
                WhisperModel::LargeV1 => "largev1"@,
                WhisperModel::LargeV2 => "largev2"@,
                WhisperModel::LargeV3 => "largev3"@,
                WhisperModel::LargeV3Turbo => "largev3turbo"@,
            },
    {
        match self {
            WhisperModel::Tiny => "tiny",
            WhisperModel::TinyEn => "tinyen",
            WhisperModel::Base => "base",
            WhisperModel::BaseEn => "baseen",
            WhisperModel::Small => "small",
            WhisperModel::SmallEn => "smallen",
            WhisperModel::Medium => "medium",
            WhisperModel::MediumEn => "mediumen",
            WhisperModel::LargeV1 => "largev1",
            WhisperModel::LargeV2 => "largev2",
            WhisperModel::LargeV3 => "largev3",
            WhisperModel::LargeV3Turbo => "largev3turbo",
        }
    }

    /// List all available models, smallest family first.
    pub fn all() -> (models: Vec<WhisperModel>)
        ensures
            models@ == seq![WhisperModel::Tiny, WhisperModel::TinyEn, WhisperModel::Base, WhisperModel::BaseEn, WhisperModel::Small, WhisperModel::SmallEn, WhisperModel::Medium, WhisperModel::MediumEn, WhisperModel::LargeV1, WhisperModel::LargeV2, WhisperModel::LargeV3, WhisperModel::LargeV3Turbo],
    {
        let mut models: Vec<WhisperModel> = Vec::new();
        models.push(WhisperModel::Tiny);
        models.push(WhisperModel::TinyEn);
        models.push(WhisperModel::Base);
        models.push(WhisperModel::BaseEn);
        models.push(WhisperModel::Small);
        models.push(WhisperModel::SmallEn);
        models.push(WhisperModel::Medium);
        models.push(WhisperModel::MediumEn);
        models.push(WhisperModel::LargeV1);
        models.push(WhisperModel::LargeV2);
        models.push(WhisperModel::LargeV3);
        models.push(WhisperModel::LargeV3Turbo);
        assert(models@ =~= seq![WhisperModel::Tiny, WhisperModel::TinyEn, WhisperModel::Base, WhisperModel::BaseEn, WhisperModel::Small, WhisperModel::SmallEn, WhisperModel::Medium, WhisperModel::MediumEn, WhisperModel::LargeV1, WhisperModel::LargeV2, WhisperModel::LargeV3, WhisperModel::LargeV3Turbo]);
        models
    }
}

/// The model named by an identifier that is already lowercase.
fn model_for_lowercase_id(id: &str) -> (model: Option<WhisperModel>)
    ensures
        model == model_for_id(id@),
{
    if str_eq(id, "tiny") {
        Some(WhisperModel::Tiny)
    } else     if str_eq(id, "tinyen") || str_eq(id, "tiny_en") || str_eq(id, "tiny-en") {
        Some(WhisperModel::TinyEn)
    } else     if str_eq(id, "base") {
        Some(WhisperModel::Base)
    } else     if str_eq(id, "baseen") || str_eq(id, "base_en") || str_eq(id, "base-en") {
        Some(WhisperModel::BaseEn)
    } else     if str_eq(id, "small") {
        Some(WhisperModel::Small)
    } else     if str_eq(id, "smallen") || str_eq(id, "small_en") || str_eq(id, "small-en") {
        Some(WhisperModel::SmallEn)
    } else     if str_eq(id, "medium") {
        Some(WhisperModel::Medium)
    } else     if str_eq(id, "mediumen") || str_eq(id, "medium_en") || str_eq(id, "medium-en") {
        Some(WhisperModel::MediumEn)
    } else     if str_eq(id, "largev1") || str_eq(id, "large_v1") || str_eq(id, "large-v1") {
        Some(WhisperModel::LargeV1)
    } else     if str_eq(id, "largev2") || str_eq(id, "large_v2") || str_eq(id, "large-v2") {
        Some(WhisperModel::LargeV2)
    } else     if str_eq(id, "largev3") || str_eq(id, "large_v3") || str_eq(id, "large-v3") {
        Some(WhisperModel::LargeV3)
    } else     if str_eq(id, "largev3turbo") || str_eq(id, "large_v3_turbo") || str_eq(id, "large-v3-turbo") {
        Some(WhisperModel::LargeV3Turbo)
    } else {
        None
    }
}

/// Find the model that an identifier names, ignoring case. An identifier
/// that names none gives an error whose message ends in the identifier.
pub fn parse_model_id(model_id: &str) -> (r: Result<WhisperModel, WhisperCommandError>)
    ensures
        match r {
            Ok(model) => model_for_id(lowercase(model_id@)) == Some(model),
            Err(e) => model_for_id(lowercase(model_id@)) is None && e.message@
                == UNKNOWN_MODEL_PREFIX@ + model_id@,
        },
{
    let lower = str_to_lowercase(model_id);
    match model_for_lowercase_id(lower.as_str()) {
        Some(model) => Ok(model),
        None => Err(
            WhisperCommandError::from(String::from_str(UNKNOWN_MODEL_PREFIX).concat(model_id)),
        ),
    }
}

} // verus!
