//! Error taxonomy of the pipeline and of configuration loading.

use vstd::prelude::*;
use crate::text::{concat2, replace_all, replace_str};

verus! {

/// Why a configuration could not be loaded.
#[derive(Debug, Clone, PartialEq, Eq)]
pub enum ConfigError {
    MissingApiKey,
    MissingOpenAiKey,
    InvalidFloat { var_name: String, value: String },
    InvalidInteger { var_name: String, value: String },
    InvalidLicenseBackendMode { value: String },
    InvalidConfigValue { var_name: String, reason: String },
}

/// The abstract value of a `ConfigError`, with each text by its view.
pub enum ConfigErrorView {
    MissingApiKey,
    MissingOpenAiKey,
    InvalidFloat(Seq<char>, Seq<char>),
    InvalidInteger(Seq<char>, Seq<char>),
    InvalidLicenseBackendMode(Seq<char>),
    InvalidConfigValue(Seq<char>, Seq<char>),
}

impl View for ConfigError {
    type V = ConfigErrorView;

    open spec fn view(&self) -> ConfigErrorView {
        match self {
            ConfigError::MissingApiKey => ConfigErrorView::MissingApiKey,
            ConfigError::MissingOpenAiKey => ConfigErrorView::MissingOpenAiKey,
            ConfigError::InvalidFloat { var_name, value } => ConfigErrorView::InvalidFloat(
                var_name@,
                value@,
            ),
            ConfigError::InvalidInteger { var_name, value } => ConfigErrorView::InvalidInteger(
                var_name@,
                value@,
            ),
            ConfigError::InvalidLicenseBackendMode { value } => ConfigErrorView::InvalidLicenseBackendMode(value@),
            ConfigError::InvalidConfigValue { var_name, reason } => ConfigErrorView::InvalidConfigValue(
                var_name@,
                reason@,
            ),
        }
    }
}

/// The text that `ConfigError` displays.
pub open spec fn config_error_message(e: ConfigError) -> Seq<char> {
    match e {
        ConfigError::MissingApiKey => "MUAPI_API_KEY is not set. Add it to your .env file or export it as an env var."@,
        ConfigError::MissingOpenAiKey => "OPENAI_API_KEY is not set. Local mode needs an OpenAI key for highlight ranking. Add it to your .env or export it, or switch back to --mode api."@,
        ConfigError::InvalidFloat { var_name, value } => "invalid float for "@ + var_name@ + ": "@
            + value@,
        ConfigError::InvalidInteger { var_name, value } => "invalid integer for "@ + var_name@
            + ": "@ + value@,
        ConfigError::InvalidLicenseBackendMode { value } => "invalid LICENSE_BACKEND_MODE: "@
            + value@,
        ConfigError::InvalidConfigValue { var_name, reason } => "invalid "@ + var_name@ + ": "@
            + reason@,
    }
}

impl ConfigError {
    /// The message shown for this error.
    pub fn message(&self) -> (r: String)
        ensures
            r@ == config_error_message(*self),
    {
        match self {
            ConfigError::MissingApiKey => "MUAPI_API_KEY is not set. Add it to your .env file or export it as an env var.".to_string(),
            ConfigError::MissingOpenAiKey => "OPENAI_API_KEY is not set. Local mode needs an OpenAI key for highlight ranking. Add it to your .env or export it, or switch back to --mode api.".to_string(),
            ConfigError::InvalidFloat { var_name, value } => {
                let a = concat2("invalid float for ", var_name.as_str());
                let b = concat2(a.as_str(), ": ");
                concat2(b.as_str(), value.as_str())
            },
            ConfigError::InvalidInteger { var_name, value } => {
                let a = concat2("invalid integer for ", var_name.as_str());
                let b = concat2(a.as_str(), ": ");
                concat2(b.as_str(), value.as_str())
            },
            ConfigError::InvalidLicenseBackendMode { value } => {
                concat2("invalid LICENSE_BACKEND_MODE: ", value.as_str())
            },
            ConfigError::InvalidConfigValue { var_name, reason } => {
                let a = concat2("invalid ", var_name.as_str());
                let b = concat2(a.as_str(), ": ");
                concat2(b.as_str(), reason.as_str())
            },
        }
    }
}

/// The pipeline stage at which an error arose.
#[derive(Debug, Clone, Copy, PartialEq, Eq, Structural)]
pub enum ErrorStage {
    Config,
    Download,
    Transcribe,
    Highlights,
    Clip,
    Poll,
    Submit,
    Runtime,
}

pub open spec fn error_stage_name(s: ErrorStage) -> Seq<char> {
    match s {
        ErrorStage::Config => "config"@,
        ErrorStage::Download => "download"@,
        ErrorStage::Transcribe => "transcribe"@,
        ErrorStage::Highlights => "highlights"@,
        ErrorStage::Clip => "clip"@,
        ErrorStage::Poll => "poll"@,
        ErrorStage::Submit => "submit"@,
        ErrorStage::Runtime => "runtime"@,
    }
}

impl ErrorStage {
    pub fn as_str(self) -> (r: &'static str)
        ensures
            r@ == error_stage_name(self),
    {
        match self {
            ErrorStage::Config => "config",
            ErrorStage::Download => "download",
            ErrorStage::Transcribe => "transcribe",
            ErrorStage::Highlights => "highlights",
            ErrorStage::Clip => "clip",
            ErrorStage::Poll => "poll",
            ErrorStage::Submit => "submit",
            ErrorStage::Runtime => "runtime",
        }
    }
}

/// Stable machine-readable error codes.
#[derive(Debug, Clone, Copy, PartialEq, Eq, Structural)]
pub enum ErrorCode {
    ConfigMissingApiKey,
    ConfigMissingOpenAiKey,
    ConfigInvalidFloat,
    DownloadFailed,
    TranscribeFailed,
    NoTranscriptSegments,
    HighlightsFailed,
    NoHighlights,
    ClipFailed,
    MuApiStatus,
}

pub open spec fn error_code_name(c: ErrorCode) -> Seq<char> {
    match c {
        ErrorCode::ConfigMissingApiKey => "E_CONFIG_MISSING_API_KEY"@,
        ErrorCode::ConfigMissingOpenAiKey => "E_CONFIG_MISSING_OPENAI_KEY"@,
        ErrorCode::ConfigInvalidFloat => "E_CONFIG_INVALID_FLOAT"@,
        ErrorCode::DownloadFailed => "E_DOWNLOAD_FAILED"@,
        ErrorCode::TranscribeFailed => "E_TRANSCRIBE_FAILED"@,
        ErrorCode::NoTranscriptSegments => "E_NO_TRANSCRIPT_SEGMENTS"@,
        ErrorCode::HighlightsFailed => "E_HIGHLIGHTS_FAILED"@,
        ErrorCode::NoHighlights => "E_NO_HIGHLIGHTS"@,
        ErrorCode::ClipFailed => "E_CLIP_FAILED"@,
        ErrorCode::MuApiStatus => "E_MUAPI_STATUS"@,
    }
}

impl ErrorCode {
    pub fn as_str(self) -> (r: &'static str)
        ensures
            r@ == error_code_name(self),
    {
        match self {
            ErrorCode::ConfigMissingApiKey => "E_CONFIG_MISSING_API_KEY",
            ErrorCode::ConfigMissingOpenAiKey => "E_CONFIG_MISSING_OPENAI_KEY",
            ErrorCode::ConfigInvalidFloat => "E_CONFIG_INVALID_FLOAT",
            ErrorCode::DownloadFailed => "E_DOWNLOAD_FAILED",
            ErrorCode::TranscribeFailed => "E_TRANSCRIBE_FAILED",
            ErrorCode::NoTranscriptSegments => "E_NO_TRANSCRIPT_SEGMENTS",
            ErrorCode::HighlightsFailed => "E_HIGHLIGHTS_FAILED",
            ErrorCode::NoHighlights => "E_NO_HIGHLIGHTS",
            ErrorCode::ClipFailed => "E_CLIP_FAILED",
            ErrorCode::MuApiStatus => "E_MUAPI_STATUS",
        }
    }
}

/// Marker of a provider payload field in a logged message.
pub open spec fn payload_marker() -> Seq<char> {
    "\"provider_payload\":"@
}

/// What the marker is replaced by.
pub open spec fn payload_redacted() -> Seq<char> {
    "\"provider_payload\":\"[REDACTED]\""@
}

/// Masks provider payload blobs in a message: every occurrence of the
/// marker `"provider_payload":` is followed by the literal `"[REDACTED]"`.
pub fn redact_message(message: &str) -> (r: String)
    ensures
        r@ == replace_all(message@, payload_marker(), payload_redacted()),
{
    let marker = "\"provider_payload\":";
    proof {
        reveal_strlit("\"provider_payload\":");
    }
    replace_str(message, marker, "\"provider_payload\":\"[REDACTED]\"")
}

} // verus!
