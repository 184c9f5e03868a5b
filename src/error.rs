//! The library's error kinds and their one-line descriptions.

use vstd::prelude::*;

verus! {

/// A failure, by kind, with its detail text.
#[derive(Debug, Clone)]
pub enum StudyNestError {
    ModelError(String),
    TokenizationError(String),
    ConfigError(String),
    DeviceError(String),
    AudioError(String),
    OcrError(String),
    IoError(String),
    JsonError(String),
    FeatureNotEnabled(String),
}

/// The one-line description of an error: its kind, then its detail.
pub open spec fn error_text(e: StudyNestError) -> Seq<char> {
    match e {
        StudyNestError::ModelError(m) => "Model error: "@ + m@,
        StudyNestError::TokenizationError(m) => "Tokenization error: "@ + m@,
        StudyNestError::ConfigError(m) => "Configuration error: "@ + m@,
        StudyNestError::DeviceError(m) => "Device error: "@ + m@,
        StudyNestError::AudioError(m) => "Audio error: "@ + m@,
        StudyNestError::OcrError(m) => "OCR error: "@ + m@,
        StudyNestError::IoError(m) => "IO error: "@ + m@,
        StudyNestError::JsonError(m) => "JSON error: "@ + m@,
        StudyNestError::FeatureNotEnabled(m) => "Feature not enabled: "@ + m@,
    }
}

/// `e` is a configuration error with detail `detail`.
pub open spec fn is_config_error(e: StudyNestError, detail: Seq<char>) -> bool {
    match e {
        StudyNestError::ConfigError(m) => m@ == detail,
        _ => false,
    }
}

impl StudyNestError {
    pub fn config(detail: &str) -> (r: StudyNestError)
        ensures
            is_config_error(r, detail@),
    {
        StudyNestError::ConfigError(String::from_str(detail))
    }

    /// The one-line description of this error.
    pub fn message(&self) -> (r: String)
        ensures
            r@ == error_text(*self),
    {
        match self {
            StudyNestError::ModelError(m) => String::from_str("Model error: ").concat(m.as_str()),
            StudyNestError::TokenizationError(m) => String::from_str("Tokenization error: ").concat(m.as_str()),
            StudyNestError::ConfigError(m) => String::from_str("Configuration error: ").concat(m.as_str()),
            StudyNestError::DeviceError(m) => String::from_str("Device error: ").concat(m.as_str()),
            StudyNestError::AudioError(m) => String::from_str("Audio error: ").concat(m.as_str()),
            StudyNestError::OcrError(m) => String::from_str("OCR error: ").concat(m.as_str()),
            StudyNestError::IoError(m) => String::from_str("IO error: ").concat(m.as_str()),
            StudyNestError::JsonError(m) => String::from_str("JSON error: ").concat(m.as_str()),
            StudyNestError::FeatureNotEnabled(m) => String::from_str("Feature not enabled: ").concat(m.as_str()),
        }
    }
}

} // verus!
