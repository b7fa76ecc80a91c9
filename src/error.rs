//! The errors of an analysis.
use vstd::prelude::*;

verus! {

#[derive(Debug)]
pub enum AnalysisError {
    /// No syntax tree could be produced, or producing it timed out.
    ParseError { message: String, line: u32 },
    TimeoutError { timeout_ms: u64 },
    ResourceError { resource: String },
    /// The grammar engine could not be set up.
    ConfigError { message: String },
    /// The batch itself is malformed.
    ValidationError { message: String },
    UnsupportedLanguage { language: String },
    FileTooLarge { size_bytes: usize, limit_bytes: usize },
    InternalError { message: String },
}

pub type AnalysisResult<T> = Result<T, AnalysisError>;

} // verus!
