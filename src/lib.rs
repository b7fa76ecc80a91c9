//! Static analysis of JavaScript and TypeScript sources: functions, classes
//! and imports extracted from syntax trees, cyclomatic complexity per
//! function, and per-file metrics aggregated over a batch.
pub mod analysis;
pub mod error;
pub mod parser;
pub mod syntax;
pub mod text;
pub mod types;

pub use error::{AnalysisError, AnalysisResult};
