//! Per-language source statistics: comment syntax and running line counts.
pub mod language;

pub use language::{Counter, Counts, Language, LanguageModel};
