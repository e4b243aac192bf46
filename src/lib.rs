//! Heuristic source-file profiling: branch classification, nesting
//! statistics, complexity and importance scores, and short descriptions
//! derived from a file's text.
//!
//! The core is a single forward pass over a file's lines (`profile`): each
//! line is trimmed and sanitized (`sanitize`), matched against the
//! recognizers of its language (`language`), judged for hard-coded literals,
//! purity and temporal logic (`classify`), and folded into a branching
//! profile while brace depth is tracked. `laws` states what holds of every
//! profile; `scoring` turns a profile into bounded scores.

pub mod analyzer;
pub mod classify;
pub mod describe;
pub mod files;
pub mod format;
pub mod language;
pub mod laws;
pub mod profile;
pub mod sanitize;
pub mod scoring;
pub mod text;
pub mod whole_text;
