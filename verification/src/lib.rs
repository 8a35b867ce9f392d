//! Rendering of calendar dates at a chosen granularity (day through
//! millennium), with per-language vocabulary and era handling for
//! negative (BCE-style) years.

pub mod calendar;
pub mod date_renderer;
pub mod digits;
pub mod era;
pub mod language;
pub mod precision;
pub mod render;

pub use date_renderer::DateRenderer;
pub use era::Era;
pub use language::Language;
pub use precision::InvalidPrecision;
pub use precision::Precision;
