//! Locale-aware message translation: a closed registry of supported locales,
//! per-locale message catalogs, and a façade that resolves a locale tag,
//! builds a translator and formats a keyed message with named arguments.

pub mod locale;
pub mod text;
pub mod message;
pub mod catalog;
pub mod translator;
