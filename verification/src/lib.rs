//! A process-wide, leveled, localized console logger.
//!
//! Log lines carry a timestamp rendered in a configurable timezone, a
//! severity tag, and a message resolved through a per-language translation
//! table, with a visible diagnostic fallback when no translation exists.
//! Events below the configured minimum severity are suppressed.

mod level;
mod logger;
mod services;
mod timestamp;

pub use level::LogLevel;
pub use logger::{LogError, Logger};
pub use timestamp::DateParts;
