//! A logging facade over a native, category-based logging system: severity
//! mapping and filtering, a registry of per-category channels, and signpost
//! identifiers for performance tracing.
pub mod channel;
pub mod cstring;
pub mod level;
pub mod logger;
pub mod registry_map;
pub mod signpost;

pub use channel::{Channel, ChannelView, LogRecord, OSLog};
pub use cstring::{sanitize_bytes, to_cstr};
pub use level::{Level, LevelFilter, LogLevel};
pub use logger::OsLogger;
pub use signpost::{OSSignpostID, SignpostRecord};
