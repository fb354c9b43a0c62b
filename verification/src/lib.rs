//! A small leveled-logging library, verified: configuration records with
//! per-level enable flags, color and a timestamp pattern; a slot that
//! holds the active record; a threshold-and-target filtering logger
//! configuration; and the rendering of log lines. Parsing, filtering
//! decisions and rendering are all specified and proved; reading the
//! environment, registering with a logging facade and printing live
//! outside the verified core.

mod clock;
mod config;
mod level;
mod logger;
mod render;
mod text;

pub use clock::pattern_valid;
pub use config::{ConfigSlot, ConfigView, LogConfig, LogError, Tok};
pub use level::Level;
pub use level::LevelFilter;
pub use logger::{Logs, LogsError, LogsView};
pub use render::level_to_str;
