//! A small logging facade for a handheld console's runtime.
//!
//! Application code emits severity-leveled messages; the facade filters them
//! against one global threshold and routes each accepted message to one of the
//! two diagnostic streams of the device, `StdOut` or `StdErr`.
//!
//! This crate holds the decisions: the routing configuration and its builder,
//! the severity filter, the bytes that make up one write, and the
//! install-once life cycle of the logger. Each is stated as a contract and
//! proved. Talking to the kernel and to the logging front end is left to the
//! code that embeds the crate, which passes plain values in and out.
//!
//! ```text
//! let config = PspLoggerConfig::new(LevelFilter::Debug)
//!     .with_debug_stream(OutputStream::StdOut)
//!     .with_info_stream(OutputStream::StdOut);
//! let mut logger = PspLogger::new();
//! let _ = logger.init(config, Ok(()));
//! assert!(logger.log(Level::Trace, "filtered out").is_none());
//! ```

pub mod config;
pub mod dispatch;
pub mod level;
pub mod logger;

pub use config::{OutputStream, PspLoggerConfig};
pub use level::{Level, LevelFilter};
pub use dispatch::frame;
pub use logger::{PspLogger, SetLoggerError};
