//! Pretty-printer for newline-delimited JSON log records.
//!
//! Each input line is decoded into a [`LogLine`], judged by a session
//! boundary detector, classified by level and rendered as one fixed-width
//! output line, optionally coloured with ANSI escape sequences.

pub mod encoding;
pub mod error;
pub mod generate;
pub mod json;
pub mod level;
pub mod line_processor;
pub mod logline;
pub mod params;
pub mod pattern;
pub mod render;
pub mod session;
pub mod session_detector;
pub mod text;
pub mod timestamp;

pub use error::{ProcessError, Result};
pub use line_processor::LineProcessor;
pub use logline::LogLine;
pub use render::RenderConfig;
pub use session::SessionStartDetector;
pub use session_detector::SessionDetector;
