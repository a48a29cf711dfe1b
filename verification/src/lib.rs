//! A single-line, color-coded status summary for an interactive
//! coding-assistant session.
//!
//! Given a description of the current session (active model, working
//! directory, transcript entries) and a configuration saying which display
//! segments are enabled, the library renders one status line: per-segment
//! content derivation (directory, git, model, time, usage, cost),
//! model-aware token accounting over a transcript log, a dollar cost
//! estimate, and the ordered composition of the enabled segments.
//!
//! All rendering is deterministic over plain values; reading the transcript
//! file, the clock and the git branch is left to the caller, which hands the
//! results in as arguments.

pub mod cost;
pub mod registry;
pub mod statusline;
pub mod text;
pub mod time;
pub mod types;
pub mod usage;

pub use cost::CostSegment;
pub use statusline::StatusLineGenerator;
pub use time::TimeFormat;
pub use time::TimeSegment;
pub use types::Config;
pub use types::InputData;
pub use types::Message;
pub use types::MessageContent;
pub use types::Model;
pub use types::SegmentsConfig;
pub use types::TranscriptEntry;
pub use types::Usage;
pub use types::Workspace;
pub use usage::UsageSegment;
pub use usage::calculate_input_tokens;
pub use usage::parse_transcript_usage;
