//! Data model: the session description handed in by the caller, the
//! per-segment configuration, and the shape of one transcript log entry.

use vstd::prelude::*;

verus! {

/// Top-level configuration: a theme name and one boolean per segment.
#[derive(Debug, Clone)]
pub struct Config {
    pub theme: String,
    pub segments: SegmentsConfig,
}

/// Which of the six segments are rendered. Enabling is purely additive;
/// the rendering order is fixed by the composer.
#[derive(Debug, Clone, Copy, PartialEq, Eq, Structural)]
pub struct SegmentsConfig {
    pub directory: bool,
    pub git: bool,
    pub model: bool,
    pub time: bool,
    pub usage: bool,
    pub cost: bool,
}

/// The active model, as a free-text display name.
pub struct Model {
    pub display_name: String,
}

/// The working directory of the session.
pub struct Workspace {
    pub current_dir: String,
}

/// The session description handed to the composer: active model, working
/// directory, and the path of the transcript log (the caller reads that
/// file and hands its parsed entries in separately).
pub struct InputData {
    pub model: Model,
    pub workspace: Workspace,
    pub transcript_path: String,
}

/// A vendor-ambiguous token-count record. Every field is optional:
/// absence means "the vendor did not report this field", which is distinct
/// from a reported zero.
#[derive(Debug, Clone, Copy)]
pub struct Usage {
    pub input_tokens: Option<u32>,
    pub output_tokens: Option<u32>,
    pub cache_creation_input_tokens: Option<u32>,
    pub cache_read_input_tokens: Option<u32>,
    pub prompt_tokens: Option<u32>,
    pub completion_tokens: Option<u32>,
    pub total_tokens: Option<u32>,
}

/// One content block of a transcript message.
pub struct MessageContent {
    pub content_type: String,
    pub text: Option<String>,
}

/// One message of a transcript entry; `usage` carries the token counts.
pub struct Message {
    pub id: Option<String>,
    pub message_type: String,
    pub role: String,
    pub model: Option<String>,
    pub content: Option<Vec<MessageContent>>,
    pub usage: Option<Usage>,
}

/// One parsed line of the transcript log. Only entries whose `entry_type`
/// is "assistant" and whose message carries a usage record matter to the
/// token accounting.
pub struct TranscriptEntry {
    pub entry_type: String,
    pub message: Option<Message>,
    pub cwd: Option<String>,
    pub git_branch: Option<String>,
    pub uuid: Option<String>,
    pub timestamp: Option<String>,
}

impl Default for Config {
    /// The documented defaults: theme "dark"; every segment on except time.
    fn default() -> (c: Config)
        ensures
            c.theme@ == "dark"@,
            c.segments == (SegmentsConfig {
                directory: true,
                git: true,
                model: true,
                time: false,
                usage: true,
                cost: true,
            }),
    {
        Config {
            theme: "dark".to_owned(),
            segments: SegmentsConfig {
                directory: true,
                git: true,
                model: true,
                time: false,
                usage: true,
                cost: true,
            },
        }
    }
}

} // verus!
