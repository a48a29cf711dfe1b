//! The composer: renders the enabled segments in the fixed order — model,
//! directory, git, time, usage, cost — wraps each in its color directive,
//! drops empty outputs entirely, and joins the survivors with a fixed,
//! colored separator.

use crate::cost::CostSegment;
use crate::cost::spec_cost_render;
use crate::text::compose_pieces;
use crate::text::spec_compose;
use crate::text::spec_tail_after_last;
use crate::text::tail_after_last_char;
use crate::text::views_of;
use crate::time::TimeFormat;
use crate::time::TimeSegment;
use crate::time::spec_time_render;
use crate::types::Config;
use crate::types::InputData;
use crate::types::TranscriptEntry;
use crate::usage::UsageSegment;
use crate::usage::spec_usage_render;
use vstd::prelude::*;

verus! {

/// A piece wrapped in its color directive and a reset.
pub open spec fn spec_color_wrap(color: Seq<char>, content: Seq<char>) -> Seq<char> {
    color.add(content).add("\x1b[0m"@)
}

fn color_wrap(color: &str, content: &str) -> (r: String)
    ensures
        r@ == spec_color_wrap(color@, content@),
{
    let mut s = color.to_owned();
    s.append(content);
    s.append("\x1b[0m");
    s
}

/// The directory piece: a two-tone icon/name split, the name being what
/// follows the last '/' of the working directory.
pub open spec fn spec_directory_piece(current_dir: Seq<char>) -> Seq<char> {
    "\x1b[1;33m\u{f024b}\x1b[0m \x1b[1;32m"@.add(spec_tail_after_last(current_dir, '/')).add(
        "\x1b[0m"@,
    )
}

/// The six candidate pieces, in the fixed rendering order. A disabled
/// segment — or one whose content is empty (a blank model name, the git
/// segment outside a repository) — contributes the empty piece, which the
/// composer then drops without a trace.
pub open spec fn spec_pieces(
    c: Config,
    input: InputData,
    git_output: Seq<char>,
    now_secs: int,
    entries: Seq<TranscriptEntry>,
) -> Seq<Seq<char>> {
    seq![
        if c.segments.model && input.model.display_name@.len() > 0 {
            spec_color_wrap("\x1b[1;36m"@, input.model.display_name@)
        } else {
            Seq::<char>::empty()
        },
        if c.segments.directory {
            spec_directory_piece(input.workspace.current_dir@)
        } else {
            Seq::<char>::empty()
        },
        if c.segments.git && git_output.len() > 0 {
            spec_color_wrap("\x1b[1;34m"@, git_output)
        } else {
            Seq::<char>::empty()
        },
        if c.segments.time {
            spec_color_wrap("\x1b[1;36m"@, spec_time_render(TimeFormat::HourMinute, now_secs))
        } else {
            Seq::<char>::empty()
        },
        if c.segments.usage {
            spec_color_wrap("\x1b[1;35m"@, spec_usage_render(entries))
        } else {
            Seq::<char>::empty()
        },
        if c.segments.cost {
            spec_color_wrap("\x1b[1;33m"@, spec_cost_render(input.model.display_name@, entries))
        } else {
            Seq::<char>::empty()
        },
    ]
}

/// The full status line: the non-empty pieces joined by the colored
/// separator.
pub open spec fn spec_statusline(
    c: Config,
    input: InputData,
    git_output: Seq<char>,
    now_secs: int,
    entries: Seq<TranscriptEntry>,
) -> Seq<char> {
    spec_compose(spec_pieces(c, input, git_output, now_secs, entries), "\x1b[37m | \x1b[0m"@)
}

/// Builds the status line for one session description.
pub struct StatusLineGenerator {
    pub config: Config,
}

impl StatusLineGenerator {
    pub fn new(config: Config) -> (s: StatusLineGenerator)
        ensures
            s.config == config,
    {
        StatusLineGenerator { config }
    }

    /// Renders the full status line. The caller supplies what only it can
    /// read: the git segment's content (empty when not inside a
    /// repository), the clock in seconds since the Unix epoch, and the
    /// transcript's parsed entries.
    pub fn generate(
        &self,
        input: &InputData,
        git_output: &str,
        now_secs: u64,
        entries: &Vec<TranscriptEntry>,
    ) -> (r: String)
        ensures
            r@ == spec_statusline(self.config, *input, git_output@, now_secs as int, entries@),
    {
        let mut pieces: Vec<String> = Vec::new();
        if self.config.segments.model && !input.model.display_name.as_str().is_empty() {
            pieces.push(color_wrap("\x1b[1;36m", input.model.display_name.as_str()));
        } else {
            pieces.push(String::new());
        }
        if self.config.segments.directory {
            let dir_name = tail_after_last_char(input.workspace.current_dir.as_str(), '/');
            let mut p = "\x1b[1;33m\u{f024b}\x1b[0m \x1b[1;32m".to_owned();
            p.append(dir_name);
            p.append("\x1b[0m");
            pieces.push(p);
        } else {
            pieces.push(String::new());
        }
        if self.config.segments.git && !git_output.is_empty() {
            pieces.push(color_wrap("\x1b[1;34m", git_output));
        } else {
            pieces.push(String::new());
        }
        if self.config.segments.time {
            let seg = TimeSegment::new(true);
            let content = seg.render(now_secs);
            pieces.push(color_wrap("\x1b[1;36m", content.as_str()));
        } else {
            pieces.push(String::new());
        }
        if self.config.segments.usage {
            let seg = UsageSegment::new(true);
            let content = seg.render(entries);
            pieces.push(color_wrap("\x1b[1;35m", content.as_str()));
        } else {
            pieces.push(String::new());
        }
        if self.config.segments.cost {
            let seg = CostSegment::new(true);
            let content = seg.render(input, entries);
            pieces.push(color_wrap("\x1b[1;33m", content.as_str()));
        } else {
            pieces.push(String::new());
        }
        let r = compose_pieces(&pieces, "\x1b[37m | \x1b[0m");
        proof {
            assert(views_of(pieces@) =~= spec_pieces(
                self.config,
                *input,
                git_output@,
                now_secs as int,
                entries@,
            ));
        }
        r
    }
}

} // verus!
