use statusline::Config;
use statusline::InputData;
use statusline::Model;
use statusline::SegmentsConfig;
use statusline::StatusLineGenerator;
use statusline::TranscriptEntry;
use statusline::Workspace;

const SEP: &str = "\u{1b}[37m | \u{1b}[0m";

fn config_with(mask: u32) -> Config {
    Config {
        theme: String::from("dark"),
        segments: SegmentsConfig {
            model: mask & 1 != 0,
            directory: mask & 2 != 0,
            git: mask & 4 != 0,
            time: mask & 8 != 0,
            usage: mask & 16 != 0,
            cost: mask & 32 != 0,
        },
    }
}

fn input_basic() -> InputData {
    InputData {
        model: Model { display_name: String::from("3-5-sonnet-20241022") },
        workspace: Workspace { current_dir: String::from("/home/dev/proj") },
        transcript_path: String::from("unused"),
    }
}

#[test]
fn defaults_enable_all_but_time() {
    let c = Config::default();
    assert_eq!(c.theme, "dark");
    assert!(c.segments.directory);
    assert!(c.segments.git);
    assert!(c.segments.model);
    assert!(!c.segments.time);
    assert!(c.segments.usage);
    assert!(c.segments.cost);
}

#[test]
fn model_and_directory_compose_exactly() {
    let generator = StatusLineGenerator::new(config_with(1 | 2));
    let entries: Vec<TranscriptEntry> = Vec::new();
    let line = generator.generate(&input_basic(), "", 0, &entries);
    let expected = format!(
        "\u{1b}[1;36m3-5-sonnet-20241022\u{1b}[0m{}\u{1b}[1;33m\u{f024b}\u{1b}[0m \u{1b}[1;32mproj\u{1b}[0m",
        SEP,
    );
    assert_eq!(line, expected);
}

#[test]
fn git_piece_carries_the_branch() {
    let generator = StatusLineGenerator::new(config_with(4));
    let entries: Vec<TranscriptEntry> = Vec::new();
    let line = generator.generate(&input_basic(), "main", 0, &entries);
    assert_eq!(line, "\u{1b}[1;34mmain\u{1b}[0m");
}

#[test]
fn empty_git_output_is_omitted_without_separators() {
    let generator = StatusLineGenerator::new(config_with(1 | 4 | 16));
    let entries: Vec<TranscriptEntry> = Vec::new();
    let line = generator.generate(&input_basic(), "", 0, &entries);
    // model | usage, with exactly one separator and no trace of git.
    assert_eq!(line.matches(SEP).count(), 1);
    assert!(!line.starts_with(SEP));
    assert!(!line.ends_with(SEP));
}

#[test]
fn empty_model_name_is_omitted_without_separators() {
    let mut input = input_basic();
    input.model.display_name = String::new();
    let generator = StatusLineGenerator::new(config_with(1 | 16));
    let entries: Vec<TranscriptEntry> = Vec::new();
    let line = generator.generate(&input, "", 0, &entries);
    assert_eq!(line, "\u{1b}[1;35m\u{f49b} 0% \u{b7} 0 tokens\u{1b}[0m");
}

#[test]
fn every_subset_of_segments_composes_cleanly() {
    let entries: Vec<TranscriptEntry> = Vec::new();
    for mask in 0u32..64 {
        let generator = StatusLineGenerator::new(config_with(mask));
        let line = generator.generate(&input_basic(), "main", 52200, &entries);
        let piece_count: usize = mask.count_ones() as usize;
        if piece_count == 0 {
            assert_eq!(line, "", "mask {}", mask);
        } else {
            assert_eq!(line.matches(SEP).count(), piece_count - 1, "mask {}", mask);
            assert!(!line.starts_with(SEP), "mask {}", mask);
            assert!(!line.ends_with(SEP), "mask {}", mask);
            let doubled = format!("{}{}", SEP, SEP);
            assert!(!line.contains(&doubled), "mask {}", mask);
        }
    }
}

#[test]
fn fixed_order_is_model_directory_git_time_usage_cost() {
    let generator = StatusLineGenerator::new(config_with(63));
    let entries: Vec<TranscriptEntry> = Vec::new();
    let line = generator.generate(&input_basic(), "main", 52200, &entries);
    let pieces: Vec<&str> = line.split(SEP).collect();
    assert_eq!(pieces.len(), 6);
    assert!(pieces[0].contains("3-5-sonnet-20241022"));
    assert!(pieces[1].contains("\u{f024b}"));
    assert!(pieces[1].contains("proj"));
    assert!(pieces[2].contains("main"));
    assert!(pieces[3].contains("\u{1f550}"));
    assert!(pieces[3].contains("14:30"));
    assert!(pieces[4].contains("\u{f49b}"));
    assert!(pieces[5].contains("\u{f09d3}"));
}
