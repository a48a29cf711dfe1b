use statusline::CostSegment;
use statusline::InputData;
use statusline::Message;
use statusline::Model;
use statusline::TranscriptEntry;
use statusline::Usage;
use statusline::Workspace;
use statusline::cost::cost_display;
use statusline::registry::get_pricing;

fn usage_none() -> Usage {
    Usage {
        input_tokens: None,
        output_tokens: None,
        cache_creation_input_tokens: None,
        cache_read_input_tokens: None,
        prompt_tokens: None,
        completion_tokens: None,
        total_tokens: None,
    }
}

fn assistant_entry(u: Usage) -> TranscriptEntry {
    TranscriptEntry {
        entry_type: String::from("assistant"),
        message: Some(Message {
            id: None,
            message_type: String::from("message"),
            role: String::from("assistant"),
            model: None,
            content: None,
            usage: Some(u),
        }),
        cwd: None,
        git_branch: None,
        uuid: None,
        timestamp: None,
    }
}

fn input_for(model: &str) -> InputData {
    InputData {
        model: Model { display_name: String::from(model) },
        workspace: Workspace { current_dir: String::from("/tmp/proj") },
        transcript_path: String::from("unused"),
    }
}

#[test]
fn empty_transcript_renders_zero_sentinel() {
    let segment = CostSegment::new(true);
    let entries: Vec<TranscriptEntry> = Vec::new();
    let rendered = segment.render(&input_for("3-5-sonnet-20241022"), &entries);
    assert_eq!(rendered, "\u{f09d3} $0.000");
}

#[test]
fn nonzero_totals_never_render_the_sentinel() {
    let mut u = usage_none();
    u.input_tokens = Some(1);
    let entries = vec![assistant_entry(u)];
    let segment = CostSegment::new(true);
    let rendered = segment.render(&input_for("3-5-sonnet-20241022"), &entries);
    assert_ne!(rendered, "\u{f09d3} $0.000");
    assert!(rendered.starts_with("\u{f09d3} $"));
}

#[test]
fn sonnet_thousand_and_five_hundred_costs_a_cent() {
    let mut u = usage_none();
    u.input_tokens = Some(1000);
    u.output_tokens = Some(500);
    u.cache_creation_input_tokens = Some(0);
    u.cache_read_input_tokens = Some(0);
    let entries = vec![assistant_entry(u)];
    let segment = CostSegment::new(true);
    let rendered = segment.render(&input_for("3-5-sonnet-20241022"), &entries);
    assert_eq!(rendered, "\u{f09d3} $0.010");
}

#[test]
fn tiny_costs_show_four_decimals() {
    let mut u = usage_none();
    u.input_tokens = Some(1000);
    let entries = vec![assistant_entry(u)];
    let segment = CostSegment::new(true);
    let rendered = segment.render(&input_for("3-5-sonnet-20241022"), &entries);
    assert_eq!(rendered, "\u{f09d3} $0.0030");
}

#[test]
fn large_costs_show_two_decimals() {
    let mut u = usage_none();
    u.input_tokens = Some(1_000_000);
    let entries = vec![assistant_entry(u)];
    let segment = CostSegment::new(true);
    let rendered = segment.render(&input_for("gpt-4"), &entries);
    assert_eq!(rendered, "\u{f09d3} $30.00");
}

#[test]
fn cost_display_precision_by_magnitude() {
    // Exact costs in hundredths of a microdollar.
    assert_eq!(cost_display(300_000), "$0.0030");
    assert_eq!(cost_display(999_999), "$0.0100");
    assert_eq!(cost_display(1_000_000), "$0.010");
    assert_eq!(cost_display(99_900_000), "$0.999");
    assert_eq!(cost_display(100_000_000), "$1.00");
    assert_eq!(cost_display(123_456_789), "$1.23");
}

#[test]
fn glm_split_prefers_reported_total() {
    let mut u = usage_none();
    u.total_tokens = Some(1000);
    let entries = vec![assistant_entry(u)];
    let segment = CostSegment::new(true);
    let totals = segment.parse_transcript_costs(&entries, "glm-4.5");
    assert_eq!(totals, (700, 300));
    let rendered = segment.render(&input_for("glm-4.5-airx"), &entries);
    assert_eq!(rendered, "\u{f09d3} $0.0076");
}

#[test]
fn glm_zero_total_falls_back_to_plain_fields() {
    let mut u = usage_none();
    u.total_tokens = Some(0);
    u.input_tokens = Some(10);
    u.output_tokens = Some(20);
    let entries = vec![assistant_entry(u)];
    let segment = CostSegment::new(true);
    assert_eq!(segment.parse_transcript_costs(&entries, "glm-4"), (10, 20));
}

#[test]
fn aggregation_scans_the_whole_transcript() {
    let mut first = usage_none();
    first.input_tokens = Some(100);
    first.output_tokens = Some(10);
    let mut second = usage_none();
    second.input_tokens = Some(200);
    second.output_tokens = Some(20);
    let entries = vec![assistant_entry(first), assistant_entry(second)];
    let segment = CostSegment::new(true);
    assert_eq!(segment.parse_transcript_costs(&entries, "gpt-4"), (300, 30));
}

#[test]
fn cache_fields_count_as_input_for_sonnet() {
    let mut u = usage_none();
    u.input_tokens = Some(100);
    u.cache_creation_input_tokens = Some(50);
    u.cache_read_input_tokens = Some(25);
    u.output_tokens = Some(40);
    let entries = vec![assistant_entry(u)];
    let segment = CostSegment::new(true);
    assert_eq!(segment.parse_transcript_costs(&entries, "3-haiku-20240307"), (175, 40));
}

#[test]
fn pricing_table_misses_cost_nothing() {
    assert_eq!(get_pricing("gpt-4"), Some((3000, 6000)));
    assert_eq!(get_pricing("glm-4.5"), Some((400, 1600)));
    assert_eq!(get_pricing("unpriced-model"), None);
    let segment = CostSegment::new(true);
    assert_eq!(segment.calculate_total_cost(1000, 1000, "unpriced-model"), 0);
}

#[test]
fn disabled_cost_segment_renders_empty() {
    let segment = CostSegment::new(false);
    let entries: Vec<TranscriptEntry> = Vec::new();
    assert_eq!(segment.render(&input_for("gpt-4"), &entries), "");
}
