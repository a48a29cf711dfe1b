use statusline::Message;
use statusline::TranscriptEntry;
use statusline::Usage;
use statusline::UsageSegment;
use statusline::calculate_input_tokens;
use statusline::parse_transcript_usage;
use statusline::usage::percent_display;
use statusline::usage::tokens_display;

fn usage_none() -> Usage {
    Usage {
        input_tokens: None,
        output_tokens: None,
        cache_creation_input_tokens: None,
        cache_read_input_tokens: None,
        prompt_tokens: None,
        completion_tokens: None,
        total_tokens: None,
    }
}

fn assistant_entry(u: Usage) -> TranscriptEntry {
    TranscriptEntry {
        entry_type: String::from("assistant"),
        message: Some(Message {
            id: None,
            message_type: String::from("message"),
            role: String::from("assistant"),
            model: None,
            content: None,
            usage: Some(u),
        }),
        cwd: None,
        git_branch: None,
        uuid: None,
        timestamp: None,
    }
}

fn user_entry() -> TranscriptEntry {
    TranscriptEntry {
        entry_type: String::from("user"),
        message: None,
        cwd: None,
        git_branch: None,
        uuid: None,
        timestamp: None,
    }
}

#[test]
fn all_absent_fields_count_zero() {
    assert_eq!(calculate_input_tokens(&usage_none()), 0);
}

#[test]
fn reported_total_wins_verbatim_even_zero() {
    let mut u = usage_none();
    u.total_tokens = Some(0);
    u.input_tokens = Some(123);
    assert_eq!(calculate_input_tokens(&u), 0);
    u.total_tokens = Some(77);
    assert_eq!(calculate_input_tokens(&u), 77);
}

#[test]
fn sonnet_sum_counts_cache_fields() {
    let mut u = usage_none();
    u.input_tokens = Some(1000);
    u.cache_creation_input_tokens = Some(200);
    u.cache_read_input_tokens = Some(300);
    assert_eq!(calculate_input_tokens(&u), 1500);
}

#[test]
fn prompt_falls_back_to_output_for_completion() {
    let mut u = usage_none();
    u.prompt_tokens = Some(100);
    u.output_tokens = Some(50);
    assert_eq!(calculate_input_tokens(&u), 150);
    u.completion_tokens = Some(7);
    assert_eq!(calculate_input_tokens(&u), 107);
}

#[test]
fn zero_input_alone_is_a_final_answer() {
    let mut u = usage_none();
    u.input_tokens = Some(0);
    assert_eq!(calculate_input_tokens(&u), 0);
}

#[test]
fn token_display_below_thousand_is_bare() {
    assert_eq!(tokens_display(0), "0");
    assert_eq!(tokens_display(999), "999");
}

#[test]
fn token_display_whole_thousands_have_no_decimal() {
    assert_eq!(tokens_display(1000), "1k");
    assert_eq!(tokens_display(2000), "2k");
    assert_eq!(tokens_display(200000), "200k");
}

#[test]
fn token_display_fractional_thousands_have_one_decimal() {
    assert_eq!(tokens_display(1500), "1.5k");
    assert_eq!(tokens_display(1234), "1.2k");
    assert_eq!(tokens_display(1550), "1.6k");
}

#[test]
fn percent_display_whole_and_fractional() {
    assert_eq!(percent_display(0), "0");
    assert_eq!(percent_display(4000), "2");
    assert_eq!(percent_display(200000), "100");
    assert_eq!(percent_display(1000), "0.5");
    assert_eq!(percent_display(999), "0.5");
    assert_eq!(percent_display(1500), "0.8");
}

#[test]
fn empty_transcript_renders_zero_usage() {
    let segment = UsageSegment::new(true);
    let entries: Vec<TranscriptEntry> = Vec::new();
    assert_eq!(segment.render(&entries), "\u{f49b} 0% \u{b7} 0 tokens");
}

#[test]
fn last_assistant_usage_renders() {
    let mut u = usage_none();
    u.input_tokens = Some(1000);
    u.output_tokens = Some(500);
    u.cache_creation_input_tokens = Some(0);
    u.cache_read_input_tokens = Some(0);
    let entries = vec![assistant_entry(u), user_entry()];
    let segment = UsageSegment::new(true);
    assert_eq!(segment.render(&entries), "\u{f49b} 0.5% \u{b7} 1k tokens");
}

#[test]
fn most_recent_assistant_entry_wins() {
    let mut older = usage_none();
    older.total_tokens = Some(111);
    let mut newer = usage_none();
    newer.total_tokens = Some(3000);
    let entries = vec![assistant_entry(older), assistant_entry(newer), user_entry()];
    assert_eq!(parse_transcript_usage(&entries), 3000);
}

#[test]
fn disabled_usage_segment_renders_empty() {
    let segment = UsageSegment::new(false);
    let entries: Vec<TranscriptEntry> = Vec::new();
    assert_eq!(segment.render(&entries), "");
}

#[test]
fn tokens_for_model_dispatches_by_family() {
    let segment = UsageSegment::new(true);
    let mut u = usage_none();
    u.input_tokens = Some(100);
    u.output_tokens = Some(40);
    u.cache_creation_input_tokens = Some(10);
    u.cache_read_input_tokens = Some(5);
    u.total_tokens = Some(1000);
    assert_eq!(segment.calculate_tokens_for_model(&u, "glm-4.5"), 1000);
    assert_eq!(segment.calculate_tokens_for_model(&u, "gpt-4"), 140);
    assert_eq!(segment.calculate_tokens_for_model(&u, "3-5-sonnet-20241022"), 115);
    assert_eq!(segment.calculate_tokens_for_model(&u, "anything-else"), 115);
    u.total_tokens = Some(0);
    assert_eq!(segment.calculate_tokens_for_model(&u, "glm-4"), 140);
}
