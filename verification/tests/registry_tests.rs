use statusline::CostSegment;
use statusline::UsageSegment;
use statusline::registry::resolve_model_name;

#[test]
fn glm45_wins_over_glm4_substring() {
    // "glm-4" occurs inside "glm-4.5", yet the more specific pattern is
    // checked first.
    assert_eq!(resolve_model_name("glm-4.5"), "glm-4.5");
    assert_eq!(resolve_model_name("glm-4.5-airx"), "glm-4.5");
    assert_eq!(resolve_model_name("my-glm-4.5-preview"), "glm-4.5");
}

#[test]
fn plain_glm4_resolves_to_glm4() {
    assert_eq!(resolve_model_name("glm-4"), "glm-4");
    assert_eq!(resolve_model_name("glm-4-plus"), "glm-4");
}

#[test]
fn known_families_resolve() {
    assert_eq!(resolve_model_name("3-5-sonnet-20241022"), "3-5-sonnet-20241022");
    assert_eq!(resolve_model_name("3-haiku-20240307"), "3-haiku-20240307");
    assert_eq!(resolve_model_name("gpt-4-turbo"), "gpt-4");
    assert_eq!(resolve_model_name("gpt-3.5-turbo-0125"), "gpt-3.5-turbo");
}

#[test]
fn unknown_names_fall_back_to_sonnet() {
    assert_eq!(resolve_model_name("mystery-model"), "3-5-sonnet-20241022");
    assert_eq!(resolve_model_name(""), "3-5-sonnet-20241022");
}

#[test]
fn both_segments_resolve_the_same_way() {
    assert_eq!(UsageSegment::extract_model_name("glm-4.5-airx"), "glm-4.5");
    assert_eq!(CostSegment::extract_model_name("glm-4.5-airx"), "glm-4.5");
    assert_eq!(UsageSegment::extract_model_name("a-haiku-b"), "3-haiku-20240307");
    assert_eq!(CostSegment::extract_model_name("a-haiku-b"), "3-haiku-20240307");
}
