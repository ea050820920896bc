use plumise_agent::reporter::{metric_kind, metric_sample, MetricKind};

#[test]
fn counters_are_told_by_name() {
    assert_eq!(metric_kind("llamacpp:tokens_predicted_total"), Some(MetricKind::TokensPredicted));
    assert_eq!(metric_kind("llamacpp_tokens_predicted_total"), Some(MetricKind::TokensPredicted));
    assert_eq!(metric_kind("llamacpp:prompt_tokens_processed_total"), Some(MetricKind::PromptTokens));
    assert_eq!(metric_kind("llamacpp_requests_processing"), Some(MetricKind::RequestsProcessing));
    assert_eq!(metric_kind("llamacpp:prompt_seconds_total"), Some(MetricKind::PromptSeconds));
    assert_eq!(
        metric_kind("llamacpp_tokens_predicted_seconds_total"),
        Some(MetricKind::PredictedSeconds)
    );
    assert_eq!(metric_kind("llamacpp:kv_cache_usage_ratio"), None);
    assert_eq!(metric_kind(""), None);
}

#[test]
fn samples_without_labels() {
    assert_eq!(
        metric_sample("llamacpp:tokens_predicted_total 1234"),
        Some((MetricKind::TokensPredicted, "1234".to_string()))
    );
    assert_eq!(
        metric_sample("  llamacpp:prompt_seconds_total 1.5e+02  "),
        Some((MetricKind::PromptSeconds, "1.5e+02".to_string()))
    );
    assert_eq!(
        metric_sample("llamacpp:requests_processing  7 8"),
        Some((MetricKind::RequestsProcessing, " 7 8".to_string()))
    );
    assert_eq!(
        metric_sample("llamacpp:requests_processing"),
        Some((MetricKind::RequestsProcessing, "0".to_string()))
    );
}

#[test]
fn samples_with_labels() {
    assert_eq!(
        metric_sample("llamacpp:tokens_predicted_total{model=\"m\"}   42 "),
        Some((MetricKind::TokensPredicted, "42".to_string()))
    );
    assert_eq!(
        metric_sample("llamacpp_prompt_tokens_processed_total{a=\"b c\"} 9"),
        Some((MetricKind::PromptTokens, "9".to_string()))
    );
    assert_eq!(metric_sample("llamacpp:tokens_predicted_total} 42"), None);
    assert_eq!(metric_sample("x} llamacpp:tokens_predicted_total{ 42"), None);
}

#[test]
fn other_lines_give_no_sample() {
    for line in [
        "",
        "   ",
        "# HELP llamacpp:tokens_predicted_total Number of tokens.",
        "# TYPE llamacpp:tokens_predicted_total counter",
        "llamacpp:kv_cache_tokens 5",
        "llamacpp:tokens_predicted_total\t5",
    ] {
        assert_eq!(metric_sample(line), None, "{:?}", line);
    }
}
