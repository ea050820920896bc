use plumise_agent::system::{progress_marks, ProgressPhase};

#[test]
fn fraction_follows_the_progress_key() {
    let marks = progress_marks("llm_load_progress: 0.42");
    assert_eq!(marks.fraction, Some("0.42".to_string()));
    assert_eq!(marks.percent, None);
    let marks = progress_marks("I llm_load_progress:0.5  \r");
    assert_eq!(marks.fraction, Some("0.5".to_string()));
    let marks = progress_marks("llm_load_progress: a llm_load_progress: b");
    assert_eq!(marks.fraction, Some("a llm_load_progress: b".to_string()));
    let marks = progress_marks("llm_load_progress:");
    assert_eq!(marks.fraction, Some(String::new()));
}

#[test]
fn percent_stands_before_the_first_percent_sign() {
    let marks = progress_marks("Loading weights:  42%|####      | 5/12");
    assert_eq!(marks.fraction, None);
    assert_eq!(marks.percent, Some(("42".to_string(), ProgressPhase::Loading)));
    let marks = progress_marks("Downloading model.gguf: 12.5% of 4GB, 99% soon");
    assert_eq!(marks.percent, Some(("12.5".to_string(), ProgressPhase::Downloading)));
    let marks = progress_marks("Loading after Download 7%");
    assert_eq!(marks.percent, Some(("7".to_string(), ProgressPhase::Downloading)));
    let marks = progress_marks("Loading %");
    assert_eq!(marks.percent, Some((String::new(), ProgressPhase::Loading)));
    let marks = progress_marks("Loading v1.2.3%");
    assert_eq!(marks.percent, Some(("1.2.3".to_string(), ProgressPhase::Loading)));
}

#[test]
fn other_lines_carry_no_mark() {
    for line in ["", "loading 42%", "Loading done", "progress 42%", "Download 42%"] {
        let marks = progress_marks(line);
        assert_eq!(marks.fraction, None, "{:?}", line);
        assert_eq!(marks.percent, None, "{:?}", line);
    }
}

#[test]
fn both_marks_can_stand_in_one_line() {
    let marks = progress_marks("Loading 10% llm_load_progress: 0.1");
    assert_eq!(marks.fraction, Some("0.1".to_string()));
    assert_eq!(marks.percent, Some(("10".to_string(), ProgressPhase::Loading)));
}
