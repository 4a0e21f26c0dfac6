use ios_bridge::generation::generate_text;
use ios_bridge::init_engine;
use ios_bridge::model_run::{
    completion_codes, normalize_model_id, plan_model_run, ModelRunPlan, RunOutcome,
};
use ios_bridge::sink::RecordingSink;
use ios_bridge::INIT_SENTINEL;

#[test]
fn init_engine_returns_sentinel() {
    assert_eq!(init_engine(), 1337);
    assert_eq!(init_engine(), INIT_SENTINEL);
}

#[test]
fn init_engine_is_stable_across_calls() {
    let first = init_engine();
    for _ in 0..5 {
        assert_eq!(init_engine(), first);
    }
}

#[test]
fn generate_text_streams_full_plan() {
    let mut sink = RecordingSink::new(None);
    let r = generate_text(Some("the weather"), &mut sink);
    assert_eq!(r, 0);
    assert_eq!(
        sink.tokens,
        vec!["Hello", ",", " ", "tokens", "!", "  You said: ", "the weather"]
    );
    assert_eq!(sink.statuses, vec![0]);
}

#[test]
fn generate_text_echoes_prompt_last() {
    let mut sink = RecordingSink::new(None);
    generate_text(Some("P"), &mut sink);
    assert_eq!(sink.tokens.len(), 7);
    assert_eq!(sink.tokens.last().map(String::as_str), Some("P"));
}

#[test]
fn generate_text_missing_prompt_is_empty_prompt() {
    let mut sink = RecordingSink::new(None);
    let r = generate_text(None, &mut sink);
    assert_eq!(r, 0);
    assert_eq!(sink.tokens.len(), 7);
    assert_eq!(sink.tokens.last().map(String::as_str), Some(""));
    assert_eq!(sink.statuses, vec![0]);
}

#[test]
fn generate_text_stops_after_nonzero_answer() {
    let mut sink = RecordingSink::new(Some(3));
    let r = generate_text(Some("unused"), &mut sink);
    assert_eq!(r, 0);
    assert_eq!(sink.tokens, vec!["Hello", ",", " "]);
    assert_eq!(sink.statuses, vec![0]);
}

#[test]
fn generate_text_stop_on_first_token_still_reports_done() {
    let mut sink = RecordingSink::new(Some(1));
    let r = generate_text(Some("x"), &mut sink);
    assert_eq!(r, 0);
    assert_eq!(sink.tokens, vec!["Hello"]);
    assert_eq!(sink.statuses, vec![0]);
}

#[test]
fn normalize_appends_separator() {
    assert_eq!(normalize_model_id("models/llama"), "models/llama/");
}

#[test]
fn normalize_is_idempotent_on_normalized_input() {
    assert_eq!(normalize_model_id("models/llama/"), "models/llama/");
    let once = normalize_model_id("models/llama");
    assert_eq!(normalize_model_id(&once), once);
}

#[test]
fn normalize_empty_identifier() {
    assert_eq!(normalize_model_id(""), "/");
}

#[test]
fn plan_rejects_missing_identifier() {
    match plan_model_run(None) {
        ModelRunPlan::Rejected => {}
        ModelRunPlan::Run { model_dir } => {
            panic!("missing identifier must be rejected, got {model_dir}")
        }
    }
}

#[test]
fn plan_normalizes_present_identifier() {
    match plan_model_run(Some("models/llama")) {
        ModelRunPlan::Rejected => panic!("present identifier must not be rejected"),
        ModelRunPlan::Run { model_dir } => assert_eq!(model_dir, "models/llama/"),
    }
}

#[test]
fn completion_codes_per_outcome() {
    assert_eq!(completion_codes(RunOutcome::Completed), (0, 0));
    assert_eq!(completion_codes(RunOutcome::RejectedIdentifier), (-1, -1));
    assert_eq!(completion_codes(RunOutcome::ContextCreationFailed), (-1, -1));
    assert_eq!(completion_codes(RunOutcome::EngineFailed), (-1, -1));
}
