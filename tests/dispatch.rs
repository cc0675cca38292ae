use llama_interactive::dispatch::{
    batch_generation, BackendOutcome, GenerationResult, IncrementalRun, Notice, StepAction,
    TruncatedReason,
};

fn drive(outcomes: Vec<BackendOutcome>) -> (GenerationResult, Vec<String>, Vec<String>) {
    let mut run = IncrementalRun::new();
    let mut emitted = Vec::new();
    let mut notices = Vec::new();
    for outcome in outcomes {
        assert!(!run.is_stopped());
        match run.on_outcome(outcome) {
            StepAction::Emit(token) => emitted.push(token),
            StepAction::Stop(notice) => {
                if let Some(n) = notice {
                    notices.push(n.message());
                }
                break;
            }
        }
    }
    assert!(run.is_stopped());
    (run.finish(), emitted, notices)
}

#[test]
fn tokens_then_end_of_sequence() {
    let (result, emitted, notices) = drive(vec![
        BackendOutcome::Produced("Hel".to_string()),
        BackendOutcome::Produced("lo".to_string()),
        BackendOutcome::EndOfSequence,
    ]);
    assert_eq!(
        result,
        GenerationResult { text: "Hello".to_string(), truncated_reason: TruncatedReason::EndOfSequence }
    );
    assert_eq!(emitted, vec!["Hel".to_string(), "lo".to_string()]);
    assert!(notices.is_empty());
}

#[test]
fn context_full_at_once() {
    let (result, emitted, notices) = drive(vec![BackendOutcome::ContextFull]);
    assert_eq!(
        result,
        GenerationResult { text: String::new(), truncated_reason: TruncatedReason::ContextFull }
    );
    assert!(emitted.is_empty());
    assert_eq!(notices, vec!["[INFO] Context full".to_string()]);
}

#[test]
fn prompt_too_long_after_a_token() {
    let (result, emitted, notices) = drive(vec![
        BackendOutcome::Produced("Hi".to_string()),
        BackendOutcome::PromptTooLong,
    ]);
    assert_eq!(result.text, "Hi");
    assert_eq!(result.truncated_reason, TruncatedReason::PromptTooLong);
    assert_eq!(emitted, vec!["Hi".to_string()]);
    assert_eq!(notices, vec!["[INFO] Prompt too long".to_string()]);
}

#[test]
fn other_error_reports_its_message() {
    let (result, _, notices) = drive(vec![BackendOutcome::Failed("boom".to_string())]);
    assert_eq!(result.text, "");
    assert_eq!(result.truncated_reason, TruncatedReason::OtherError("boom".to_string()));
    assert_eq!(notices, vec!["[ERROR] boom".to_string()]);
}

#[test]
fn tokens_are_not_trimmed() {
    let (result, emitted, _) = drive(vec![
        BackendOutcome::Produced(" a".to_string()),
        BackendOutcome::Produced(" b\n".to_string()),
        BackendOutcome::EndOfSequence,
    ]);
    assert_eq!(result.text, " a b\n");
    assert_eq!(emitted, vec![" a".to_string(), " b\n".to_string()]);
}

#[test]
fn step_actions() {
    let mut run = IncrementalRun::new();
    assert_eq!(
        run.on_outcome(BackendOutcome::Produced("x".to_string())),
        StepAction::Emit("x".to_string())
    );
    assert_eq!(
        run.on_outcome(BackendOutcome::ContextFull),
        StepAction::Stop(Some(Notice::ContextFull))
    );
}

#[test]
fn batch_trims_and_prints_once() {
    let reply = batch_generation(BackendOutcome::Produced("  answer  ".to_string()), false);
    assert_eq!(reply.result.text, "answer");
    assert_eq!(reply.result.truncated_reason, TruncatedReason::Completed);
    assert_eq!(reply.print, Some("answer".to_string()));
    assert_eq!(reply.notice, None);
}

#[test]
fn batch_streaming_prints_nothing() {
    let reply = batch_generation(BackendOutcome::Produced("  answer  ".to_string()), true);
    assert_eq!(reply.result.text, "answer");
    assert_eq!(reply.print, None);
}

#[test]
fn batch_failures() {
    let r = batch_generation(BackendOutcome::ContextFull, false);
    assert_eq!(r.result.text, "");
    assert_eq!(r.result.truncated_reason, TruncatedReason::ContextFull);
    assert_eq!(r.notice, Some(Notice::ContextFull));
    assert_eq!(r.print, None);
    let r = batch_generation(BackendOutcome::PromptTooLong, false);
    assert_eq!(r.result.truncated_reason, TruncatedReason::PromptTooLong);
    assert_eq!(r.notice.unwrap().message(), "[INFO] Prompt too long");
    let r = batch_generation(BackendOutcome::Failed("bad".to_string()), false);
    assert_eq!(r.result.truncated_reason, TruncatedReason::OtherError("bad".to_string()));
    assert_eq!(r.notice.unwrap().message(), "[ERROR] bad");
    let r = batch_generation(BackendOutcome::EndOfSequence, false);
    assert_eq!(r.result.truncated_reason, TruncatedReason::EndOfSequence);
    assert_eq!(r.notice, None);
}
