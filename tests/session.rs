use llama_interactive::dispatch::Mode;
use llama_interactive::metadata::{parse_metadata, RunMetadata};
use llama_interactive::session::{
    choose_launch, default_system_prompt, generation_commands, is_usable_input, scripted_commands,
    scripted_reply,
    turn_closing, turn_opening, Command, Launch, Session,
};

fn args(items: &[&str]) -> Vec<String> {
    items.iter().map(|s| s.to_string()).collect()
}

#[test]
fn prompt_argument_selects_scripted_run() {
    for compute_single in [false, true] {
        let launch = choose_launch(&args(&["llama", "model", "Tell me a joke"]), compute_single);
        assert_eq!(launch, Launch::Scripted("Tell me a joke".to_string()));
    }
}

#[test]
fn without_prompt_the_session_is_interactive() {
    assert_eq!(choose_launch(&args(&["llama", "model"]), false), Launch::Interactive(Mode::Batch));
    assert_eq!(
        choose_launch(&args(&["llama", "model"]), true),
        Launch::Interactive(Mode::Incremental)
    );
}

#[test]
fn scripted_run_runs_the_backend_once_and_succeeds() {
    let commands = scripted_commands("Tell me a joke");
    assert_eq!(
        commands,
        vec![
            Command::Submit("Tell me a joke".to_string()),
            Command::RunToCompletion,
            Command::ReadOutput(false),
            Command::ShowTrimmedOutput,
            Command::Exit(0),
        ]
    );
    let runs = commands
        .iter()
        .filter(|c| matches!(c, Command::RunToCompletion | Command::RunOneStep))
        .count();
    assert_eq!(runs, 1);
}

#[test]
fn session_transcript_grows_turn_by_turn() {
    let mut s = Session::new("SYS".to_string(), Mode::Batch, true, false);
    assert_eq!(s.prompt(), "");
    s.add_user_turn("hi\n");
    assert_eq!(s.prompt(), "[INST] SYS hi [/INST]");
    s.add_model_output(" hello \n");
    assert_eq!(s.prompt(), "[INST] SYS hi [/INST] hello ");
    s.add_user_turn("  more  ");
    assert_eq!(s.prompt(), "[INST] SYS hi [/INST] hello  [INST] more [/INST]");
    s.add_model_output("");
    assert_eq!(s.prompt(), "[INST] SYS hi [/INST] hello  [INST] more [/INST]  ");
    assert_eq!(s.mode(), Mode::Batch);
    assert!(s.enable_log());
    assert!(!s.stream_stdout());
}

#[test]
fn blank_lines_are_not_input() {
    assert!(!is_usable_input(""));
    assert!(!is_usable_input("\n"));
    assert!(!is_usable_input("\r\n"));
    assert!(!is_usable_input("  \t \n"));
    assert!(is_usable_input(" hi\n"));
}

#[test]
fn system_prompt_text() {
    let p = default_system_prompt();
    assert!(p.starts_with("<<SYS>>You are a helpful"));
    assert!(p.ends_with("<</SYS>>"));
}

#[test]
fn metadata_token_counts() {
    let m = parse_metadata("{\"input_tokens\": 12, \"output_tokens\": 34, \"llama_build_number\": 1}");
    assert_eq!(m, Some(RunMetadata { input_tokens: Some(12), output_tokens: Some(34) }));
}

#[test]
fn metadata_missing_members() {
    let m = parse_metadata("{\"input_tokens\": 7}");
    assert_eq!(m, Some(RunMetadata { input_tokens: Some(7), output_tokens: None }));
    let m = parse_metadata("{\"input_tokens\": -3, \"output_tokens\": \"5\"}");
    assert_eq!(m, Some(RunMetadata { input_tokens: None, output_tokens: None }));
}

#[test]
fn metadata_not_filled_in_fails() {
    assert_eq!(parse_metadata("not json"), None);
    assert_eq!(parse_metadata(""), None);
    assert_eq!(parse_metadata("\u{0}\u{0}\u{0}"), None);
}

#[test]
fn scripted_reply_is_trimmed() {
    assert_eq!(scripted_reply("  Why did the chicken... \n"), "Why did the chicken...");
}

#[test]
fn turn_opening_submits_the_transcript() {
    let mut s = Session::new("SYS".to_string(), Mode::Incremental, false, false);
    s.add_user_turn("hi");
    assert_eq!(
        turn_opening(&s),
        vec![Command::Submit("[INST] SYS hi [/INST]".to_string()), Command::ReadMetadata]
    );
}

#[test]
fn generation_units_run_once() {
    assert_eq!(
        generation_commands(Mode::Batch),
        vec![Command::RunToCompletion, Command::ReadOutput(false)]
    );
    assert_eq!(
        generation_commands(Mode::Incremental),
        vec![Command::RunOneStep, Command::ReadOutput(true)]
    );
}

#[test]
fn closing_finalizes_only_incremental_turns() {
    assert_eq!(turn_closing(Mode::Batch), vec![Command::ReadMetadata]);
    assert_eq!(
        turn_closing(Mode::Incremental),
        vec![Command::FinalizeStep, Command::ReadMetadata]
    );
}
