use shellmind::backend::{
    BackendCall, BackendReply, Candidate, GeminiContent, GeminiPart, GeminiResponse,
};
use shellmind::config::{ApiType, ConfigManager, ShellmindConfig};
use shellmind::execution::Execution;
use shellmind::gate::ConfirmationDecision;
use shellmind::history::{Role, Turn};
use shellmind::io::{CommandExit, IoReply, IoRequest};
use shellmind::managers::CommandHistoryManager;
use shellmind::plan::ToolPlan;
use shellmind::session::{Action, Effect, Event, Gated, Phase, Session, Step};
use shellmind::tools::{builtin_registry, Tool};

fn s(t: &str) -> String {
    t.to_string()
}

fn config() -> ShellmindConfig {
    let mut c = ConfigManager::default_configuration(s("key"));
    c.system_prompt = s("Be brief.");
    c.model_name = s("m");
    c
}

fn session() -> Session<Tool> {
    Session::new(config(), builtin_registry(), CommandHistoryManager::new())
}

fn answer(text: &str) -> Event {
    Event::Backend(BackendReply::Answered(GeminiResponse {
        candidates: vec![Candidate {
            content: GeminiContent { role: s("model"), parts: vec![GeminiPart { text: s(text) }] },
        }],
    }))
}

fn turns(session: &Session<Tool>) -> Vec<(Role, String)> {
    session.history().turns().into_iter().map(|t| (t.role, t.text)).collect()
}

fn opening() -> Vec<(Role, String)> {
    vec![
        (Role::User, s("Be brief.")),
        (Role::Model, s("Okay, I'm ready. What can I help you with?")),
    ]
}

/// Enters `line` and answers with `suggestion`.
fn suggest(line: &str, suggestion: &str) -> (Session<Tool>, Step) {
    let (session, step) = session().step(Event::Line(s(line)));
    assert!(matches!(step.action, Action::Generate(_)));
    assert_eq!(step.effects, vec![Effect::Status(s("Generating command..."))]);
    session.step(answer(suggestion))
}

#[test]
fn new_session_opens_the_conversation_and_waits() {
    let session = session();
    assert_eq!(turns(&session), opening());
    assert_eq!(session.phase(), &Phase::AwaitingInput);
    assert_eq!(session.history().len(), 2);
    assert_eq!(
        session.history().get(0),
        Some(&Turn { role: Role::User, text: s("Be brief.") })
    );
    assert_eq!(session.history().get(2), None);
    assert!(session.command_history().get_history().is_empty());
    assert_eq!(session.registry().len(), 11);
}

#[test]
fn empty_line_asks_again() {
    for line in ["", "   ", "\t\n"] {
        let (session, step) = session().step(Event::Line(s(line)));
        assert_eq!(step, Step { effects: vec![], action: Action::ReadLine });
        assert_eq!(session.phase(), &Phase::AwaitingInput);
        assert_eq!(turns(&session), opening());
    }
}

#[test]
fn exit_word_ends_the_session() {
    for line in ["exit", "EXIT", "  Exit \n", "eXiT"] {
        let (session, step) = session().step(Event::Line(s(line)));
        assert_eq!(
            step,
            Step { effects: vec![Effect::Print(s("Shutting down Shellmind."))], action: Action::Stop }
        );
        assert_eq!(session.phase(), &Phase::Ended);
        let (session, step) = session.step(Event::Line(s("ls")));
        assert_eq!(step, Step { effects: vec![], action: Action::Stop });
        assert_eq!(session.phase(), &Phase::Ended);
    }
    let (_, step) = session().step(Event::Line(s("exit now")));
    assert!(matches!(step.action, Action::Generate(_)));
    let (_, step) = session().step(Event::Line(s("exi")));
    assert!(matches!(step.action, Action::Generate(_)));
}

#[test]
fn end_of_input_and_interrupt_end_the_session() {
    let (session, step) = session().step(Event::Interrupted);
    assert_eq!(
        step.effects,
        vec![
            Effect::Print(s("Ctrl-C received, exiting.")),
            Effect::Print(s("Shutting down Shellmind."))
        ]
    );
    assert_eq!(step.action, Action::Stop);
    assert_eq!(session.phase(), &Phase::Ended);
    let (_, step) = self::session().step(Event::EndOfInput);
    assert_eq!(
        step.effects,
        vec![
            Effect::Print(s("Ctrl-D received, exiting.")),
            Effect::Print(s("Shutting down Shellmind."))
        ]
    );
    assert_eq!(step.action, Action::Stop);
}

#[test]
fn read_failure_is_reported_and_the_loop_goes_on() {
    let (session, step) = session().step(Event::ReadFailed(s("bad terminal")));
    assert_eq!(
        step,
        Step {
            effects: vec![Effect::Error(s("Error reading input: bad terminal"))],
            action: Action::ReadLine
        }
    );
    assert_eq!(session.phase(), &Phase::AwaitingInput);
}

#[test]
fn line_is_trimmed_and_sent_with_the_whole_conversation() {
    let (session, step) = session().step(Event::Line(s("  list files \n")));
    assert_eq!(session.phase(), &Phase::Generating { input: s("list files") });
    match step.action {
        Action::Generate(BackendCall::Rest { url, body }) => {
            assert_eq!(
                url,
                "https://generativelanguage.googleapis.com/v1beta/models/m:generateContent?key=key"
            );
            let said: Vec<(String, Vec<String>)> = body
                .contents
                .into_iter()
                .map(|c| (c.role, c.parts.into_iter().map(|p| p.text).collect()))
                .collect();
            assert_eq!(
                said,
                vec![
                    (s("user"), vec![s("Be brief.")]),
                    (s("model"), vec![s("Okay, I'm ready. What can I help you with?")]),
                    (s("user"), vec![s("list files")]),
                ]
            );
            assert_eq!(body.generation_config.unwrap().temperature_bits, 0.2f32.to_bits());
        }
        other => panic!("no call over HTTP: {:?}", other),
    }
}

#[test]
fn backend_failure_is_reported_and_not_recorded() {
    let (session, _) = session().step(Event::Line(s("ls")));
    let (session, step) = session.step(Event::Backend(BackendReply::Rejected {
        status: s("500 Internal Server Error"),
        body: s("oops"),
    }));
    assert_eq!(
        step,
        Step {
            effects: vec![
                Effect::Status(s("Command generation complete.")),
                Effect::Error(s(
                    "Error generating command: API request failed with status: 500 Internal Server Error - oops"
                )),
            ],
            action: Action::ReadLine
        }
    );
    assert_eq!(session.phase(), &Phase::AwaitingInput);
    assert_eq!(turns(&session), opening());
    assert!(session.command_history().get_history().is_empty());
}

#[test]
fn informational_message_is_shown_and_recorded_without_execution() {
    let (session, step) = suggest("how?", "Like this:\n  ls\n");
    assert_eq!(
        step,
        Step {
            effects: vec![
                Effect::Status(s("Command generation complete.")),
                Effect::Suggestion(s("Like this:\n  ls")),
                Effect::Print(s("\nLike this:\n  ls\n")),
            ],
            action: Action::ReadLine
        }
    );
    assert_eq!(session.phase(), &Phase::AwaitingInput);
    let mut expected = opening();
    expected.push((Role::User, s("how?")));
    expected.push((Role::Model, s("Like this:\n  ls\n")));
    assert_eq!(turns(&session), expected);
    assert!(session.command_history().get_history().is_empty());
}

#[test]
fn list_directory_call_runs_unattended_and_lists_sorted() {
    let (session, step) = suggest("what is here?", "list_directory({\"path\": \".\"})");
    assert_eq!(
        step,
        Step {
            effects: vec![
                Effect::Status(s("Command generation complete.")),
                Effect::Suggestion(s("list_directory({\"path\": \".\"})")),
                Effect::Status(s("Executing tool: List Directory")),
            ],
            action: Action::Perform(IoRequest::ListDirectory { path: s(".") })
        }
    );
    assert!(matches!(session.phase(), Phase::Executing { shell: false, .. }));
    assert_eq!(turns(&session), opening());
    let (session, step) =
        session.step(Event::Work(IoReply::Names(vec![s("src"), s("Cargo.toml"), s("README.md")])));
    assert_eq!(
        step,
        Step {
            effects: vec![
                Effect::Status(s("Tool output: Cargo.toml\nREADME.md\nsrc")),
                Effect::WriteCommandLog(s("what is here?")),
            ],
            action: Action::ReadLine
        }
    );
    assert_eq!(session.phase(), &Phase::AwaitingInput);
    let mut expected = opening();
    expected.push((Role::User, s("what is here?")));
    expected.push((Role::Model, s("list_directory({\"path\": \".\"})")));
    assert_eq!(turns(&session), expected);
    assert_eq!(session.command_history().get_history(), &vec![s("what is here?")]);
}

#[test]
fn shell_command_always_allowed_is_persisted_and_then_run() {
    let (session, step) = suggest("clean up", "rm -rf /tmp/test");
    assert_eq!(
        step,
        Step {
            effects: vec![
                Effect::Status(s("Command generation complete.")),
                Effect::Suggestion(s("rm -rf /tmp/test")),
            ],
            action: Action::Choose(s("rm -rf /tmp/test"))
        }
    );
    assert_eq!(
        session.phase(),
        &Phase::Gating { input: s("clean up"), suggestion: s("rm -rf /tmp/test"), tool: None }
    );
    assert!(session.config().allowed_commands.is_empty());
    let (session, step) = session.step(Event::Chosen(ConfirmationDecision::AlwaysAllow));
    assert_eq!(
        step,
        Step {
            effects: vec![
                Effect::SaveConfiguration,
                Effect::Print(s("Çalıştırılıyor: rm -rf /tmp/test")),
            ],
            action: Action::Perform(IoRequest::RunCommand { command: s("rm -rf /tmp/test") })
        }
    );
    assert_eq!(session.config().allowed_commands, vec![s("rm -rf /tmp/test")]);
    assert_eq!(
        session.phase(),
        &Phase::Executing {
            input: s("clean up"),
            suggestion: s("rm -rf /tmp/test"),
            run: Execution::Shell,
            shell: true
        }
    );
    let (session, step) = session.step(Event::Work(IoReply::Exit(CommandExit {
        success: true,
        code: Some(0),
        stdout: s("done\n"),
        stderr: s(""),
    })));
    assert_eq!(
        step,
        Step {
            effects: vec![
                Effect::Output(s("done\n")),
                Effect::ErrorOutput(s("")),
                Effect::WriteCommandLog(s("clean up")),
            ],
            action: Action::ReadLine
        }
    );
    assert_eq!(session.config().allowed_commands, vec![s("rm -rf /tmp/test")]);
    let mut expected = opening();
    expected.push((Role::User, s("clean up")));
    expected.push((Role::Model, s("rm -rf /tmp/test")));
    assert_eq!(turns(&session), expected);
}

#[test]
fn allowed_command_is_asked_about_again() {
    let mut c = config();
    c.add_allowed_command("rm -rf /tmp/test");
    let session = Session::new(c, builtin_registry(), CommandHistoryManager::new());
    let (session, _) = session.step(Event::Line(s("clean up")));
    let (session, step) = session.step(answer("rm -rf /tmp/test"));
    assert_eq!(step.action, Action::Choose(s("rm -rf /tmp/test")));
    let (session, step) = session.step(Event::Chosen(ConfirmationDecision::AlwaysAllow));
    assert!(matches!(step.action, Action::Perform(_)));
    assert_eq!(session.config().allowed_commands, vec![s("rm -rf /tmp/test")]);
}

#[test]
fn shell_command_run_once_is_not_persisted() {
    let (session, _) = suggest("clean up", "rm -rf /tmp/test");
    let (session, step) = session.step(Event::Chosen(ConfirmationDecision::RunOnce));
    assert_eq!(
        step,
        Step {
            effects: vec![Effect::Print(s("Çalıştırılıyor: rm -rf /tmp/test"))],
            action: Action::Perform(IoRequest::RunCommand { command: s("rm -rf /tmp/test") })
        }
    );
    assert!(session.config().allowed_commands.is_empty());
    let (session, step) = session.step(Event::Work(IoReply::Exit(CommandExit {
        success: false,
        code: Some(1),
        stdout: s(""),
        stderr: s("rm: cannot remove\n"),
    })));
    assert_eq!(
        step,
        Step {
            effects: vec![
                Effect::Output(s("")),
                Effect::ErrorOutput(s("rm: cannot remove\n")),
                Effect::Error(s("Komut hata koduyla çıktı: Some(1)")),
                Effect::WriteCommandLog(s("clean up")),
            ],
            action: Action::ReadLine
        }
    );
    assert_eq!(session.phase(), &Phase::AwaitingInput);
    assert_eq!(turns(&session).len(), 4);
}

#[test]
fn shell_command_declined_is_recorded_and_not_run() {
    let (session, _) = suggest("clean up", "rm -rf /tmp/test");
    let (session, step) = session.step(Event::Chosen(ConfirmationDecision::Deny));
    assert_eq!(
        step,
        Step {
            effects: vec![
                Effect::Print(s("Komut çalıştırılmadı.")),
                Effect::WriteCommandLog(s("clean up")),
            ],
            action: Action::ReadLine
        }
    );
    assert!(session.config().allowed_commands.is_empty());
    let mut expected = opening();
    expected.push((Role::User, s("clean up")));
    expected.push((Role::Model, s("rm -rf /tmp/test")));
    assert_eq!(turns(&session), expected);
}

#[test]
fn answer_without_candidates_becomes_a_shell_command() {
    let (session, _) = session().step(Event::Line(s("hm")));
    let (session, step) =
        session.step(Event::Backend(BackendReply::Answered(GeminiResponse { candidates: vec![] })));
    assert_eq!(
        step,
        Step {
            effects: vec![
                Effect::Status(s("Command generation complete.")),
                Effect::Suggestion(s("No command generated")),
            ],
            action: Action::Choose(s("No command generated"))
        }
    );
    assert_eq!(
        session.phase(),
        &Phase::Gating { input: s("hm"), suggestion: s("No command generated"), tool: None }
    );
}

#[test]
fn write_file_denied_is_recorded_and_not_run() {
    let suggestion = "write_file({\"path\": \"/x\", \"content\": \"y\"})";
    let (session, step) = suggest("write it", suggestion);
    assert_eq!(
        step,
        Step {
            effects: vec![
                Effect::Status(s("Command generation complete.")),
                Effect::Suggestion(s(suggestion)),
            ],
            action: Action::Confirm(s("This will write content to a file. Are you sure?"))
        }
    );
    assert_eq!(
        session.phase(),
        &Phase::Gating {
            input: s("write it"),
            suggestion: s(suggestion),
            tool: Some(Gated {
                display_name: s("Write File"),
                plan: ToolPlan::WriteFile { path: s("/x"), content: s("y") }
            })
        }
    );
    let (session, step) = session.step(Event::Answered(false));
    assert_eq!(
        step,
        Step {
            effects: vec![
                Effect::Status(s("Tool execution cancelled.")),
                Effect::WriteCommandLog(s("write it")),
            ],
            action: Action::ReadLine
        }
    );
    assert_eq!(session.phase(), &Phase::AwaitingInput);
    let mut expected = opening();
    expected.push((Role::User, s("write it")));
    expected.push((Role::Model, s(suggestion)));
    assert_eq!(turns(&session), expected);
}

#[test]
fn write_file_confirmed_runs_once() {
    let suggestion = "write_file({\"path\": \"/x\", \"content\": \"y\"})";
    let (session, _) = suggest("write it", suggestion);
    let (session, step) = session.step(Event::Answered(true));
    assert_eq!(
        step,
        Step {
            effects: vec![Effect::Status(s("Executing tool: Write File"))],
            action: Action::Perform(IoRequest::WriteFile { path: s("/x"), content: s("y") })
        }
    );
    let (session, step) = session.step(Event::Work(IoReply::Failed(s("read-only"))));
    assert_eq!(
        step,
        Step {
            effects: vec![
                Effect::Error(s("Tool error: Failed to write to file '/x': read-only")),
                Effect::WriteCommandLog(s("write it")),
            ],
            action: Action::ReadLine
        }
    );
    assert_eq!(session.phase(), &Phase::AwaitingInput);
}

#[test]
fn tool_with_missing_argument_fails_without_work() {
    let (session, step) = suggest("read", "read_file({})");
    assert_eq!(
        step,
        Step {
            effects: vec![
                Effect::Status(s("Command generation complete.")),
                Effect::Suggestion(s("read_file({})")),
                Effect::Status(s("Executing tool: Read File")),
                Effect::Error(s("Tool error: Missing 'path' parameter for ReadFileTool")),
                Effect::WriteCommandLog(s("read")),
            ],
            action: Action::ReadLine
        }
    );
    assert_eq!(session.phase(), &Phase::AwaitingInput);
    assert_eq!(turns(&session).len(), 4);
}

#[test]
fn unknown_tool_is_reported_and_nothing_runs() {
    let (session, step) = suggest("fly", "launch_rocket({})");
    assert_eq!(
        step,
        Step {
            effects: vec![
                Effect::Status(s("Command generation complete.")),
                Effect::Suggestion(s("launch_rocket({})")),
                Effect::Error(s("Unknown tool: launch_rocket")),
                Effect::WriteCommandLog(s("fly")),
            ],
            action: Action::ReadLine
        }
    );
    assert_eq!(session.phase(), &Phase::AwaitingInput);
}

#[test]
fn edit_takes_two_pieces_of_work() {
    let (session, _) = suggest(
        "fix",
        "edit_file({\"file_path\": \"f\", \"old_string\": \"a\", \"new_string\": \"b\"})",
    );
    let (session, step) = session.step(Event::Answered(true));
    assert_eq!(step.action, Action::Perform(IoRequest::ReadFile { path: s("f") }));
    let (session, step) = session.step(Event::Work(IoReply::Content(s("banana"))));
    assert_eq!(
        step,
        Step {
            effects: vec![],
            action: Action::Perform(IoRequest::WriteFile { path: s("f"), content: s("bbnbnb") })
        }
    );
    let (session, step) = session.step(Event::Work(IoReply::Written));
    assert_eq!(
        step.effects,
        vec![
            Effect::Status(s("Tool output: Successfully edited file 'f'.")),
            Effect::WriteCommandLog(s("fix")),
        ]
    );
    assert_eq!(session.phase(), &Phase::AwaitingInput);
}

#[test]
fn command_log_holds_every_recorded_line() {
    let (session, _) = suggest("first", "save_memory({\"fact\": \"x\"})");
    let (session, _) = session.step(Event::Line(s("second")));
    let (session, step) = session.step(answer("google_web_search({\"query\": \"q\"})"));
    assert_eq!(
        step.effects,
        vec![
            Effect::Status(s("Command generation complete.")),
            Effect::Suggestion(s("google_web_search({\"query\": \"q\"})")),
            Effect::Status(s("Executing tool: Google Web Search")),
            Effect::Status(s(
                "Tool output: Search results for 'q': [Dummy result from Google Search]"
            )),
            Effect::WriteCommandLog(s("first\nsecond")),
        ]
    );
    assert_eq!(session.command_history().get_history(), &vec![s("first"), s("second")]);
    assert_eq!(turns(&session).len(), 6);
}

#[test]
fn event_out_of_turn_abandons_the_turn() {
    let (session, _) = suggest("clean up", "rm -rf /tmp/test");
    let (session, step) = session.step(Event::Answered(true));
    assert_eq!(
        step,
        Step {
            effects: vec![Effect::Error(s("Unexpected event; the turn is abandoned."))],
            action: Action::ReadLine
        }
    );
    assert_eq!(session.phase(), &Phase::AwaitingInput);
    assert_eq!(turns(&session), opening());
    let (_, step) = self::session().step(Event::Work(IoReply::Written));
    assert_eq!(step.action, Action::ReadLine);
}

#[test]
fn grpc_with_bad_endpoint_fails_before_any_call() {
    let mut c = config();
    c.api_type = ApiType::Grpc;
    c.grpc_endpoint = s("not a uri");
    let session = Session::new(c, builtin_registry(), CommandHistoryManager::new());
    let (session, step) = session.step(Event::Line(s("ls")));
    assert_eq!(step.action, Action::ReadLine);
    assert_eq!(step.effects.len(), 3);
    assert_eq!(step.effects[0], Effect::Status(s("Generating command...")));
    assert_eq!(step.effects[1], Effect::Status(s("Command generation complete.")));
    match &step.effects[2] {
        Effect::Error(text) => assert!(
            text.starts_with("Error generating command: Backend unavailable: Invalid URI: "),
            "{}",
            text
        ),
        other => panic!("no error: {:?}", other),
    }
    assert_eq!(session.phase(), &Phase::AwaitingInput);
}

#[test]
fn session_does_not_open_without_a_key() {
    let mut c = config();
    c.api_key = s("");
    match Session::open(c, builtin_registry(), CommandHistoryManager::new()) {
        Err(e) => assert_eq!(
            e.message(),
            "Other error: API Key is not set. Please set it using the config command or GEMINI_API_KEY environment variable."
        ),
        Ok(_) => panic!("opened without a key"),
    }
    let opened = Session::open(config(), builtin_registry(), CommandHistoryManager::from_text("a\nb"));
    match opened {
        Ok(session) => {
            assert_eq!(turns(&session), opening());
            assert_eq!(session.command_history().get_history(), &vec![s("a"), s("b")]);
            assert_eq!(session.phase(), &Phase::AwaitingInput);
        }
        Err(e) => panic!("did not open: {:?}", e),
    }
}
