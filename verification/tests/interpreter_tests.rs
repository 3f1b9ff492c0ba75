use shellmind::interpreter::{classify, read, Interpretation, Reading};
use shellmind::params::ToolParams;
use shellmind::registry::ToolRegistry;
use shellmind::tools::{builtin_registry, LSTool, ReadFileTool, Tool};

fn registry() -> ToolRegistry<Tool> {
    builtin_registry()
}

#[test]
fn text_with_line_feed_is_information() {
    let text = "First do this.\nThen do that.";
    assert_eq!(
        classify(text, &registry()),
        Interpretation::InformationalMessage(text.to_string())
    );
}

#[test]
fn call_with_line_feed_is_still_information() {
    let text = "read_file({\"path\": \"a\"})\n";
    assert_eq!(
        classify(text, &registry()),
        Interpretation::InformationalMessage(text.to_string())
    );
}

#[test]
fn call_of_registered_tool_is_tool_invocation() {
    match classify("list_directory({\"path\": \".\"})", &registry()) {
        Interpretation::ToolCall(call) => {
            assert_eq!(call.name, "list_directory");
            assert_eq!(call.params.get_str("path"), Some("."));
            assert_eq!(call.params.entries.len(), 1);
        }
        other => panic!("not a tool call: {:?}", other),
    }
}

#[test]
fn call_of_unregistered_tool_is_unknown_tool() {
    assert_eq!(
        classify("launch_rocket({})", &registry()),
        Interpretation::UnknownTool("launch_rocket".to_string())
    );
    let mut small: ToolRegistry<Tool> = ToolRegistry::new();
    small.register(Tool::ReadFile(ReadFileTool));
    assert_eq!(
        classify("list_directory({})", &small),
        Interpretation::UnknownTool("list_directory".to_string())
    );
}

#[test]
fn other_single_line_is_shell_command_verbatim() {
    for text in [
        "rm -rf /tmp/test",
        "No command generated",
        "ls -la | grep foo",
        "read_file",
        "read_file(",
        "(x)",
        "read-file(x)",
        "read2(x)",
        "read_file(x) && true",
        "  ls  ",
        "",
    ] {
        assert_eq!(
            classify(text, &registry()),
            Interpretation::ShellCommand(text.to_string())
        );
    }
}

#[test]
fn arguments_that_do_not_parse_count_as_none() {
    match classify("read_file(not json at all)", &registry()) {
        Interpretation::ToolCall(call) => {
            assert_eq!(call.name, "read_file");
            assert_eq!(call.params, ToolParams::new());
        }
        other => panic!("not a tool call: {:?}", other),
    }
    match classify("read_file()", &registry()) {
        Interpretation::ToolCall(call) => assert!(call.params.entries.is_empty()),
        other => panic!("not a tool call: {:?}", other),
    }
}

#[test]
fn outer_white_space_is_dropped_before_matching() {
    match classify("  read_file({\"path\": \"a b\"})\t", &registry()) {
        Interpretation::ToolCall(call) => {
            assert_eq!(call.name, "read_file");
            assert_eq!(call.params.get_str("path"), Some("a b"));
        }
        other => panic!("not a tool call: {:?}", other),
    }
}

#[test]
fn arguments_reach_to_the_last_bracket() {
    assert_eq!(
        read("save_memory({\"fact\": \"f(x) = (1)\"})", &registry()),
        Reading::Call {
            name: "save_memory".to_string(),
            arguments: "{\"fact\": \"f(x) = (1)\"}".to_string(),
        }
    );
    assert_eq!(
        read("a_B(()", &registry()),
        Reading::UnknownTool("a_B".to_string())
    );
}

#[test]
fn reading_agrees_with_the_pattern_of_a_call() {
    let pattern = regex::Regex::new(r"^([a-zA-Z_]+)\((.*)\)$").unwrap();
    let mut one: ToolRegistry<Tool> = ToolRegistry::new();
    one.register(Tool::ListDirectory(LSTool));
    for text in [
        "list_directory({\"path\": \".\"})",
        "list_directory()",
        "list_directory(a)(b)",
        "x_y(z)",
        "x(y",
        "x y(z)",
        "_(_)",
        "echo $(date)",
        "f(é)",
        "é(f)",
    ] {
        let is_call = !matches!(read(text, &one), Reading::ShellCommand(_));
        assert_eq!(is_call, pattern.is_match(text), "{}", text);
        if let Some(found) = pattern.captures(text) {
            match read(text, &one) {
                Reading::Call { name, arguments } => {
                    assert_eq!(name, &found[1]);
                    assert_eq!(arguments, &found[2]);
                }
                Reading::UnknownTool(name) => assert_eq!(name, &found[1]),
                other => panic!("unexpected reading: {:?}", other),
            }
        }
    }
}
