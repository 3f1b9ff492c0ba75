use shellmind::params::{ParamValue, ToolParams};
use shellmind::plan::ToolPlan;
use shellmind::schema::PropertyKind;
use shellmind::tool::{describe, BaseTool};
use shellmind::tools::{
    builtin_registry, EditTool, GlobTool, GrepTool, LSTool, MemoryTool, ReadFileTool,
    ReadManyFilesTool, ShellTool, Tool, WebFetchTool, WebSearchTool, WriteFileTool,
};

fn params(pairs: &[(&str, &str)]) -> ToolParams {
    let mut p = ToolParams::new();
    for (k, v) in pairs {
        p.set_text(k, v);
    }
    p
}

#[test]
fn names_are_the_dispatch_keys() {
    assert_eq!(ReadFileTool.name(), "read_file");
    assert_eq!(WriteFileTool.name(), "write_file");
    assert_eq!(EditTool.name(), "edit_file");
    assert_eq!(LSTool.name(), "list_directory");
    assert_eq!(GrepTool.name(), "search_file_content");
    assert_eq!(GlobTool.name(), "glob");
    assert_eq!(ShellTool.name(), "run_shell_command");
    assert_eq!(WebFetchTool.name(), "web_fetch");
    assert_eq!(WebSearchTool.name(), "google_web_search");
    assert_eq!(MemoryTool.name(), "save_memory");
    assert_eq!(ReadManyFilesTool.name(), "read_many_files");
    assert_eq!(ReadFileTool.display_name(), "Read File");
    assert_eq!(GlobTool.display_name(), "Glob Search");
    assert_eq!(
        ShellTool.description(),
        "Executes a given shell command."
    );
    assert_eq!(Tool::ListDirectory(LSTool).name(), "list_directory");
    assert_eq!(Tool::ListDirectory(LSTool).display_name(), "List Directory");
}

#[test]
fn schemas_name_properties_and_required_ones() {
    let s = GrepTool.parameter_schema();
    let names: Vec<&str> = s.properties.iter().map(|p| p.name.as_str()).collect();
    assert_eq!(names, vec!["path", "pattern", "include"]);
    assert_eq!(s.required, vec!["pattern".to_string()]);
    assert!(s.properties.iter().all(|p| p.kind == PropertyKind::Text));
    assert_eq!(
        s.properties[1].description,
        "The regular expression (regex) pattern to search for within file contents."
    );

    let s = WriteFileTool.parameter_schema();
    assert_eq!(s.required, vec!["path".to_string(), "content".to_string()]);

    let s = ReadManyFilesTool.parameter_schema();
    assert_eq!(s.properties.len(), 1);
    assert_eq!(s.properties[0].kind, PropertyKind::TextList);
    assert_eq!(s.required, vec!["paths".to_string()]);

    let d = describe(&Tool::Edit(EditTool));
    assert_eq!(d.name, "edit_file");
    assert_eq!(d.display_name, "Edit File");
    assert_eq!(
        d.description,
        "Edits a file by replacing an old string with a new string."
    );
    assert_eq!(
        d.parameter_schema.required,
        vec![
            "file_path".to_string(),
            "old_string".to_string(),
            "new_string".to_string()
        ]
    );
}

#[test]
fn validation_wants_the_required_arguments_as_text() {
    assert!(ReadFileTool.validate_tool_params(&params(&[("path", "a")])));
    assert!(!ReadFileTool.validate_tool_params(&ToolParams::new()));
    let mut wrong = ToolParams::new();
    wrong.set("path", ParamValue::Other);
    assert!(!ReadFileTool.validate_tool_params(&wrong));
    assert!(!WriteFileTool.validate_tool_params(&params(&[("path", "a")])));
    assert!(WriteFileTool.validate_tool_params(&params(&[("path", "a"), ("content", "")])));
    assert!(!EditTool.validate_tool_params(&params(&[("file_path", "a"), ("old_string", "b")])));
    assert!(EditTool.validate_tool_params(&params(&[
        ("file_path", "a"),
        ("old_string", "b"),
        ("new_string", "c")
    ])));
    assert!(GrepTool.validate_tool_params(&params(&[("pattern", "x")])));
    assert!(!GrepTool.validate_tool_params(&params(&[("path", "x")])));
    assert!(GlobTool.validate_tool_params(&params(&[("pattern", "*.rs")])));
    assert!(ShellTool.validate_tool_params(&params(&[("command", "ls")])));
    assert!(WebFetchTool.validate_tool_params(&params(&[("url", "http://x")])));
    assert!(WebSearchTool.validate_tool_params(&params(&[("query", "q")])));
    assert!(MemoryTool.validate_tool_params(&params(&[("fact", "f")])));
    assert!(!ReadManyFilesTool.validate_tool_params(&params(&[("paths", "a")])));
    let mut many = ToolParams::new();
    many.set("paths", ParamValue::List(vec![Some("a".to_string()), None]));
    assert!(ReadManyFilesTool.validate_tool_params(&many));
}

#[test]
fn later_entry_replaces_earlier_one() {
    let p = params(&[("path", "a"), ("path", "b")]);
    assert_eq!(p.get_str("path"), Some("b"));
    let mut q = params(&[("path", "a")]);
    q.set("path", ParamValue::Other);
    assert_eq!(q.get_str("path"), None);
    assert_eq!(q.get("path"), Some(&ParamValue::Other));
    assert_eq!(q.get("other"), None);
}

#[test]
fn descriptions_use_placeholders_for_missing_arguments() {
    let none = ToolParams::new();
    assert_eq!(ReadFileTool.get_description(&none), "Read file: unknown path");
    assert_eq!(
        ReadFileTool.get_description(&params(&[("path", "/etc/hosts")])),
        "Read file: /etc/hosts"
    );
    assert_eq!(WriteFileTool.get_description(&none), "Write to file: unknown path");
    assert_eq!(
        EditTool.get_description(&params(&[("file_path", "f"), ("new_string", "n")])),
        "Edit file 'f': replace \"unknown old string\" with \"n\""
    );
    assert_eq!(
        EditTool.get_description(&none),
        "Edit file 'unknown file': replace \"unknown old string\" with \"unknown new string\""
    );
    assert_eq!(
        LSTool.get_description(&none),
        "List contents of directory: current directory"
    );
    assert_eq!(
        GrepTool.get_description(&params(&[("pattern", "fn"), ("path", "src")])),
        "Search for pattern \"fn\" in files under 'src'"
    );
    assert_eq!(
        GlobTool.get_description(&params(&[("pattern", "*.rs")])),
        "Find files matching pattern \"*.rs\" in 'current directory'"
    );
    assert_eq!(
        ShellTool.get_description(&params(&[("command", "ls")])),
        "Run shell command: 'ls' (Description: no description)"
    );
    assert_eq!(
        ShellTool.get_description(&params(&[("command", "ls"), ("description", "list")])),
        "Run shell command: 'ls' (Description: list)"
    );
    assert_eq!(
        WebFetchTool.get_description(&none),
        "Fetch content from URL: unknown URL"
    );
    assert_eq!(
        WebSearchTool.get_description(&params(&[("query", "rust")])),
        "Search the web for: rust"
    );
    assert_eq!(MemoryTool.get_description(&none), "Save to memory: unknown fact");
    assert_eq!(
        ReadManyFilesTool.get_description(&none),
        "Read content from multiple files: unknown paths"
    );
    let mut many = ToolParams::new();
    many.set(
        "paths",
        ParamValue::List(vec![Some("a".to_string()), None, Some("b/*.rs".to_string())]),
    );
    assert_eq!(
        ReadManyFilesTool.get_description(&many),
        "Read content from multiple files: a, b/*.rs"
    );
    let mut empty = ToolParams::new();
    empty.set("paths", ParamValue::List(vec![]));
    assert_eq!(
        ReadManyFilesTool.get_description(&empty),
        "Read content from multiple files: "
    );
}

#[test]
fn only_writing_tools_ask_for_confirmation() {
    let none = ToolParams::new();
    assert!(ReadFileTool.should_confirm_execute(&none).is_none());
    assert!(LSTool.should_confirm_execute(&none).is_none());
    assert!(GrepTool.should_confirm_execute(&none).is_none());
    assert!(GlobTool.should_confirm_execute(&none).is_none());
    assert!(WebFetchTool.should_confirm_execute(&none).is_none());
    assert!(WebSearchTool.should_confirm_execute(&none).is_none());
    assert!(MemoryTool.should_confirm_execute(&none).is_none());
    assert!(ReadManyFilesTool.should_confirm_execute(&none).is_none());
    assert_eq!(
        WriteFileTool.should_confirm_execute(&none).unwrap().message,
        "This will write content to a file. Are you sure?"
    );
    assert_eq!(
        EditTool.should_confirm_execute(&none).unwrap().message,
        "This will modify a file. Are you sure?"
    );
    assert_eq!(
        ShellTool.should_confirm_execute(&params(&[("command", "rm x")])).unwrap().message,
        "This will execute the command: 'rm x'. Are you sure?"
    );
    assert_eq!(
        ShellTool.should_confirm_execute(&none).unwrap().message,
        "This will execute the command: 'unknown command'. Are you sure?"
    );
    assert!(Tool::ReadFile(ReadFileTool).should_confirm_execute(&none).is_none());
    assert!(Tool::WriteFile(WriteFileTool).should_confirm_execute(&none).is_some());
}

#[test]
fn plans_say_what_to_do_or_which_argument_is_missing() {
    let none = ToolParams::new();
    assert_eq!(
        ReadFileTool.plan(&none),
        ToolPlan::Fail("Missing 'path' parameter for ReadFileTool".to_string())
    );
    assert_eq!(
        ReadFileTool.plan(&params(&[("path", "a")])),
        ToolPlan::ReadFile { path: "a".to_string() }
    );
    assert_eq!(
        WriteFileTool.plan(&params(&[("content", "y")])),
        ToolPlan::Fail("Missing 'path' parameter for WriteFileTool".to_string())
    );
    assert_eq!(
        WriteFileTool.plan(&params(&[("path", "/x")])),
        ToolPlan::Fail("Missing 'content' parameter for WriteFileTool".to_string())
    );
    assert_eq!(
        WriteFileTool.plan(&params(&[("path", "/x"), ("content", "y")])),
        ToolPlan::WriteFile { path: "/x".to_string(), content: "y".to_string() }
    );
    assert_eq!(
        EditTool.plan(&params(&[("file_path", "f"), ("new_string", "n")])),
        ToolPlan::Fail("Missing 'old_string' parameter for EditTool".to_string())
    );
    assert_eq!(
        EditTool.plan(&params(&[("file_path", "f"), ("old_string", "o")])),
        ToolPlan::Fail("Missing 'new_string' parameter for EditTool".to_string())
    );
    assert_eq!(
        EditTool.plan(&none),
        ToolPlan::Fail("Missing 'file_path' parameter for EditTool".to_string())
    );
    assert_eq!(
        EditTool.plan(&params(&[("file_path", "f"), ("old_string", "o"), ("new_string", "n")])),
        ToolPlan::EditFile {
            path: "f".to_string(),
            old_text: "o".to_string(),
            new_text: "n".to_string()
        }
    );
    assert_eq!(
        LSTool.plan(&none),
        ToolPlan::Fail("Missing 'path' parameter for LSTool".to_string())
    );
    assert_eq!(
        LSTool.plan(&params(&[("path", ".")])),
        ToolPlan::ListDirectory { path: ".".to_string() }
    );
    assert_eq!(
        GrepTool.plan(&none),
        ToolPlan::Fail("Missing 'pattern' parameter for GrepTool".to_string())
    );
    assert_eq!(
        GrepTool.plan(&params(&[("pattern", "fn")])),
        ToolPlan::SearchContent { pattern: "fn".to_string(), root: ".".to_string(), filter: None }
    );
    assert_eq!(
        GrepTool.plan(&params(&[("pattern", "fn"), ("path", "src"), ("include", ".rs")])),
        ToolPlan::SearchContent {
            pattern: "fn".to_string(),
            root: "src".to_string(),
            filter: Some(".rs".to_string())
        }
    );
    assert_eq!(
        GlobTool.plan(&none),
        ToolPlan::Fail("Missing 'pattern' parameter for GlobTool".to_string())
    );
    assert_eq!(
        GlobTool.plan(&params(&[("pattern", "*.rs")])),
        ToolPlan::FindFiles { pattern: "./*.rs".to_string() }
    );
    assert_eq!(
        GlobTool.plan(&params(&[("pattern", "**/*.md"), ("path", "/docs")])),
        ToolPlan::FindFiles { pattern: "/docs/**/*.md".to_string() }
    );
    assert_eq!(
        ShellTool.plan(&none),
        ToolPlan::Fail("Missing 'command' parameter for ShellTool".to_string())
    );
    assert_eq!(
        ShellTool.plan(&params(&[("command", "ls")])),
        ToolPlan::RunCommand { command: "ls".to_string() }
    );
    assert_eq!(
        WebFetchTool.plan(&none),
        ToolPlan::Fail("Missing 'url' parameter for WebFetchTool".to_string())
    );
    assert_eq!(
        WebFetchTool.plan(&params(&[("url", "http://x")])),
        ToolPlan::FetchUrl { url: "http://x".to_string() }
    );
    assert_eq!(
        WebSearchTool.plan(&none),
        ToolPlan::Fail("Missing 'query' parameter for WebSearchTool".to_string())
    );
    assert_eq!(
        WebSearchTool.plan(&params(&[("query", "rust")])),
        ToolPlan::Reply("Search results for 'rust': [Dummy result from Google Search]".to_string())
    );
    assert_eq!(
        MemoryTool.plan(&none),
        ToolPlan::Fail("Missing 'fact' parameter for MemoryTool".to_string())
    );
    assert_eq!(
        MemoryTool.plan(&params(&[("fact", "tea at five")])),
        ToolPlan::Reply("Fact saved to memory: 'tea at five'.".to_string())
    );
    assert_eq!(
        ReadManyFilesTool.plan(&none),
        ToolPlan::Fail("Missing 'paths' parameter for ReadManyFilesTool".to_string())
    );
    let mut many = ToolParams::new();
    many.set("paths", ParamValue::List(vec![Some("a".to_string()), None]));
    assert_eq!(
        ReadManyFilesTool.plan(&many),
        ToolPlan::ReadMany { paths: vec![Some("a".to_string()), None] }
    );
    assert_eq!(
        Tool::ReadManyFiles(ReadManyFilesTool).plan(&many),
        ToolPlan::ReadMany { paths: vec![Some("a".to_string()), None] }
    );
}

#[test]
fn registry_finds_tools_by_name() {
    let r = builtin_registry();
    assert_eq!(r.len(), 11);
    for name in [
        "read_file",
        "write_file",
        "edit_file",
        "list_directory",
        "search_file_content",
        "glob",
        "run_shell_command",
        "web_fetch",
        "google_web_search",
        "save_memory",
        "read_many_files",
    ] {
        assert_eq!(r.get_tool(name).map(|t| t.name()), Some(name));
    }
    assert!(r.get_tool("nothing").is_none());
    assert!(r.get_tool("").is_none());
    assert!(r.get_tool("Read_File").is_none());
    let names: Vec<String> = r.list_descriptors().into_iter().map(|d| d.name).collect();
    assert_eq!(names[0], "read_file");
    assert_eq!(names[10], "read_many_files");
    assert_eq!(r.get_tool_schemas().len(), 11);
    assert_eq!(r.get_tool_schemas()[3], LSTool.parameter_schema());
}

#[test]
fn registering_a_name_again_replaces_the_tool_in_place() {
    let mut r: shellmind::registry::ToolRegistry<Tool> = shellmind::registry::ToolRegistry::new();
    assert_eq!(r.len(), 0);
    r.register(Tool::ReadFile(ReadFileTool));
    r.register(Tool::WriteFile(WriteFileTool));
    r.register(Tool::ReadFile(ReadFileTool));
    assert_eq!(r.len(), 2);
    let names: Vec<String> = r.list_descriptors().into_iter().map(|d| d.name).collect();
    assert_eq!(names, vec!["read_file".to_string(), "write_file".to_string()]);
    assert!(r.discover_tools().is_ok());
    assert_eq!(r.len(), 2);
}

#[test]
fn validation_follows_the_schema() {
    let registry = builtin_registry();
    let mut list = ToolParams::new();
    list.set("paths", ParamValue::List(vec![]));
    let mut shadowed = params(&[("path", "a"), ("pattern", "p"), ("command", "c")]);
    shadowed.set("path", ParamValue::Other);
    let samples = vec![
        ToolParams::new(),
        params(&[("path", "a")]),
        params(&[("path", "a"), ("content", "b")]),
        params(&[("file_path", "a"), ("old_string", "b"), ("new_string", "c")]),
        params(&[("pattern", "a"), ("include", "b")]),
        params(&[("command", "a"), ("url", "b"), ("query", "c"), ("fact", "d")]),
        params(&[("paths", "a")]),
        list,
        shadowed,
    ];
    for name in [
        "read_file",
        "write_file",
        "edit_file",
        "list_directory",
        "search_file_content",
        "glob",
        "run_shell_command",
        "web_fetch",
        "google_web_search",
        "save_memory",
        "read_many_files",
    ] {
        let tool = registry.get_tool(name).unwrap();
        let schema = tool.parameter_schema();
        for sample in &samples {
            assert_eq!(tool.validate_tool_params(sample), schema.admits(sample), "{}", name);
        }
    }
    let schema = GrepTool.parameter_schema();
    assert_eq!(schema.kind_of("include"), Some(PropertyKind::Text));
    assert_eq!(schema.kind_of("nothing"), None);
    assert_eq!(ReadManyFilesTool.parameter_schema().kind_of("paths"), Some(PropertyKind::TextList));
}
