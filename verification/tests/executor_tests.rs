use shellmind::execution::{Execution, Progress, Task, Waiting};
use shellmind::io::{CommandExit, GlobMatch, HttpResponse, IoReply, IoRequest, PathKind};
use shellmind::plan::ToolPlan;
use shellmind::tool::ToolResult;

fn s(t: &str) -> String {
    t.to_string()
}

fn pending(p: Progress) -> (Execution, IoRequest) {
    match p {
        Progress::Pending(run, request) => (run, request),
        Progress::Finished(r) => panic!("finished early: {:?}", r),
    }
}

fn ok(t: &str) -> Progress {
    Progress::Finished(ToolResult::Success(s(t)))
}

fn err(t: &str) -> Progress {
    Progress::Finished(ToolResult::Error(s(t)))
}

#[test]
fn plans_without_work_end_at_once() {
    assert_eq!(Execution::start(ToolPlan::Fail(s("no"))), err("no"));
    assert_eq!(Execution::start(ToolPlan::Reply(s("yes"))), ok("yes"));
}

#[test]
fn read_file_hands_out_content_or_failure() {
    let (run, request) = pending(Execution::start(ToolPlan::ReadFile { path: s("a.txt") }));
    assert_eq!(request, IoRequest::ReadFile { path: s("a.txt") });
    assert_eq!(run.clone().resume(IoReply::Content(s("hello\n"))), ok("hello\n"));
    assert_eq!(
        run.clone().resume(IoReply::Failed(s("No such file"))),
        err("Failed to read file 'a.txt': No such file")
    );
    assert_eq!(run.clone().resume(IoReply::Cancelled), err("Execution was cancelled."));
    assert_eq!(
        run.resume(IoReply::Written),
        err("The reply does not answer the request.")
    );
}

#[test]
fn write_file_reports_success_or_failure() {
    let (run, request) = pending(Execution::start(ToolPlan::WriteFile {
        path: s("/x"),
        content: s("y"),
    }));
    assert_eq!(request, IoRequest::WriteFile { path: s("/x"), content: s("y") });
    assert_eq!(
        run.clone().resume(IoReply::Written),
        ok("Successfully wrote to file '/x'.")
    );
    assert_eq!(
        run.resume(IoReply::Failed(s("denied"))),
        err("Failed to write to file '/x': denied")
    );
}

#[test]
fn edit_reads_replaces_and_writes() {
    let (run, request) = pending(Execution::start(ToolPlan::EditFile {
        path: s("f"),
        old_text: s("cat"),
        new_text: s("dog"),
    }));
    assert_eq!(request, IoRequest::ReadFile { path: s("f") });
    assert_eq!(
        run.clone().resume(IoReply::Failed(s("gone"))),
        err("Failed to read file 'f': gone")
    );
    let (run, request) = pending(run.resume(IoReply::Content(s("cat, cats and bobcat"))));
    assert_eq!(
        request,
        IoRequest::WriteFile { path: s("f"), content: s("dog, dogs and bobdog") }
    );
    assert_eq!(run.clone().resume(IoReply::Written), ok("Successfully edited file 'f'."));
    assert_eq!(
        run.resume(IoReply::Failed(s("full"))),
        err("Failed to write to file 'f': full")
    );
}

#[test]
fn listing_is_sorted_and_joined_by_line_feeds() {
    let (run, request) = pending(Execution::start(ToolPlan::ListDirectory { path: s(".") }));
    assert_eq!(request, IoRequest::ListDirectory { path: s(".") });
    assert_eq!(
        run.clone().resume(IoReply::Names(vec![
            s("src"),
            s("Cargo.toml"),
            s("README.md"),
            s("a"),
            s("Cargo.lock"),
            s("é"),
            s("ab"),
            s("")
        ])),
        ok("\nCargo.lock\nCargo.toml\nREADME.md\na\nab\nsrc\né")
    );
    assert_eq!(run.clone().resume(IoReply::Names(vec![])), ok(""));
    assert_eq!(
        run.clone().resume(IoReply::Failed(s("not a directory"))),
        err("Failed to read directory '.': not a directory")
    );
    assert_eq!(
        run.resume(IoReply::Broken(s("bad entry"))),
        err("Failed to read directory entry: bad entry")
    );
}

#[test]
fn sorting_agrees_with_the_order_of_strings() {
    let names = vec!["b", "a", "B", "", "ab", "a", "Z", "é", "e", "zz", "z", "\u{10000}", "\u{ffff}"];
    let mut expected: Vec<String> = names.iter().map(|n| n.to_string()).collect();
    expected.sort();
    let got = shellmind::sorting::sort_texts(names.iter().map(|n| n.to_string()).collect());
    assert_eq!(got, expected);
}

#[test]
fn search_walks_filters_reads_and_lists_hits() {
    let (run, request) = pending(Execution::start(ToolPlan::SearchContent {
        pattern: s(r"fn \w+"),
        root: s("src"),
        filter: Some(s(".rs")),
    }));
    assert_eq!(request, IoRequest::WalkFiles { root: s("src"), honor_ignore_files: true });
    assert_eq!(
        run.clone().resume(IoReply::Failed(s("boom"))),
        err("Error walking directory: boom")
    );
    let (run, request) = pending(run.resume(IoReply::Names(vec![
        s("src/a.rs"),
        s("src/notes.txt"),
        s("src/b.rs"),
    ])));
    assert_eq!(request, IoRequest::ReadFile { path: s("src/a.rs") });
    let (run, request) = pending(run.resume(IoReply::Content(s(
        "// top\nfn main() {}\r\nlet x = 1;\nfn other() {}",
    ))));
    assert_eq!(request, IoRequest::ReadFile { path: s("src/b.rs") });
    assert_eq!(
        run.clone().resume(IoReply::Failed(s("unreadable"))),
        err("Failed to read file 'src/b.rs': unreadable")
    );
    assert_eq!(
        run.resume(IoReply::Content(s("pub fn b() {}\n"))),
        ok("src/a.rs:2:fn main() {}\nsrc/a.rs:4:fn other() {}\nsrc/b.rs:1:pub fn b() {}")
    );
}

#[test]
fn search_without_hits_or_files_says_so() {
    let (run, _) = pending(Execution::start(ToolPlan::SearchContent {
        pattern: s("zzz"),
        root: s("."),
        filter: None,
    }));
    assert_eq!(run.clone().resume(IoReply::Names(vec![])), ok("No matches found."));
    let (run, _) = pending(run.resume(IoReply::Names(vec![s("a")])));
    assert_eq!(run.resume(IoReply::Content(s("nothing here"))), ok("No matches found."));
}

#[test]
fn search_refuses_a_pattern_that_does_not_compile() {
    match Execution::start(ToolPlan::SearchContent {
        pattern: s("foo(bar"),
        root: s("."),
        filter: None,
    }) {
        Progress::Finished(ToolResult::Error(text)) => {
            let expected = regex::Regex::new("foo(bar").unwrap_err().to_string();
            assert_eq!(text, format!("Invalid regex pattern: {}", expected));
            assert_ne!(text, "Invalid regex pattern: foo(bar");
        }
        other => panic!("not refused: {:?}", other),
    }
}

#[test]
fn search_line_numbers_count_from_one_in_decimal() {
    let (run, _) = pending(Execution::start(ToolPlan::SearchContent {
        pattern: s("^x$"),
        root: s("."),
        filter: None,
    }));
    let (run, _) = pending(run.resume(IoReply::Names(vec![s("f")])));
    let mut content = String::new();
    for i in 1..=120 {
        content.push_str(if i == 9 || i == 10 || i == 120 { "x\n" } else { "y\n" });
    }
    assert_eq!(run.resume(IoReply::Content(content)), ok("f:9:x\nf:10:x\nf:120:x"));
}

#[test]
fn find_files_sorts_matches_and_stops_at_first_error() {
    let (run, request) = pending(Execution::start(ToolPlan::FindFiles { pattern: s("./*.rs") }));
    assert_eq!(request, IoRequest::ExpandGlob { pattern: s("./*.rs") });
    assert_eq!(
        run.clone().resume(IoReply::Matches(vec![
            GlobMatch::Path(s("b.rs")),
            GlobMatch::Path(s("a.rs")),
        ])),
        ok("a.rs\nb.rs")
    );
    assert_eq!(run.clone().resume(IoReply::Matches(vec![])), ok("No matches found."));
    assert_eq!(
        run.clone().resume(IoReply::Matches(vec![
            GlobMatch::Path(s("b.rs")),
            GlobMatch::Unreadable(s("first")),
            GlobMatch::Unreadable(s("second")),
        ])),
        err("Error matching glob pattern: first")
    );
    assert_eq!(
        run.resume(IoReply::Failed(s("Pattern syntax error"))),
        err("Invalid glob pattern: Pattern syntax error")
    );
}

#[test]
fn shell_tool_reports_output_or_exit_code() {
    let (run, request) = pending(Execution::start(ToolPlan::RunCommand { command: s("ls") }));
    assert_eq!(request, IoRequest::RunCommand { command: s("ls") });
    let exit = |success, code| {
        IoReply::Exit(CommandExit { success, code, stdout: s("out"), stderr: s("err") })
    };
    assert_eq!(run.clone().resume(exit(true, Some(0))), ok("out"));
    assert_eq!(
        run.clone().resume(exit(false, Some(2))),
        err("Command failed with exit code Some(2): err")
    );
    assert_eq!(
        run.clone().resume(exit(false, Some(-1))),
        err("Command failed with exit code Some(-1): err")
    );
    assert_eq!(
        run.clone().resume(exit(false, Some(i32::MIN))),
        err("Command failed with exit code Some(-2147483648): err")
    );
    assert_eq!(
        run.clone().resume(exit(false, Some(i32::MAX))),
        err("Command failed with exit code Some(2147483647): err")
    );
    assert_eq!(
        run.clone().resume(exit(false, None)),
        err("Command failed with exit code None: err")
    );
    assert_eq!(
        run.resume(IoReply::Failed(s("no shell"))),
        err("Failed to execute command: no shell")
    );
}

#[test]
fn shell_command_line_reports_output_or_exit_code() {
    let (run, request) = pending(Execution::shell(s("rm -rf /tmp/test")));
    assert_eq!(run, Execution::Shell);
    assert_eq!(request, IoRequest::RunCommand { command: s("rm -rf /tmp/test") });
    let exit = |success, code| {
        IoReply::Exit(CommandExit { success, code, stdout: s("out"), stderr: s("err") })
    };
    assert_eq!(run.clone().resume(exit(true, Some(0))), ok("out"));
    assert_eq!(
        run.clone().resume(exit(false, Some(1))),
        err("Komut hata koduyla çıktı: Some(1)")
    );
    assert_eq!(
        run.clone().resume(IoReply::Failed(s("no shell"))),
        err("Komut çalıştırılamadı: no shell")
    );
    assert_eq!(run.resume(IoReply::Cancelled), err("Execution was cancelled."));
}

#[test]
fn fetch_reports_body_status_or_failure() {
    let (run, request) = pending(Execution::start(ToolPlan::FetchUrl { url: s("http://x") }));
    assert_eq!(request, IoRequest::FetchUrl { url: s("http://x") });
    assert_eq!(
        run.clone().resume(IoReply::Response(HttpResponse {
            success: true,
            status: s("200 OK"),
            body: s("<html>"),
        })),
        ok("<html>")
    );
    assert_eq!(
        run.clone().resume(IoReply::Response(HttpResponse {
            success: false,
            status: s("404 Not Found"),
            body: s(""),
        })),
        err("Failed to fetch URL: http://x (Status: 404 Not Found)")
    );
    assert_eq!(
        run.clone().resume(IoReply::Failed(s("dns"))),
        err("Failed to send request to URL: dns")
    );
    assert_eq!(
        run.resume(IoReply::Broken(s("cut off"))),
        err("Failed to read response text: cut off")
    );
}

#[test]
fn read_many_without_paths_finds_nothing() {
    assert_eq!(
        Execution::start(ToolPlan::ReadMany { paths: vec![] }),
        ok("No readable files found.")
    );
}

#[test]
fn read_many_refuses_a_path_that_is_no_text() {
    assert_eq!(
        Execution::start(ToolPlan::ReadMany { paths: vec![None, Some(s("a"))] }),
        err("Invalid path in 'paths' array for ReadManyFilesTool")
    );
    let (run, _) = pending(Execution::start(ToolPlan::ReadMany {
        paths: vec![Some(s("a")), None],
    }));
    assert_eq!(
        run.resume(IoReply::Kind(PathKind::Missing)),
        err("Invalid path in 'paths' array for ReadManyFilesTool")
    );
}

#[test]
fn read_many_reads_files_directories_and_patterns_in_order() {
    let (run, request) = pending(Execution::start(ToolPlan::ReadMany {
        paths: vec![Some(s("one.txt")), Some(s("dir")), Some(s("src/*.rs")), Some(s("gone"))],
    }));
    assert_eq!(request, IoRequest::InspectPath { path: s("one.txt") });
    let (run, request) = pending(run.resume(IoReply::Kind(PathKind::File)));
    assert_eq!(request, IoRequest::ReadFile { path: s("one.txt") });
    let (run, request) = pending(run.resume(IoReply::Content(s("1"))));
    assert_eq!(request, IoRequest::InspectPath { path: s("dir") });
    let (run, request) = pending(run.resume(IoReply::Kind(PathKind::Directory)));
    assert_eq!(request, IoRequest::WalkFiles { root: s("dir"), honor_ignore_files: false });
    let (run, request) = pending(run.resume(IoReply::Names(vec![s("dir/a"), s("dir/b")])));
    assert_eq!(request, IoRequest::ReadFile { path: s("dir/a") });
    let (run, request) = pending(run.resume(IoReply::Content(s("A"))));
    assert_eq!(request, IoRequest::ReadFile { path: s("dir/b") });
    let (run, request) = pending(run.resume(IoReply::Failed(s("locked"))));
    assert_eq!(request, IoRequest::ExpandGlob { pattern: s("src/*.rs") });
    let (run, request) = pending(run.resume(IoReply::Matches(vec![
        GlobMatch::Path(s("src/x.rs")),
        GlobMatch::Unreadable(s("no access")),
        GlobMatch::Path(s("src/sub.rs")),
        GlobMatch::Path(s("src/y.rs")),
    ])));
    assert_eq!(request, IoRequest::InspectPath { path: s("src/x.rs") });
    let (run, request) = pending(run.resume(IoReply::Kind(PathKind::File)));
    assert_eq!(request, IoRequest::ReadFile { path: s("src/x.rs") });
    let (run, request) = pending(run.resume(IoReply::Content(s("X"))));
    assert_eq!(request, IoRequest::InspectPath { path: s("src/sub.rs") });
    let (run, request) = pending(run.resume(IoReply::Kind(PathKind::Directory)));
    assert_eq!(request, IoRequest::InspectPath { path: s("src/y.rs") });
    let (run, request) = pending(run.resume(IoReply::Kind(PathKind::File)));
    assert_eq!(request, IoRequest::ReadFile { path: s("src/y.rs") });
    let (run, request) = pending(run.resume(IoReply::Content(s("Y"))));
    assert_eq!(request, IoRequest::InspectPath { path: s("gone") });
    assert_eq!(
        run.resume(IoReply::Kind(PathKind::Missing)),
        ok("--- one.txt ---\n1\n--- dir/a ---\nA\n--- dir/b ---\nError reading file: locked\n--- src/x.rs ---\nX\nError matching glob entry: no access\n--- src/y.rs ---\nY\n--- gone ---\nFile or directory not found.")
    );
}

#[test]
fn read_many_fails_on_bad_pattern_or_broken_walk() {
    for pattern in ["a*", "a?", "[a"] {
        let (run, request) = pending(Execution::start(ToolPlan::ReadMany {
            paths: vec![Some(s(pattern))],
        }));
        assert_eq!(request, IoRequest::ExpandGlob { pattern: s(pattern) });
        assert_eq!(
            run.resume(IoReply::Failed(s("bad"))),
            err(&format!("Invalid glob pattern '{}': bad", pattern))
        );
    }
    let (run, _) = pending(Execution::start(ToolPlan::ReadMany { paths: vec![Some(s("d"))] }));
    let (run, _) = pending(run.resume(IoReply::Kind(PathKind::Directory)));
    assert_eq!(
        run.clone().resume(IoReply::Failed(s("loop"))),
        err("Error walking directory: loop")
    );
    assert_eq!(run.resume(IoReply::Names(vec![])), ok("No readable files found."));
}

#[test]
fn read_many_state_holds_tasks_and_blocks() {
    let (run, _) = pending(Execution::start(ToolPlan::ReadMany {
        paths: vec![Some(s("a")), Some(s("b"))],
    }));
    assert_eq!(
        run,
        Execution::Gathering {
            tasks: vec![Task::Path(Some(s("b")))],
            blocks: vec![],
            waiting: Waiting::Kind { path: s("a") },
        }
    );
}
