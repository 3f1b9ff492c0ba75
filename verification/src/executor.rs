//! Carrying out a plan: a machine that asks for one piece of outside work
//! at a time and ends with exactly one result.

use crate::execution::{
    block, cancelled, code_text, file_tasks, first_unreadable, gather, gather_on, hits, is_glob,
    kept, listing, match_task, match_tasks, matched_paths, misfit, next_of, path_tasks, search_on,
    shell_start, start_of, task_views, Execution, Progress, Task, TaskView, Waiting,
};
use crate::io::{match_views, GlobMatch, IoReply, IoRequest, PathKind};
use crate::params::item_views;
use crate::pattern::match_lines;
use crate::plan::ToolPlan;
use crate::scan::{contains_text, lines, replace_all};
use crate::sorting::sort_texts;
use crate::text::{
    concat2, concat3, concat4, concat5, has_char, join, push_decimal, push_signed_decimal, texts,
};
use crate::tool::ToolResult;
use vstd::prelude::*;
use vstd::string::*;

verus! {

fn failure(message: String) -> (r: Progress)
    ensures
        r@ == crate::execution::ProgressView::Finished(crate::tool::ResultView::Error(message@)),
{
    Progress::Finished(ToolResult::Error(message))
}

fn success(text: String) -> (r: Progress)
    ensures
        r@ == crate::execution::ProgressView::Finished(crate::tool::ResultView::Success(text@)),
{
    Progress::Finished(ToolResult::Success(text))
}

fn misfit_reply() -> (r: Progress)
    ensures
        r@ == misfit(),
{
    failure(String::from_str("The reply does not answer the request."))
}

fn listing_text(found: &Vec<String>) -> (r: String)
    ensures
        r@ == listing(texts(found@)),
{
    if found.len() == 0 {
        String::from_str("No matches found.")
    } else {
        join(found, "\n")
    }
}

fn code_string(code: Option<i32>) -> (r: String)
    ensures
        r@ == code_text(code),
{
    match code {
        Some(c) => {
            let mut out = String::from_str("Some(");
            push_signed_decimal(&mut out, c);
            out.append(")");
            out
        },
        None => String::from_str("None"),
    }
}

fn block_text(path: &str, body: &str) -> (r: String)
    ensures
        r@ == block(path@, body@),
{
    concat4("--- ", path, " ---\n", body)
}

fn has_glob_chars(path: &str) -> (r: bool)
    ensures
        r == is_glob(path@),
{
    has_char(path, '*') || has_char(path, '?') || has_char(path, '[')
}

fn keep_files(files: Vec<String>, filter: &Option<String>) -> (r: Vec<String>)
    ensures
        texts(r@) == kept(texts(files@), crate::execution::filter_view(filter)),
{
    let ghost all = texts(files@);
    let ghost f = crate::execution::filter_view(filter);
    let mut out: Vec<String> = Vec::new();
    let mut i: usize = 0;
    assert(texts(out@) =~= kept(all.take(0), f));
    while i < files.len()
        invariant
            i <= files@.len(),
            all == texts(files@),
            f == crate::execution::filter_view(filter),
            texts(out@) == kept(all.take(i as int), f),
        decreases files@.len() - i,
    {
        let ghost before = texts(out@);
        assert(all.take(i + 1).drop_last() =~= all.take(i as int));
        assert(all.take(i + 1).last() == files@[i as int]@);
        let keep = match filter {
            Some(text) => contains_text(files[i].as_str(), text.as_str()),
            None => true,
        };
        if keep {
            out.push(files[i].clone());
            assert(texts(out@) =~= before.push(files@[i as int]@));
        }
        i = i + 1;
    }
    assert(all.take(files@.len() as int) =~= all);
    out
}

fn search_next(pattern: String, files: Vec<String>, at: usize, found: Vec<String>) -> (r: Progress)
    ensures
        r@ == search_on(pattern@, texts(files@), at as int, texts(found@)),
{
    if at < files.len() {
        let path = files[at].clone();
        Progress::Pending(
            Execution::SearchReading { pattern, files, at, found },
            IoRequest::ReadFile { path },
        )
    } else {
        success(listing_text(&found))
    }
}

/// Adds to `found` the hits of `pattern` in the lines `rows` of the file
/// `path`. Fails with the error's text where the pattern does not compile.
fn add_hits(pattern: &str, path: &str, rows: &Vec<String>, found: &mut Vec<String>) -> (r: Result<
    (),
    String,
>)
    ensures
        match r {
            Ok(_) => crate::pattern::regex_error(pattern@) is None && texts(final(found)@) == texts(
                old(found)@,
            ) + hits(pattern@, path@, texts(rows@)),
            Err(e) => crate::pattern::regex_error(pattern@) == Some(e@),
        },
{
    let flags = match match_lines(pattern, rows) {
        Ok(flags) => flags,
        Err(e) => {
            return Err(e);
        },
    };
    let ghost base = texts(found@);
    let ghost all = texts(rows@);
    let mut i: usize = 0;
    assert(texts(found@) =~= base + hits(pattern@, path@, all.take(0)));
    while i < rows.len()
        invariant
            i <= rows@.len(),
            flags@.len() == rows@.len(),
            all == texts(rows@),
            forall|k: int|
                0 <= k < rows@.len() ==> flags@[k] == crate::pattern::regex_matches(
                    pattern@,
                    (#[trigger] rows@[k])@,
                ),
            texts(found@) == base + hits(pattern@, path@, all.take(i as int)),
        decreases rows@.len() - i,
    {
        let ghost before = texts(found@);
        let ghost part = all.take(i + 1);
        assert(part.drop_last() =~= all.take(i as int));
        assert(part.last() == rows@[i as int]@);
        if flags[i] {
            let mut hit = concat2(path, ":");
            push_decimal(&mut hit, (i + 1) as u64);
            hit.append(":");
            hit.append(rows[i].as_str());
            found.push(hit);
            assert(texts(found@) =~= before.push(hit@));
            assert(before.push(hit@) =~= base + hits(pattern@, path@, part));
        }
        i = i + 1;
    }
    assert(all.take(rows@.len() as int) =~= all);
    Ok(())
}

/// The paths among `items`, or the first error among them.
fn split_matches(items: Vec<GlobMatch>) -> (r: Result<Vec<String>, String>)
    ensures
        match r {
            Ok(paths) => first_unreadable(match_views(items@)) is None && texts(paths@)
                == matched_paths(match_views(items@)),
            Err(e) => first_unreadable(match_views(items@)) == Some(e@),
        },
{
    let ghost all = match_views(items@);
    let mut out: Vec<String> = Vec::new();
    let mut i: usize = 0;
    assert(texts(out@) =~= matched_paths(all.take(0)));
    while i < items.len()
        invariant
            i <= items@.len(),
            all == match_views(items@),
            first_unreadable(all.take(i as int)) is None,
            texts(out@) == matched_paths(all.take(i as int)),
        decreases items@.len() - i,
    {
        let ghost before = texts(out@);
        assert(all.take(i + 1).drop_last() =~= all.take(i as int));
        assert(all.take(i + 1).last() == items@[i as int]@);
        match &items[i] {
            GlobMatch::Path(p) => {
                out.push(p.clone());
                assert(texts(out@) =~= before.push(p@));
            },
            GlobMatch::Unreadable(e) => {
                proof {
                    lemma_first_unreadable(all, i as int);
                }
                return Err(e.clone());
            },
        }
        i = i + 1;
    }
    assert(all.take(items@.len() as int) =~= all);
    Ok(out)
}

/// The first error of a prefix that holds one is the first error of the
/// whole.
proof fn lemma_first_unreadable(items: Seq<crate::io::GlobMatchView>, at: int)
    requires
        0 <= at < items.len(),
        first_unreadable(items.take(at)) is None,
        items[at] is Unreadable,
    ensures
        first_unreadable(items) == first_unreadable(items.take(at + 1)),
        first_unreadable(items.take(at + 1)) == Some(items[at]->Unreadable_0),
    decreases items.len() - at,
{
    assert(items.take(at + 1).drop_last() =~= items.take(at));
    assert(items.take(at + 1).last() == items[at]);
    lemma_first_unreadable_grows(items, at + 1);
}

proof fn lemma_first_unreadable_grows(items: Seq<crate::io::GlobMatchView>, n: int)
    requires
        0 <= n <= items.len(),
        first_unreadable(items.take(n)) is Some,
    ensures
        first_unreadable(items) == first_unreadable(items.take(n)),
    decreases items.len() - n,
{
    if n < items.len() {
        assert(items.take(n + 1).drop_last() =~= items.take(n));
        lemma_first_unreadable_grows(items, n + 1);
    } else {
        assert(items.take(n) =~= items);
    }
}

/// Works through the tasks of reading many files until one needs outside
/// work or none is left.
fn drive(tasks: Vec<Task>, blocks: Vec<String>) -> (r: Progress)
    ensures
        r@ == gather(task_views(tasks@), texts(blocks@)),
{
    let mut queue = tasks;
    let mut done = blocks;
    loop
        invariant
            gather(task_views(queue@), texts(done@)) == gather(task_views(tasks@), texts(blocks@)),
        decreases queue@.len(),
    {
        let ghost before = task_views(queue@);
        let ghost written = texts(done@);
        let task = queue.pop();
        proof {
            if before.len() > 0 {
                assert(task_views(queue@) =~= before.drop_last());
                assert(before.last() == task->0@);
            }
        }
        match task {
            None => {
                let text = if done.len() == 0 {
                    String::from_str("No readable files found.")
                } else {
                    join(&done, "\n")
                };
                return success(text);
            },
            Some(Task::Path(None)) => {
                return failure(
                    String::from_str("Invalid path in 'paths' array for ReadManyFilesTool"),
                );
            },
            Some(Task::Path(Some(p))) => {
                if has_glob_chars(p.as_str()) {
                    let pattern = p.clone();
                    return Progress::Pending(
                        Execution::Gathering {
                            tasks: queue,
                            blocks: done,
                            waiting: Waiting::Expansion { pattern: p },
                        },
                        IoRequest::ExpandGlob { pattern },
                    );
                } else {
                    let path = p.clone();
                    return Progress::Pending(
                        Execution::Gathering { tasks: queue, blocks: done, waiting: Waiting::Kind { path: p } },
                        IoRequest::InspectPath { path },
                    );
                }
            },
            Some(Task::Candidate(p)) => {
                let path = p.clone();
                return Progress::Pending(
                    Execution::Gathering {
                        tasks: queue,
                        blocks: done,
                        waiting: Waiting::CandidateKind { path: p },
                    },
                    IoRequest::InspectPath { path },
                );
            },
            Some(Task::File(p)) => {
                let path = p.clone();
                return Progress::Pending(
                    Execution::Gathering { tasks: queue, blocks: done, waiting: Waiting::Content { path: p } },
                    IoRequest::ReadFile { path },
                );
            },
            Some(Task::Note(t)) => {
                done.push(t);
                assert(texts(done@) =~= written.push(t@));
            },
        }
    }
}

/// Puts the tasks for `items` on top of `tasks`, the first item last.
fn push_match_tasks(tasks: &mut Vec<Task>, items: Vec<GlobMatch>)
    ensures
        task_views(final(tasks)@) == task_views(old(tasks)@) + match_tasks(match_views(items@)),
{
    let ghost base = task_views(tasks@);
    let ghost all = match_views(items@);
    let ghost goal = match_tasks(all);
    let mut items = items;
    let total = items.len();
    assert(task_views(tasks@) =~= base + goal.take(0));
    while items.len() > 0
        invariant
            total == all.len(),
            goal == match_tasks(all),
            items@.len() <= total,
            match_views(items@) == all.take(items@.len() as int),
            task_views(tasks@) == base + goal.take(total - items@.len()),
        decreases items@.len(),
    {
        let ghost left = items@.len() as int;
        let ghost before = task_views(tasks@);
        let ghost held = items@;
        let item = items.pop().unwrap();
        assert(match_views(items@) =~= all.take(left - 1));
        assert(match_views(held)[left - 1] == item@);
        assert(all.take(left)[left - 1] == all[left - 1]);
        let task = match item {
            GlobMatch::Path(p) => Task::Candidate(p),
            GlobMatch::Unreadable(e) => Task::Note(concat2("Error matching glob entry: ", e.as_str())),
        };
        assert(task@ == match_task(all[left - 1]));
        tasks.push(task);
        assert(task_views(tasks@) =~= before.push(task@));
        assert(goal.take(total - left + 1) =~= goal.take(total - left).push(goal[total - left]));
        assert(before.push(task@) =~= base + goal.take(total - left + 1));
    }
    assert(goal.take(total as int) =~= goal);
}

/// Puts the tasks for `files` on top of `tasks`, the first file last.
fn push_file_tasks(tasks: &mut Vec<Task>, files: Vec<String>)
    ensures
        task_views(final(tasks)@) == task_views(old(tasks)@) + file_tasks(texts(files@)),
{
    let ghost base = task_views(tasks@);
    let ghost all = texts(files@);
    let ghost goal = file_tasks(all);
    let mut files = files;
    let total = files.len();
    assert(task_views(tasks@) =~= base + goal.take(0));
    while files.len() > 0
        invariant
            total == all.len(),
            goal == file_tasks(all),
            files@.len() <= total,
            texts(files@) == all.take(files@.len() as int),
            task_views(tasks@) == base + goal.take(total - files@.len()),
        decreases files@.len(),
    {
        let ghost left = files@.len() as int;
        let ghost before = task_views(tasks@);
        let ghost held = files@;
        let file = files.pop().unwrap();
        assert(texts(files@) =~= all.take(left - 1));
        assert(texts(held)[left - 1] == file@);
        assert(all.take(left)[left - 1] == all[left - 1]);
        let task = Task::File(file);
        tasks.push(task);
        assert(task_views(tasks@) =~= before.push(task@));
        assert(goal.take(total - left + 1) =~= goal.take(total - left).push(goal[total - left]));
        assert(before.push(task@) =~= base + goal.take(total - left + 1));
    }
    assert(goal.take(total as int) =~= goal);
}

/// The tasks for the given paths, the first path last.
fn first_tasks(paths: Vec<Option<String>>) -> (r: Vec<Task>)
    ensures
        task_views(r@) == path_tasks(item_views(paths@)),
{
    let ghost all = item_views(paths@);
    let ghost goal = path_tasks(all);
    let mut paths = paths;
    let mut tasks: Vec<Task> = Vec::new();
    let total = paths.len();
    assert(task_views(tasks@) =~= goal.take(0));
    while paths.len() > 0
        invariant
            total == all.len(),
            goal == path_tasks(all),
            paths@.len() <= total,
            item_views(paths@) == all.take(paths@.len() as int),
            task_views(tasks@) == goal.take(total - paths@.len()),
        decreases paths@.len(),
    {
        let ghost left = paths@.len() as int;
        let ghost before = task_views(tasks@);
        let ghost held = paths@;
        let path = paths.pop().unwrap();
        assert(item_views(paths@) =~= all.take(left - 1));
        assert(item_views(held)[left - 1] == all.take(left)[left - 1]);
        assert(all.take(left)[left - 1] == all[left - 1]);
        let task = Task::Path(path);
        assert(task@ == TaskView::Path(all[left - 1]));
        tasks.push(task);
        assert(task_views(tasks@) =~= before.push(task@));
        assert(goal.take(total - left + 1) =~= goal.take(total - left).push(goal[total - left]));
    }
    assert(goal.take(total as int) =~= goal);
    tasks
}

fn gather_next(tasks: Vec<Task>, blocks: Vec<String>, waiting: Waiting, reply: IoReply) -> (r:
    Progress)
    ensures
        r@ == gather_on(task_views(tasks@), texts(blocks@), waiting@, reply@),
{
    let mut tasks = tasks;
    let mut blocks = blocks;
    let ghost written = texts(blocks@);
    match waiting {
        Waiting::Expansion { pattern } => match reply {
            IoReply::Matches(items) => {
                push_match_tasks(&mut tasks, items);
                drive(tasks, blocks)
            },
            IoReply::Failed(e) => failure(
                concat4("Invalid glob pattern '", pattern.as_str(), "': ", e.as_str()),
            ),
            _ => misfit_reply(),
        },
        Waiting::Kind { path } => match reply {
            IoReply::Kind(PathKind::File) => {
                let target = path.clone();
                Progress::Pending(
                    Execution::Gathering { tasks, blocks, waiting: Waiting::Content { path } },
                    IoRequest::ReadFile { path: target },
                )
            },
            IoReply::Kind(PathKind::Directory) => Progress::Pending(
                Execution::Gathering { tasks, blocks, waiting: Waiting::Walk },
                IoRequest::WalkFiles { root: path, honor_ignore_files: false },
            ),
            IoReply::Kind(PathKind::Missing) => {
                let text = block_text(path.as_str(), "File or directory not found.");
                blocks.push(text);
                assert(texts(blocks@) =~= written.push(text@));
                drive(tasks, blocks)
            },
            _ => misfit_reply(),
        },
        Waiting::CandidateKind { path } => match reply {
            IoReply::Kind(PathKind::File) => {
                let target = path.clone();
                Progress::Pending(
                    Execution::Gathering { tasks, blocks, waiting: Waiting::Content { path } },
                    IoRequest::ReadFile { path: target },
                )
            },
            IoReply::Kind(_) => drive(tasks, blocks),
            _ => misfit_reply(),
        },
        Waiting::Walk => match reply {
            IoReply::Names(files) => {
                push_file_tasks(&mut tasks, files);
                drive(tasks, blocks)
            },
            IoReply::Failed(e) => failure(concat2("Error walking directory: ", e.as_str())),
            _ => misfit_reply(),
        },
        Waiting::Content { path } => match reply {
            IoReply::Content(c) => {
                let text = block_text(path.as_str(), c.as_str());
                blocks.push(text);
                assert(texts(blocks@) =~= written.push(text@));
                drive(tasks, blocks)
            },
            IoReply::Failed(e) => {
                let body = concat2("Error reading file: ", e.as_str());
                let text = block_text(path.as_str(), body.as_str());
                blocks.push(text);
                assert(texts(blocks@) =~= written.push(text@));
                drive(tasks, blocks)
            },
            _ => misfit_reply(),
        },
    }
}

impl Execution {
    /// Begins to carry out `plan`.
    pub fn start(plan: ToolPlan) -> (r: Progress)
        ensures
            r@ == start_of(plan@),
    {
        match plan {
            ToolPlan::Fail(m) => failure(m),
            ToolPlan::Reply(m) => success(m),
            ToolPlan::ReadFile { path } => {
                let target = path.clone();
                Progress::Pending(Execution::Reading { path }, IoRequest::ReadFile { path: target })
            },
            ToolPlan::WriteFile { path, content } => {
                let target = path.clone();
                Progress::Pending(
                    Execution::Writing { path },
                    IoRequest::WriteFile { path: target, content },
                )
            },
            ToolPlan::EditFile { path, old_text, new_text } => {
                let target = path.clone();
                Progress::Pending(
                    Execution::EditReading { path, old_text, new_text },
                    IoRequest::ReadFile { path: target },
                )
            },
            ToolPlan::ListDirectory { path } => {
                let target = path.clone();
                Progress::Pending(
                    Execution::Listing { path },
                    IoRequest::ListDirectory { path: target },
                )
            },
            ToolPlan::SearchContent { pattern, root, filter } => {
                let none: Vec<String> = Vec::new();
                match match_lines(pattern.as_str(), &none) {
                    Err(e) => failure(concat2("Invalid regex pattern: ", e.as_str())),
                    Ok(_) => Progress::Pending(
                        Execution::SearchWalking { pattern, filter },
                        IoRequest::WalkFiles { root, honor_ignore_files: true },
                    ),
                }
            },
            ToolPlan::FindFiles { pattern } => Progress::Pending(
                Execution::Finding,
                IoRequest::ExpandGlob { pattern },
            ),
            ToolPlan::RunCommand { command } => Progress::Pending(
                Execution::Running,
                IoRequest::RunCommand { command },
            ),
            ToolPlan::FetchUrl { url } => {
                let target = url.clone();
                Progress::Pending(Execution::Fetching { url }, IoRequest::FetchUrl { url: target })
            },
            ToolPlan::ReadMany { paths } => {
                let tasks = first_tasks(paths);
                let blocks: Vec<String> = Vec::new();
                assert(texts(blocks@) =~= Seq::<Seq<char>>::empty());
                drive(tasks, blocks)
            },
        }
    }

    /// Begins to run a command line in the shell.
    pub fn shell(command: String) -> (r: Progress)
        ensures
            r@ == shell_start(command@),
    {
        Progress::Pending(Execution::Shell, IoRequest::RunCommand { command })
    }

    /// Goes on with the reply to the last request.
    pub fn resume(self, reply: IoReply) -> (r: Progress)
        ensures
            r@ == next_of(self@, reply@),
    {
        let stop = match &reply {
            IoReply::Cancelled => true,
            _ => false,
        };
        if stop {
            return failure(String::from_str("Execution was cancelled."));
        }
        match self {
            Execution::Reading { path } => match reply {
                IoReply::Content(c) => success(c),
                IoReply::Failed(e) => failure(
                    concat4("Failed to read file '", path.as_str(), "': ", e.as_str()),
                ),
                _ => misfit_reply(),
            },
            Execution::Writing { path } => match reply {
                IoReply::Written => success(
                    concat3("Successfully wrote to file '", path.as_str(), "'."),
                ),
                IoReply::Failed(e) => failure(
                    concat4("Failed to write to file '", path.as_str(), "': ", e.as_str()),
                ),
                _ => misfit_reply(),
            },
            Execution::EditReading { path, old_text, new_text } => match reply {
                IoReply::Content(c) => {
                    let content = replace_all(c.as_str(), old_text.as_str(), new_text.as_str());
                    let target = path.clone();
                    Progress::Pending(
                        Execution::EditWriting { path },
                        IoRequest::WriteFile { path: target, content },
                    )
                },
                IoReply::Failed(e) => failure(
                    concat4("Failed to read file '", path.as_str(), "': ", e.as_str()),
                ),
                _ => misfit_reply(),
            },
            Execution::EditWriting { path } => match reply {
                IoReply::Written => success(
                    concat3("Successfully edited file '", path.as_str(), "'."),
                ),
                IoReply::Failed(e) => failure(
                    concat4("Failed to write to file '", path.as_str(), "': ", e.as_str()),
                ),
                _ => misfit_reply(),
            },
            Execution::Listing { path } => match reply {
                IoReply::Names(names) => {
                    let ordered = sort_texts(names);
                    success(join(&ordered, "\n"))
                },
                IoReply::Failed(e) => failure(
                    concat4("Failed to read directory '", path.as_str(), "': ", e.as_str()),
                ),
                IoReply::Broken(e) => failure(
                    concat2("Failed to read directory entry: ", e.as_str()),
                ),
                _ => misfit_reply(),
            },
            Execution::SearchWalking { pattern, filter } => match reply {
                IoReply::Names(files) => {
                    let files = keep_files(files, &filter);
                    let found: Vec<String> = Vec::new();
                    assert(texts(found@) =~= Seq::<Seq<char>>::empty());
                    search_next(pattern, files, 0, found)
                },
                IoReply::Failed(e) => failure(concat2("Error walking directory: ", e.as_str())),
                _ => misfit_reply(),
            },
            Execution::SearchReading { pattern, files, at, found } => {
                if at >= files.len() {
                    return misfit_reply();
                }
                match reply {
                    IoReply::Content(c) => {
                        let rows = lines(c.as_str());
                        let mut found = found;
                        match add_hits(pattern.as_str(), files[at].as_str(), &rows, &mut found) {
                            Err(e) => failure(concat2("Invalid regex pattern: ", e.as_str())),
                            Ok(_) => search_next(pattern, files, at + 1, found),
                        }
                    },
                    IoReply::Failed(e) => failure(
                        concat4("Failed to read file '", files[at].as_str(), "': ", e.as_str()),
                    ),
                    _ => misfit_reply(),
                }
            },
            Execution::Finding => match reply {
                IoReply::Matches(items) => match split_matches(items) {
                    Err(e) => failure(concat2("Error matching glob pattern: ", e.as_str())),
                    Ok(paths) => {
                        let ordered = sort_texts(paths);
                        success(listing_text(&ordered))
                    },
                },
                IoReply::Failed(e) => failure(concat2("Invalid glob pattern: ", e.as_str())),
                _ => misfit_reply(),
            },
            Execution::Running => match reply {
                IoReply::Exit(exit) => {
                    if exit.success {
                        success(exit.stdout)
                    } else {
                        let code = code_string(exit.code);
                        failure(
                            concat4(
                                "Command failed with exit code ",
                                code.as_str(),
                                ": ",
                                exit.stderr.as_str(),
                            ),
                        )
                    }
                },
                IoReply::Failed(e) => failure(concat2("Failed to execute command: ", e.as_str())),
                _ => misfit_reply(),
            },
            Execution::Shell => match reply {
                IoReply::Exit(exit) => {
                    if exit.success {
                        success(exit.stdout)
                    } else {
                        let code = code_string(exit.code);
                        failure(concat2("Komut hata koduyla çıktı: ", code.as_str()))
                    }
                },
                IoReply::Failed(e) => failure(concat2("Komut çalıştırılamadı: ", e.as_str())),
                _ => misfit_reply(),
            },
            Execution::Fetching { url } => match reply {
                IoReply::Response(response) => {
                    if response.success {
                        success(response.body)
                    } else {
                        failure(
                            concat5(
                                "Failed to fetch URL: ",
                                url.as_str(),
                                " (Status: ",
                                response.status.as_str(),
                                ")",
                            ),
                        )
                    }
                },
                IoReply::Failed(e) => failure(
                    concat2("Failed to send request to URL: ", e.as_str()),
                ),
                IoReply::Broken(e) => failure(concat2("Failed to read response text: ", e.as_str())),
                _ => misfit_reply(),
            },
            Execution::Gathering { tasks, blocks, waiting } => gather_next(
                tasks,
                blocks,
                waiting,
                reply,
            ),
        }
    }
}

} // verus!
