//! A plan underway: the states of the machine that carries it out, and
//! what its steps are.

use crate::io::{GlobMatchView, IoRequest, PathKind, ReplyView, RequestView};
use crate::pattern::{regex_error, regex_matches};
use crate::plan::PlanView;
use crate::scan::{lines_of, occurs_in, replaced};
use crate::sorting::sorted;
use crate::text::{decimal, joined, signed_decimal, texts};
use crate::tool::{ResultView, ToolResult};
use vstd::prelude::*;

verus! {

/// One step of reading many files.
#[derive(Clone, Debug, PartialEq, Eq)]
pub enum Task {
    /// A path as the caller gave it; `None` where it was no text.
    Path(Option<String>),
    /// A path that a glob pattern matched: read it if it is a file.
    Candidate(String),
    /// A file to read.
    File(String),
    /// A block that is already written.
    Note(String),
}

/// The view of `Task`: the same value, with every text as its characters.
pub enum TaskView {
    Path(Option<Seq<char>>),
    Candidate(Seq<char>),
    File(Seq<char>),
    Note(Seq<char>),
}

impl View for Task {
    type V = TaskView;

    open spec fn view(&self) -> TaskView {
        match self {
            Task::Path(Some(p)) => TaskView::Path(Some(p@)),
            Task::Path(None) => TaskView::Path(None),
            Task::Candidate(p) => TaskView::Candidate(p@),
            Task::File(p) => TaskView::File(p@),
            Task::Note(t) => TaskView::Note(t@),
        }
    }
}

/// The views of a list of tasks.
pub open spec fn task_views(tasks: Seq<Task>) -> Seq<TaskView> {
    Seq::new(tasks.len(), |i: int| tasks[i]@)
}

/// What reading many files waits for.
#[derive(Clone, Debug, PartialEq, Eq)]
pub enum Waiting {
    /// The paths that a glob pattern matches.
    Expansion { pattern: String },
    /// What a given path names.
    Kind { path: String },
    /// What a matched path names.
    CandidateKind { path: String },
    /// The files under a directory.
    Walk,
    /// The content of a file.
    Content { path: String },
}

/// The view of `Waiting`: the same value, with every text as its characters.
pub enum WaitingView {
    Expansion { pattern: Seq<char> },
    Kind { path: Seq<char> },
    CandidateKind { path: Seq<char> },
    Walk,
    Content { path: Seq<char> },
}

impl View for Waiting {
    type V = WaitingView;

    open spec fn view(&self) -> WaitingView {
        match self {
            Waiting::Expansion { pattern } => WaitingView::Expansion { pattern: pattern@ },
            Waiting::Kind { path } => WaitingView::Kind { path: path@ },
            Waiting::CandidateKind { path } => WaitingView::CandidateKind { path: path@ },
            Waiting::Walk => WaitingView::Walk,
            Waiting::Content { path } => WaitingView::Content { path: path@ },
        }
    }
}

/// A plan underway: what was asked for last, and what is needed to go on
/// when the answer comes.
#[derive(Clone, Debug, PartialEq, Eq)]
pub enum Execution {
    /// Reading the file of a read.
    Reading { path: String },
    /// Writing the file of a write.
    Writing { path: String },
    /// Reading the file of an edit.
    EditReading { path: String, old_text: String, new_text: String },
    /// Writing the file of an edit.
    EditWriting { path: String },
    /// Listing a directory.
    Listing { path: String },
    /// Walking the files of a search.
    SearchWalking { pattern: String, filter: Option<String> },
    /// Reading file number `at` of a search; `found` holds the hits in the
    /// files before it.
    SearchReading { pattern: String, files: Vec<String>, at: usize, found: Vec<String> },
    /// Expanding the pattern of a file search.
    Finding,
    /// Running the command of the shell tool.
    Running,
    /// Running a command line that the user agreed to.
    Shell,
    /// Fetching a URL.
    Fetching { url: String },
    /// Reading many files: the tasks still to do, the next one last, and the
    /// blocks written so far.
    Gathering { tasks: Vec<Task>, blocks: Vec<String>, waiting: Waiting },
}

/// The view of `Execution`: the same value, with every text as its characters.
pub enum ExecutionView {
    Reading { path: Seq<char> },
    Writing { path: Seq<char> },
    EditReading { path: Seq<char>, old_text: Seq<char>, new_text: Seq<char> },
    EditWriting { path: Seq<char> },
    Listing { path: Seq<char> },
    SearchWalking { pattern: Seq<char>, filter: Option<Seq<char>> },
    SearchReading { pattern: Seq<char>, files: Seq<Seq<char>>, at: int, found: Seq<Seq<char>> },
    Finding,
    Running,
    Shell,
    Fetching { url: Seq<char> },
    Gathering { tasks: Seq<TaskView>, blocks: Seq<Seq<char>>, waiting: WaitingView },
}

impl View for Execution {
    type V = ExecutionView;

    open spec fn view(&self) -> ExecutionView {
        match self {
            Execution::Reading { path } => ExecutionView::Reading { path: path@ },
            Execution::Writing { path } => ExecutionView::Writing { path: path@ },
            Execution::EditReading { path, old_text, new_text } => ExecutionView::EditReading {
                path: path@,
                old_text: old_text@,
                new_text: new_text@,
            },
            Execution::EditWriting { path } => ExecutionView::EditWriting { path: path@ },
            Execution::Listing { path } => ExecutionView::Listing { path: path@ },
            Execution::SearchWalking { pattern, filter } => ExecutionView::SearchWalking {
                pattern: pattern@,
                filter: filter_view(filter),
            },
            Execution::SearchReading { pattern, files, at, found } => ExecutionView::SearchReading {
                pattern: pattern@,
                files: texts(files@),
                at: *at as int,
                found: texts(found@),
            },
            Execution::Finding => ExecutionView::Finding,
            Execution::Running => ExecutionView::Running,
            Execution::Shell => ExecutionView::Shell,
            Execution::Fetching { url } => ExecutionView::Fetching { url: url@ },
            Execution::Gathering { tasks, blocks, waiting } => ExecutionView::Gathering {
                tasks: task_views(tasks@),
                blocks: texts(blocks@),
                waiting: waiting@,
            },
        }
    }
}

/// Where a plan stands: done, with its one result, or waiting for a piece
/// of outside work.
#[derive(Clone, Debug, PartialEq, Eq)]
pub enum Progress {
    Finished(ToolResult),
    Pending(Execution, IoRequest),
}

/// The view of `Progress`: the same value, with every text as its characters.
pub enum ProgressView {
    Finished(ResultView),
    Pending(ExecutionView, RequestView),
}

impl View for Progress {
    type V = ProgressView;

    open spec fn view(&self) -> ProgressView {
        match self {
            Progress::Finished(r) => ProgressView::Finished(r@),
            Progress::Pending(run, request) => ProgressView::Pending(run@, request@),
        }
    }
}

/// The result of work that was cancelled.
pub open spec fn cancelled() -> ProgressView {
    ProgressView::Finished(ResultView::Error("Execution was cancelled."@))
}

/// The result where the reply is none that the request can have.
pub open spec fn misfit() -> ProgressView {
    ProgressView::Finished(ResultView::Error("The reply does not answer the request."@))
}

/// The lines of a result list, or a line that says that there are none.
pub open spec fn listing(found: Seq<Seq<char>>) -> Seq<char> {
    if found.len() == 0 {
        "No matches found."@
    } else {
        joined(found, "\n"@)
    }
}

/// An exit code as it is shown.
pub open spec fn code_text(code: Option<i32>) -> Seq<char> {
    match code {
        Some(c) => "Some("@ + signed_decimal(c as int) + ")"@,
        None => "None"@,
    }
}

/// The view of a filter.
pub open spec fn filter_view(filter: &Option<String>) -> Option<Seq<char>> {
    match filter {
        Some(f) => Some(f@),
        None => None,
    }
}

/// The files of a search that pass its filter: all of them where there is
/// none, else those whose path holds the filter's text.
pub open spec fn kept(files: Seq<Seq<char>>, filter: Option<Seq<char>>) -> Seq<Seq<char>>
    decreases files.len(),
{
    if files.len() == 0 {
        Seq::empty()
    } else {
        let front = kept(files.drop_last(), filter);
        match filter {
            Some(f) => if occurs_in(files.last(), f) {
                front.push(files.last())
            } else {
                front
            },
            None => front.push(files.last()),
        }
    }
}

/// The hits of a search in one file: for each line that the pattern
/// matches, the path, the line's number from one, and the line.
pub open spec fn hits(pattern: Seq<char>, path: Seq<char>, lines: Seq<Seq<char>>) -> Seq<
    Seq<char>,
>
    decreases lines.len(),
{
    if lines.len() == 0 {
        Seq::empty()
    } else {
        let front = hits(pattern, path, lines.drop_last());
        if regex_matches(pattern, lines.last()) {
            front.push(path + ":"@ + decimal(lines.len()) + ":"@ + lines.last())
        } else {
            front
        }
    }
}

/// A search that has read the files before `at`: it reads the next file or
/// ends with what it found.
pub open spec fn search_on(
    pattern: Seq<char>,
    files: Seq<Seq<char>>,
    at: int,
    found: Seq<Seq<char>>,
) -> ProgressView {
    if 0 <= at < files.len() {
        ProgressView::Pending(
            ExecutionView::SearchReading { pattern, files, at, found },
            RequestView::ReadFile { path: files[at] },
        )
    } else {
        ProgressView::Finished(ResultView::Success(listing(found)))
    }
}

/// The first place that a glob expansion could not read, if there is one.
pub open spec fn first_unreadable(items: Seq<GlobMatchView>) -> Option<Seq<char>>
    decreases items.len(),
{
    if items.len() == 0 {
        None
    } else {
        match first_unreadable(items.drop_last()) {
            Some(e) => Some(e),
            None => match items.last() {
                GlobMatchView::Unreadable(e) => Some(e),
                GlobMatchView::Path(p) => None,
            },
        }
    }
}

/// The paths among the results of a glob expansion.
pub open spec fn matched_paths(items: Seq<GlobMatchView>) -> Seq<Seq<char>>
    decreases items.len(),
{
    if items.len() == 0 {
        Seq::empty()
    } else {
        match items.last() {
            GlobMatchView::Path(p) => matched_paths(items.drop_last()).push(p),
            GlobMatchView::Unreadable(e) => matched_paths(items.drop_last()),
        }
    }
}

/// Whether a path is a glob pattern: it holds a star, a question mark or an
/// opening square bracket.
pub open spec fn is_glob(path: Seq<char>) -> bool {
    path.contains('*') || path.contains('?') || path.contains('[')
}

/// The tasks for the given paths: the first path is the last task.
pub open spec fn path_tasks(paths: Seq<Option<Seq<char>>>) -> Seq<TaskView> {
    Seq::new(paths.len(), |i: int| TaskView::Path(paths[paths.len() - 1 - i]))
}

/// The task for one result of a glob expansion.
pub open spec fn match_task(item: GlobMatchView) -> TaskView {
    match item {
        GlobMatchView::Path(p) => TaskView::Candidate(p),
        GlobMatchView::Unreadable(e) => TaskView::Note("Error matching glob entry: "@ + e),
    }
}

/// The tasks for the results of a glob expansion: the first result is the
/// last task.
pub open spec fn match_tasks(items: Seq<GlobMatchView>) -> Seq<TaskView> {
    Seq::new(items.len(), |i: int| match_task(items[items.len() - 1 - i]))
}

/// The tasks for the files of a directory: the first file is the last task.
pub open spec fn file_tasks(files: Seq<Seq<char>>) -> Seq<TaskView> {
    Seq::new(files.len(), |i: int| TaskView::File(files[files.len() - 1 - i]))
}

/// The block that shows a file: a header with its path, and below it what
/// is to be said of it.
pub open spec fn block(path: Seq<char>, body: Seq<char>) -> Seq<char> {
    "--- "@ + path + " ---\n"@ + body
}

/// Reading many files, with `tasks` to do and `blocks` written: the tasks
/// are taken from the end until one needs outside work; when none is left,
/// the blocks are the result.
pub open spec fn gather(tasks: Seq<TaskView>, blocks: Seq<Seq<char>>) -> ProgressView
    decreases tasks.len(),
{
    if tasks.len() == 0 {
        ProgressView::Finished(
            ResultView::Success(
                if blocks.len() == 0 {
                    "No readable files found."@
                } else {
                    joined(blocks, "\n"@)
                },
            ),
        )
    } else {
        let rest = tasks.drop_last();
        match tasks.last() {
            TaskView::Path(None) => ProgressView::Finished(
                ResultView::Error("Invalid path in 'paths' array for ReadManyFilesTool"@),
            ),
            TaskView::Path(Some(p)) => if is_glob(p) {
                ProgressView::Pending(
                    ExecutionView::Gathering {
                        tasks: rest,
                        blocks,
                        waiting: WaitingView::Expansion { pattern: p },
                    },
                    RequestView::ExpandGlob { pattern: p },
                )
            } else {
                ProgressView::Pending(
                    ExecutionView::Gathering { tasks: rest, blocks, waiting: WaitingView::Kind { path: p } },
                    RequestView::InspectPath { path: p },
                )
            },
            TaskView::Candidate(p) => ProgressView::Pending(
                ExecutionView::Gathering {
                    tasks: rest,
                    blocks,
                    waiting: WaitingView::CandidateKind { path: p },
                },
                RequestView::InspectPath { path: p },
            ),
            TaskView::File(p) => ProgressView::Pending(
                ExecutionView::Gathering { tasks: rest, blocks, waiting: WaitingView::Content { path: p } },
                RequestView::ReadFile { path: p },
            ),
            TaskView::Note(t) => gather(rest, blocks.push(t)),
        }
    }
}

/// How reading many files goes on with a reply.
pub open spec fn gather_on(
    tasks: Seq<TaskView>,
    blocks: Seq<Seq<char>>,
    waiting: WaitingView,
    reply: ReplyView,
) -> ProgressView {
    match waiting {
        WaitingView::Expansion { pattern } => match reply {
            ReplyView::Matches(items) => gather(tasks + match_tasks(items), blocks),
            ReplyView::Failed(e) => ProgressView::Finished(
                ResultView::Error("Invalid glob pattern '"@ + pattern + "': "@ + e),
            ),
            _ => misfit(),
        },
        WaitingView::Kind { path } => match reply {
            ReplyView::Kind(PathKind::File) => ProgressView::Pending(
                ExecutionView::Gathering { tasks, blocks, waiting: WaitingView::Content { path } },
                RequestView::ReadFile { path },
            ),
            ReplyView::Kind(PathKind::Directory) => ProgressView::Pending(
                ExecutionView::Gathering { tasks, blocks, waiting: WaitingView::Walk },
                RequestView::WalkFiles { root: path, honor_ignore_files: false },
            ),
            ReplyView::Kind(PathKind::Missing) => gather(
                tasks,
                blocks.push(block(path, "File or directory not found."@)),
            ),
            _ => misfit(),
        },
        WaitingView::CandidateKind { path } => match reply {
            ReplyView::Kind(PathKind::File) => ProgressView::Pending(
                ExecutionView::Gathering { tasks, blocks, waiting: WaitingView::Content { path } },
                RequestView::ReadFile { path },
            ),
            ReplyView::Kind(_) => gather(tasks, blocks),
            _ => misfit(),
        },
        WaitingView::Walk => match reply {
            ReplyView::Names(files) => gather(tasks + file_tasks(files), blocks),
            ReplyView::Failed(e) => ProgressView::Finished(
                ResultView::Error("Error walking directory: "@ + e),
            ),
            _ => misfit(),
        },
        WaitingView::Content { path } => match reply {
            ReplyView::Content(c) => gather(tasks, blocks.push(block(path, c))),
            ReplyView::Failed(e) => gather(
                tasks,
                blocks.push(block(path, "Error reading file: "@ + e)),
            ),
            _ => misfit(),
        },
    }
}

/// The first step of a plan.
pub open spec fn start_of(plan: PlanView) -> ProgressView {
    match plan {
        PlanView::Fail(m) => ProgressView::Finished(ResultView::Error(m)),
        PlanView::Reply(m) => ProgressView::Finished(ResultView::Success(m)),
        PlanView::ReadFile { path } => ProgressView::Pending(
            ExecutionView::Reading { path },
            RequestView::ReadFile { path },
        ),
        PlanView::WriteFile { path, content } => ProgressView::Pending(
            ExecutionView::Writing { path },
            RequestView::WriteFile { path, content },
        ),
        PlanView::EditFile { path, old_text, new_text } => ProgressView::Pending(
            ExecutionView::EditReading { path, old_text, new_text },
            RequestView::ReadFile { path },
        ),
        PlanView::ListDirectory { path } => ProgressView::Pending(
            ExecutionView::Listing { path },
            RequestView::ListDirectory { path },
        ),
        PlanView::SearchContent { pattern, root, filter } => match regex_error(pattern) {
            Some(e) => ProgressView::Finished(ResultView::Error("Invalid regex pattern: "@ + e)),
            None => ProgressView::Pending(
                ExecutionView::SearchWalking { pattern, filter },
                RequestView::WalkFiles { root, honor_ignore_files: true },
            ),
        },
        PlanView::FindFiles { pattern } => ProgressView::Pending(
            ExecutionView::Finding,
            RequestView::ExpandGlob { pattern },
        ),
        PlanView::RunCommand { command } => ProgressView::Pending(
            ExecutionView::Running,
            RequestView::RunCommand { command },
        ),
        PlanView::FetchUrl { url } => ProgressView::Pending(
            ExecutionView::Fetching { url },
            RequestView::FetchUrl { url },
        ),
        PlanView::ReadMany { paths } => gather(path_tasks(paths), Seq::empty()),
    }
}

/// The first step of a command line for the shell.
pub open spec fn shell_start(command: Seq<char>) -> ProgressView {
    ProgressView::Pending(ExecutionView::Shell, RequestView::RunCommand { command })
}

/// The step that follows a reply. A cancelled piece of work ends the plan
/// with a failure, wherever it stands.
pub open spec fn next_of(run: ExecutionView, reply: ReplyView) -> ProgressView {
    if reply is Cancelled {
        cancelled()
    } else {
        match run {
            ExecutionView::Reading { path } => match reply {
                ReplyView::Content(c) => ProgressView::Finished(ResultView::Success(c)),
                ReplyView::Failed(e) => ProgressView::Finished(
                    ResultView::Error("Failed to read file '"@ + path + "': "@ + e),
                ),
                _ => misfit(),
            },
            ExecutionView::Writing { path } => match reply {
                ReplyView::Written => ProgressView::Finished(
                    ResultView::Success("Successfully wrote to file '"@ + path + "'."@),
                ),
                ReplyView::Failed(e) => ProgressView::Finished(
                    ResultView::Error("Failed to write to file '"@ + path + "': "@ + e),
                ),
                _ => misfit(),
            },
            ExecutionView::EditReading { path, old_text, new_text } => match reply {
                ReplyView::Content(c) => ProgressView::Pending(
                    ExecutionView::EditWriting { path },
                    RequestView::WriteFile { path, content: replaced(c, old_text, new_text) },
                ),
                ReplyView::Failed(e) => ProgressView::Finished(
                    ResultView::Error("Failed to read file '"@ + path + "': "@ + e),
                ),
                _ => misfit(),
            },
            ExecutionView::EditWriting { path } => match reply {
                ReplyView::Written => ProgressView::Finished(
                    ResultView::Success("Successfully edited file '"@ + path + "'."@),
                ),
                ReplyView::Failed(e) => ProgressView::Finished(
                    ResultView::Error("Failed to write to file '"@ + path + "': "@ + e),
                ),
                _ => misfit(),
            },
            ExecutionView::Listing { path } => match reply {
                ReplyView::Names(names) => ProgressView::Finished(
                    ResultView::Success(joined(sorted(names), "\n"@)),
                ),
                ReplyView::Failed(e) => ProgressView::Finished(
                    ResultView::Error("Failed to read directory '"@ + path + "': "@ + e),
                ),
                ReplyView::Broken(e) => ProgressView::Finished(
                    ResultView::Error("Failed to read directory entry: "@ + e),
                ),
                _ => misfit(),
            },
            ExecutionView::SearchWalking { pattern, filter } => match reply {
                ReplyView::Names(files) => search_on(pattern, kept(files, filter), 0, Seq::empty()),
                ReplyView::Failed(e) => ProgressView::Finished(
                    ResultView::Error("Error walking directory: "@ + e),
                ),
                _ => misfit(),
            },
            ExecutionView::SearchReading { pattern, files, at, found } => if 0 <= at < files.len() {
                match reply {
                    ReplyView::Content(c) => match regex_error(pattern) {
                        Some(e) => ProgressView::Finished(
                            ResultView::Error("Invalid regex pattern: "@ + e),
                        ),
                        None => search_on(
                            pattern,
                            files,
                            at + 1,
                            found + hits(pattern, files[at], lines_of(c)),
                        ),
                    },
                    ReplyView::Failed(e) => ProgressView::Finished(
                        ResultView::Error("Failed to read file '"@ + files[at] + "': "@ + e),
                    ),
                    _ => misfit(),
                }
            } else {
                misfit()
            },
            ExecutionView::Finding => match reply {
                ReplyView::Matches(items) => match first_unreadable(items) {
                    Some(e) => ProgressView::Finished(
                        ResultView::Error("Error matching glob pattern: "@ + e),
                    ),
                    None => ProgressView::Finished(
                        ResultView::Success(listing(sorted(matched_paths(items)))),
                    ),
                },
                ReplyView::Failed(e) => ProgressView::Finished(
                    ResultView::Error("Invalid glob pattern: "@ + e),
                ),
                _ => misfit(),
            },
            ExecutionView::Running => match reply {
                ReplyView::Exit(exit) => if exit.success {
                    ProgressView::Finished(ResultView::Success(exit.stdout))
                } else {
                    ProgressView::Finished(
                        ResultView::Error(
                            "Command failed with exit code "@ + code_text(exit.code) + ": "@
                                + exit.stderr,
                        ),
                    )
                },
                ReplyView::Failed(e) => ProgressView::Finished(
                    ResultView::Error("Failed to execute command: "@ + e),
                ),
                _ => misfit(),
            },
            ExecutionView::Shell => match reply {
                ReplyView::Exit(exit) => if exit.success {
                    ProgressView::Finished(ResultView::Success(exit.stdout))
                } else {
                    ProgressView::Finished(
                        ResultView::Error("Komut hata koduyla çıktı: "@ + code_text(exit.code)),
                    )
                },
                ReplyView::Failed(e) => ProgressView::Finished(
                    ResultView::Error("Komut çalıştırılamadı: "@ + e),
                ),
                _ => misfit(),
            },
            ExecutionView::Fetching { url } => match reply {
                ReplyView::Response(response) => if response.success {
                    ProgressView::Finished(ResultView::Success(response.body))
                } else {
                    ProgressView::Finished(
                        ResultView::Error(
                            "Failed to fetch URL: "@ + url + " (Status: "@ + response.status + ")"@,
                        ),
                    )
                },
                ReplyView::Failed(e) => ProgressView::Finished(
                    ResultView::Error("Failed to send request to URL: "@ + e),
                ),
                ReplyView::Broken(e) => ProgressView::Finished(
                    ResultView::Error("Failed to read response text: "@ + e),
                ),
                _ => misfit(),
            },
            ExecutionView::Gathering { tasks, blocks, waiting } => gather_on(
                tasks,
                blocks,
                waiting,
                reply,
            ),
        }
    }
}

/// Cancelled work ends a plan with a failure, wherever it stands: nothing
/// that was cancelled is reported as a success, and no more work is asked
/// for.
pub proof fn law_cancellation_is_failure(run: ExecutionView)
    ensures
        next_of(run, ReplyView::Cancelled) == ProgressView::Finished(
            ResultView::Error("Execution was cancelled."@),
        ),
{
}

/// A plan that refuses its arguments, or answers without work, ends at
/// once with its one result.
pub proof fn law_plans_without_work_end_at_once(text: Seq<char>)
    ensures
        start_of(PlanView::Fail(text)) == ProgressView::Finished(ResultView::Error(text)),
        start_of(PlanView::Reply(text)) == ProgressView::Finished(ResultView::Success(text)),
{
}

} // verus!
