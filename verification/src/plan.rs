//! The work that a tool call asks for.

use vstd::prelude::*;

verus! {

/// What a tool wants done with the arguments that it was given.
#[derive(Clone, Debug, PartialEq, Eq)]
pub enum ToolPlan {
    /// Nothing: the call fails with this message.
    Fail(String),
    /// Nothing: the call succeeds with this text.
    Reply(String),
    /// Read a file and hand out its content.
    ReadFile { path: String },
    /// Write `content` to a file.
    WriteFile { path: String, content: String },
    /// Replace every `old_text` in a file by `new_text`.
    EditFile { path: String, old_text: String, new_text: String },
    /// List the names in a directory, sorted.
    ListDirectory { path: String },
    /// Search the files under `root` for lines that match `pattern`; only
    /// the files whose path holds `filter`, where one is given.
    SearchContent { pattern: String, root: String, filter: Option<String> },
    /// List the paths that match a glob pattern, sorted.
    FindFiles { pattern: String },
    /// Run a command line in the shell.
    RunCommand { command: String },
    /// Fetch a URL.
    FetchUrl { url: String },
    /// Read the files that the paths name, one path after the other; a path
    /// that is no text is `None`.
    ReadMany { paths: Vec<Option<String>> },
}

/// The view of `ToolPlan`: the same value, with every text as its characters.
pub enum PlanView {
    Fail(Seq<char>),
    Reply(Seq<char>),
    ReadFile { path: Seq<char> },
    WriteFile { path: Seq<char>, content: Seq<char> },
    EditFile { path: Seq<char>, old_text: Seq<char>, new_text: Seq<char> },
    ListDirectory { path: Seq<char> },
    SearchContent { pattern: Seq<char>, root: Seq<char>, filter: Option<Seq<char>> },
    FindFiles { pattern: Seq<char> },
    RunCommand { command: Seq<char> },
    FetchUrl { url: Seq<char> },
    ReadMany { paths: Seq<Option<Seq<char>>> },
}

impl View for ToolPlan {
    type V = PlanView;

    open spec fn view(&self) -> PlanView {
        match self {
            ToolPlan::Fail(m) => PlanView::Fail(m@),
            ToolPlan::Reply(m) => PlanView::Reply(m@),
            ToolPlan::ReadFile { path } => PlanView::ReadFile { path: path@ },
            ToolPlan::WriteFile { path, content } => PlanView::WriteFile {
                path: path@,
                content: content@,
            },
            ToolPlan::EditFile { path, old_text, new_text } => PlanView::EditFile {
                path: path@,
                old_text: old_text@,
                new_text: new_text@,
            },
            ToolPlan::ListDirectory { path } => PlanView::ListDirectory { path: path@ },
            ToolPlan::SearchContent { pattern, root, filter } => PlanView::SearchContent {
                pattern: pattern@,
                root: root@,
                filter: match filter {
                    Some(i) => Some(i@),
                    None => None,
                },
            },
            ToolPlan::FindFiles { pattern } => PlanView::FindFiles { pattern: pattern@ },
            ToolPlan::RunCommand { command } => PlanView::RunCommand { command: command@ },
            ToolPlan::FetchUrl { url } => PlanView::FetchUrl { url: url@ },
            ToolPlan::ReadMany { paths } => PlanView::ReadMany {
                paths: crate::params::item_views(paths@),
            },
        }
    }
}

} // verus!
