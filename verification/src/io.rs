//! The work that the engine hands to its host, and what the host hands
//! back.

use crate::text::texts;
use vstd::prelude::*;

verus! {

/// What a path names.
#[derive(Clone, Copy, Debug, PartialEq, Eq, Structural)]
pub enum PathKind {
    File,
    Directory,
    Missing,
}

/// One result of expanding a glob pattern.
#[derive(Clone, Debug, PartialEq, Eq)]
pub enum GlobMatch {
    /// A path that matches.
    Path(String),
    /// A place that could not be read; the text says why.
    Unreadable(String),
}

/// The view of `GlobMatch`: the same value, with every text as its characters.
pub enum GlobMatchView {
    Path(Seq<char>),
    Unreadable(Seq<char>),
}

impl View for GlobMatch {
    type V = GlobMatchView;

    open spec fn view(&self) -> GlobMatchView {
        match self {
            GlobMatch::Path(t) => GlobMatchView::Path(t@),
            GlobMatch::Unreadable(t) => GlobMatchView::Unreadable(t@),
        }
    }
}

/// The views of a list of glob results.
pub open spec fn match_views(items: Seq<GlobMatch>) -> Seq<GlobMatchView> {
    Seq::new(items.len(), |i: int| items[i]@)
}

/// How a command ended.
#[derive(Clone, Debug, PartialEq, Eq)]
pub struct CommandExit {
    /// Whether the exit status says success.
    pub success: bool,
    /// The exit code, where the command was not ended by a signal.
    pub code: Option<i32>,
    pub stdout: String,
    pub stderr: String,
}

/// The view of `CommandExit`: the same value, with every text as its characters.
pub struct ExitView {
    pub success: bool,
    pub code: Option<i32>,
    pub stdout: Seq<char>,
    pub stderr: Seq<char>,
}

impl View for CommandExit {
    type V = ExitView;

    open spec fn view(&self) -> ExitView {
        ExitView {
            success: self.success,
            code: self.code,
            stdout: self.stdout@,
            stderr: self.stderr@,
        }
    }
}

/// The answer to a fetch.
#[derive(Clone, Debug, PartialEq, Eq)]
pub struct HttpResponse {
    /// Whether the status says success.
    pub success: bool,
    /// The status, as it is shown.
    pub status: String,
    /// The body; empty where the status says no success.
    pub body: String,
}

/// The view of `HttpResponse`: the same value, with every text as its characters.
pub struct ResponseView {
    pub success: bool,
    pub status: Seq<char>,
    pub body: Seq<char>,
}

impl View for HttpResponse {
    type V = ResponseView;

    open spec fn view(&self) -> ResponseView {
        ResponseView { success: self.success, status: self.status@, body: self.body@ }
    }
}

/// One piece of outside work.
#[derive(Clone, Debug, PartialEq, Eq)]
pub enum IoRequest {
    /// Read the file as text.
    ReadFile { path: String },
    /// Write the text to the file, replacing what it held.
    WriteFile { path: String, content: String },
    /// Name the entries of the directory.
    ListDirectory { path: String },
    /// Name the files under the directory, at any depth; leave out what
    /// ignore files exclude where `honor_ignore_files` is set.
    WalkFiles { root: String, honor_ignore_files: bool },
    /// Name the paths that match the glob pattern.
    ExpandGlob { pattern: String },
    /// Say what the path names.
    InspectPath { path: String },
    /// Run the command line in the shell and wait for its end.
    RunCommand { command: String },
    /// Fetch the URL.
    FetchUrl { url: String },
}

/// The view of `IoRequest`: the same value, with every text as its characters.
pub enum RequestView {
    ReadFile { path: Seq<char> },
    WriteFile { path: Seq<char>, content: Seq<char> },
    ListDirectory { path: Seq<char> },
    WalkFiles { root: Seq<char>, honor_ignore_files: bool },
    ExpandGlob { pattern: Seq<char> },
    InspectPath { path: Seq<char> },
    RunCommand { command: Seq<char> },
    FetchUrl { url: Seq<char> },
}

impl View for IoRequest {
    type V = RequestView;

    open spec fn view(&self) -> RequestView {
        match self {
            IoRequest::ReadFile { path } => RequestView::ReadFile { path: path@ },
            IoRequest::WriteFile { path, content } => RequestView::WriteFile {
                path: path@,
                content: content@,
            },
            IoRequest::ListDirectory { path } => RequestView::ListDirectory { path: path@ },
            IoRequest::WalkFiles { root, honor_ignore_files } => RequestView::WalkFiles {
                root: root@,
                honor_ignore_files: *honor_ignore_files,
            },
            IoRequest::ExpandGlob { pattern } => RequestView::ExpandGlob { pattern: pattern@ },
            IoRequest::InspectPath { path } => RequestView::InspectPath { path: path@ },
            IoRequest::RunCommand { command } => RequestView::RunCommand { command: command@ },
            IoRequest::FetchUrl { url } => RequestView::FetchUrl { url: url@ },
        }
    }
}

/// What came of a piece of outside work.
#[derive(Clone, Debug, PartialEq, Eq)]
pub enum IoReply {
    /// The work could not be done; the text says why.
    Failed(String),
    /// The work began and broke off: an entry of the directory or the body
    /// of the response could not be read. The text says why.
    Broken(String),
    /// The work was cancelled before it ended.
    Cancelled,
    /// The content of the file.
    Content(String),
    /// The file was written.
    Written,
    /// The names of the entries, or the paths of the files.
    Names(Vec<String>),
    /// The results of the expansion, in the order in which they came.
    Matches(Vec<GlobMatch>),
    /// What the path names.
    Kind(PathKind),
    /// How the command ended.
    Exit(CommandExit),
    /// The answer to the fetch.
    Response(HttpResponse),
}

/// The view of `IoReply`: the same value, with every text as its characters.
pub enum ReplyView {
    Failed(Seq<char>),
    Broken(Seq<char>),
    Cancelled,
    Content(Seq<char>),
    Written,
    Names(Seq<Seq<char>>),
    Matches(Seq<GlobMatchView>),
    Kind(PathKind),
    Exit(ExitView),
    Response(ResponseView),
}

impl View for IoReply {
    type V = ReplyView;

    open spec fn view(&self) -> ReplyView {
        match self {
            IoReply::Failed(t) => ReplyView::Failed(t@),
            IoReply::Broken(t) => ReplyView::Broken(t@),
            IoReply::Cancelled => ReplyView::Cancelled,
            IoReply::Content(t) => ReplyView::Content(t@),
            IoReply::Written => ReplyView::Written,
            IoReply::Names(names) => ReplyView::Names(texts(names@)),
            IoReply::Matches(items) => ReplyView::Matches(match_views(items@)),
            IoReply::Kind(k) => ReplyView::Kind(*k),
            IoReply::Exit(x) => ReplyView::Exit(x@),
            IoReply::Response(r) => ReplyView::Response(r@),
        }
    }
}

} // verus!
