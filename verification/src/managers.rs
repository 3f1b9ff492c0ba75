//! The helpers around a session: the command log, the context memory, and
//! the stand-ins for sandboxing and safety assessment.

use crate::error::ShellmindError;
use crate::params::ToolParams;
use crate::scan::{lines, lines_of};
use crate::text::{concat5, join, joined, same_text, texts};
use vstd::prelude::*;
use vstd::string::*;

verus! {

/// The log of the lines that the user entered, oldest first.
#[derive(Clone, Debug, PartialEq, Eq)]
pub struct CommandHistoryManager {
    history: Vec<String>,
}

impl View for CommandHistoryManager {
    type V = Seq<Seq<char>>;

    closed spec fn view(&self) -> Seq<Seq<char>> {
        texts(self.history@)
    }
}

impl CommandHistoryManager {
    /// An empty log.
    pub fn new() -> (r: CommandHistoryManager)
        ensures
            r@ == Seq::<Seq<char>>::empty(),
    {
        let r = CommandHistoryManager { history: Vec::new() };
        assert(r@ =~= Seq::empty());
        r
    }

    /// The log that a stored text holds: one entry per line.
    pub fn from_text(content: &str) -> (r: CommandHistoryManager)
        ensures
            r@ == lines_of(content@),
    {
        CommandHistoryManager { history: lines(content) }
    }

    /// Adds `command` at the end of the log and returns the text to store:
    /// the entries, one per line.
    pub fn add_command(&mut self, command: &str) -> (r: String)
        ensures
            final(self)@ == old(self)@.push(command@),
            r@ == joined(final(self)@, "\n"@),
    {
        self.history.push(command.to_owned());
        assert(self@ =~= old(self)@.push(command@));
        join(&self.history, "\n")
    }

    /// The entries, oldest first.
    pub fn get_history(&self) -> (r: &Vec<String>)
        ensures
            texts(r@) == self@,
    {
        &self.history
    }
}

/// How safe a call is taken to be.
#[derive(Clone, Copy, Debug, PartialEq, Eq, Structural)]
pub enum SafetyLevel {
    Safe,
    Warning,
    Dangerous,
}

/// The stand-in for a sandbox: it isolates nothing.
#[derive(Clone, Debug, PartialEq, Eq)]
pub struct SandboxManager;

impl SandboxManager {
    /// Says that a sandbox of the given kind was made; none is.
    pub fn create_sandbox(sandbox_type: &str) -> (r: Result<String, ShellmindError>)
        ensures
            r matches Ok(text) && text@ == "Sandbox created: "@ + sandbox_type@,
    {
        Ok(crate::text::concat2("Sandbox created: ", sandbox_type))
    }

    /// Says that a command was run in a sandbox; nothing is run.
    pub fn execute_safely(command: &str, sandbox_id: &str) -> (r: Result<String, ShellmindError>)
        ensures
            r matches Ok(text) && text@ == "Command '"@ + command@ + "' executed safely in sandbox '"@
                + sandbox_id@ + "'."@,
    {
        Ok(concat5("Command '", command, "' executed safely in sandbox '", sandbox_id, "'."))
    }

    /// Lets every operation pass.
    pub fn validate_operation(operation: &str) -> (r: Result<(), ShellmindError>)
        ensures
            r is Ok,
    {
        Ok(())
    }
}

/// The stand-in for a safety assessment: it finds everything safe and wants
/// everything confirmed.
#[derive(Clone, Debug, PartialEq, Eq)]
pub struct SecurityManager;

impl SecurityManager {
    /// Takes every call to be safe.
    pub fn assess_tool_safety(tool_name: &str, params: &ToolParams) -> (r: SafetyLevel)
        ensures
            r == SafetyLevel::Safe,
    {
        SafetyLevel::Safe
    }

    /// Wants every operation confirmed.
    pub fn requires_confirmation(operation: &str) -> (r: bool)
        ensures
            r,
    {
        true
    }

    /// Hands the input back as it is.
    pub fn sanitize_input(input: &str) -> (r: String)
        ensures
            r@ == input@,
    {
        input.to_owned()
    }
}

/// A named piece of context.
#[derive(Clone, Debug, PartialEq, Eq)]
pub struct ContextFile {
    pub name: String,
    pub content: String,
}

/// The views of a list of context files.
pub open spec fn context_views(files: Seq<ContextFile>) -> Seq<(Seq<char>, Seq<char>)> {
    Seq::new(files.len(), |i: int| (files[i].name@, files[i].content@))
}

/// Where the file called `name` stands, or the length where there is none.
pub open spec fn file_position(files: Seq<(Seq<char>, Seq<char>)>, name: Seq<char>) -> int
    decreases files.len(),
{
    if files.len() == 0 {
        0
    } else if files[0].0 == name {
        0
    } else {
        1 + file_position(files.skip(1), name)
    }
}

/// The files after `name` was given `content`: it replaces the file of that
/// name, or comes last.
pub open spec fn with_file(
    files: Seq<(Seq<char>, Seq<char>)>,
    name: Seq<char>,
    content: Seq<char>,
) -> Seq<(Seq<char>, Seq<char>)> {
    let at = file_position(files, name);
    if 0 <= at < files.len() {
        files.update(at, (name, content))
    } else {
        files.push((name, content))
    }
}

/// The sections of the context files, one after the other.
pub open spec fn file_sections(files: Seq<(Seq<char>, Seq<char>)>) -> Seq<char>
    decreases files.len(),
{
    if files.len() == 0 {
        Seq::empty()
    } else {
        file_sections(files.drop_last()) + ("--- "@ + files.last().0 + " Context ---\n"@
            + files.last().1 + "\n"@)
    }
}

/// The whole context: the files' sections, and below them what was noted at
/// run time, where anything was.
pub open spec fn full_context(files: Seq<(Seq<char>, Seq<char>)>, notes: Seq<Seq<char>>) -> Seq<
    char,
> {
    if notes.len() == 0 {
        file_sections(files)
    } else {
        file_sections(files) + "--- Runtime Memory ---\n"@ + joined(notes, "\n"@) + "\n"@
    }
}

/// The context that goes with a conversation: named files, each name once,
/// and notes taken at run time.
#[derive(Clone, Debug, PartialEq, Eq)]
pub struct MemoryManager {
    context_files: Vec<ContextFile>,
    runtime_memory: Vec<String>,
}

impl MemoryManager {
    /// The context files, in the order in which their names first came.
    pub closed spec fn files(&self) -> Seq<(Seq<char>, Seq<char>)> {
        context_views(self.context_files@)
    }

    /// The notes, oldest first.
    pub closed spec fn notes(&self) -> Seq<Seq<char>> {
        texts(self.runtime_memory@)
    }

    /// A memory without files and notes.
    pub fn new() -> (r: MemoryManager)
        ensures
            r.files() == Seq::<(Seq<char>, Seq<char>)>::empty(),
            r.notes() == Seq::<Seq<char>>::empty(),
    {
        let r = MemoryManager { context_files: Vec::new(), runtime_memory: Vec::new() };
        assert(r.files() =~= Seq::empty());
        assert(r.notes() =~= Seq::empty());
        r
    }

    /// Gives the file `name` the content `content`.
    pub fn set_context_file(&mut self, name: &str, content: &str)
        ensures
            final(self).files() == with_file(old(self).files(), name@, content@),
            final(self).notes() == old(self).notes(),
    {
        let ghost before = context_views(self.context_files@);
        let mut i: usize = 0;
        assert(before.skip(0) =~= before);
        while i < self.context_files.len()
            invariant
                i <= self.context_files@.len(),
                self.context_files@ == old(self).context_files@,
                self.runtime_memory@ == old(self).runtime_memory@,
                before == context_views(self.context_files@),
                file_position(before, name@) == i + file_position(before.skip(i as int), name@),
            decreases self.context_files@.len() - i,
        {
            assert(before.skip(i as int)[0] == before[i as int]);
            if same_text(self.context_files[i].name.as_str(), name) {
                self.context_files.set(
                    i,
                    ContextFile { name: name.to_owned(), content: content.to_owned() },
                );
                assert(context_views(self.context_files@) =~= before.update(
                    i as int,
                    (name@, content@),
                ));
                return ;
            }
            assert(before.skip(i as int).skip(1) =~= before.skip(i + 1));
            i = i + 1;
        }
        self.context_files.push(ContextFile { name: name.to_owned(), content: content.to_owned() });
        assert(context_views(self.context_files@) =~= before.push((name@, content@)));
    }

    /// Loads the layered context. There is one layer, with a fixed text.
    pub fn load_hierarchical_context(&mut self) -> (r: Result<(), ShellmindError>)
        ensures
            r is Ok,
            final(self).files() == with_file(
                old(self).files(),
                "global"@,
                "Global context loaded."@,
            ),
            final(self).notes() == old(self).notes(),
    {
        self.set_context_file("global", "Global context loaded.");
        Ok(())
    }

    /// Loads the layered context anew.
    pub fn refresh_context(&mut self) -> (r: Result<(), ShellmindError>)
        ensures
            r is Ok,
            final(self).files() == with_file(
                old(self).files(),
                "global"@,
                "Global context loaded."@,
            ),
            final(self).notes() == old(self).notes(),
    {
        self.load_hierarchical_context()
    }

    /// Takes a note.
    pub fn add_runtime_memory(&mut self, content: String)
        ensures
            final(self).notes() == old(self).notes().push(content@),
            final(self).files() == old(self).files(),
    {
        self.runtime_memory.push(content);
        assert(self.notes() =~= old(self).notes().push(content@));
    }

    /// The whole context as one text.
    pub fn get_full_context(&self) -> (r: String)
        ensures
            r@ == full_context(self.files(), self.notes()),
    {
        let ghost all = context_views(self.context_files@);
        let mut out = String::new();
        let mut i: usize = 0;
        assert(out@ =~= file_sections(all.take(0)));
        while i < self.context_files.len()
            invariant
                i <= self.context_files@.len(),
                all == context_views(self.context_files@),
                out@ == file_sections(all.take(i as int)),
            decreases self.context_files@.len() - i,
        {
            assert(all.take(i + 1).drop_last() =~= all.take(i as int));
            assert(all.take(i + 1).last() == all[i as int]);
            let section = concat5(
                "--- ",
                self.context_files[i].name.as_str(),
                " Context ---\n",
                self.context_files[i].content.as_str(),
                "\n",
            );
            out.append(section.as_str());
            i = i + 1;
        }
        assert(all.take(self.context_files@.len() as int) =~= all);
        if self.runtime_memory.len() > 0 {
            out.append("--- Runtime Memory ---\n");
            let notes = join(&self.runtime_memory, "\n");
            out.append(notes.as_str());
            out.append("\n");
        }
        out
    }
}

} // verus!
