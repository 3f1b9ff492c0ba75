//! What a suggestion of the backend is: prose, a call of a tool, or a
//! command line for the shell.

use crate::params::{arguments_or_empty, parsed_object, ParamValueView, ToolInvocation, ToolParams};
use crate::registry::{position_of, ToolRegistry};
use crate::text::{
    chars_of, has_char, is_space, lemma_trimmed_ends, lemma_trimmed_fixed, text_of, trim, trimmed,
};
use crate::tool::BaseTool;
use vstd::prelude::*;
use vstd::string::*;

verus! {

/// The characters of a tool's name in a call: letters and the underscore.
pub open spec fn is_name_char(c: char) -> bool {
    ('a' <= c && c <= 'z') || ('A' <= c && c <= 'Z') || c == '_'
}

/// Whether every character of `name` may stand in a tool's name.
pub open spec fn is_name(name: Seq<char>) -> bool {
    name.len() > 0 && forall|i: int| 0 <= i < name.len() ==> is_name_char(#[trigger] name[i])
}

/// The grammar of a call: `s` is `name`, an opening bracket, `args` and a
/// closing bracket, all on one line.
pub open spec fn is_call_of(s: Seq<char>, name: Seq<char>, args: Seq<char>) -> bool {
    s == name + seq!['('] + args + seq![')'] && is_name(name) && !args.contains('\n')
}

/// How many name characters `s` starts with.
pub open spec fn name_len(s: Seq<char>) -> nat
    decreases s.len(),
{
    if s.len() > 0 && is_name_char(s[0]) {
        1 + name_len(s.skip(1))
    } else {
        0
    }
}

/// Whether `s` is a call: a name, then a bracket that the last character
/// closes, on one line.
pub open spec fn is_call(s: Seq<char>) -> bool {
    name_len(s) >= 1 && s.len() >= name_len(s) + 2 && s[name_len(s) as int] == '(' && s.last()
        == ')' && !s.contains('\n')
}

/// The name that the call `s` starts with.
pub open spec fn call_name(s: Seq<char>) -> Seq<char> {
    s.take(name_len(s) as int)
}

/// What stands between the brackets of the call `s`.
pub open spec fn call_args(s: Seq<char>) -> Seq<char> {
    s.subrange(name_len(s) as int + 1, s.len() - 1)
}

/// A run of `n` name characters followed by the end or by another character
/// is the whole name prefix.
pub proof fn lemma_name_len(s: Seq<char>, n: int)
    requires
        0 <= n <= s.len(),
        forall|k: int| 0 <= k < n ==> is_name_char(#[trigger] s[k]),
        n == s.len() || !is_name_char(s[n]),
    ensures
        name_len(s) == n,
    decreases n,
{
    if n > 0 {
        let rest = s.skip(1);
        assert forall|k: int| 0 <= k < n - 1 implies is_name_char(#[trigger] rest[k]) by {
            assert(rest[k] == s[k + 1]);
        }
        lemma_name_len(rest, n - 1);
    }
}

/// A string is a call exactly if the grammar gives it a name and
/// arguments, and then these are `call_name` and `call_args`.
pub proof fn lemma_call_grammar(s: Seq<char>, name: Seq<char>, args: Seq<char>)
    ensures
        is_call_of(s, name, args) ==> is_call(s) && call_name(s) == name && call_args(s) == args,
        is_call(s) ==> is_call_of(s, call_name(s), call_args(s)),
{
    if is_call_of(s, name, args) {
        let n = name.len() as int;
        assert forall|k: int| 0 <= k < n implies is_name_char(#[trigger] s[k]) by {
            assert(s[k] == name[k]);
        }
        assert(s[n] == '(');
        lemma_name_len(s, n);
        assert(s.take(n) =~= name);
        assert(s.subrange(n + 1, s.len() - 1) =~= args);
        assert(s.last() == ')');
        if s.contains('\n') {
            let k = choose|k: int| 0 <= k < s.len() && s[k] == '\n';
            if k < n {
                assert(name[k] == '\n');
            } else if k > n && k < s.len() - 1 {
                assert(args[k - n - 1] == '\n');
            }
        }
    }
    if is_call(s) {
        let n = name_len(s) as int;
        let nm = call_name(s);
        let ar = call_args(s);
        lemma_name_prefix(s);
        assert(s =~= nm + seq!['('] + ar + seq![')']);
        if ar.contains('\n') {
            let k = choose|k: int| 0 <= k < ar.len() && ar[k] == '\n';
            assert(s[k + n + 1] == '\n');
        }
    }
}

/// The name prefix is made of name characters and is not longer than `s`.
pub proof fn lemma_name_prefix(s: Seq<char>)
    ensures
        name_len(s) <= s.len(),
        forall|k: int| 0 <= k < name_len(s) ==> is_name_char(#[trigger] s[k]),
        name_len(s) < s.len() ==> !is_name_char(s[name_len(s) as int]),
    decreases s.len(),
{
    if s.len() > 0 && is_name_char(s[0]) {
        let rest = s.skip(1);
        lemma_name_prefix(rest);
        assert forall|k: int| 0 <= k < name_len(s) implies is_name_char(#[trigger] s[k]) by {
            if k > 0 {
                assert(rest[k - 1] == s[k]);
            }
        }
        if name_len(s) < s.len() {
            assert(rest[name_len(rest) as int] == s[name_len(s) as int]);
        }
    }
}

/// What a suggestion was read as, before its arguments are parsed.
#[derive(Clone, Debug, PartialEq, Eq)]
pub enum Reading {
    /// Prose: the text holds a line feed.
    Information(String),
    /// A call of a registered tool, with the text between its brackets.
    Call { name: String, arguments: String },
    /// A call of a tool that is not registered.
    UnknownTool(String),
    /// Anything else: a command line, as it was given.
    ShellCommand(String),
}

/// The view of `Reading`: the same value, with every text as its characters.
pub enum ReadingView {
    Information(Seq<char>),
    Call { name: Seq<char>, arguments: Seq<char> },
    UnknownTool(Seq<char>),
    ShellCommand(Seq<char>),
}

impl View for Reading {
    type V = ReadingView;

    open spec fn view(&self) -> ReadingView {
        match self {
            Reading::Information(t) => ReadingView::Information(t@),
            Reading::Call { name, arguments } => ReadingView::Call {
                name: name@,
                arguments: arguments@,
            },
            Reading::UnknownTool(t) => ReadingView::UnknownTool(t@),
            Reading::ShellCommand(t) => ReadingView::ShellCommand(t@),
        }
    }
}

/// How `text` is read. A text with a line feed is prose. Else the text
/// without its outer white space is tried as a call; a call names a
/// registered tool or an unknown one. Whatever is left is a command line,
/// word for word.
pub open spec fn reading<T: BaseTool>(text: Seq<char>, tools: Seq<T>) -> ReadingView {
    let core = trimmed(text);
    if text.contains('\n') {
        ReadingView::Information(text)
    } else if is_call(core) {
        if position_of(tools, call_name(core)) < tools.len() {
            ReadingView::Call { name: call_name(core), arguments: call_args(core) }
        } else {
            ReadingView::UnknownTool(call_name(core))
        }
    } else {
        ReadingView::ShellCommand(text)
    }
}

/// What a suggestion is.
#[derive(Clone, Debug, PartialEq, Eq)]
pub enum Interpretation {
    /// Prose, to be shown and recorded; nothing runs.
    InformationalMessage(String),
    /// A call of a registered tool.
    ToolCall(ToolInvocation),
    /// A call of a tool that is not registered; nothing runs.
    UnknownTool(String),
    /// A command line for the shell.
    ShellCommand(String),
}

/// The view of `Interpretation`: the same value, with every text as its characters.
pub enum InterpretationView {
    InformationalMessage(Seq<char>),
    ToolCall { name: Seq<char>, params: Seq<(Seq<char>, ParamValueView)> },
    UnknownTool(Seq<char>),
    ShellCommand(Seq<char>),
}

impl View for Interpretation {
    type V = InterpretationView;

    open spec fn view(&self) -> InterpretationView {
        match self {
            Interpretation::InformationalMessage(t) => InterpretationView::InformationalMessage(t@),
            Interpretation::ToolCall(call) => InterpretationView::ToolCall {
                name: call.name@,
                params: call.params@,
            },
            Interpretation::UnknownTool(t) => InterpretationView::UnknownTool(t@),
            Interpretation::ShellCommand(t) => InterpretationView::ShellCommand(t@),
        }
    }
}

/// The interpretation that follows from a reading, given what the parse of
/// a call's arguments came to: arguments that do not parse count as none.
pub open spec fn interpretation_of(
    reading: ReadingView,
    parsed: Option<Seq<(Seq<char>, ParamValueView)>>,
) -> InterpretationView {
    match reading {
        ReadingView::Information(t) => InterpretationView::InformationalMessage(t),
        ReadingView::Call { name, arguments } => InterpretationView::ToolCall {
            name,
            params: arguments_or_empty(parsed),
        },
        ReadingView::UnknownTool(t) => InterpretationView::UnknownTool(t),
        ReadingView::ShellCommand(t) => InterpretationView::ShellCommand(t),
    }
}

/// The arguments text of a reading, where it is a call.
pub open spec fn arguments_text(reading: ReadingView) -> Seq<char> {
    match reading {
        ReadingView::Call { name, arguments } => arguments,
        _ => Seq::empty(),
    }
}

/// What `text` is, with the tools `tools` registered.
pub open spec fn interpretation<T: BaseTool>(text: Seq<char>, tools: Seq<T>) -> InterpretationView {
    interpretation_of(reading(text, tools), parsed_object(arguments_text(reading(text, tools))))
}

fn is_name_character(c: char) -> (r: bool)
    ensures
        r == is_name_char(c),
{
    ('a' <= c && c <= 'z') || ('A' <= c && c <= 'Z') || c == '_'
}

/// Reads `text` against the registered tools.
pub fn read<T: BaseTool>(text: &str, registry: &ToolRegistry<T>) -> (r: Reading)
    ensures
        r@ == reading(text@, registry.tools()),
{
    if has_char(text, '\n') {
        return Reading::Information(String::from_str(text));
    }
    let core = trim(text);
    let v = chars_of(core.as_str());
    let size = v.len();
    let mut n: usize = 0;
    while n < size && is_name_character(v[n])
        invariant
            size == v@.len(),
            n <= size,
            forall|k: int| 0 <= k < n ==> is_name_char(#[trigger] v@[k]),
        decreases size - n,
    {
        n = n + 1;
    }
    proof {
        lemma_name_len(v@, n as int);
        lemma_trimmed_ends(text@);
        if v@.contains('\n') {
            lemma_trimmed_within(text@, '\n');
        }
    }
    if n >= 1 && size - n >= 2 && v[n] == '(' && v[size - 1] == ')' {
        let name = text_of(&v, 0, n);
        assert(name@ =~= call_name(v@));
        match registry.get_tool(name.as_str()) {
            Some(_) => {
                let arguments = text_of(&v, n + 1, size - 1);
                Reading::Call { name, arguments }
            },
            None => Reading::UnknownTool(name),
        }
    } else {
        Reading::ShellCommand(String::from_str(text))
    }
}

/// A character of the trimmed text is a character of the text.
pub proof fn lemma_trimmed_within(s: Seq<char>, c: char)
    requires
        trimmed(s).contains(c),
    ensures
        s.contains(c),
{
    let t = s.skip(crate::text::leading_spaces(s) as int);
    lemma_trimmed_ends(s);
    crate::text::lemma_spaces_bounds(s);
    let core = trimmed(s);
    let k = choose|k: int| 0 <= k < core.len() && core[k] == c;
    assert(core[k] == s[k + crate::text::leading_spaces(s)]);
}

/// Says what the suggestion `text` is, with the tools of `registry`.
pub fn classify<T: BaseTool>(text: &str, registry: &ToolRegistry<T>) -> (r: Interpretation)
    ensures
        r@ == interpretation(text@, registry.tools()),
{
    match read(text, registry) {
        Reading::Information(t) => Interpretation::InformationalMessage(t),
        Reading::Call { name, arguments } => {
            let params = ToolParams::parse(arguments.as_str());
            Interpretation::ToolCall(ToolInvocation { name, params })
        },
        Reading::UnknownTool(t) => Interpretation::UnknownTool(t),
        Reading::ShellCommand(t) => Interpretation::ShellCommand(t),
    }
}

/// A text with a line feed is prose, whatever else it holds and whatever
/// tools are registered.
pub proof fn law_line_feed_means_prose<T: BaseTool>(text: Seq<char>, tools: Seq<T>)
    requires
        text.contains('\n'),
    ensures
        interpretation(text, tools) == InterpretationView::InformationalMessage(text),
{
}

/// A text of the form `name(args)` on one line is a call of the tool
/// `name` where one is registered under that name, and names an unknown
/// tool where none is.
pub proof fn law_call_names_tool<T: BaseTool>(
    text: Seq<char>,
    name: Seq<char>,
    args: Seq<char>,
    tools: Seq<T>,
)
    requires
        is_call_of(text, name, args),
    ensures
        position_of(tools, name) < tools.len() ==> interpretation(text, tools)
            == (InterpretationView::ToolCall {
            name: name,
            params: arguments_or_empty(parsed_object(args)),
        }),
        position_of(tools, name) >= tools.len() ==> interpretation(text, tools)
            == InterpretationView::UnknownTool(name),
{
    lemma_call_grammar(text, name, args);
    assert(is_name_char(name[0]));
    assert(text.first() == name[0]);
    assert(text.last() == ')');
    lemma_trimmed_fixed(text);
}

/// A text on one line that is no call, with or without the white space
/// around it, is a command line, word for word.
pub proof fn law_rest_is_shell_command<T: BaseTool>(text: Seq<char>, tools: Seq<T>)
    requires
        !text.contains('\n'),
        !is_call(trimmed(text)),
    ensures
        interpretation(text, tools) == InterpretationView::ShellCommand(text),
{
}

/// A text on one line that neither starts nor ends with white space and is
/// no call is a command line, word for word.
pub proof fn law_plain_line_is_shell_command<T: BaseTool>(text: Seq<char>, tools: Seq<T>)
    requires
        !text.contains('\n'),
        text.len() == 0 || (!is_space(text.first()) && !is_space(text.last())),
        forall|name: Seq<char>, args: Seq<char>| !is_call_of(text, name, args),
    ensures
        interpretation(text, tools) == InterpretationView::ShellCommand(text),
{
    lemma_trimmed_fixed(text);
    lemma_call_grammar(text, call_name(text), call_args(text));
}

} // verus!
