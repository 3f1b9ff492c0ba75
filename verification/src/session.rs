//! The turn loop as a machine: it takes what happened outside and says what
//! to show, what to store and what to do next. A turn goes from the user's
//! line over the backend's suggestion and its confirmation to execution and into the
//! conversation; interpreting and recording need no outside work and take
//! place within one step.

use crate::backend::{
    backend_error_text, call_for, outcome_of, BackendCall, BackendClient, BackendReply,
    BackendReplyView, CallView,
};
use crate::config::{allowed_with, settings_fault, ConfigManager, ConfigView, ShellmindConfig};
use crate::error::ShellmindError;
use crate::execution::{
    next_of, shell_start, start_of, Execution, ExecutionView, Progress, ProgressView,
};
use crate::gate::{
    after_answer, after_decision, permits, tool_entry, ConfirmationDecision, ConfirmationGate,
    GatePrompt, GateState,
};
use crate::history::{with_exchange, History, TurnView};
use crate::interpreter::{classify, interpretation, Interpretation, InterpretationView};
use crate::io::{IoReply, IoRequest, ReplyView, RequestView};
use crate::managers::CommandHistoryManager;
use crate::plan::{PlanView, ToolPlan};
use crate::registry::{position_of, ToolRegistry};
use crate::text::{chars_of, concat2, joined, trim, trimmed};
use crate::tool::{BaseTool, ResultView, ToolResult};
use vstd::pervasive::unreached;
use vstd::prelude::*;
use vstd::string::*;

verus! {

/// The view of `Event`: the same value, with every text as its characters.
pub enum EventView {
    Line(Seq<char>),
    Interrupted,
    EndOfInput,
    ReadFailed(Seq<char>),
    Backend(BackendReplyView),
    Answered(bool),
    Chosen(ConfirmationDecision),
    Work(ReplyView),
}

/// The view of `Effect`: the same value, with every text as its characters.
pub enum EffectView {
    Status(Seq<char>),
    Error(Seq<char>),
    Suggestion(Seq<char>),
    Print(Seq<char>),
    Output(Seq<char>),
    ErrorOutput(Seq<char>),
    SaveConfiguration,
    WriteCommandLog(Seq<char>),
}

/// The view of `Action`: the same value, with every text as its characters.
pub enum ActionView {
    ReadLine,
    Generate(CallView),
    Confirm(Seq<char>),
    Choose(Seq<char>),
    Perform(RequestView),
    Stop,
}

/// The view of `Step`: the same value, with every text as its characters.
pub struct StepView {
    pub effects: Seq<EffectView>,
    pub action: ActionView,
}

/// The tool of a call that waits for the user's word.
pub struct GatedView {
    pub display_name: Seq<char>,
    pub plan: PlanView,
}

/// The view of `Phase`: the same value, with every text as its characters.
pub enum PhaseView {
    AwaitingInput,
    Generating { input: Seq<char> },
    Gating { input: Seq<char>, suggestion: Seq<char>, tool: Option<GatedView> },
    Executing { input: Seq<char>, suggestion: Seq<char>, run: ExecutionView, shell: bool },
    Ended,
}

/// The view of `Session`: the same value, with every text as its characters.
pub struct SessionView {
    pub config: ConfigView,
    pub history: Seq<TurnView>,
    pub commands: Seq<Seq<char>>,
    pub phase: PhaseView,
}

/// Whether a line asks to leave: the word exit, in capitals or not.
pub open spec fn is_exit(line: Seq<char>) -> bool {
    line.len() == 4 && (line[0] == 'e' || line[0] == 'E') && (line[1] == 'x' || line[1] == 'X') && (
    line[2] == 'i' || line[2] == 'I') && (line[3] == 't' || line[3] == 'T')
}

/// The first turns of every conversation: the system's text as said by the
/// user, and the model's readiness.
pub open spec fn opening(system_prompt: Seq<char>) -> Seq<TurnView> {
    with_exchange(Seq::empty(), system_prompt, "Okay, I'm ready. What can I help you with?"@)
}

/// How the result of a tool is shown.
pub open spec fn tool_report(result: ResultView) -> EffectView {
    match result {
        ResultView::Success(text) => EffectView::Status("Tool output: "@ + text),
        ResultView::Error(text) => EffectView::Error("Tool error: "@ + text),
    }
}

/// What is shown when an execution ends: the result of a tool, or the
/// failure of a command line, whose output was shown as it came.
pub open spec fn report(effects: Seq<EffectView>, result: ResultView, shell: bool) -> Seq<
    EffectView,
> {
    if shell {
        match result {
            ResultView::Success(text) => effects,
            ResultView::Error(text) => effects.push(EffectView::Error(text)),
        }
    } else {
        effects.push(tool_report(result))
    }
}

/// A step that leaves the session as it is, but for its phase.
pub open spec fn go(
    s: SessionView,
    phase: PhaseView,
    effects: Seq<EffectView>,
    action: ActionView,
) -> (SessionView, StepView) {
    (SessionView { phase, ..s }, StepView { effects, action })
}

/// The end of a turn that came to a suggestion: the exchange goes into the
/// conversation, the user's line into the command log, and the session
/// waits for the next line.
pub open spec fn record(
    s: SessionView,
    input: Seq<char>,
    suggestion: Seq<char>,
    effects: Seq<EffectView>,
) -> (SessionView, StepView) {
    let commands = s.commands.push(input);
    (
        SessionView {
            history: with_exchange(s.history, input, suggestion),
            commands,
            phase: PhaseView::AwaitingInput,
            ..s
        },
        StepView {
            effects: effects.push(EffectView::WriteCommandLog(joined(commands, "\n"@))),
            action: ActionView::ReadLine,
        },
    )
}

/// What follows from where an execution stands: the next piece of work, or
/// the report and the end of the turn.
pub open spec fn proceed(
    s: SessionView,
    input: Seq<char>,
    suggestion: Seq<char>,
    shell: bool,
    effects: Seq<EffectView>,
    progress: ProgressView,
) -> (SessionView, StepView) {
    match progress {
        ProgressView::Pending(run, request) => go(
            s,
            PhaseView::Executing { input, suggestion, run, shell },
            effects,
            ActionView::Perform(request),
        ),
        ProgressView::Finished(result) => record(s, input, suggestion, report(effects, result, shell)),
    }
}

/// A call of a tool that was let through begins to run.
pub open spec fn run_tool(
    s: SessionView,
    input: Seq<char>,
    suggestion: Seq<char>,
    tool: GatedView,
    effects: Seq<EffectView>,
) -> (SessionView, StepView) {
    proceed(
        s,
        input,
        suggestion,
        false,
        effects.push(EffectView::Status("Executing tool: "@ + tool.display_name)),
        start_of(tool.plan),
    )
}

/// A command line that was let through begins to run.
pub open spec fn run_shell(
    s: SessionView,
    input: Seq<char>,
    suggestion: Seq<char>,
    effects: Seq<EffectView>,
) -> (SessionView, StepView) {
    proceed(
        s,
        input,
        suggestion,
        true,
        effects.push(EffectView::Print("Çalıştırılıyor: "@ + suggestion)),
        shell_start(suggestion),
    )
}

/// The step for an event that the phase does not wait for: the turn is
/// given up, nothing runs and nothing is recorded.
pub open spec fn give_up(s: SessionView) -> (SessionView, StepView) {
    go(
        s,
        PhaseView::AwaitingInput,
        seq![EffectView::Error("Unexpected event; the turn is abandoned."@)],
        ActionView::ReadLine,
    )
}

/// The step that ends the session.
pub open spec fn leave(s: SessionView, effects: Seq<EffectView>) -> (SessionView, StepView) {
    go(
        s,
        PhaseView::Ended,
        effects.push(EffectView::Print("Shutting down Shellmind."@)),
        ActionView::Stop,
    )
}

/// The step after a line of the user.
pub open spec fn on_line(s: SessionView, raw: Seq<char>) -> (SessionView, StepView) {
    let input = trimmed(raw);
    if is_exit(input) {
        leave(s, Seq::empty())
    } else if input.len() == 0 {
        go(s, PhaseView::AwaitingInput, Seq::empty(), ActionView::ReadLine)
    } else {
        let begun = seq![EffectView::Status("Generating command..."@)];
        match call_for(s.config, s.history, input) {
            Ok(call) => go(s, PhaseView::Generating { input }, begun, ActionView::Generate(call)),
            Err(e) => go(
                s,
                PhaseView::AwaitingInput,
                begun.push(EffectView::Status("Command generation complete."@)).push(
                    EffectView::Error("Error generating command: "@ + backend_error_text(e)),
                ),
                ActionView::ReadLine,
            ),
        }
    }
}

/// The step after the backend's suggestion `text` to the line `input`.
pub open spec fn on_suggestion<T: BaseTool>(
    tools: Seq<T>,
    s: SessionView,
    input: Seq<char>,
    text: Seq<char>,
) -> (SessionView, StepView) {
    let shown = seq![
        EffectView::Status("Command generation complete."@),
        EffectView::Suggestion(trimmed(text)),
    ];
    match interpretation(text, tools) {
        InterpretationView::InformationalMessage(message) => (
            SessionView {
                history: with_exchange(s.history, input, message),
                phase: PhaseView::AwaitingInput,
                ..s
            },
            StepView {
                effects: shown.push(EffectView::Print("\n"@ + message)),
                action: ActionView::ReadLine,
            },
        ),
        InterpretationView::ToolCall { name, params } => {
            let tool = tools[position_of(tools, name)];
            let gated = GatedView {
                display_name: tool.display_name_spec(),
                plan: tool.plan_spec(params),
            };
            let question = tool.confirmation(params);
            if permits(tool_entry(question)) {
                run_tool(s, input, text, gated, shown)
            } else {
                go(
                    s,
                    PhaseView::Gating { input, suggestion: text, tool: Some(gated) },
                    shown,
                    ActionView::Confirm(question.unwrap()),
                )
            }
        },
        InterpretationView::UnknownTool(name) => record(
            s,
            input,
            text,
            shown.push(EffectView::Error("Unknown tool: "@ + name)),
        ),
        InterpretationView::ShellCommand(command) => go(
            s,
            PhaseView::Gating { input, suggestion: text, tool: None },
            shown,
            ActionView::Choose(command),
        ),
    }
}

/// The step after the reply of the backend.
pub open spec fn on_backend<T: BaseTool>(
    tools: Seq<T>,
    s: SessionView,
    input: Seq<char>,
    reply: BackendReplyView,
) -> (SessionView, StepView) {
    match outcome_of(reply) {
        Ok(text) => on_suggestion(tools, s, input, text),
        Err(e) => go(
            s,
            PhaseView::AwaitingInput,
            seq![
                EffectView::Status("Command generation complete."@),
                EffectView::Error("Error generating command: "@ + backend_error_text(e)),
            ],
            ActionView::ReadLine,
        ),
    }
}

/// The session after a command line was allowed for good: the command line
/// stands on the allow-list.
pub open spec fn allowing(s: SessionView, command: Seq<char>) -> SessionView {
    SessionView {
        config: ConfigView {
            allowed_commands: allowed_with(s.config.allowed_commands, command),
            ..s.config
        },
        ..s
    }
}

/// The step after the user's choice for a command line. A command line
/// that is allowed for good is put on the allow-list, and the settings are
/// stored, before it runs.
pub open spec fn on_choice(
    s: SessionView,
    input: Seq<char>,
    suggestion: Seq<char>,
    decision: ConfirmationDecision,
) -> (SessionView, StepView) {
    let state = after_decision(GateState::Proposed, decision);
    if !permits(state) {
        record(s, input, suggestion, seq![EffectView::Print("Komut çalıştırılmadı."@)])
    } else if state == GateState::AlwaysAllowed {
        run_shell(allowing(s, suggestion), input, suggestion, seq![EffectView::SaveConfiguration])
    } else {
        run_shell(s, input, suggestion, Seq::empty())
    }
}

/// The step after the user's yes or no to the call of a tool.
pub open spec fn on_answer(
    s: SessionView,
    input: Seq<char>,
    suggestion: Seq<char>,
    tool: GatedView,
    yes: bool,
) -> (SessionView, StepView) {
    if permits(after_answer(GateState::Proposed, yes)) {
        run_tool(s, input, suggestion, tool, Seq::empty())
    } else {
        record(s, input, suggestion, seq![EffectView::Status("Tool execution cancelled."@)])
    }
}

/// What is shown of a reply before the execution goes on with it: the
/// output of a command line that has ended.
pub open spec fn relayed(shell: bool, reply: ReplyView) -> Seq<EffectView> {
    match reply {
        ReplyView::Exit(exit) => if shell {
            seq![EffectView::Output(exit.stdout), EffectView::ErrorOutput(exit.stderr)]
        } else {
            Seq::empty()
        },
        _ => Seq::empty(),
    }
}

/// The step of a session in state `s`, with the tools `tools`, after the
/// event `e`.
pub open spec fn react<T: BaseTool>(tools: Seq<T>, s: SessionView, e: EventView) -> (
    SessionView,
    StepView,
) {
    match s.phase {
        PhaseView::Ended => go(s, PhaseView::Ended, Seq::empty(), ActionView::Stop),
        PhaseView::AwaitingInput => match e {
            EventView::Line(raw) => on_line(s, raw),
            EventView::Interrupted => leave(s, seq![EffectView::Print("Ctrl-C received, exiting."@)]),
            EventView::EndOfInput => leave(s, seq![EffectView::Print("Ctrl-D received, exiting."@)]),
            EventView::ReadFailed(text) => go(
                s,
                PhaseView::AwaitingInput,
                seq![EffectView::Error("Error reading input: "@ + text)],
                ActionView::ReadLine,
            ),
            _ => give_up(s),
        },
        PhaseView::Generating { input } => match e {
            EventView::Backend(reply) => on_backend(tools, s, input, reply),
            _ => give_up(s),
        },
        PhaseView::Gating { input, suggestion, tool } => match tool {
            Some(gated) => match e {
                EventView::Answered(yes) => on_answer(s, input, suggestion, gated, yes),
                _ => give_up(s),
            },
            None => match e {
                EventView::Chosen(decision) => on_choice(s, input, suggestion, decision),
                _ => give_up(s),
            },
        },
        PhaseView::Executing { input, suggestion, run, shell } => match e {
            EventView::Work(reply) => proceed(
                s,
                input,
                suggestion,
                shell,
                relayed(shell, reply),
                next_of(run, reply),
            ),
            _ => give_up(s),
        },
    }
}

/// Whether an action asks for work that a tool or a command line does.
pub open spec fn runs_something(action: ActionView) -> bool {
    action is Perform
}

/// Work is asked for only where the confirmation is through: a call that
/// asks no question is confirmed as it is proposed, a waiting action needs
/// the user's word to be confirmed or allowed for good, and work that was
/// let through goes on. In every other step, and always after a no, nothing
/// runs.
pub proof fn law_execution_needs_consent<T: BaseTool>(tools: Seq<T>, s: SessionView, e: EventView)
    requires
        runs_something(react(tools, s, e).1.action),
    ensures
        match s.phase {
            PhaseView::Generating { input } => e matches EventView::Backend(reply) && outcome_of(
                reply,
            ) matches Ok(text) && interpretation(text, tools) matches InterpretationView::ToolCall {
                name,
                params,
            } && permits(tool_entry(tools[position_of(tools, name)].confirmation(params))),
            PhaseView::Gating { input, suggestion, tool } => match tool {
                Some(gated) => e matches EventView::Answered(yes) && permits(
                    after_answer(GateState::Proposed, yes),
                ),
                None => e matches EventView::Chosen(decision) && permits(
                    after_decision(GateState::Proposed, decision),
                ),
            },
            PhaseView::Executing { input, suggestion, run, shell } => e is Work,
            PhaseView::AwaitingInput => false,
            PhaseView::Ended => false,
        },
{
}

/// A command line that the user allows for good stands on the allow-list
/// when it begins to run, and the step that lets it run stores the
/// settings first.
pub proof fn law_always_allow_persists_before_running(
    s: SessionView,
    input: Seq<char>,
    suggestion: Seq<char>,
)
    ensures
        ({
            let after = on_choice(s, input, suggestion, ConfirmationDecision::AlwaysAllow);
            &&& after.0.config.allowed_commands.contains(suggestion)
            &&& after.1.effects[0] == EffectView::SaveConfiguration
            &&& after.1.action == ActionView::Perform(RequestView::RunCommand { command: suggestion })
        }),
{
    let list = s.config.allowed_commands;
    if !list.contains(suggestion) {
        assert(list.push(suggestion)[list.len() as int] == suggestion);
    }
}

/// A call of a tool that the session proposes or runs names a registered
/// tool: a name that is not registered is reported and runs nothing.
pub proof fn law_call_names_registered_tool<T: BaseTool>(text: Seq<char>, tools: Seq<T>)
    ensures
        interpretation(text, tools) matches InterpretationView::ToolCall { name, params }
            ==> position_of(tools, name) < tools.len(),
        interpretation(text, tools) matches InterpretationView::UnknownTool(name) ==> position_of(
            tools,
            name,
        ) >= tools.len(),
{
}

/// A call of a tool that asks no question runs at once: the step after the
/// suggestion asks neither for a yes nor for a choice.
pub proof fn law_unattended_tool_is_not_gated<T: BaseTool>(
    tools: Seq<T>,
    s: SessionView,
    input: Seq<char>,
    text: Seq<char>,
)
    requires
        interpretation(text, tools) matches InterpretationView::ToolCall { name, params }
            && tools[position_of(tools, name)].confirmation(params) is None,
    ensures
        !(on_suggestion(tools, s, input, text).1.action is Confirm),
        !(on_suggestion(tools, s, input, text).1.action is Choose),
        !(on_suggestion(tools, s, input, text).0.phase is Gating),
{
}

/// A call of a tool that asks a question waits for the answer, and a no ends
/// the turn without any work: the exchange is recorded, and the session
/// waits for the next line.
pub proof fn law_denied_tool_does_not_run<T: BaseTool>(
    tools: Seq<T>,
    s: SessionView,
    input: Seq<char>,
    text: Seq<char>,
)
    requires
        interpretation(text, tools) matches InterpretationView::ToolCall { name, params }
            && tools[position_of(tools, name)].confirmation(params) is Some,
    ensures
        on_suggestion(tools, s, input, text).1.action is Confirm,
        on_suggestion(tools, s, input, text).0.phase is Gating,
        ({
            let waiting = on_suggestion(tools, s, input, text).0;
            let denied = react(tools, waiting, EventView::Answered(false));
            &&& denied.1.action == ActionView::ReadLine
            &&& denied.0.phase == PhaseView::AwaitingInput
            &&& denied.0.history == with_exchange(s.history, input, text)
            &&& denied.0.config == s.config
        }),
{
}

/// A command line that the user declines does not run: the exchange is
/// recorded, the allow-list stays as it is, and the session waits for the
/// next line.
pub proof fn law_declined_command_does_not_run(
    s: SessionView,
    input: Seq<char>,
    suggestion: Seq<char>,
)
    ensures
        ({
            let after = on_choice(s, input, suggestion, ConfirmationDecision::Deny);
            &&& after.1.action == ActionView::ReadLine
            &&& after.0.phase == PhaseView::AwaitingInput
            &&& after.0.history == with_exchange(s.history, input, suggestion)
            &&& after.0.config == s.config
        }),
{
}

/// No step takes a turn out of the conversation or changes one: the
/// conversation after a step begins with the conversation before it. The
/// same holds of the allow-list and of the command log.
pub proof fn law_steps_only_append<T: BaseTool>(tools: Seq<T>, s: SessionView, e: EventView)
    ensures
        s.history.is_prefix_of(react(tools, s, e).0.history),
        s.commands.is_prefix_of(react(tools, s, e).0.commands),
        s.config.allowed_commands.is_prefix_of(react(tools, s, e).0.config.allowed_commands),
{
    let after = react(tools, s, e).0;
    assert(s.history.is_prefix_of(after.history)) by {
        assert(forall|h: Seq<TurnView>, a: Seq<char>, b: Seq<char>|
            h.is_prefix_of(#[trigger] with_exchange(h, a, b)));
    }
}


/// What happened outside.
#[derive(Clone, Debug, PartialEq, Eq)]
pub enum Event {
    /// The user entered a line.
    Line(String),
    /// The user interrupted the prompt.
    Interrupted,
    /// The input ended.
    EndOfInput,
    /// No line could be read; the text says why.
    ReadFailed(String),
    /// The call of the backend came to this.
    Backend(BackendReply),
    /// The user said yes or no.
    Answered(bool),
    /// The user chose among the three ways.
    Chosen(ConfirmationDecision),
    /// The piece of work came to this.
    Work(IoReply),
}

impl View for Event {
    type V = EventView;

    open spec fn view(&self) -> EventView {
        match self {
            Event::Line(t) => EventView::Line(t@),
            Event::Interrupted => EventView::Interrupted,
            Event::EndOfInput => EventView::EndOfInput,
            Event::ReadFailed(t) => EventView::ReadFailed(t@),
            Event::Backend(r) => EventView::Backend(r@),
            Event::Answered(yes) => EventView::Answered(*yes),
            Event::Chosen(d) => EventView::Chosen(*d),
            Event::Work(r) => EventView::Work(r@),
        }
    }
}

/// Something to show or to store, for which the session waits for no
/// answer.
#[derive(Clone, Debug, PartialEq, Eq)]
pub enum Effect {
    /// Show a line on what is going on.
    Status(String),
    /// Show a failure.
    Error(String),
    /// Show the backend's suggestion.
    Suggestion(String),
    /// Show a text on a line of its own.
    Print(String),
    /// Pass on what a command wrote to its output, as it is.
    Output(String),
    /// Pass on what a command wrote to its error output, as it is.
    ErrorOutput(String),
    /// Store the settings, whose allow-list has grown.
    SaveConfiguration,
    /// Store the command log, which is this text.
    WriteCommandLog(String),
}

impl View for Effect {
    type V = EffectView;

    open spec fn view(&self) -> EffectView {
        match self {
            Effect::Status(t) => EffectView::Status(t@),
            Effect::Error(t) => EffectView::Error(t@),
            Effect::Suggestion(t) => EffectView::Suggestion(t@),
            Effect::Print(t) => EffectView::Print(t@),
            Effect::Output(t) => EffectView::Output(t@),
            Effect::ErrorOutput(t) => EffectView::ErrorOutput(t@),
            Effect::SaveConfiguration => EffectView::SaveConfiguration,
            Effect::WriteCommandLog(t) => EffectView::WriteCommandLog(t@),
        }
    }
}

/// The views of a list of effects.
pub open spec fn effect_views(effects: Seq<Effect>) -> Seq<EffectView> {
    Seq::new(effects.len(), |i: int| effects[i]@)
}

/// The outside work for whose outcome the session waits.
#[derive(Clone, Debug, PartialEq, Eq)]
pub enum Action {
    /// Read a line from the user.
    ReadLine,
    /// Make this call of the backend.
    Generate(BackendCall),
    /// Ask the user this question, for a yes or a no.
    Confirm(String),
    /// Ask the user how to go on with this command line: run it once,
    /// always allow it, or decline.
    Choose(String),
    /// Do this piece of work.
    Perform(IoRequest),
    /// Nothing more: the session has ended.
    Stop,
}

impl View for Action {
    type V = ActionView;

    open spec fn view(&self) -> ActionView {
        match self {
            Action::ReadLine => ActionView::ReadLine,
            Action::Generate(call) => ActionView::Generate(call@),
            Action::Confirm(t) => ActionView::Confirm(t@),
            Action::Choose(t) => ActionView::Choose(t@),
            Action::Perform(r) => ActionView::Perform(r@),
            Action::Stop => ActionView::Stop,
        }
    }
}

/// What a step asks of the host: the effects, in order, and then the
/// action.
#[derive(Clone, Debug, PartialEq, Eq)]
pub struct Step {
    pub effects: Vec<Effect>,
    pub action: Action,
}

impl View for Step {
    type V = StepView;

    open spec fn view(&self) -> StepView {
        StepView { effects: effect_views(self.effects@), action: self.action@ }
    }
}

/// The tool of a call that waits for the user's word.
#[derive(Clone, Debug, PartialEq, Eq)]
pub struct Gated {
    pub display_name: String,
    pub plan: ToolPlan,
}

impl View for Gated {
    type V = GatedView;

    open spec fn view(&self) -> GatedView {
        GatedView { display_name: self.display_name@, plan: self.plan@ }
    }
}

/// Where a turn stands.
#[derive(Clone, Debug, PartialEq, Eq)]
pub enum Phase {
    /// Waiting for a line of the user.
    AwaitingInput,
    /// Waiting for the backend's suggestion to `input`.
    Generating { input: String },
    /// Waiting for the user's word on the suggestion: on the call of a
    /// tool, or on a command line where `tool` is `None`.
    Gating { input: String, suggestion: String, tool: Option<Gated> },
    /// Waiting for a piece of work of the execution `run`.
    Executing { input: String, suggestion: String, run: Execution, shell: bool },
    /// The session has ended.
    Ended,
}

impl View for Phase {
    type V = PhaseView;

    open spec fn view(&self) -> PhaseView {
        match self {
            Phase::AwaitingInput => PhaseView::AwaitingInput,
            Phase::Generating { input } => PhaseView::Generating { input: input@ },
            Phase::Gating { input, suggestion, tool } => PhaseView::Gating {
                input: input@,
                suggestion: suggestion@,
                tool: match tool {
                    Some(g) => Some(g@),
                    None => None,
                },
            },
            Phase::Executing { input, suggestion, run, shell } => PhaseView::Executing {
                input: input@,
                suggestion: suggestion@,
                run: run@,
                shell: *shell,
            },
            Phase::Ended => PhaseView::Ended,
        }
    }
}

/// A session: the settings, the tools, the conversation, the command log,
/// and where the current turn stands.
pub struct Session<T: BaseTool> {
    config: ShellmindConfig,
    registry: ToolRegistry<T>,
    history: History,
    commands: CommandHistoryManager,
    phase: Phase,
}

impl<T: BaseTool> View for Session<T> {
    type V = SessionView;

    closed spec fn view(&self) -> SessionView {
        SessionView {
            config: self.config@,
            history: self.history@,
            commands: self.commands@,
            phase: self.phase@,
        }
    }
}

fn is_exit_word(line: &str) -> (r: bool)
    ensures
        r == is_exit(line@),
{
    let v = chars_of(line);
    v.len() == 4 && (v[0] == 'e' || v[0] == 'E') && (v[1] == 'x' || v[1] == 'X') && (v[2] == 'i'
        || v[2] == 'I') && (v[3] == 't' || v[3] == 'T')
}

fn one_effect(effect: Effect) -> (r: Vec<Effect>)
    ensures
        effect_views(r@) == seq![effect@],
{
    let mut effects: Vec<Effect> = Vec::new();
    effects.push(effect);
    assert(effect_views(effects@) =~= seq![effect@]);
    effects
}

fn no_effects() -> (r: Vec<Effect>)
    ensures
        effect_views(r@) == Seq::<EffectView>::empty(),
{
    let effects: Vec<Effect> = Vec::new();
    assert(effect_views(effects@) =~= Seq::empty());
    effects
}

fn add_effect(effects: &mut Vec<Effect>, effect: Effect)
    ensures
        effect_views(final(effects)@) == effect_views(old(effects)@).push(effect@),
{
    effects.push(effect);
    assert(effect_views(effects@) =~= effect_views(old(effects)@).push(effect@));
}

fn relay(shell: bool, reply: &IoReply) -> (r: Vec<Effect>)
    ensures
        effect_views(r@) == relayed(shell, reply@),
{
    match reply {
        IoReply::Exit(exit) => {
            if shell {
                let mut effects = one_effect(Effect::Output(exit.stdout.clone()));
                add_effect(&mut effects, Effect::ErrorOutput(exit.stderr.clone()));
                assert(seq![EffectView::Output(exit@.stdout)].push(
                    EffectView::ErrorOutput(exit@.stderr),
                ) =~= seq![EffectView::Output(exit@.stdout), EffectView::ErrorOutput(exit@.stderr)]);
                effects
            } else {
                no_effects()
            }
        },
        _ => no_effects(),
    }
}

impl<T: BaseTool> Session<T> {
    /// The registered tools.
    pub closed spec fn tools(&self) -> Seq<T> {
        self.registry.tools()
    }

    /// A session that waits for its first line. The conversation opens with
    /// the system's text and the model's readiness.
    pub fn new(config: ShellmindConfig, registry: ToolRegistry<T>, commands: CommandHistoryManager) -> (r:
        Session<T>)
        ensures
            r@ == (SessionView {
                config: config@,
                history: opening(config@.system_prompt),
                commands: commands@,
                phase: PhaseView::AwaitingInput,
            }),
            r.tools() == registry.tools(),
    {
        let mut history = History::new();
        history.record(config.system_prompt.as_str(), "Okay, I'm ready. What can I help you with?");
        Session { config, registry, history, commands, phase: Phase::AwaitingInput }
    }

    /// A session with checked settings: settings that are not usable are
    /// refused, and no session begins.
    pub fn open(config: ShellmindConfig, registry: ToolRegistry<T>, commands: CommandHistoryManager) -> (r:
        Result<Session<T>, ShellmindError>)
        ensures
            match r {
                Ok(session) => settings_fault(config@) is None && session@ == (SessionView {
                    config: config@,
                    history: opening(config@.system_prompt),
                    commands: commands@,
                    phase: PhaseView::AwaitingInput,
                }) && session.tools() == registry.tools(),
                Err(e) => settings_fault(config@) == Some(e@),
            },
    {
        match ConfigManager::validate_configuration(&config) {
            Ok(_) => Ok(Session::new(config, registry, commands)),
            Err(e) => Err(e),
        }
    }

    /// The settings, with the allow-list as it stands.
    pub fn config(&self) -> (r: &ShellmindConfig)
        ensures
            r@ == self@.config,
    {
        &self.config
    }

    /// The conversation so far.
    pub fn history(&self) -> (r: &History)
        ensures
            r@ == self@.history,
    {
        &self.history
    }

    /// The command log.
    pub fn command_history(&self) -> (r: &CommandHistoryManager)
        ensures
            r@ == self@.commands,
    {
        &self.commands
    }

    /// The registry of the tools.
    pub fn registry(&self) -> (r: &ToolRegistry<T>)
        ensures
            r.tools() == self.tools(),
    {
        &self.registry
    }

    /// Where the current turn stands.
    pub fn phase(&self) -> (r: &Phase)
        ensures
            r@ == self@.phase,
    {
        &self.phase
    }

    fn go(self, phase: Phase, effects: Vec<Effect>, action: Action) -> (r: (Session<T>, Step))
        ensures
            (r.0@, r.1@) == go(self@, phase@, effect_views(effects@), action@),
            r.0.tools() == self.tools(),
    {
        let Session { config, registry, history, commands, phase: _ } = self;
        (Session { config, registry, history, commands, phase }, Step { effects, action })
    }

    fn record(self, input: String, suggestion: String, effects: Vec<Effect>) -> (r: (
        Session<T>,
        Step,
    ))
        ensures
            (r.0@, r.1@) == record(self@, input@, suggestion@, effect_views(effects@)),
            r.0.tools() == self.tools(),
    {
        let Session { config, registry, history, commands, phase: _ } = self;
        let mut history = history;
        let mut commands = commands;
        let mut effects = effects;
        history.record(input.as_str(), suggestion.as_str());
        let log = commands.add_command(input.as_str());
        add_effect(&mut effects, Effect::WriteCommandLog(log));
        (
            Session { config, registry, history, commands, phase: Phase::AwaitingInput },
            Step { effects, action: Action::ReadLine },
        )
    }

    fn proceed(
        self,
        input: String,
        suggestion: String,
        shell: bool,
        effects: Vec<Effect>,
        progress: Progress,
    ) -> (r: (Session<T>, Step))
        ensures
            (r.0@, r.1@) == proceed(
                self@,
                input@,
                suggestion@,
                shell,
                effect_views(effects@),
                progress@,
            ),
            r.0.tools() == self.tools(),
    {
        match progress {
            Progress::Pending(run, request) => self.go(
                Phase::Executing { input, suggestion, run, shell },
                effects,
                Action::Perform(request),
            ),
            Progress::Finished(result) => {
                let mut effects = effects;
                if shell {
                    match result {
                        ToolResult::Success(_) => {},
                        ToolResult::Error(text) => {
                            add_effect(&mut effects, Effect::Error(text));
                        },
                    }
                } else {
                    match result {
                        ToolResult::Success(text) => {
                            add_effect(
                                &mut effects,
                                Effect::Status(concat2("Tool output: ", text.as_str())),
                            );
                        },
                        ToolResult::Error(text) => {
                            add_effect(
                                &mut effects,
                                Effect::Error(concat2("Tool error: ", text.as_str())),
                            );
                        },
                    }
                }
                self.record(input, suggestion, effects)
            },
        }
    }

    fn run_tool(self, input: String, suggestion: String, tool: Gated, effects: Vec<Effect>) -> (r: (
        Session<T>,
        Step,
    ))
        ensures
            (r.0@, r.1@) == run_tool(self@, input@, suggestion@, tool@, effect_views(effects@)),
            r.0.tools() == self.tools(),
    {
        let mut effects = effects;
        add_effect(
            &mut effects,
            Effect::Status(concat2("Executing tool: ", tool.display_name.as_str())),
        );
        let progress = Execution::start(tool.plan);
        self.proceed(input, suggestion, false, effects, progress)
    }

    fn run_shell(self, input: String, suggestion: String, effects: Vec<Effect>) -> (r: (
        Session<T>,
        Step,
    ))
        ensures
            (r.0@, r.1@) == run_shell(self@, input@, suggestion@, effect_views(effects@)),
            r.0.tools() == self.tools(),
    {
        let mut effects = effects;
        add_effect(&mut effects, Effect::Print(concat2("Çalıştırılıyor: ", suggestion.as_str())));
        let progress = Execution::shell(suggestion.clone());
        self.proceed(input, suggestion, true, effects, progress)
    }

    fn give_up(self) -> (r: (Session<T>, Step))
        ensures
            (r.0@, r.1@) == give_up(self@),
            r.0.tools() == self.tools(),
    {
        let effects = one_effect(
            Effect::Error(String::from_str("Unexpected event; the turn is abandoned.")),
        );
        self.go(Phase::AwaitingInput, effects, Action::ReadLine)
    }

    fn leave(self, effects: Vec<Effect>) -> (r: (Session<T>, Step))
        ensures
            (r.0@, r.1@) == leave(self@, effect_views(effects@)),
            r.0.tools() == self.tools(),
    {
        let mut effects = effects;
        add_effect(&mut effects, Effect::Print(String::from_str("Shutting down Shellmind.")));
        self.go(Phase::Ended, effects, Action::Stop)
    }

    fn on_line(self, raw: String) -> (r: (Session<T>, Step))
        ensures
            (r.0@, r.1@) == on_line(self@, raw@),
            r.0.tools() == self.tools(),
    {
        let input = trim(raw.as_str());
        if is_exit_word(input.as_str()) {
            return self.leave(no_effects());
        }
        if input.as_str().unicode_len() == 0 {
            return self.go(Phase::AwaitingInput, no_effects(), Action::ReadLine);
        }
        let mut effects = one_effect(Effect::Status(String::from_str("Generating command...")));
        match BackendClient::prepare(&self.config, input.as_str(), &self.history) {
            Ok(call) => self.go(Phase::Generating { input }, effects, Action::Generate(call)),
            Err(e) => {
                add_effect(
                    &mut effects,
                    Effect::Status(String::from_str("Command generation complete.")),
                );
                let message = e.message();
                add_effect(
                    &mut effects,
                    Effect::Error(concat2("Error generating command: ", message.as_str())),
                );
                self.go(Phase::AwaitingInput, effects, Action::ReadLine)
            },
        }
    }

    fn on_suggestion(self, input: String, text: String) -> (r: (Session<T>, Step))
        ensures
            (r.0@, r.1@) == on_suggestion(self.tools(), self@, input@, text@),
            r.0.tools() == self.tools(),
    {
        let mut effects = one_effect(
            Effect::Status(String::from_str("Command generation complete.")),
        );
        add_effect(&mut effects, Effect::Suggestion(trim(text.as_str())));
        assert(effect_views(effects@) =~= seq![
            EffectView::Status("Command generation complete."@),
            EffectView::Suggestion(trimmed(text@)),
        ]);
        match classify(text.as_str(), &self.registry) {
            Interpretation::InformationalMessage(message) => {
                add_effect(&mut effects, Effect::Print(concat2("\n", message.as_str())));
                let Session { config, registry, history, commands, phase: _ } = self;
                let mut history = history;
                history.record(input.as_str(), message.as_str());
                (
                    Session { config, registry, history, commands, phase: Phase::AwaitingInput },
                    Step { effects, action: Action::ReadLine },
                )
            },
            Interpretation::ToolCall(call) => {
                let found = match self.registry.get_tool(call.name.as_str()) {
                    Some(tool) => Some(
                        (
                            Gated {
                                display_name: String::from_str(tool.display_name()),
                                plan: tool.plan(&call.params),
                            },
                            tool.should_confirm_execute(&call.params),
                        ),
                    ),
                    None => None,
                };
                match found {
                    Some((gated, question)) => {
                        let (state, prompt) = ConfirmationGate::propose_tool(question);
                        if ConfirmationGate::permits_execution(state) {
                            self.run_tool(input, text, gated, effects)
                        } else {
                            match prompt {
                                Some(GatePrompt::YesNo(question)) => self.go(
                                    Phase::Gating { input, suggestion: text, tool: Some(gated) },
                                    effects,
                                    Action::Confirm(question),
                                ),
                                // A call that waits has a question to ask.
                                _ => unreached(),
                            }
                        }
                    },
                    // A call that was read names a registered tool.
                    None => unreached(),
                }
            },
            Interpretation::UnknownTool(name) => {
                add_effect(&mut effects, Effect::Error(concat2("Unknown tool: ", name.as_str())));
                self.record(input, text, effects)
            },
            Interpretation::ShellCommand(command) => self.go(
                Phase::Gating { input, suggestion: text, tool: None },
                effects,
                Action::Choose(command),
            ),
        }
    }

    fn on_backend(self, input: String, reply: BackendReply) -> (r: (Session<T>, Step))
        ensures
            (r.0@, r.1@) == on_backend(self.tools(), self@, input@, reply@),
            r.0.tools() == self.tools(),
    {
        match BackendClient::conclude(reply) {
            Ok(text) => self.on_suggestion(input, text),
            Err(e) => {
                let mut effects = one_effect(
                    Effect::Status(String::from_str("Command generation complete.")),
                );
                let message = e.message();
                add_effect(
                    &mut effects,
                    Effect::Error(concat2("Error generating command: ", message.as_str())),
                );
                assert(effect_views(effects@) =~= seq![
                    EffectView::Status("Command generation complete."@),
                    EffectView::Error("Error generating command: "@ + backend_error_text(e@)),
                ]);
                self.go(Phase::AwaitingInput, effects, Action::ReadLine)
            },
        }
    }

    fn on_choice(self, input: String, suggestion: String, decision: ConfirmationDecision) -> (r: (
        Session<T>,
        Step,
    ))
        ensures
            (r.0@, r.1@) == on_choice(self@, input@, suggestion@, decision),
            r.0.tools() == self.tools(),
    {
        let state = ConfirmationGate::decide(GateState::Proposed, decision);
        if !ConfirmationGate::permits_execution(state) {
            self.record(
                input,
                suggestion,
                one_effect(Effect::Print(String::from_str("Komut çalıştırılmadı."))),
            )
        } else if state == GateState::AlwaysAllowed {
            let Session { config, registry, history, commands, phase } = self;
            let mut config = config;
            config.add_allowed_command(suggestion.as_str());
            let allowed = Session { config, registry, history, commands, phase };
            allowed.run_shell(input, suggestion, one_effect(Effect::SaveConfiguration))
        } else {
            self.run_shell(input, suggestion, no_effects())
        }
    }

    fn on_answer(self, input: String, suggestion: String, tool: Gated, yes: bool) -> (r: (
        Session<T>,
        Step,
    ))
        ensures
            (r.0@, r.1@) == on_answer(self@, input@, suggestion@, tool@, yes),
            r.0.tools() == self.tools(),
    {
        let state = ConfirmationGate::answer(GateState::Proposed, yes);
        if ConfirmationGate::permits_execution(state) {
            self.run_tool(input, suggestion, tool, no_effects())
        } else {
            self.record(
                input,
                suggestion,
                one_effect(Effect::Status(String::from_str("Tool execution cancelled."))),
            )
        }
    }

    /// Takes the event `event` and says what to show, what to store and
    /// what to do next. An event that the phase does not wait for ends the
    /// turn without a trace; after the end of the session every event is
    /// answered with `Stop`.
    pub fn step(self, event: Event) -> (r: (Session<T>, Step))
        ensures
            (r.0@, r.1@) == react(self.tools(), self@, event@),
            r.0.tools() == self.tools(),
    {
        let Session { config, registry, history, commands, phase } = self;
        let ghost was = phase@;
        let rest = Session { config, registry, history, commands, phase: Phase::AwaitingInput };
        assert(go(self@, PhaseView::AwaitingInput, Seq::empty(), ActionView::Stop).0 == rest@);
        proof {
            lemma_phase_is_replaced::<T>(self@, rest@);
        }
        match phase {
            Phase::Ended => rest.go(Phase::Ended, no_effects(), Action::Stop),
            Phase::AwaitingInput => match event {
                Event::Line(raw) => rest.on_line(raw),
                Event::Interrupted => rest.leave(
                    one_effect(Effect::Print(String::from_str("Ctrl-C received, exiting."))),
                ),
                Event::EndOfInput => rest.leave(
                    one_effect(Effect::Print(String::from_str("Ctrl-D received, exiting."))),
                ),
                Event::ReadFailed(text) => rest.go(
                    Phase::AwaitingInput,
                    one_effect(Effect::Error(concat2("Error reading input: ", text.as_str()))),
                    Action::ReadLine,
                ),
                _ => rest.give_up(),
            },
            Phase::Generating { input } => match event {
                Event::Backend(reply) => rest.on_backend(input, reply),
                _ => rest.give_up(),
            },
            Phase::Gating { input, suggestion, tool } => match tool {
                Some(gated) => match event {
                    Event::Answered(yes) => rest.on_answer(input, suggestion, gated, yes),
                    _ => rest.give_up(),
                },
                None => match event {
                    Event::Chosen(decision) => rest.on_choice(input, suggestion, decision),
                    _ => rest.give_up(),
                },
            },
            Phase::Executing { input, suggestion, run, shell } => match event {
                Event::Work(reply) => {
                    let effects = relay(shell, &reply);
                    let progress = run.resume(reply);
                    rest.proceed(input, suggestion, shell, effects, progress)
                },
                _ => rest.give_up(),
            },
        }
    }
}

/// No step looks at the phase in which the session is handed on: what
/// follows from a session is what follows from it in any other phase.
proof fn lemma_phase_is_replaced<T: BaseTool>(s: SessionView, rest: SessionView)
    requires
        rest == (SessionView { phase: rest.phase, ..s }),
    ensures
        forall|phase: PhaseView, effects: Seq<EffectView>, action: ActionView|
            #[trigger] go(rest, phase, effects, action) == go(s, phase, effects, action),
        forall|input: Seq<char>, suggestion: Seq<char>, effects: Seq<EffectView>|
            #[trigger] record(rest, input, suggestion, effects) == record(
                s,
                input,
                suggestion,
                effects,
            ),
        forall|
            input: Seq<char>,
            suggestion: Seq<char>,
            shell: bool,
            effects: Seq<EffectView>,
            progress: ProgressView,
        |
            #[trigger] proceed(rest, input, suggestion, shell, effects, progress) == proceed(
                s,
                input,
                suggestion,
                shell,
                effects,
                progress,
            ),
        forall|raw: Seq<char>| #[trigger] on_line(rest, raw) == on_line(s, raw),
        forall|tools: Seq<T>, input: Seq<char>, text: Seq<char>|
            #[trigger] on_suggestion(tools, rest, input, text) == on_suggestion(
                tools,
                s,
                input,
                text,
            ),
        forall|input: Seq<char>, suggestion: Seq<char>, decision: ConfirmationDecision|
            #[trigger] on_choice(rest, input, suggestion, decision) == on_choice(
                s,
                input,
                suggestion,
                decision,
            ),
        forall|input: Seq<char>, suggestion: Seq<char>, tool: GatedView, yes: bool|
            #[trigger] on_answer(rest, input, suggestion, tool, yes) == on_answer(
                s,
                input,
                suggestion,
                tool,
                yes,
            ),
{
}

} // verus!
