//! Confirmation before execution: whether a proposed action runs unattended,
//! waits for the user's word, or is turned down.

use crate::tool::ConfirmationDetails;
use vstd::prelude::*;

verus! {

/// What the user chose for a command line.
#[derive(Clone, Copy, Debug, PartialEq, Eq, Structural)]
pub enum ConfirmationDecision {
    /// Run it this once.
    RunOnce,
    /// Run it, and put it on the allow-list.
    AlwaysAllow,
    /// Do not run it.
    Deny,
}

/// Where a proposed action stands.
#[derive(Clone, Copy, Debug, PartialEq, Eq, Structural)]
pub enum GateState {
    /// Proposed, and waiting for the user.
    Proposed,
    /// Agreed to, for this once, or in no need of agreement.
    Confirmed,
    /// Agreed to for good.
    AlwaysAllowed,
    /// Turned down.
    Denied,
}

/// The question that is put to the user.
#[derive(Clone, Debug, PartialEq, Eq)]
pub enum GatePrompt {
    /// Yes or no, to the given question.
    YesNo(String),
    /// Run once, always allow, or decline, for the given command line.
    ThreeWay(String),
}

/// The view of `GatePrompt`: the same value, with every text as its characters.
pub enum PromptView {
    YesNo(Seq<char>),
    ThreeWay(Seq<char>),
}

impl View for GatePrompt {
    type V = PromptView;

    open spec fn view(&self) -> PromptView {
        match self {
            GatePrompt::YesNo(t) => PromptView::YesNo(t@),
            GatePrompt::ThreeWay(t) => PromptView::ThreeWay(t@),
        }
    }
}

/// Whether an action in `state` may run.
pub open spec fn permits(state: GateState) -> bool {
    state == GateState::Confirmed || state == GateState::AlwaysAllowed
}

/// Where a call of a tool stands when it is proposed: it is through where
/// the tool asks no question, else it waits.
pub open spec fn tool_entry(question: Option<Seq<char>>) -> GateState {
    match question {
        None => GateState::Confirmed,
        Some(q) => GateState::Proposed,
    }
}

/// The state after the user answered yes or no. Only a waiting action
/// moves.
pub open spec fn after_answer(state: GateState, yes: bool) -> GateState {
    if state == GateState::Proposed {
        if yes {
            GateState::Confirmed
        } else {
            GateState::Denied
        }
    } else {
        state
    }
}

/// The state after the user chose among the three ways. Only a waiting
/// action moves.
pub open spec fn after_decision(state: GateState, decision: ConfirmationDecision) -> GateState {
    if state == GateState::Proposed {
        match decision {
            ConfirmationDecision::RunOnce => GateState::Confirmed,
            ConfirmationDecision::AlwaysAllow => GateState::AlwaysAllowed,
            ConfirmationDecision::Deny => GateState::Denied,
        }
    } else {
        state
    }
}

/// Decides on proposed actions.
#[derive(Clone, Debug, PartialEq, Eq)]
pub struct ConfirmationGate;

impl ConfirmationGate {
    /// Proposes a call of a tool, given the question that the tool wants
    /// asked, if any. Without a question the call is through at once and
    /// nothing is asked; with one it waits for a yes or a no to it.
    pub fn propose_tool(question: Option<ConfirmationDetails>) -> (r: (GateState, Option<GatePrompt>))
        ensures
            r.0 == tool_entry(
                match question {
                    Some(d) => Some(d.message@),
                    None => None,
                },
            ),
            match question {
                Some(d) => r.1 matches Some(p) && p@ == PromptView::YesNo(d.message@),
                None => r.1 is None,
            },
    {
        match question {
            Some(d) => (GateState::Proposed, Some(GatePrompt::YesNo(d.message))),
            None => (GateState::Confirmed, None),
        }
    }

    /// Proposes a command line. It always waits for the user's choice among
    /// the three ways, whether or not it stands on the allow-list.
    pub fn propose_shell(command: &str) -> (r: (GateState, GatePrompt))
        ensures
            r.0 == GateState::Proposed,
            r.1@ == PromptView::ThreeWay(command@),
    {
        (GateState::Proposed, GatePrompt::ThreeWay(command.to_owned()))
    }

    /// Takes the user's yes or no.
    pub fn answer(state: GateState, yes: bool) -> (r: GateState)
        ensures
            r == after_answer(state, yes),
    {
        if state == GateState::Proposed {
            if yes {
                GateState::Confirmed
            } else {
                GateState::Denied
            }
        } else {
            state
        }
    }

    /// Takes the user's choice among the three ways.
    pub fn decide(state: GateState, decision: ConfirmationDecision) -> (r: GateState)
        ensures
            r == after_decision(state, decision),
    {
        if state == GateState::Proposed {
            match decision {
                ConfirmationDecision::RunOnce => GateState::Confirmed,
                ConfirmationDecision::AlwaysAllow => GateState::AlwaysAllowed,
                ConfirmationDecision::Deny => GateState::Denied,
            }
        } else {
            state
        }
    }

    /// Whether an action in `state` may run.
    pub fn permits_execution(state: GateState) -> (r: bool)
        ensures
            r == permits(state),
    {
        state == GateState::Confirmed || state == GateState::AlwaysAllowed
    }
}

/// No answer and no choice lets a turned-down action run after all,
/// and none takes an agreement back.
pub proof fn law_gate_is_final(state: GateState, yes: bool, decision: ConfirmationDecision)
    requires
        state != GateState::Proposed,
    ensures
        after_answer(state, yes) == state,
        after_decision(state, decision) == state,
{
}

/// A waiting action is let through only by a yes, by running once
/// or by being allowed for good.
pub proof fn law_gate_needs_consent(yes: bool, decision: ConfirmationDecision)
    ensures
        permits(after_answer(GateState::Proposed, yes)) == yes,
        permits(after_decision(GateState::Proposed, decision)) == (decision
            != ConfirmationDecision::Deny),
        !permits(GateState::Proposed),
        !permits(GateState::Denied),
{
}

} // verus!
