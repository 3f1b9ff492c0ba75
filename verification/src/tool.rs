//! The capability set of a tool.

use crate::params::{ParamValueView, ToolParams};
use crate::plan::{PlanView, ToolPlan};
use crate::schema::{conforms, DescriptorView, ParameterSchema, SchemaView, ToolDescriptor};
use vstd::prelude::*;
use vstd::string::*;

verus! {

/// The question to put before a tool runs.
#[derive(Clone, Debug, PartialEq, Eq)]
pub struct ConfirmationDetails {
    pub message: String,
}

/// How a tool or a shell command ended.
#[derive(Clone, Debug, PartialEq, Eq)]
pub enum ToolResult {
    Success(String),
    Error(String),
}

/// The view of `ToolResult`: the same value, with every text as its characters.
pub enum ResultView {
    Success(Seq<char>),
    Error(Seq<char>),
}

impl View for ToolResult {
    type V = ResultView;

    open spec fn view(&self) -> ResultView {
        match self {
            ToolResult::Success(t) => ResultView::Success(t@),
            ToolResult::Error(t) => ResultView::Error(t@),
        }
    }
}

/// A named capability: what it is called, what arguments it takes, what a
/// call would do, whether the user must agree to it, and the work that a
/// call asks for. Every method is a function of the tool and the arguments.
pub trait BaseTool {
    /// The key under which the tool is found.
    spec fn name_spec(&self) -> Seq<char>;

    spec fn display_name_spec(&self) -> Seq<char>;

    spec fn description_spec(&self) -> Seq<char>;

    spec fn schema_spec(&self) -> SchemaView;

    /// Whether the required arguments are there, each of the expected shape.
    spec fn accepts(&self, params: Seq<(Seq<char>, ParamValueView)>) -> bool;

    /// One line on what the call will do.
    spec fn summary(&self, params: Seq<(Seq<char>, ParamValueView)>) -> Seq<char>;

    /// The question to ask before the call runs; `None` where it may run
    /// unattended.
    spec fn confirmation(&self, params: Seq<(Seq<char>, ParamValueView)>) -> Option<Seq<char>>;

    /// The work that the call asks for.
    spec fn plan_spec(&self, params: Seq<(Seq<char>, ParamValueView)>) -> PlanView;

    /// A tool accepts exactly the arguments that conform to its schema:
    /// those that give every required argument in its declared shape.
    proof fn validation_follows_schema(&self, params: Seq<(Seq<char>, ParamValueView)>)
        ensures
            self.accepts(params) == conforms(self.schema_spec(), params),
    ;

    fn name(&self) -> (r: &'static str)
        ensures
            r@ == self.name_spec(),
    ;

    fn display_name(&self) -> (r: &'static str)
        ensures
            r@ == self.display_name_spec(),
    ;

    fn description(&self) -> (r: &'static str)
        ensures
            r@ == self.description_spec(),
    ;

    fn parameter_schema(&self) -> (r: ParameterSchema)
        ensures
            r@ == self.schema_spec(),
    ;

    fn validate_tool_params(&self, params: &ToolParams) -> (r: bool)
        ensures
            r == self.accepts(params@),
    ;

    fn get_description(&self, params: &ToolParams) -> (r: String)
        ensures
            r@ == self.summary(params@),
    ;

    fn should_confirm_execute(&self, params: &ToolParams) -> (r: Option<ConfirmationDetails>)
        ensures
            match r {
                Some(d) => self.confirmation(params@) == Some(d.message@),
                None => self.confirmation(params@) is None,
            },
    ;

    fn plan(&self, params: &ToolParams) -> (r: ToolPlan)
        ensures
            r@ == self.plan_spec(params@),
    ;
}

/// What `tool` declares of itself.
pub open spec fn descriptor_of<T: BaseTool>(tool: &T) -> DescriptorView {
    DescriptorView {
        name: tool.name_spec(),
        display_name: tool.display_name_spec(),
        description: tool.description_spec(),
        parameter_schema: tool.schema_spec(),
    }
}

/// What `tool` declares of itself.
pub fn describe<T: BaseTool>(tool: &T) -> (r: ToolDescriptor)
    ensures
        r@ == descriptor_of(tool),
{
    ToolDescriptor {
        name: String::from_str(tool.name()),
        display_name: String::from_str(tool.display_name()),
        description: String::from_str(tool.description()),
        parameter_schema: tool.parameter_schema(),
    }
}

} // verus!
