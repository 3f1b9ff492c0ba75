//! The tools of a session, found by name.

use crate::error::ShellmindError;
use crate::schema::{ParameterSchema, ToolDescriptor};
use crate::text::same_text;
use crate::tool::{describe, descriptor_of, BaseTool};
use vstd::prelude::*;
use vstd::string::*;

verus! {

/// The registered tools, in the order in which their names first came. No
/// two of them have the same name.
pub struct ToolRegistry<T: BaseTool> {
    tools: Vec<T>,
}

/// Where in `tools` the tool called `name` stands, counted from the front;
/// the length of `tools` where none is called so.
pub open spec fn position_of<T: BaseTool>(tools: Seq<T>, name: Seq<char>) -> int
    decreases tools.len(),
{
    if tools.len() == 0 {
        0
    } else if tools[0].name_spec() == name {
        0
    } else {
        1 + position_of(tools.skip(1), name)
    }
}

/// `position_of` is the first index with that name.
pub proof fn lemma_position_of<T: BaseTool>(tools: Seq<T>, name: Seq<char>)
    ensures
        0 <= position_of(tools, name) <= tools.len(),
        position_of(tools, name) < tools.len() ==> tools[position_of(tools, name)].name_spec()
            == name,
        forall|k: int|
            0 <= k < position_of(tools, name) ==> (#[trigger] tools[k]).name_spec() != name,
    decreases tools.len(),
{
    if tools.len() > 0 && tools[0].name_spec() != name {
        let rest = tools.skip(1);
        lemma_position_of(rest, name);
        assert forall|k: int| 0 <= k < position_of(tools, name) implies (#[trigger] tools[k]).name_spec()
            != name by {
            if k > 0 {
                assert(rest[k - 1] == tools[k]);
            }
        }
    }
}

/// An index whose tool is called `name`, with no such tool before it, is
/// `position_of`.
pub proof fn lemma_position_found<T: BaseTool>(tools: Seq<T>, name: Seq<char>, at: int)
    requires
        0 <= at <= tools.len(),
        forall|k: int| 0 <= k < at ==> (#[trigger] tools[k]).name_spec() != name,
        at < tools.len() ==> tools[at].name_spec() == name,
    ensures
        position_of(tools, name) == at,
    decreases at,
{
    if at > 0 {
        let rest = tools.skip(1);
        assert forall|k: int| 0 <= k < at - 1 implies (#[trigger] rest[k]).name_spec() != name by {
            assert(rest[k] == tools[k + 1]);
        }
        assert(tools[0].name_spec() != name);
        lemma_position_found(rest, name, at - 1);
    }
}

/// Whether no two of `tools` have the same name.
pub open spec fn distinct_names<T: BaseTool>(tools: Seq<T>) -> bool {
    forall|i: int, j: int|
        0 <= i < j < tools.len() ==> (#[trigger] tools[i]).name_spec() != (
        #[trigger] tools[j]).name_spec()
}

/// `tools` after one more registration: `tool` takes the place of the tool
/// of its name, or comes last where there is none.
pub open spec fn registered<T: BaseTool>(tools: Seq<T>, tool: T) -> Seq<T> {
    let at = position_of(tools, tool.name_spec());
    if at < tools.len() {
        tools.update(at, tool)
    } else {
        tools.push(tool)
    }
}

impl<T: BaseTool> ToolRegistry<T> {
    /// The registered tools, in order.
    pub closed spec fn tools(&self) -> Seq<T> {
        self.tools@
    }

    /// The invariant: no name occurs twice.
    pub open spec fn wf(&self) -> bool {
        distinct_names(self.tools())
    }

    /// Whether a tool called `name` is registered.
    pub open spec fn has(&self, name: Seq<char>) -> bool {
        position_of(self.tools(), name) < self.tools().len()
    }

    /// The registered tool called `name`, where `has(name)`.
    pub open spec fn tool(&self, name: Seq<char>) -> T {
        self.tools()[position_of(self.tools(), name)]
    }

    /// A registry without tools.
    pub fn new() -> (r: ToolRegistry<T>)
        ensures
            r.wf(),
            r.tools() == Seq::<T>::empty(),
    {
        ToolRegistry { tools: Vec::new() }
    }

    /// How many tools are registered.
    pub fn len(&self) -> (r: usize)
        ensures
            r == self.tools().len(),
    {
        self.tools.len()
    }

    fn find(&self, name: &str) -> (r: usize)
        ensures
            r == position_of(self.tools(), name@),
            r <= self.tools().len(),
    {
        let mut i: usize = 0;
        while i < self.tools.len()
            invariant
                i <= self.tools@.len(),
                forall|k: int| 0 <= k < i ==> (#[trigger] self.tools@[k]).name_spec() != name@,
            decreases self.tools@.len() - i,
        {
            if same_text(self.tools[i].name(), name) {
                proof {
                    lemma_position_found(self.tools@, name@, i as int);
                }
                return i;
            }
            i = i + 1;
        }
        proof {
            lemma_position_found(self.tools@, name@, i as int);
        }
        i
    }

    /// Registers `tool`. A tool of the same name that was registered before
    /// is replaced, where it stood; the others stay as they are.
    pub fn register(&mut self, tool: T)
        requires
            old(self).wf(),
        ensures
            final(self).wf(),
            final(self).tools() == registered(old(self).tools(), tool),
            final(self).tools().len() == old(self).tools().len() + if old(self).has(
                tool.name_spec(),
            ) {
                0int
            } else {
                1int
            },
            final(self).has(tool.name_spec()),
            final(self).tool(tool.name_spec()) == tool,
            forall|other: Seq<char>|
                other != tool.name_spec() ==> final(self).has(other) == old(self).has(other),
            forall|other: Seq<char>|
                other != tool.name_spec() && old(self).has(other) ==> final(self).tool(other)
                    == old(self).tool(other),
    {
        let ghost before = self.tools@;
        let ghost name = tool.name_spec();
        let at = self.find(tool.name());
        proof {
            lemma_position_of(before, name);
        }
        if at < self.tools.len() {
            self.tools.set(at, tool);
        } else {
            self.tools.push(tool);
        }
        proof {
            let after = self.tools@;
            assert(after == registered(before, tool));
            assert(after[at as int] == tool);
            assert forall|i: int, j: int| 0 <= i < j < after.len() implies (#[trigger] after[i]).name_spec()
                != (#[trigger] after[j]).name_spec() by {
                if i != at && j != at {
                    assert(after[i] == before[i]);
                    assert(after[j] == before[j]);
                } else if i == at {
                    assert(after[j] == before[j]);
                    if at < before.len() {
                        assert(before[at as int].name_spec() == name);
                    }
                } else {
                    assert(after[i] == before[i]);
                }
            }
            lemma_position_found(after, name, at as int);
            assert forall|other: Seq<char>| other != name implies (position_of(after, other)
                < after.len()) == (position_of(before, other) < before.len()) && (position_of(
                before,
                other,
            ) < before.len() ==> after[position_of(after, other)] == before[position_of(
                before,
                other,
            )]) by {
                lemma_position_of(before, other);
                let p = position_of(before, other);
                assert forall|k: int| 0 <= k < p && k < after.len() implies (#[trigger] after[k]).name_spec()
                    != other by {
                    if k != at {
                        assert(after[k] == before[k]);
                    }
                }
                if p < before.len() {
                    assert(p != at);
                    assert(after[p] == before[p]);
                    lemma_position_found(after, other, p);
                } else {
                    assert forall|k: int| 0 <= k < after.len() implies (#[trigger] after[k]).name_spec()
                        != other by {
                        if k != at {
                            assert(after[k] == before[k]);
                        }
                    }
                    lemma_position_found(after, other, after.len() as int);
                }
            }
        }
    }

    /// The tool called `name`, if one is registered.
    pub fn get_tool(&self, name: &str) -> (r: Option<&T>)
        ensures
            match r {
                Some(t) => self.has(name@) && *t == self.tool(name@) && t.name_spec() == name@,
                None => !self.has(name@),
            },
    {
        let at = self.find(name);
        proof {
            lemma_position_of(self.tools@, name@);
        }
        if at < self.tools.len() {
            Some(&self.tools[at])
        } else {
            None
        }
    }

    /// The parameter schemas of the registered tools, in their order.
    pub fn get_tool_schemas(&self) -> (r: Vec<ParameterSchema>)
        ensures
            r@.len() == self.tools().len(),
            forall|i: int| 0 <= i < r@.len() ==> (#[trigger] r@[i])@ == self.tools()[i].schema_spec(),
    {
        let mut out: Vec<ParameterSchema> = Vec::new();
        let mut i: usize = 0;
        while i < self.tools.len()
            invariant
                i <= self.tools@.len(),
                out@.len() == i,
                forall|k: int| 0 <= k < i ==> (#[trigger] out@[k])@ == self.tools@[k].schema_spec(),
            decreases self.tools@.len() - i,
        {
            out.push(self.tools[i].parameter_schema());
            i = i + 1;
        }
        out
    }

    /// What the registered tools declare of themselves, in their order.
    pub fn list_descriptors(&self) -> (r: Vec<ToolDescriptor>)
        ensures
            r@.len() == self.tools().len(),
            forall|i: int|
                0 <= i < r@.len() ==> (#[trigger] r@[i])@ == descriptor_of(&self.tools()[i]),
    {
        let mut out: Vec<ToolDescriptor> = Vec::new();
        let mut i: usize = 0;
        while i < self.tools.len()
            invariant
                i <= self.tools@.len(),
                out@.len() == i,
                forall|k: int|
                    0 <= k < i ==> (#[trigger] out@[k])@ == descriptor_of(&self.tools@[k]),
            decreases self.tools@.len() - i,
        {
            out.push(describe(&self.tools[i]));
            i = i + 1;
        }
        out
    }

    /// Looks for tools from other sources. There are none: the registry
    /// stays as it is, and the search succeeds.
    pub fn discover_tools(&mut self) -> (r: Result<(), ShellmindError>)
        ensures
            r is Ok,
            final(self).tools() == old(self).tools(),
    {
        Ok(())
    }
}

} // verus!
