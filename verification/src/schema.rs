//! What a tool declares of its parameters.

use crate::params::{lookup, ParamValueView, ToolParams};
use crate::text::same_text;
use vstd::prelude::*;
use vstd::string::*;

verus! {

/// The shape of one parameter.
#[derive(Clone, Copy, Debug, PartialEq, Eq, Structural)]
pub enum PropertyKind {
    /// A string.
    Text,
    /// An array of strings.
    TextList,
}

/// One declared parameter.
#[derive(Clone, Debug, PartialEq, Eq)]
pub struct PropertySchema {
    pub name: String,
    pub kind: PropertyKind,
    pub description: String,
}

/// The view of `PropertySchema`: the same value, with every text as its characters.
pub struct PropertyView {
    pub name: Seq<char>,
    pub kind: PropertyKind,
    pub description: Seq<char>,
}

impl View for PropertySchema {
    type V = PropertyView;

    open spec fn view(&self) -> PropertyView {
        PropertyView { name: self.name@, kind: self.kind, description: self.description@ }
    }
}

/// The parameters of a tool: an object with the declared properties, of
/// which the required ones must be given.
#[derive(Clone, Debug, PartialEq, Eq)]
pub struct ParameterSchema {
    pub properties: Vec<PropertySchema>,
    pub required: Vec<String>,
}

/// The view of `ParameterSchema`: the same value, with every text as its characters.
pub struct SchemaView {
    pub properties: Seq<PropertyView>,
    pub required: Seq<Seq<char>>,
}

impl View for ParameterSchema {
    type V = SchemaView;

    open spec fn view(&self) -> SchemaView {
        SchemaView {
            properties: Seq::new(self.properties@.len(), |i: int| self.properties@[i]@),
            required: crate::text::texts(self.required@),
        }
    }
}

/// A string parameter, as a schema states it.
pub open spec fn text_property(name: Seq<char>, description: Seq<char>) -> PropertyView {
    PropertyView { name, kind: PropertyKind::Text, description }
}

/// A parameter that is a list of strings, as a schema states it.
pub open spec fn list_property(name: Seq<char>, description: Seq<char>) -> PropertyView {
    PropertyView { name, kind: PropertyKind::TextList, description }
}

/// The shape that `properties` declare for `name`: that of the last
/// property of this name.
pub open spec fn declared_kind(properties: Seq<PropertyView>, name: Seq<char>) -> Option<
    PropertyKind,
>
    decreases properties.len(),
{
    if properties.len() == 0 {
        None
    } else if properties.last().name == name {
        Some(properties.last().kind)
    } else {
        declared_kind(properties.drop_last(), name)
    }
}

/// Whether an argument has the declared shape.
pub open spec fn has_shape(kind: PropertyKind, value: Option<ParamValueView>) -> bool {
    match kind {
        PropertyKind::Text => value matches Some(ParamValueView::Text(_)),
        PropertyKind::TextList => value matches Some(ParamValueView::List(_)),
    }
}

/// Whether `params` give the argument that `schema` requires under `name`,
/// in the shape that it declares.
pub open spec fn gives(
    schema: SchemaView,
    params: Seq<(Seq<char>, ParamValueView)>,
    name: Seq<char>,
) -> bool {
    match declared_kind(schema.properties, name) {
        Some(kind) => has_shape(kind, lookup(params, name)),
        None => false,
    }
}

/// Whether `params` give every argument that `schema` requires, each in
/// the shape that it declares. Arguments that are not required, or not
/// declared at all, do not count.
pub open spec fn conforms(schema: SchemaView, params: Seq<(Seq<char>, ParamValueView)>) -> bool {
    forall|i: int| 0 <= i < schema.required.len() ==> gives(schema, params, #[trigger] schema.required[i])
}

impl ParameterSchema {
    /// The shape that the schema declares for `name`.
    pub fn kind_of(&self, name: &str) -> (r: Option<PropertyKind>)
        ensures
            r == declared_kind(self@.properties, name@),
    {
        let mut i: usize = self.properties.len();
        assert(self@.properties.take(i as int) =~= self@.properties);
        while i > 0
            invariant
                i <= self.properties@.len(),
                declared_kind(self@.properties, name@) == declared_kind(
                    self@.properties.take(i as int),
                    name@,
                ),
            decreases i,
        {
            let ghost part = self@.properties.take(i as int);
            assert(part.last() == self.properties@[i - 1]@);
            assert(part.drop_last() =~= self@.properties.take(i - 1));
            if same_text(self.properties[i - 1].name.as_str(), name) {
                return Some(self.properties[i - 1].kind);
            }
            i = i - 1;
        }
        None
    }

    /// Whether `params` give every required argument in its declared
    /// shape.
    pub fn admits(&self, params: &ToolParams) -> (r: bool)
        ensures
            r == conforms(self@, params@),
    {
        let mut i: usize = 0;
        while i < self.required.len()
            invariant
                i <= self.required@.len(),
                forall|k: int| 0 <= k < i ==> gives(self@, params@, #[trigger] self@.required[k]),
            decreases self.required@.len() - i,
        {
            let name = self.required[i].as_str();
            assert(self@.required[i as int] == name@);
            let fits = match self.kind_of(name) {
                Some(PropertyKind::Text) => match params.get(name) {
                    Some(crate::params::ParamValue::Text(_)) => true,
                    _ => false,
                },
                Some(PropertyKind::TextList) => match params.get(name) {
                    Some(crate::params::ParamValue::List(_)) => true,
                    _ => false,
                },
                None => false,
            };
            if !fits {
                return false;
            }
            i = i + 1;
        }
        true
    }

    /// A schema without properties.
    pub fn new() -> (r: ParameterSchema)
        ensures
            r@.properties == Seq::<PropertyView>::empty(),
            r@.required == Seq::<Seq<char>>::empty(),
    {
        let r = ParameterSchema { properties: Vec::new(), required: Vec::new() };
        assert(r@.properties =~= Seq::empty());
        assert(r@.required =~= Seq::empty());
        r
    }

    /// Declares one more property, required or not.
    pub fn declare(&mut self, name: &str, kind: PropertyKind, description: &str, required: bool)
        ensures
            final(self)@.properties == old(self)@.properties.push(
                PropertyView { name: name@, kind, description: description@ },
            ),
            final(self)@.required == if required {
                old(self)@.required.push(name@)
            } else {
                old(self)@.required
            },
    {
        self.properties.push(
            PropertySchema {
                name: String::from_str(name),
                kind,
                description: String::from_str(description),
            },
        );
        if required {
            self.required.push(String::from_str(name));
        }
        assert(self@.properties =~= old(self)@.properties.push(
            PropertyView { name: name@, kind, description: description@ },
        ));
        assert(self@.required =~= if required {
            old(self)@.required.push(name@)
        } else {
            old(self)@.required
        });
    }
}

/// What the registry tells of a tool.
#[derive(Clone, Debug, PartialEq, Eq)]
pub struct ToolDescriptor {
    pub name: String,
    pub display_name: String,
    pub description: String,
    pub parameter_schema: ParameterSchema,
}

/// The view of `ToolDescriptor`: the same value, with every text as its characters.
pub struct DescriptorView {
    pub name: Seq<char>,
    pub display_name: Seq<char>,
    pub description: Seq<char>,
    pub parameter_schema: SchemaView,
}

impl View for ToolDescriptor {
    type V = DescriptorView;

    open spec fn view(&self) -> DescriptorView {
        DescriptorView {
            name: self.name@,
            display_name: self.display_name@,
            description: self.description@,
            parameter_schema: self.parameter_schema@,
        }
    }
}

} // verus!
