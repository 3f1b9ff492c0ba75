//! The arguments of a tool call: a list of named values, of which the tools
//! read the texts and the lists of texts.

use crate::text::same_text;
use vstd::prelude::*;
use vstd::string::*;

verus! {

/// One argument value.
#[derive(Clone, Debug, PartialEq, Eq)]
pub enum ParamValue {
    /// A JSON string.
    Text(String),
    /// A JSON array; an item that is not a string is `None`.
    List(Vec<Option<String>>),
    /// Any other JSON value.
    Other,
}

/// The view of `ParamValue`: the same value, with every text as its characters.
pub enum ParamValueView {
    Text(Seq<char>),
    List(Seq<Option<Seq<char>>>),
    Other,
}

/// The views of the items of a list argument.
pub open spec fn item_views(items: Seq<Option<String>>) -> Seq<Option<Seq<char>>> {
    Seq::new(
        items.len(),
        |i: int|
            match items[i] {
                Some(t) => Some(t@),
                None => None,
            },
    )
}

impl View for ParamValue {
    type V = ParamValueView;

    open spec fn view(&self) -> ParamValueView {
        match self {
            ParamValue::Text(t) => ParamValueView::Text(t@),
            ParamValue::List(items) => ParamValueView::List(item_views(items@)),
            ParamValue::Other => ParamValueView::Other,
        }
    }
}

/// A named argument.
#[derive(Clone, Debug, PartialEq, Eq)]
pub struct ParamEntry {
    pub key: String,
    pub value: ParamValue,
}

/// The arguments of one call. A later entry replaces an earlier one of the
/// same key.
#[derive(Clone, Debug, PartialEq, Eq)]
pub struct ToolParams {
    pub entries: Vec<ParamEntry>,
}

impl View for ToolParams {
    type V = Seq<(Seq<char>, ParamValueView)>;

    open spec fn view(&self) -> Seq<(Seq<char>, ParamValueView)> {
        Seq::new(self.entries@.len(), |i: int| (self.entries@[i].key@, self.entries@[i].value@))
    }
}

/// The value that `params` gives to `key`: that of the last entry with this
/// key.
pub open spec fn lookup(params: Seq<(Seq<char>, ParamValueView)>, key: Seq<char>) -> Option<
    ParamValueView,
>
    decreases params.len(),
{
    if params.len() == 0 {
        None
    } else if params.last().0 == key {
        Some(params.last().1)
    } else {
        lookup(params.drop_last(), key)
    }
}

/// The text that `params` gives to `key`, if it gives one.
pub open spec fn text_param(params: Seq<(Seq<char>, ParamValueView)>, key: Seq<char>) -> Option<
    Seq<char>,
> {
    match lookup(params, key) {
        Some(ParamValueView::Text(t)) => Some(t),
        _ => None,
    }
}

/// The list that `params` gives to `key`, if it gives one.
pub open spec fn list_param(params: Seq<(Seq<char>, ParamValueView)>, key: Seq<char>) -> Option<
    Seq<Option<Seq<char>>>,
> {
    match lookup(params, key) {
        Some(ParamValueView::List(items)) => Some(items),
        _ => None,
    }
}

/// The text that `params` gives to `key`, or `fallback`.
pub open spec fn text_or(
    params: Seq<(Seq<char>, ParamValueView)>,
    key: Seq<char>,
    fallback: Seq<char>,
) -> Seq<char> {
    match text_param(params, key) {
        Some(t) => t,
        None => fallback,
    }
}

/// What a JSON parser makes of `text`: `None` where `text` is no JSON
/// document, else the members of the object that it holds, in the parser's
/// order, and no members where the document is no object.
pub uninterp spec fn parsed_object(text: Seq<char>) -> Option<Seq<(Seq<char>, ParamValueView)>>;

/// Parses `text` with `serde_json::from_str` into a `serde_json::Value` and
/// copies out the members of its object: a string as a text, an array as a
/// list whose items are the strings among its elements, anything else as
/// `Other`. The contract claims only that the outcome is a function of
/// `text`: it names it `parsed_object`.
#[verifier::external_body]
pub(crate) fn parse_object(text: &str) -> (r: Option<ToolParams>)
    ensures
        match r {
            Some(p) => parsed_object(text@) == Some(p@),
            None => parsed_object(text@) is None,
        },
{
    let parsed: serde_json::Value = serde_json::from_str(text).ok()?;
    let mut entries = Vec::new();
    for (key, member) in parsed.as_object().into_iter().flatten() {
        let value = match member {
            serde_json::Value::String(s) => ParamValue::Text(s.clone()),
            serde_json::Value::Array(a) => ParamValue::List(
                a.iter().map(|i| i.as_str().map(String::from)).collect(),
            ),
            serde_json::Value::Null | serde_json::Value::Bool(_) => ParamValue::Other,
            serde_json::Value::Number(_) | serde_json::Value::Object(_) => ParamValue::Other,
        };
        entries.push(ParamEntry { key: key.clone(), value });
    }
    Some(ToolParams { entries })
}

/// The arguments that a parse gave, or none where it failed.
pub open spec fn arguments_or_empty(parsed: Option<Seq<(Seq<char>, ParamValueView)>>) -> Seq<
    (Seq<char>, ParamValueView),
> {
    match parsed {
        Some(p) => p,
        None => Seq::empty(),
    }
}

impl ToolParams {
    /// No arguments.
    pub fn new() -> (r: ToolParams)
        ensures
            r@ == Seq::<(Seq<char>, ParamValueView)>::empty(),
    {
        let r = ToolParams { entries: Vec::new() };
        assert(r@ =~= Seq::empty());
        r
    }

    /// What stands for the outcome of a parse: the arguments that it gave,
    /// and no arguments where it failed.
    pub fn from_parsed(parsed: Option<ToolParams>) -> (r: ToolParams)
        ensures
            r@ == arguments_or_empty(
                match parsed {
                    Some(p) => Some(p@),
                    None => None,
                },
            ),
    {
        match parsed {
            Some(p) => p,
            None => ToolParams::new(),
        }
    }

    /// The arguments written in `text` as a JSON object; none where `text`
    /// is no JSON document or holds no object.
    pub fn parse(text: &str) -> (r: ToolParams)
        ensures
            r@ == arguments_or_empty(parsed_object(text@)),
    {
        ToolParams::from_parsed(parse_object(text))
    }

    /// Gives `key` the value `value`.
    pub fn set(&mut self, key: &str, value: ParamValue)
        ensures
            final(self)@ == old(self)@.push((key@, value@)),
    {
        self.entries.push(ParamEntry { key: String::from_str(key), value });
        assert(self@ =~= old(self)@.push((key@, value@)));
    }

    /// Gives `key` the text `value`.
    pub fn set_text(&mut self, key: &str, value: &str)
        ensures
            final(self)@ == old(self)@.push((key@, ParamValueView::Text(value@))),
    {
        self.set(key, ParamValue::Text(String::from_str(value)));
    }

    /// The value of `key`.
    pub fn get(&self, key: &str) -> (r: Option<&ParamValue>)
        ensures
            match r {
                Some(v) => lookup(self@, key@) == Some(v@),
                None => lookup(self@, key@) is None,
            },
    {
        let mut i: usize = self.entries.len();
        assert(self@.take(i as int) =~= self@);
        while i > 0
            invariant
                i <= self.entries@.len(),
                lookup(self@, key@) == lookup(self@.take(i as int), key@),
            decreases i,
        {
            let ghost part = self@.take(i as int);
            assert(part.last() == self@[i - 1]);
            assert(part.drop_last() =~= self@.take(i - 1));
            if same_text(self.entries[i - 1].key.as_str(), key) {
                return Some(&self.entries[i - 1].value);
            }
            i = i - 1;
        }
        None
    }

    /// The text of `key`, where its value is a text.
    pub fn get_str(&self, key: &str) -> (r: Option<&str>)
        ensures
            match r {
                Some(t) => text_param(self@, key@) == Some(t@),
                None => text_param(self@, key@) is None,
            },
    {
        match self.get(key) {
            Some(ParamValue::Text(t)) => Some(t.as_str()),
            _ => None,
        }
    }

    /// The text of `key`, or `fallback` where its value is no text.
    pub fn get_str_or<'a>(&'a self, key: &str, fallback: &'a str) -> (r: &'a str)
        ensures
            r@ == text_or(self@, key@, fallback@),
    {
        match self.get_str(key) {
            Some(t) => t,
            None => fallback,
        }
    }

    /// The items of `key`, where its value is a list.
    pub fn get_list(&self, key: &str) -> (r: Option<&Vec<Option<String>>>)
        ensures
            match r {
                Some(items) => list_param(self@, key@) == Some(item_views(items@)),
                None => list_param(self@, key@) is None,
            },
    {
        match self.get(key) {
            Some(ParamValue::List(items)) => Some(items),
            _ => None,
        }
    }
}

/// A copy of the items of a list argument.
pub fn clone_items(items: &Vec<Option<String>>) -> (r: Vec<Option<String>>)
    ensures
        item_views(r@) == item_views(items@),
{
    let mut out: Vec<Option<String>> = Vec::new();
    let mut i: usize = 0;
    while i < items.len()
        invariant
            i <= items@.len(),
            out@.len() == i,
            forall|k: int| 0 <= k < i ==> item_views(out@)[k] == item_views(items@)[k],
        decreases items@.len() - i,
    {
        let item = match &items[i] {
            Some(t) => Some(t.clone()),
            None => None,
        };
        out.push(item);
        i = i + 1;
    }
    assert(item_views(out@) =~= item_views(items@));
    out
}

/// A call of a tool by name.
#[derive(Clone, Debug, PartialEq, Eq)]
pub struct ToolInvocation {
    pub name: String,
    pub params: ToolParams,
}

} // verus!
