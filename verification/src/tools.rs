//! The built-in tools.

use crate::params::{list_param, text_or, text_param, ParamValueView, ToolParams};
use crate::plan::{PlanView, ToolPlan};
use crate::schema::{
    conforms, declared_kind, gives, list_property, text_property, ParameterSchema, PropertyKind,
    PropertyView, SchemaView,
};
use crate::text::{join, joined, texts};
use crate::tool::{BaseTool, ConfirmationDetails};
use vstd::prelude::*;
use vstd::string::*;

verus! {

/// The items of a list that are texts, in order.
pub open spec fn present(items: Seq<Option<Seq<char>>>) -> Seq<Seq<char>>
    decreases items.len(),
{
    if items.len() == 0 {
        Seq::empty()
    } else {
        match items.last() {
            Some(t) => present(items.drop_last()).push(t),
            None => present(items.drop_last()),
        }
    }
}

fn present_items(items: &Vec<Option<String>>) -> (r: Vec<String>)
    ensures
        texts(r@) == present(crate::params::item_views(items@)),
{
    let ghost all = crate::params::item_views(items@);
    let mut out: Vec<String> = Vec::new();
    let mut i: usize = 0;
    assert(texts(out@) =~= present(all.take(0)));
    while i < items.len()
        invariant
            i <= items@.len(),
            all == crate::params::item_views(items@),
            texts(out@) == present(all.take(i as int)),
        decreases items@.len() - i,
    {
        let ghost before = texts(out@);
        assert(all.take(i + 1).drop_last() =~= all.take(i as int));
        assert(all.take(i + 1).last() == all[i as int]);
        match &items[i] {
            Some(t) => {
                out.push(t.clone());
                assert(texts(out@) =~= before.push(t@));
            },
            None => {},
        }
        i = i + 1;
    }
    assert(all.take(items@.len() as int) =~= all);
    out
}

/// Reads a file and hands out its content. Runs unattended.
#[derive(Clone, Debug, PartialEq, Eq)]
pub struct ReadFileTool;

impl BaseTool for ReadFileTool {
    open spec fn name_spec(&self) -> Seq<char> {
        "read_file"@
    }

    open spec fn display_name_spec(&self) -> Seq<char> {
        "Read File"@
    }

    open spec fn description_spec(&self) -> Seq<char> {
        "Reads the content of a specified file."@
    }

    open spec fn schema_spec(&self) -> SchemaView {
        SchemaView {
            properties: Seq::<PropertyView>::empty().push(
                text_property("path"@, "The path to the file to read."@),
            ),
            required: Seq::<Seq<char>>::empty().push("path"@),
        }
    }

    open spec fn accepts(&self, params: Seq<(Seq<char>, ParamValueView)>) -> bool {
        text_param(params, "path"@) is Some
    }

    open spec fn summary(&self, params: Seq<(Seq<char>, ParamValueView)>) -> Seq<char> {
        "Read file: "@ + text_or(params, "path"@, "unknown path"@)
    }

    open spec fn confirmation(&self, params: Seq<(Seq<char>, ParamValueView)>) -> Option<
        Seq<char>,
    > {
        None
    }

    open spec fn plan_spec(&self, params: Seq<(Seq<char>, ParamValueView)>) -> PlanView {
        match text_param(params, "path"@) {
            None => PlanView::Fail("Missing 'path' parameter for ReadFileTool"@),
            Some(path) => PlanView::ReadFile { path },
        }
    }

    proof fn validation_follows_schema(&self, params: Seq<(Seq<char>, ParamValueView)>) {
        reveal_strlit("path");
        let schema = self.schema_spec();
        reveal_with_fuel(declared_kind, 2);
        assert(schema.required[0] == "path"@);
        assert(declared_kind(schema.properties, "path"@) == Some(PropertyKind::Text));
        assert(conforms(schema, params) ==> gives(schema, params, schema.required[0]));
    }

    fn name(&self) -> (r: &'static str) {
        "read_file"
    }

    fn display_name(&self) -> (r: &'static str) {
        "Read File"
    }

    fn description(&self) -> (r: &'static str) {
        "Reads the content of a specified file."
    }

    fn parameter_schema(&self) -> (r: ParameterSchema) {
        let mut schema = ParameterSchema::new();
        schema.declare(
            "path",
            PropertyKind::Text,
            "The path to the file to read.",
            true,
        );
        schema
    }

    fn validate_tool_params(&self, params: &ToolParams) -> (r: bool) {
        params.get_str("path").is_some()
    }

    fn get_description(&self, params: &ToolParams) -> (r: String) {
        let mut out = String::from_str("Read file: ");
        out.append(params.get_str_or("path", "unknown path"));
        out
    }

    fn should_confirm_execute(&self, params: &ToolParams) -> (r: Option<ConfirmationDetails>) {
        None
    }

    fn plan(&self, params: &ToolParams) -> (r: ToolPlan) {
        let path = match params.get_str("path") {
            Some(t) => t,
            None => {
                return ToolPlan::Fail(String::from_str("Missing 'path' parameter for ReadFileTool"));
            },
        };
        ToolPlan::ReadFile { path: String::from_str(path) }
    }
}

/// Writes a text to a file. Asks first.
#[derive(Clone, Debug, PartialEq, Eq)]
pub struct WriteFileTool;

impl BaseTool for WriteFileTool {
    open spec fn name_spec(&self) -> Seq<char> {
        "write_file"@
    }

    open spec fn display_name_spec(&self) -> Seq<char> {
        "Write File"@
    }

    open spec fn description_spec(&self) -> Seq<char> {
        "Writes content to a specified file."@
    }

    open spec fn schema_spec(&self) -> SchemaView {
        SchemaView {
            properties: Seq::<PropertyView>::empty().push(
                text_property("path"@, "The path to the file to write."@),
            ).push(
                text_property("content"@, "The content to write to the file."@),
            ),
            required: Seq::<Seq<char>>::empty().push("path"@).push("content"@),
        }
    }

    open spec fn accepts(&self, params: Seq<(Seq<char>, ParamValueView)>) -> bool {
        text_param(params, "path"@) is Some
            && text_param(params, "content"@) is Some
    }

    open spec fn summary(&self, params: Seq<(Seq<char>, ParamValueView)>) -> Seq<char> {
        "Write to file: "@ + text_or(params, "path"@, "unknown path"@)
    }

    open spec fn confirmation(&self, params: Seq<(Seq<char>, ParamValueView)>) -> Option<
        Seq<char>,
    > {
        Some("This will write content to a file. Are you sure?"@)
    }

    open spec fn plan_spec(&self, params: Seq<(Seq<char>, ParamValueView)>) -> PlanView {
        match text_param(params, "path"@) {
            None => PlanView::Fail("Missing 'path' parameter for WriteFileTool"@),
            Some(path) => {
                match text_param(params, "content"@) {
                    None => PlanView::Fail("Missing 'content' parameter for WriteFileTool"@),
                    Some(content) => PlanView::WriteFile { path, content },
                }
            },
        }
    }

    proof fn validation_follows_schema(&self, params: Seq<(Seq<char>, ParamValueView)>) {
        reveal_strlit("path");
        reveal_strlit("content");
        assert("path"@.len() != "content"@.len());
        let schema = self.schema_spec();
        reveal_with_fuel(declared_kind, 3);
        assert(schema.required[0] == "path"@);
        assert(declared_kind(schema.properties, "path"@) == Some(PropertyKind::Text));
        assert(conforms(schema, params) ==> gives(schema, params, schema.required[0]));
        assert(schema.required[1] == "content"@);
        assert(declared_kind(schema.properties, "content"@) == Some(PropertyKind::Text));
        assert(conforms(schema, params) ==> gives(schema, params, schema.required[1]));
    }

    fn name(&self) -> (r: &'static str) {
        "write_file"
    }

    fn display_name(&self) -> (r: &'static str) {
        "Write File"
    }

    fn description(&self) -> (r: &'static str) {
        "Writes content to a specified file."
    }

    fn parameter_schema(&self) -> (r: ParameterSchema) {
        let mut schema = ParameterSchema::new();
        schema.declare(
            "path",
            PropertyKind::Text,
            "The path to the file to write.",
            true,
        );
        schema.declare(
            "content",
            PropertyKind::Text,
            "The content to write to the file.",
            true,
        );
        schema
    }

    fn validate_tool_params(&self, params: &ToolParams) -> (r: bool) {
        params.get_str("path").is_some()
            && params.get_str("content").is_some()
    }

    fn get_description(&self, params: &ToolParams) -> (r: String) {
        let mut out = String::from_str("Write to file: ");
        out.append(params.get_str_or("path", "unknown path"));
        out
    }

    fn should_confirm_execute(&self, params: &ToolParams) -> (r: Option<ConfirmationDetails>) {
        let mut out = String::from_str("This will write content to a file. Are you sure?");
        Some(ConfirmationDetails { message: out })
    }

    fn plan(&self, params: &ToolParams) -> (r: ToolPlan) {
        let path = match params.get_str("path") {
            Some(t) => t,
            None => {
                return ToolPlan::Fail(String::from_str("Missing 'path' parameter for WriteFileTool"));
            },
        };
        let content = match params.get_str("content") {
            Some(t) => t,
            None => {
                return ToolPlan::Fail(String::from_str("Missing 'content' parameter for WriteFileTool"));
            },
        };
        ToolPlan::WriteFile { path: String::from_str(path), content: String::from_str(content) }
    }
}

/// Replaces a text in a file, wherever it occurs. Asks first.
#[derive(Clone, Debug, PartialEq, Eq)]
pub struct EditTool;

impl BaseTool for EditTool {
    open spec fn name_spec(&self) -> Seq<char> {
        "edit_file"@
    }

    open spec fn display_name_spec(&self) -> Seq<char> {
        "Edit File"@
    }

    open spec fn description_spec(&self) -> Seq<char> {
        "Edits a file by replacing an old string with a new string."@
    }

    open spec fn schema_spec(&self) -> SchemaView {
        SchemaView {
            properties: Seq::<PropertyView>::empty().push(
                text_property("file_path"@, "The path to the file to edit."@),
            ).push(
                text_property("old_string"@, "The string to be replaced."@),
            ).push(
                text_property("new_string"@, "The string to replace the old string with."@),
            ),
            required: Seq::<Seq<char>>::empty().push("file_path"@).push("old_string"@).push("new_string"@),
        }
    }

    open spec fn accepts(&self, params: Seq<(Seq<char>, ParamValueView)>) -> bool {
        text_param(params, "file_path"@) is Some
            && text_param(params, "old_string"@) is Some
            && text_param(params, "new_string"@) is Some
    }

    open spec fn summary(&self, params: Seq<(Seq<char>, ParamValueView)>) -> Seq<char> {
        "Edit file '"@ + text_or(params, "file_path"@, "unknown file"@) + "': replace \""@ + text_or(params, "old_string"@, "unknown old string"@) + "\" with \""@ + text_or(params, "new_string"@, "unknown new string"@) + "\""@
    }

    open spec fn confirmation(&self, params: Seq<(Seq<char>, ParamValueView)>) -> Option<
        Seq<char>,
    > {
        Some("This will modify a file. Are you sure?"@)
    }

    open spec fn plan_spec(&self, params: Seq<(Seq<char>, ParamValueView)>) -> PlanView {
        match text_param(params, "file_path"@) {
            None => PlanView::Fail("Missing 'file_path' parameter for EditTool"@),
            Some(path) => {
                match text_param(params, "old_string"@) {
                    None => PlanView::Fail("Missing 'old_string' parameter for EditTool"@),
                    Some(old_text) => {
                        match text_param(params, "new_string"@) {
                            None => PlanView::Fail("Missing 'new_string' parameter for EditTool"@),
                            Some(new_text) => PlanView::EditFile { path, old_text, new_text },
                        }
                    },
                }
            },
        }
    }

    proof fn validation_follows_schema(&self, params: Seq<(Seq<char>, ParamValueView)>) {
        reveal_strlit("file_path");
        reveal_strlit("old_string");
        reveal_strlit("new_string");
        assert("file_path"@.len() != "old_string"@.len());
        assert("file_path"@.len() != "new_string"@.len());
        assert("old_string"@[0] != "new_string"@[0]);
        let schema = self.schema_spec();
        reveal_with_fuel(declared_kind, 4);
        assert(schema.required[0] == "file_path"@);
        assert(declared_kind(schema.properties, "file_path"@) == Some(PropertyKind::Text));
        assert(conforms(schema, params) ==> gives(schema, params, schema.required[0]));
        assert(schema.required[1] == "old_string"@);
        assert(declared_kind(schema.properties, "old_string"@) == Some(PropertyKind::Text));
        assert(conforms(schema, params) ==> gives(schema, params, schema.required[1]));
        assert(schema.required[2] == "new_string"@);
        assert(declared_kind(schema.properties, "new_string"@) == Some(PropertyKind::Text));
        assert(conforms(schema, params) ==> gives(schema, params, schema.required[2]));
    }

    fn name(&self) -> (r: &'static str) {
        "edit_file"
    }

    fn display_name(&self) -> (r: &'static str) {
        "Edit File"
    }

    fn description(&self) -> (r: &'static str) {
        "Edits a file by replacing an old string with a new string."
    }

    fn parameter_schema(&self) -> (r: ParameterSchema) {
        let mut schema = ParameterSchema::new();
        schema.declare(
            "file_path",
            PropertyKind::Text,
            "The path to the file to edit.",
            true,
        );
        schema.declare(
            "old_string",
            PropertyKind::Text,
            "The string to be replaced.",
            true,
        );
        schema.declare(
            "new_string",
            PropertyKind::Text,
            "The string to replace the old string with.",
            true,
        );
        schema
    }

    fn validate_tool_params(&self, params: &ToolParams) -> (r: bool) {
        params.get_str("file_path").is_some()
            && params.get_str("old_string").is_some()
            && params.get_str("new_string").is_some()
    }

    fn get_description(&self, params: &ToolParams) -> (r: String) {
        let mut out = String::from_str("Edit file '");
        out.append(params.get_str_or("file_path", "unknown file"));
        out.append("': replace \"");
        out.append(params.get_str_or("old_string", "unknown old string"));
        out.append("\" with \"");
        out.append(params.get_str_or("new_string", "unknown new string"));
        out.append("\"");
        out
    }

    fn should_confirm_execute(&self, params: &ToolParams) -> (r: Option<ConfirmationDetails>) {
        let mut out = String::from_str("This will modify a file. Are you sure?");
        Some(ConfirmationDetails { message: out })
    }

    fn plan(&self, params: &ToolParams) -> (r: ToolPlan) {
        let path = match params.get_str("file_path") {
            Some(t) => t,
            None => {
                return ToolPlan::Fail(String::from_str("Missing 'file_path' parameter for EditTool"));
            },
        };
        let old_text = match params.get_str("old_string") {
            Some(t) => t,
            None => {
                return ToolPlan::Fail(String::from_str("Missing 'old_string' parameter for EditTool"));
            },
        };
        let new_text = match params.get_str("new_string") {
            Some(t) => t,
            None => {
                return ToolPlan::Fail(String::from_str("Missing 'new_string' parameter for EditTool"));
            },
        };
        ToolPlan::EditFile { path: String::from_str(path), old_text: String::from_str(old_text), new_text: String::from_str(new_text) }
    }
}

/// Lists the names in a directory. Runs unattended.
#[derive(Clone, Debug, PartialEq, Eq)]
pub struct LSTool;

impl BaseTool for LSTool {
    open spec fn name_spec(&self) -> Seq<char> {
        "list_directory"@
    }

    open spec fn display_name_spec(&self) -> Seq<char> {
        "List Directory"@
    }

    open spec fn description_spec(&self) -> Seq<char> {
        "Lists the contents of a specified directory."@
    }

    open spec fn schema_spec(&self) -> SchemaView {
        SchemaView {
            properties: Seq::<PropertyView>::empty().push(
                text_property("path"@, "The path to the directory to list."@),
            ),
            required: Seq::<Seq<char>>::empty().push("path"@),
        }
    }

    open spec fn accepts(&self, params: Seq<(Seq<char>, ParamValueView)>) -> bool {
        text_param(params, "path"@) is Some
    }

    open spec fn summary(&self, params: Seq<(Seq<char>, ParamValueView)>) -> Seq<char> {
        "List contents of directory: "@ + text_or(params, "path"@, "current directory"@)
    }

    open spec fn confirmation(&self, params: Seq<(Seq<char>, ParamValueView)>) -> Option<
        Seq<char>,
    > {
        None
    }

    open spec fn plan_spec(&self, params: Seq<(Seq<char>, ParamValueView)>) -> PlanView {
        match text_param(params, "path"@) {
            None => PlanView::Fail("Missing 'path' parameter for LSTool"@),
            Some(path) => PlanView::ListDirectory { path },
        }
    }

    proof fn validation_follows_schema(&self, params: Seq<(Seq<char>, ParamValueView)>) {
        reveal_strlit("path");
        let schema = self.schema_spec();
        reveal_with_fuel(declared_kind, 2);
        assert(schema.required[0] == "path"@);
        assert(declared_kind(schema.properties, "path"@) == Some(PropertyKind::Text));
        assert(conforms(schema, params) ==> gives(schema, params, schema.required[0]));
    }

    fn name(&self) -> (r: &'static str) {
        "list_directory"
    }

    fn display_name(&self) -> (r: &'static str) {
        "List Directory"
    }

    fn description(&self) -> (r: &'static str) {
        "Lists the contents of a specified directory."
    }

    fn parameter_schema(&self) -> (r: ParameterSchema) {
        let mut schema = ParameterSchema::new();
        schema.declare(
            "path",
            PropertyKind::Text,
            "The path to the directory to list.",
            true,
        );
        schema
    }

    fn validate_tool_params(&self, params: &ToolParams) -> (r: bool) {
        params.get_str("path").is_some()
    }

    fn get_description(&self, params: &ToolParams) -> (r: String) {
        let mut out = String::from_str("List contents of directory: ");
        out.append(params.get_str_or("path", "current directory"));
        out
    }

    fn should_confirm_execute(&self, params: &ToolParams) -> (r: Option<ConfirmationDetails>) {
        None
    }

    fn plan(&self, params: &ToolParams) -> (r: ToolPlan) {
        let path = match params.get_str("path") {
            Some(t) => t,
            None => {
                return ToolPlan::Fail(String::from_str("Missing 'path' parameter for LSTool"));
            },
        };
        ToolPlan::ListDirectory { path: String::from_str(path) }
    }
}

/// Searches the files under a directory for lines that match a regular
/// expression. Runs unattended.
#[derive(Clone, Debug, PartialEq, Eq)]
pub struct GrepTool;

impl BaseTool for GrepTool {
    open spec fn name_spec(&self) -> Seq<char> {
        "search_file_content"@
    }

    open spec fn display_name_spec(&self) -> Seq<char> {
        "Search File Content"@
    }

    open spec fn description_spec(&self) -> Seq<char> {
        "Searches for a regular expression pattern within the content of files in a specified directory."@
    }

    open spec fn schema_spec(&self) -> SchemaView {
        SchemaView {
            properties: Seq::<PropertyView>::empty().push(
                text_property("path"@, "The absolute path to the directory to search within. If omitted, searches the current working directory."@),
            ).push(
                text_property("pattern"@, "The regular expression (regex) pattern to search for within file contents."@),
            ).push(
                text_property("include"@, "Optional: A glob pattern to filter which files are searched (e.g., *.js, *.{ts,tsx}, src/**). If omitted, searches all files."@),
            ),
            required: Seq::<Seq<char>>::empty().push("pattern"@),
        }
    }

    open spec fn accepts(&self, params: Seq<(Seq<char>, ParamValueView)>) -> bool {
        text_param(params, "pattern"@) is Some
    }

    open spec fn summary(&self, params: Seq<(Seq<char>, ParamValueView)>) -> Seq<char> {
        "Search for pattern \""@ + text_or(params, "pattern"@, "unknown pattern"@) + "\" in files under '"@ + text_or(params, "path"@, "current directory"@) + "'"@
    }

    open spec fn confirmation(&self, params: Seq<(Seq<char>, ParamValueView)>) -> Option<
        Seq<char>,
    > {
        None
    }

    open spec fn plan_spec(&self, params: Seq<(Seq<char>, ParamValueView)>) -> PlanView {
        match text_param(params, "pattern"@) {
            None => PlanView::Fail("Missing 'pattern' parameter for GrepTool"@),
            Some(pattern) => PlanView::SearchContent {
                pattern,
                root: text_or(params, "path"@, "."@),
                filter: text_param(params, "include"@),
            },
        }
    }

    proof fn validation_follows_schema(&self, params: Seq<(Seq<char>, ParamValueView)>) {
        reveal_strlit("path");
        reveal_strlit("pattern");
        reveal_strlit("include");
        assert("path"@.len() != "pattern"@.len());
        assert("path"@.len() != "include"@.len());
        assert("pattern"@[0] != "include"@[0]);
        let schema = self.schema_spec();
        reveal_with_fuel(declared_kind, 4);
        assert(schema.required[0] == "pattern"@);
        assert(declared_kind(schema.properties, "pattern"@) == Some(PropertyKind::Text));
        assert(conforms(schema, params) ==> gives(schema, params, schema.required[0]));
    }

    fn name(&self) -> (r: &'static str) {
        "search_file_content"
    }

    fn display_name(&self) -> (r: &'static str) {
        "Search File Content"
    }

    fn description(&self) -> (r: &'static str) {
        "Searches for a regular expression pattern within the content of files in a specified directory."
    }

    fn parameter_schema(&self) -> (r: ParameterSchema) {
        let mut schema = ParameterSchema::new();
        schema.declare(
            "path",
            PropertyKind::Text,
            "The absolute path to the directory to search within. If omitted, searches the current working directory.",
            false,
        );
        schema.declare(
            "pattern",
            PropertyKind::Text,
            "The regular expression (regex) pattern to search for within file contents.",
            true,
        );
        schema.declare(
            "include",
            PropertyKind::Text,
            "Optional: A glob pattern to filter which files are searched (e.g., *.js, *.{ts,tsx}, src/**). If omitted, searches all files.",
            false,
        );
        schema
    }

    fn validate_tool_params(&self, params: &ToolParams) -> (r: bool) {
        params.get_str("pattern").is_some()
    }

    fn get_description(&self, params: &ToolParams) -> (r: String) {
        let mut out = String::from_str("Search for pattern \"");
        out.append(params.get_str_or("pattern", "unknown pattern"));
        out.append("\" in files under '");
        out.append(params.get_str_or("path", "current directory"));
        out.append("'");
        out
    }

    fn should_confirm_execute(&self, params: &ToolParams) -> (r: Option<ConfirmationDetails>) {
        None
    }

    fn plan(&self, params: &ToolParams) -> (r: ToolPlan) {
        let pattern = match params.get_str("pattern") {
            Some(t) => t,
            None => {
                return ToolPlan::Fail(String::from_str("Missing 'pattern' parameter for GrepTool"));
            },
        };
        let filter = match params.get_str("include") {
            Some(t) => Some(String::from_str(t)),
            None => None,
        };
        ToolPlan::SearchContent {
            pattern: String::from_str(pattern),
            root: String::from_str(params.get_str_or("path", ".")),
            filter,
        }
    }

}

/// Lists the paths that match a glob pattern. Runs unattended.
#[derive(Clone, Debug, PartialEq, Eq)]
pub struct GlobTool;

impl BaseTool for GlobTool {
    open spec fn name_spec(&self) -> Seq<char> {
        "glob"@
    }

    open spec fn display_name_spec(&self) -> Seq<char> {
        "Glob Search"@
    }

    open spec fn description_spec(&self) -> Seq<char> {
        "Finds files matching specific glob patterns."@
    }

    open spec fn schema_spec(&self) -> SchemaView {
        SchemaView {
            properties: Seq::<PropertyView>::empty().push(
                text_property("pattern"@, "The glob pattern to match against (e.g., src/**/*.py, docs/*.md)."@),
            ).push(
                text_property("path"@, "Optional: The absolute path to the directory to search within. If omitted, searches the root directory."@),
            ),
            required: Seq::<Seq<char>>::empty().push("pattern"@),
        }
    }

    open spec fn accepts(&self, params: Seq<(Seq<char>, ParamValueView)>) -> bool {
        text_param(params, "pattern"@) is Some
    }

    open spec fn summary(&self, params: Seq<(Seq<char>, ParamValueView)>) -> Seq<char> {
        "Find files matching pattern \""@ + text_or(params, "pattern"@, "unknown pattern"@) + "\" in '"@ + text_or(params, "path"@, "current directory"@) + "'"@
    }

    open spec fn confirmation(&self, params: Seq<(Seq<char>, ParamValueView)>) -> Option<
        Seq<char>,
    > {
        None
    }

    open spec fn plan_spec(&self, params: Seq<(Seq<char>, ParamValueView)>) -> PlanView {
        match text_param(params, "pattern"@) {
            None => PlanView::Fail("Missing 'pattern' parameter for GlobTool"@),
            Some(pattern) => PlanView::FindFiles {
                pattern: text_or(params, "path"@, "."@) + "/"@ + pattern,
            },
        }
    }

    proof fn validation_follows_schema(&self, params: Seq<(Seq<char>, ParamValueView)>) {
        reveal_strlit("pattern");
        reveal_strlit("path");
        assert("pattern"@.len() != "path"@.len());
        let schema = self.schema_spec();
        reveal_with_fuel(declared_kind, 3);
        assert(schema.required[0] == "pattern"@);
        assert(declared_kind(schema.properties, "pattern"@) == Some(PropertyKind::Text));
        assert(conforms(schema, params) ==> gives(schema, params, schema.required[0]));
    }

    fn name(&self) -> (r: &'static str) {
        "glob"
    }

    fn display_name(&self) -> (r: &'static str) {
        "Glob Search"
    }

    fn description(&self) -> (r: &'static str) {
        "Finds files matching specific glob patterns."
    }

    fn parameter_schema(&self) -> (r: ParameterSchema) {
        let mut schema = ParameterSchema::new();
        schema.declare(
            "pattern",
            PropertyKind::Text,
            "The glob pattern to match against (e.g., src/**/*.py, docs/*.md).",
            true,
        );
        schema.declare(
            "path",
            PropertyKind::Text,
            "Optional: The absolute path to the directory to search within. If omitted, searches the root directory.",
            false,
        );
        schema
    }

    fn validate_tool_params(&self, params: &ToolParams) -> (r: bool) {
        params.get_str("pattern").is_some()
    }

    fn get_description(&self, params: &ToolParams) -> (r: String) {
        let mut out = String::from_str("Find files matching pattern \"");
        out.append(params.get_str_or("pattern", "unknown pattern"));
        out.append("\" in '");
        out.append(params.get_str_or("path", "current directory"));
        out.append("'");
        out
    }

    fn should_confirm_execute(&self, params: &ToolParams) -> (r: Option<ConfirmationDetails>) {
        None
    }

    fn plan(&self, params: &ToolParams) -> (r: ToolPlan) {
        let pattern = match params.get_str("pattern") {
            Some(t) => t,
            None => {
                return ToolPlan::Fail(String::from_str("Missing 'pattern' parameter for GlobTool"));
            },
        };
        let mut full = String::from_str(params.get_str_or("path", "."));
        full.append("/");
        full.append(pattern);
        ToolPlan::FindFiles { pattern: full }
    }

}

/// Runs a command line in the shell. Asks first, naming the command.
#[derive(Clone, Debug, PartialEq, Eq)]
pub struct ShellTool;

impl BaseTool for ShellTool {
    open spec fn name_spec(&self) -> Seq<char> {
        "run_shell_command"@
    }

    open spec fn display_name_spec(&self) -> Seq<char> {
        "Run Shell Command"@
    }

    open spec fn description_spec(&self) -> Seq<char> {
        "Executes a given shell command."@
    }

    open spec fn schema_spec(&self) -> SchemaView {
        SchemaView {
            properties: Seq::<PropertyView>::empty().push(
                text_property("command"@, "The exact bash command to execute."@),
            ).push(
                text_property("description"@, "Brief description of the command for the user. Be specific and concise."@),
            ),
            required: Seq::<Seq<char>>::empty().push("command"@),
        }
    }

    open spec fn accepts(&self, params: Seq<(Seq<char>, ParamValueView)>) -> bool {
        text_param(params, "command"@) is Some
    }

    open spec fn summary(&self, params: Seq<(Seq<char>, ParamValueView)>) -> Seq<char> {
        "Run shell command: '"@ + text_or(params, "command"@, "unknown command"@) + "' (Description: "@ + text_or(params, "description"@, "no description"@) + ")"@
    }

    open spec fn confirmation(&self, params: Seq<(Seq<char>, ParamValueView)>) -> Option<
        Seq<char>,
    > {
        Some("This will execute the command: '"@ + text_or(params, "command"@, "unknown command"@) + "'. Are you sure?"@)
    }

    open spec fn plan_spec(&self, params: Seq<(Seq<char>, ParamValueView)>) -> PlanView {
        match text_param(params, "command"@) {
            None => PlanView::Fail("Missing 'command' parameter for ShellTool"@),
            Some(command) => PlanView::RunCommand { command },
        }
    }

    proof fn validation_follows_schema(&self, params: Seq<(Seq<char>, ParamValueView)>) {
        reveal_strlit("command");
        reveal_strlit("description");
        assert("command"@.len() != "description"@.len());
        let schema = self.schema_spec();
        reveal_with_fuel(declared_kind, 3);
        assert(schema.required[0] == "command"@);
        assert(declared_kind(schema.properties, "command"@) == Some(PropertyKind::Text));
        assert(conforms(schema, params) ==> gives(schema, params, schema.required[0]));
    }

    fn name(&self) -> (r: &'static str) {
        "run_shell_command"
    }

    fn display_name(&self) -> (r: &'static str) {
        "Run Shell Command"
    }

    fn description(&self) -> (r: &'static str) {
        "Executes a given shell command."
    }

    fn parameter_schema(&self) -> (r: ParameterSchema) {
        let mut schema = ParameterSchema::new();
        schema.declare(
            "command",
            PropertyKind::Text,
            "The exact bash command to execute.",
            true,
        );
        schema.declare(
            "description",
            PropertyKind::Text,
            "Brief description of the command for the user. Be specific and concise.",
            false,
        );
        schema
    }

    fn validate_tool_params(&self, params: &ToolParams) -> (r: bool) {
        params.get_str("command").is_some()
    }

    fn get_description(&self, params: &ToolParams) -> (r: String) {
        let mut out = String::from_str("Run shell command: '");
        out.append(params.get_str_or("command", "unknown command"));
        out.append("' (Description: ");
        out.append(params.get_str_or("description", "no description"));
        out.append(")");
        out
    }

    fn should_confirm_execute(&self, params: &ToolParams) -> (r: Option<ConfirmationDetails>) {
        let mut out = String::from_str("This will execute the command: '");
        out.append(params.get_str_or("command", "unknown command"));
        out.append("'. Are you sure?");
        Some(ConfirmationDetails { message: out })
    }

    fn plan(&self, params: &ToolParams) -> (r: ToolPlan) {
        let command = match params.get_str("command") {
            Some(t) => t,
            None => {
                return ToolPlan::Fail(String::from_str("Missing 'command' parameter for ShellTool"));
            },
        };
        ToolPlan::RunCommand { command: String::from_str(command) }
    }
}

/// Fetches what a URL holds. Runs unattended.
#[derive(Clone, Debug, PartialEq, Eq)]
pub struct WebFetchTool;

impl BaseTool for WebFetchTool {
    open spec fn name_spec(&self) -> Seq<char> {
        "web_fetch"@
    }

    open spec fn display_name_spec(&self) -> Seq<char> {
        "Web Fetch"@
    }

    open spec fn description_spec(&self) -> Seq<char> {
        "Fetches content from a specified URL."@
    }

    open spec fn schema_spec(&self) -> SchemaView {
        SchemaView {
            properties: Seq::<PropertyView>::empty().push(
                text_property("url"@, "The URL to fetch content from."@),
            ),
            required: Seq::<Seq<char>>::empty().push("url"@),
        }
    }

    open spec fn accepts(&self, params: Seq<(Seq<char>, ParamValueView)>) -> bool {
        text_param(params, "url"@) is Some
    }

    open spec fn summary(&self, params: Seq<(Seq<char>, ParamValueView)>) -> Seq<char> {
        "Fetch content from URL: "@ + text_or(params, "url"@, "unknown URL"@)
    }

    open spec fn confirmation(&self, params: Seq<(Seq<char>, ParamValueView)>) -> Option<
        Seq<char>,
    > {
        None
    }

    open spec fn plan_spec(&self, params: Seq<(Seq<char>, ParamValueView)>) -> PlanView {
        match text_param(params, "url"@) {
            None => PlanView::Fail("Missing 'url' parameter for WebFetchTool"@),
            Some(url) => PlanView::FetchUrl { url },
        }
    }

    proof fn validation_follows_schema(&self, params: Seq<(Seq<char>, ParamValueView)>) {
        reveal_strlit("url");
        let schema = self.schema_spec();
        reveal_with_fuel(declared_kind, 2);
        assert(schema.required[0] == "url"@);
        assert(declared_kind(schema.properties, "url"@) == Some(PropertyKind::Text));
        assert(conforms(schema, params) ==> gives(schema, params, schema.required[0]));
    }

    fn name(&self) -> (r: &'static str) {
        "web_fetch"
    }

    fn display_name(&self) -> (r: &'static str) {
        "Web Fetch"
    }

    fn description(&self) -> (r: &'static str) {
        "Fetches content from a specified URL."
    }

    fn parameter_schema(&self) -> (r: ParameterSchema) {
        let mut schema = ParameterSchema::new();
        schema.declare(
            "url",
            PropertyKind::Text,
            "The URL to fetch content from.",
            true,
        );
        schema
    }

    fn validate_tool_params(&self, params: &ToolParams) -> (r: bool) {
        params.get_str("url").is_some()
    }

    fn get_description(&self, params: &ToolParams) -> (r: String) {
        let mut out = String::from_str("Fetch content from URL: ");
        out.append(params.get_str_or("url", "unknown URL"));
        out
    }

    fn should_confirm_execute(&self, params: &ToolParams) -> (r: Option<ConfirmationDetails>) {
        None
    }

    fn plan(&self, params: &ToolParams) -> (r: ToolPlan) {
        let url = match params.get_str("url") {
            Some(t) => t,
            None => {
                return ToolPlan::Fail(String::from_str("Missing 'url' parameter for WebFetchTool"));
            },
        };
        ToolPlan::FetchUrl { url: String::from_str(url) }
    }
}

/// Answers a web search with a fixed line that names the query; no search
/// is made. Runs unattended.
#[derive(Clone, Debug, PartialEq, Eq)]
pub struct WebSearchTool;

impl BaseTool for WebSearchTool {
    open spec fn name_spec(&self) -> Seq<char> {
        "google_web_search"@
    }

    open spec fn display_name_spec(&self) -> Seq<char> {
        "Google Web Search"@
    }

    open spec fn description_spec(&self) -> Seq<char> {
        "Performs a web search using Google Search (via the Gemini API) and returns the results."@
    }

    open spec fn schema_spec(&self) -> SchemaView {
        SchemaView {
            properties: Seq::<PropertyView>::empty().push(
                text_property("query"@, "The search query to find information on the web."@),
            ),
            required: Seq::<Seq<char>>::empty().push("query"@),
        }
    }

    open spec fn accepts(&self, params: Seq<(Seq<char>, ParamValueView)>) -> bool {
        text_param(params, "query"@) is Some
    }

    open spec fn summary(&self, params: Seq<(Seq<char>, ParamValueView)>) -> Seq<char> {
        "Search the web for: "@ + text_or(params, "query"@, "unknown query"@)
    }

    open spec fn confirmation(&self, params: Seq<(Seq<char>, ParamValueView)>) -> Option<
        Seq<char>,
    > {
        None
    }

    open spec fn plan_spec(&self, params: Seq<(Seq<char>, ParamValueView)>) -> PlanView {
        match text_param(params, "query"@) {
            None => PlanView::Fail("Missing 'query' parameter for WebSearchTool"@),
            Some(query) => PlanView::Reply("Search results for '"@ + query + "': [Dummy result from Google Search]"@),
        }
    }

    proof fn validation_follows_schema(&self, params: Seq<(Seq<char>, ParamValueView)>) {
        reveal_strlit("query");
        let schema = self.schema_spec();
        reveal_with_fuel(declared_kind, 2);
        assert(schema.required[0] == "query"@);
        assert(declared_kind(schema.properties, "query"@) == Some(PropertyKind::Text));
        assert(conforms(schema, params) ==> gives(schema, params, schema.required[0]));
    }

    fn name(&self) -> (r: &'static str) {
        "google_web_search"
    }

    fn display_name(&self) -> (r: &'static str) {
        "Google Web Search"
    }

    fn description(&self) -> (r: &'static str) {
        "Performs a web search using Google Search (via the Gemini API) and returns the results."
    }

    fn parameter_schema(&self) -> (r: ParameterSchema) {
        let mut schema = ParameterSchema::new();
        schema.declare(
            "query",
            PropertyKind::Text,
            "The search query to find information on the web.",
            true,
        );
        schema
    }

    fn validate_tool_params(&self, params: &ToolParams) -> (r: bool) {
        params.get_str("query").is_some()
    }

    fn get_description(&self, params: &ToolParams) -> (r: String) {
        let mut out = String::from_str("Search the web for: ");
        out.append(params.get_str_or("query", "unknown query"));
        out
    }

    fn should_confirm_execute(&self, params: &ToolParams) -> (r: Option<ConfirmationDetails>) {
        None
    }

    fn plan(&self, params: &ToolParams) -> (r: ToolPlan) {
        let query = match params.get_str("query") {
            Some(t) => t,
            None => {
                return ToolPlan::Fail(String::from_str("Missing 'query' parameter for WebSearchTool"));
            },
        };
        let mut out = String::from_str("Search results for '");
        out.append(query);
        out.append("': [Dummy result from Google Search]");
        ToolPlan::Reply(out)
    }
}

/// Acknowledges a fact to remember; nothing is stored. Runs unattended.
#[derive(Clone, Debug, PartialEq, Eq)]
pub struct MemoryTool;

impl BaseTool for MemoryTool {
    open spec fn name_spec(&self) -> Seq<char> {
        "save_memory"@
    }

    open spec fn display_name_spec(&self) -> Seq<char> {
        "Save Memory"@
    }

    open spec fn description_spec(&self) -> Seq<char> {
        "Saves a specific piece of information or fact to your long-term memory."@
    }

    open spec fn schema_spec(&self) -> SchemaView {
        SchemaView {
            properties: Seq::<PropertyView>::empty().push(
                text_property("fact"@, "The specific fact or piece of information to remember."@),
            ),
            required: Seq::<Seq<char>>::empty().push("fact"@),
        }
    }

    open spec fn accepts(&self, params: Seq<(Seq<char>, ParamValueView)>) -> bool {
        text_param(params, "fact"@) is Some
    }

    open spec fn summary(&self, params: Seq<(Seq<char>, ParamValueView)>) -> Seq<char> {
        "Save to memory: "@ + text_or(params, "fact"@, "unknown fact"@)
    }

    open spec fn confirmation(&self, params: Seq<(Seq<char>, ParamValueView)>) -> Option<
        Seq<char>,
    > {
        None
    }

    open spec fn plan_spec(&self, params: Seq<(Seq<char>, ParamValueView)>) -> PlanView {
        match text_param(params, "fact"@) {
            None => PlanView::Fail("Missing 'fact' parameter for MemoryTool"@),
            Some(fact) => PlanView::Reply("Fact saved to memory: '"@ + fact + "'."@),
        }
    }

    proof fn validation_follows_schema(&self, params: Seq<(Seq<char>, ParamValueView)>) {
        reveal_strlit("fact");
        let schema = self.schema_spec();
        reveal_with_fuel(declared_kind, 2);
        assert(schema.required[0] == "fact"@);
        assert(declared_kind(schema.properties, "fact"@) == Some(PropertyKind::Text));
        assert(conforms(schema, params) ==> gives(schema, params, schema.required[0]));
    }

    fn name(&self) -> (r: &'static str) {
        "save_memory"
    }

    fn display_name(&self) -> (r: &'static str) {
        "Save Memory"
    }

    fn description(&self) -> (r: &'static str) {
        "Saves a specific piece of information or fact to your long-term memory."
    }

    fn parameter_schema(&self) -> (r: ParameterSchema) {
        let mut schema = ParameterSchema::new();
        schema.declare(
            "fact",
            PropertyKind::Text,
            "The specific fact or piece of information to remember.",
            true,
        );
        schema
    }

    fn validate_tool_params(&self, params: &ToolParams) -> (r: bool) {
        params.get_str("fact").is_some()
    }

    fn get_description(&self, params: &ToolParams) -> (r: String) {
        let mut out = String::from_str("Save to memory: ");
        out.append(params.get_str_or("fact", "unknown fact"));
        out
    }

    fn should_confirm_execute(&self, params: &ToolParams) -> (r: Option<ConfirmationDetails>) {
        None
    }

    fn plan(&self, params: &ToolParams) -> (r: ToolPlan) {
        let fact = match params.get_str("fact") {
            Some(t) => t,
            None => {
                return ToolPlan::Fail(String::from_str("Missing 'fact' parameter for MemoryTool"));
            },
        };
        let mut out = String::from_str("Fact saved to memory: '");
        out.append(fact);
        out.append("'.");
        ToolPlan::Reply(out)
    }
}

/// Reads the files that a list of paths and glob patterns names. Runs
/// unattended.
#[derive(Clone, Debug, PartialEq, Eq)]
pub struct ReadManyFilesTool;

impl BaseTool for ReadManyFilesTool {
    open spec fn name_spec(&self) -> Seq<char> {
        "read_many_files"@
    }

    open spec fn display_name_spec(&self) -> Seq<char> {
        "Read Many Files"@
    }

    open spec fn description_spec(&self) -> Seq<char> {
        "Reads content from multiple files specified by paths or glob patterns."@
    }

    open spec fn schema_spec(&self) -> SchemaView {
        SchemaView {
            properties: Seq::<PropertyView>::empty().push(
                list_property("paths"@, "An array of glob patterns or paths to files/directories."@),
            ),
            required: Seq::<Seq<char>>::empty().push("paths"@),
        }
    }

    open spec fn accepts(&self, params: Seq<(Seq<char>, ParamValueView)>) -> bool {
        list_param(params, "paths"@) is Some
    }

    open spec fn summary(&self, params: Seq<(Seq<char>, ParamValueView)>) -> Seq<char> {
        "Read content from multiple files: "@ + match list_param(params, "paths"@) {
            Some(items) => joined(present(items), ", "@),
            None => "unknown paths"@,
        }
    }

    open spec fn confirmation(&self, params: Seq<(Seq<char>, ParamValueView)>) -> Option<
        Seq<char>,
    > {
        None
    }

    open spec fn plan_spec(&self, params: Seq<(Seq<char>, ParamValueView)>) -> PlanView {
        match list_param(params, "paths"@) {
            None => PlanView::Fail("Missing 'paths' parameter for ReadManyFilesTool"@),
            Some(paths) => PlanView::ReadMany { paths },
        }
    }

    proof fn validation_follows_schema(&self, params: Seq<(Seq<char>, ParamValueView)>) {
        reveal_strlit("paths");
        let schema = self.schema_spec();
        reveal_with_fuel(declared_kind, 2);
        assert(schema.required[0] == "paths"@);
        assert(declared_kind(schema.properties, "paths"@) == Some(PropertyKind::TextList));
        assert(conforms(schema, params) ==> gives(schema, params, schema.required[0]));
    }

    fn name(&self) -> (r: &'static str) {
        "read_many_files"
    }

    fn display_name(&self) -> (r: &'static str) {
        "Read Many Files"
    }

    fn description(&self) -> (r: &'static str) {
        "Reads content from multiple files specified by paths or glob patterns."
    }

    fn parameter_schema(&self) -> (r: ParameterSchema) {
        let mut schema = ParameterSchema::new();
        schema.declare(
            "paths",
            PropertyKind::TextList,
            "An array of glob patterns or paths to files/directories.",
            true,
        );
        schema
    }

    fn validate_tool_params(&self, params: &ToolParams) -> (r: bool) {
        params.get_list("paths").is_some()
    }

    fn get_description(&self, params: &ToolParams) -> (r: String) {
        let mut out = String::from_str("Read content from multiple files: ");
        match params.get_list("paths") {
            Some(items) => {
                let names = present_items(items);
                let list = join(&names, ", ");
                out.append(list.as_str());
            },
            None => {
                out.append("unknown paths");
            },
        }
        out
    }

    fn should_confirm_execute(&self, params: &ToolParams) -> (r: Option<ConfirmationDetails>) {
        None
    }

    fn plan(&self, params: &ToolParams) -> (r: ToolPlan) {
        match params.get_list("paths") {
            Some(items) => ToolPlan::ReadMany { paths: crate::params::clone_items(items) },
            None => ToolPlan::Fail(String::from_str("Missing 'paths' parameter for ReadManyFilesTool")),
        }
    }

}

/// Any one of the built-in tools.
#[derive(Clone, Debug, PartialEq, Eq)]
pub enum Tool {
    ReadFile(ReadFileTool),
    WriteFile(WriteFileTool),
    Edit(EditTool),
    ListDirectory(LSTool),
    SearchFileContent(GrepTool),
    Glob(GlobTool),
    RunShellCommand(ShellTool),
    WebFetch(WebFetchTool),
    GoogleWebSearch(WebSearchTool),
    SaveMemory(MemoryTool),
    ReadManyFiles(ReadManyFilesTool),
}

impl BaseTool for Tool {
    open spec fn name_spec(&self) -> Seq<char> {
        match self {
            Tool::ReadFile(t) => t.name_spec(),
            Tool::WriteFile(t) => t.name_spec(),
            Tool::Edit(t) => t.name_spec(),
            Tool::ListDirectory(t) => t.name_spec(),
            Tool::SearchFileContent(t) => t.name_spec(),
            Tool::Glob(t) => t.name_spec(),
            Tool::RunShellCommand(t) => t.name_spec(),
            Tool::WebFetch(t) => t.name_spec(),
            Tool::GoogleWebSearch(t) => t.name_spec(),
            Tool::SaveMemory(t) => t.name_spec(),
            Tool::ReadManyFiles(t) => t.name_spec(),
        }
    }

    open spec fn display_name_spec(&self) -> Seq<char> {
        match self {
            Tool::ReadFile(t) => t.display_name_spec(),
            Tool::WriteFile(t) => t.display_name_spec(),
            Tool::Edit(t) => t.display_name_spec(),
            Tool::ListDirectory(t) => t.display_name_spec(),
            Tool::SearchFileContent(t) => t.display_name_spec(),
            Tool::Glob(t) => t.display_name_spec(),
            Tool::RunShellCommand(t) => t.display_name_spec(),
            Tool::WebFetch(t) => t.display_name_spec(),
            Tool::GoogleWebSearch(t) => t.display_name_spec(),
            Tool::SaveMemory(t) => t.display_name_spec(),
            Tool::ReadManyFiles(t) => t.display_name_spec(),
        }
    }

    open spec fn description_spec(&self) -> Seq<char> {
        match self {
            Tool::ReadFile(t) => t.description_spec(),
            Tool::WriteFile(t) => t.description_spec(),
            Tool::Edit(t) => t.description_spec(),
            Tool::ListDirectory(t) => t.description_spec(),
            Tool::SearchFileContent(t) => t.description_spec(),
            Tool::Glob(t) => t.description_spec(),
            Tool::RunShellCommand(t) => t.description_spec(),
            Tool::WebFetch(t) => t.description_spec(),
            Tool::GoogleWebSearch(t) => t.description_spec(),
            Tool::SaveMemory(t) => t.description_spec(),
            Tool::ReadManyFiles(t) => t.description_spec(),
        }
    }

    open spec fn schema_spec(&self) -> SchemaView {
        match self {
            Tool::ReadFile(t) => t.schema_spec(),
            Tool::WriteFile(t) => t.schema_spec(),
            Tool::Edit(t) => t.schema_spec(),
            Tool::ListDirectory(t) => t.schema_spec(),
            Tool::SearchFileContent(t) => t.schema_spec(),
            Tool::Glob(t) => t.schema_spec(),
            Tool::RunShellCommand(t) => t.schema_spec(),
            Tool::WebFetch(t) => t.schema_spec(),
            Tool::GoogleWebSearch(t) => t.schema_spec(),
            Tool::SaveMemory(t) => t.schema_spec(),
            Tool::ReadManyFiles(t) => t.schema_spec(),
        }
    }

    open spec fn accepts(&self, params: Seq<(Seq<char>, ParamValueView)>) -> bool {
        match self {
            Tool::ReadFile(t) => t.accepts(params),
            Tool::WriteFile(t) => t.accepts(params),
            Tool::Edit(t) => t.accepts(params),
            Tool::ListDirectory(t) => t.accepts(params),
            Tool::SearchFileContent(t) => t.accepts(params),
            Tool::Glob(t) => t.accepts(params),
            Tool::RunShellCommand(t) => t.accepts(params),
            Tool::WebFetch(t) => t.accepts(params),
            Tool::GoogleWebSearch(t) => t.accepts(params),
            Tool::SaveMemory(t) => t.accepts(params),
            Tool::ReadManyFiles(t) => t.accepts(params),
        }
    }

    open spec fn summary(&self, params: Seq<(Seq<char>, ParamValueView)>) -> Seq<char> {
        match self {
            Tool::ReadFile(t) => t.summary(params),
            Tool::WriteFile(t) => t.summary(params),
            Tool::Edit(t) => t.summary(params),
            Tool::ListDirectory(t) => t.summary(params),
            Tool::SearchFileContent(t) => t.summary(params),
            Tool::Glob(t) => t.summary(params),
            Tool::RunShellCommand(t) => t.summary(params),
            Tool::WebFetch(t) => t.summary(params),
            Tool::GoogleWebSearch(t) => t.summary(params),
            Tool::SaveMemory(t) => t.summary(params),
            Tool::ReadManyFiles(t) => t.summary(params),
        }
    }

    open spec fn confirmation(&self, params: Seq<(Seq<char>, ParamValueView)>) -> Option<Seq<char>> {
        match self {
            Tool::ReadFile(t) => t.confirmation(params),
            Tool::WriteFile(t) => t.confirmation(params),
            Tool::Edit(t) => t.confirmation(params),
            Tool::ListDirectory(t) => t.confirmation(params),
            Tool::SearchFileContent(t) => t.confirmation(params),
            Tool::Glob(t) => t.confirmation(params),
            Tool::RunShellCommand(t) => t.confirmation(params),
            Tool::WebFetch(t) => t.confirmation(params),
            Tool::GoogleWebSearch(t) => t.confirmation(params),
            Tool::SaveMemory(t) => t.confirmation(params),
            Tool::ReadManyFiles(t) => t.confirmation(params),
        }
    }

    open spec fn plan_spec(&self, params: Seq<(Seq<char>, ParamValueView)>) -> PlanView {
        match self {
            Tool::ReadFile(t) => t.plan_spec(params),
            Tool::WriteFile(t) => t.plan_spec(params),
            Tool::Edit(t) => t.plan_spec(params),
            Tool::ListDirectory(t) => t.plan_spec(params),
            Tool::SearchFileContent(t) => t.plan_spec(params),
            Tool::Glob(t) => t.plan_spec(params),
            Tool::RunShellCommand(t) => t.plan_spec(params),
            Tool::WebFetch(t) => t.plan_spec(params),
            Tool::GoogleWebSearch(t) => t.plan_spec(params),
            Tool::SaveMemory(t) => t.plan_spec(params),
            Tool::ReadManyFiles(t) => t.plan_spec(params),
        }
    }

    proof fn validation_follows_schema(&self, params: Seq<(Seq<char>, ParamValueView)>) {
        match self {
            Tool::ReadFile(t) => t.validation_follows_schema(params),
            Tool::WriteFile(t) => t.validation_follows_schema(params),
            Tool::Edit(t) => t.validation_follows_schema(params),
            Tool::ListDirectory(t) => t.validation_follows_schema(params),
            Tool::SearchFileContent(t) => t.validation_follows_schema(params),
            Tool::Glob(t) => t.validation_follows_schema(params),
            Tool::RunShellCommand(t) => t.validation_follows_schema(params),
            Tool::WebFetch(t) => t.validation_follows_schema(params),
            Tool::GoogleWebSearch(t) => t.validation_follows_schema(params),
            Tool::SaveMemory(t) => t.validation_follows_schema(params),
            Tool::ReadManyFiles(t) => t.validation_follows_schema(params),
        }
    }

    fn name(&self) -> (r: &'static str) {
        match self {
            Tool::ReadFile(t) => t.name(),
            Tool::WriteFile(t) => t.name(),
            Tool::Edit(t) => t.name(),
            Tool::ListDirectory(t) => t.name(),
            Tool::SearchFileContent(t) => t.name(),
            Tool::Glob(t) => t.name(),
            Tool::RunShellCommand(t) => t.name(),
            Tool::WebFetch(t) => t.name(),
            Tool::GoogleWebSearch(t) => t.name(),
            Tool::SaveMemory(t) => t.name(),
            Tool::ReadManyFiles(t) => t.name(),
        }
    }

    fn display_name(&self) -> (r: &'static str) {
        match self {
            Tool::ReadFile(t) => t.display_name(),
            Tool::WriteFile(t) => t.display_name(),
            Tool::Edit(t) => t.display_name(),
            Tool::ListDirectory(t) => t.display_name(),
            Tool::SearchFileContent(t) => t.display_name(),
            Tool::Glob(t) => t.display_name(),
            Tool::RunShellCommand(t) => t.display_name(),
            Tool::WebFetch(t) => t.display_name(),
            Tool::GoogleWebSearch(t) => t.display_name(),
            Tool::SaveMemory(t) => t.display_name(),
            Tool::ReadManyFiles(t) => t.display_name(),
        }
    }

    fn description(&self) -> (r: &'static str) {
        match self {
            Tool::ReadFile(t) => t.description(),
            Tool::WriteFile(t) => t.description(),
            Tool::Edit(t) => t.description(),
            Tool::ListDirectory(t) => t.description(),
            Tool::SearchFileContent(t) => t.description(),
            Tool::Glob(t) => t.description(),
            Tool::RunShellCommand(t) => t.description(),
            Tool::WebFetch(t) => t.description(),
            Tool::GoogleWebSearch(t) => t.description(),
            Tool::SaveMemory(t) => t.description(),
            Tool::ReadManyFiles(t) => t.description(),
        }
    }

    fn parameter_schema(&self) -> (r: ParameterSchema) {
        match self {
            Tool::ReadFile(t) => t.parameter_schema(),
            Tool::WriteFile(t) => t.parameter_schema(),
            Tool::Edit(t) => t.parameter_schema(),
            Tool::ListDirectory(t) => t.parameter_schema(),
            Tool::SearchFileContent(t) => t.parameter_schema(),
            Tool::Glob(t) => t.parameter_schema(),
            Tool::RunShellCommand(t) => t.parameter_schema(),
            Tool::WebFetch(t) => t.parameter_schema(),
            Tool::GoogleWebSearch(t) => t.parameter_schema(),
            Tool::SaveMemory(t) => t.parameter_schema(),
            Tool::ReadManyFiles(t) => t.parameter_schema(),
        }
    }

    fn validate_tool_params(&self, params: &ToolParams) -> (r: bool) {
        match self {
            Tool::ReadFile(t) => t.validate_tool_params(params),
            Tool::WriteFile(t) => t.validate_tool_params(params),
            Tool::Edit(t) => t.validate_tool_params(params),
            Tool::ListDirectory(t) => t.validate_tool_params(params),
            Tool::SearchFileContent(t) => t.validate_tool_params(params),
            Tool::Glob(t) => t.validate_tool_params(params),
            Tool::RunShellCommand(t) => t.validate_tool_params(params),
            Tool::WebFetch(t) => t.validate_tool_params(params),
            Tool::GoogleWebSearch(t) => t.validate_tool_params(params),
            Tool::SaveMemory(t) => t.validate_tool_params(params),
            Tool::ReadManyFiles(t) => t.validate_tool_params(params),
        }
    }

    fn get_description(&self, params: &ToolParams) -> (r: String) {
        match self {
            Tool::ReadFile(t) => t.get_description(params),
            Tool::WriteFile(t) => t.get_description(params),
            Tool::Edit(t) => t.get_description(params),
            Tool::ListDirectory(t) => t.get_description(params),
            Tool::SearchFileContent(t) => t.get_description(params),
            Tool::Glob(t) => t.get_description(params),
            Tool::RunShellCommand(t) => t.get_description(params),
            Tool::WebFetch(t) => t.get_description(params),
            Tool::GoogleWebSearch(t) => t.get_description(params),
            Tool::SaveMemory(t) => t.get_description(params),
            Tool::ReadManyFiles(t) => t.get_description(params),
        }
    }

    fn should_confirm_execute(&self, params: &ToolParams) -> (r: Option<ConfirmationDetails>) {
        match self {
            Tool::ReadFile(t) => t.should_confirm_execute(params),
            Tool::WriteFile(t) => t.should_confirm_execute(params),
            Tool::Edit(t) => t.should_confirm_execute(params),
            Tool::ListDirectory(t) => t.should_confirm_execute(params),
            Tool::SearchFileContent(t) => t.should_confirm_execute(params),
            Tool::Glob(t) => t.should_confirm_execute(params),
            Tool::RunShellCommand(t) => t.should_confirm_execute(params),
            Tool::WebFetch(t) => t.should_confirm_execute(params),
            Tool::GoogleWebSearch(t) => t.should_confirm_execute(params),
            Tool::SaveMemory(t) => t.should_confirm_execute(params),
            Tool::ReadManyFiles(t) => t.should_confirm_execute(params),
        }
    }

    fn plan(&self, params: &ToolParams) -> (r: ToolPlan) {
        match self {
            Tool::ReadFile(t) => t.plan(params),
            Tool::WriteFile(t) => t.plan(params),
            Tool::Edit(t) => t.plan(params),
            Tool::ListDirectory(t) => t.plan(params),
            Tool::SearchFileContent(t) => t.plan(params),
            Tool::Glob(t) => t.plan(params),
            Tool::RunShellCommand(t) => t.plan(params),
            Tool::WebFetch(t) => t.plan(params),
            Tool::GoogleWebSearch(t) => t.plan(params),
            Tool::SaveMemory(t) => t.plan(params),
            Tool::ReadManyFiles(t) => t.plan(params),
        }
    }

}

/// A registry that holds every built-in tool, in the order of the enum.
pub fn builtin_registry() -> (r: crate::registry::ToolRegistry<Tool>)
    ensures
        r.wf(),
        r.tools().len() == 11,
        r.has("read_file"@),
        r.has("write_file"@),
        r.has("edit_file"@),
        r.has("list_directory"@),
        r.has("search_file_content"@),
        r.has("glob"@),
        r.has("run_shell_command"@),
        r.has("web_fetch"@),
        r.has("google_web_search"@),
        r.has("save_memory"@),
        r.has("read_many_files"@),
{
    let mut r = crate::registry::ToolRegistry::new();
    proof {
        reveal_strlit("read_file");
        reveal_strlit("write_file");
        reveal_strlit("edit_file");
        reveal_strlit("list_directory");
        reveal_strlit("search_file_content");
        reveal_strlit("glob");
        reveal_strlit("run_shell_command");
        reveal_strlit("web_fetch");
        reveal_strlit("google_web_search");
        reveal_strlit("save_memory");
        reveal_strlit("read_many_files");
    }
    proof {
        assert("read_file"@.len() != "write_file"@.len());
        assert("read_file"@[0] != "edit_file"@[0]);
        assert("read_file"@.len() != "list_directory"@.len());
        assert("read_file"@.len() != "search_file_content"@.len());
        assert("read_file"@.len() != "glob"@.len());
        assert("read_file"@.len() != "run_shell_command"@.len());
        assert("read_file"@[0] != "web_fetch"@[0]);
        assert("read_file"@.len() != "google_web_search"@.len());
        assert("read_file"@.len() != "save_memory"@.len());
        assert("read_file"@.len() != "read_many_files"@.len());
        assert("write_file"@.len() != "edit_file"@.len());
        assert("write_file"@.len() != "list_directory"@.len());
        assert("write_file"@.len() != "search_file_content"@.len());
        assert("write_file"@.len() != "glob"@.len());
        assert("write_file"@.len() != "run_shell_command"@.len());
        assert("write_file"@.len() != "web_fetch"@.len());
        assert("write_file"@.len() != "google_web_search"@.len());
        assert("write_file"@.len() != "save_memory"@.len());
        assert("write_file"@.len() != "read_many_files"@.len());
        assert("edit_file"@.len() != "list_directory"@.len());
        assert("edit_file"@.len() != "search_file_content"@.len());
        assert("edit_file"@.len() != "glob"@.len());
        assert("edit_file"@.len() != "run_shell_command"@.len());
        assert("edit_file"@[0] != "web_fetch"@[0]);
        assert("edit_file"@.len() != "google_web_search"@.len());
        assert("edit_file"@.len() != "save_memory"@.len());
        assert("edit_file"@.len() != "read_many_files"@.len());
        assert("list_directory"@.len() != "search_file_content"@.len());
        assert("list_directory"@.len() != "glob"@.len());
        assert("list_directory"@.len() != "run_shell_command"@.len());
        assert("list_directory"@.len() != "web_fetch"@.len());
        assert("list_directory"@.len() != "google_web_search"@.len());
        assert("list_directory"@.len() != "save_memory"@.len());
        assert("list_directory"@.len() != "read_many_files"@.len());
        assert("search_file_content"@.len() != "glob"@.len());
        assert("search_file_content"@.len() != "run_shell_command"@.len());
        assert("search_file_content"@.len() != "web_fetch"@.len());
        assert("search_file_content"@.len() != "google_web_search"@.len());
        assert("search_file_content"@.len() != "save_memory"@.len());
        assert("search_file_content"@.len() != "read_many_files"@.len());
        assert("glob"@.len() != "run_shell_command"@.len());
        assert("glob"@.len() != "web_fetch"@.len());
        assert("glob"@.len() != "google_web_search"@.len());
        assert("glob"@.len() != "save_memory"@.len());
        assert("glob"@.len() != "read_many_files"@.len());
        assert("run_shell_command"@.len() != "web_fetch"@.len());
        assert("run_shell_command"@[0] != "google_web_search"@[0]);
        assert("run_shell_command"@.len() != "save_memory"@.len());
        assert("run_shell_command"@.len() != "read_many_files"@.len());
        assert("web_fetch"@.len() != "google_web_search"@.len());
        assert("web_fetch"@.len() != "save_memory"@.len());
        assert("web_fetch"@.len() != "read_many_files"@.len());
        assert("google_web_search"@.len() != "save_memory"@.len());
        assert("google_web_search"@.len() != "read_many_files"@.len());
        assert("save_memory"@.len() != "read_many_files"@.len());
    }
    assert(!r.has("write_file"@));
    assert(!r.has("edit_file"@));
    assert(!r.has("list_directory"@));
    assert(!r.has("search_file_content"@));
    assert(!r.has("glob"@));
    assert(!r.has("run_shell_command"@));
    assert(!r.has("web_fetch"@));
    assert(!r.has("google_web_search"@));
    assert(!r.has("save_memory"@));
    assert(!r.has("read_many_files"@));
    r.register(Tool::ReadFile(ReadFileTool));
    assert(!r.has("edit_file"@));
    assert(!r.has("list_directory"@));
    assert(!r.has("search_file_content"@));
    assert(!r.has("glob"@));
    assert(!r.has("run_shell_command"@));
    assert(!r.has("web_fetch"@));
    assert(!r.has("google_web_search"@));
    assert(!r.has("save_memory"@));
    assert(!r.has("read_many_files"@));
    r.register(Tool::WriteFile(WriteFileTool));
    assert(!r.has("list_directory"@));
    assert(!r.has("search_file_content"@));
    assert(!r.has("glob"@));
    assert(!r.has("run_shell_command"@));
    assert(!r.has("web_fetch"@));
    assert(!r.has("google_web_search"@));
    assert(!r.has("save_memory"@));
    assert(!r.has("read_many_files"@));
    r.register(Tool::Edit(EditTool));
    assert(!r.has("search_file_content"@));
    assert(!r.has("glob"@));
    assert(!r.has("run_shell_command"@));
    assert(!r.has("web_fetch"@));
    assert(!r.has("google_web_search"@));
    assert(!r.has("save_memory"@));
    assert(!r.has("read_many_files"@));
    r.register(Tool::ListDirectory(LSTool));
    assert(!r.has("glob"@));
    assert(!r.has("run_shell_command"@));
    assert(!r.has("web_fetch"@));
    assert(!r.has("google_web_search"@));
    assert(!r.has("save_memory"@));
    assert(!r.has("read_many_files"@));
    r.register(Tool::SearchFileContent(GrepTool));
    assert(!r.has("run_shell_command"@));
    assert(!r.has("web_fetch"@));
    assert(!r.has("google_web_search"@));
    assert(!r.has("save_memory"@));
    assert(!r.has("read_many_files"@));
    r.register(Tool::Glob(GlobTool));
    assert(!r.has("web_fetch"@));
    assert(!r.has("google_web_search"@));
    assert(!r.has("save_memory"@));
    assert(!r.has("read_many_files"@));
    r.register(Tool::RunShellCommand(ShellTool));
    assert(!r.has("google_web_search"@));
    assert(!r.has("save_memory"@));
    assert(!r.has("read_many_files"@));
    r.register(Tool::WebFetch(WebFetchTool));
    assert(!r.has("save_memory"@));
    assert(!r.has("read_many_files"@));
    r.register(Tool::GoogleWebSearch(WebSearchTool));
    assert(!r.has("read_many_files"@));
    r.register(Tool::SaveMemory(MemoryTool));
    r.register(Tool::ReadManyFiles(ReadManyFilesTool));
    r
}

} // verus!
