//! Function tools, and the `tool_choice` that varies availability without disturbing them.
//!
//! The tool array is the first bytes of the prefix, so removing a tool costs the whole
//! prefix. The remedy the API gives is [`ToolChoice::Allowed`]: the array stays whole, and a
//! separate field says which of its tools may actually be called. That is why
//! [`Context`](crate::context::Context) freezes the array and [`AllowedTools`] can only be
//! built from it.
use vstd::prelude::*;

use crate::json;
use crate::json::{no_fields, put, Json, JsonView};
use crate::text;
use crate::views;

verus! {

/// A function the model may call.
///
/// A tool's bytes are the start of the prefix, so this type is built once and read forever.
#[derive(Debug, PartialEq)]
pub struct FunctionTool {
    /// The name the model calls, and the name `AllowedTools` refers to.
    pub name: String,
    /// A JSON Schema describing the arguments.
    pub parameters: Json,
    description: Option<String>,
    strict: Option<bool>,
}

/// What a [`FunctionTool`] holds.
#[verifier::ext_equal]
pub struct FunctionToolView {
    pub name: Seq<char>,
    pub parameters: JsonView,
    pub description: Option<Seq<char>>,
    pub strict: Option<bool>,
}

impl View for FunctionTool {
    type V = FunctionToolView;

    closed spec fn view(&self) -> FunctionToolView {
        FunctionToolView {
            name: self.name@,
            parameters: self.parameters@,
            description: views::option_view(self.description),
            strict: self.strict,
        }
    }
}

/// A field that is sent only where it is present.
pub open spec fn optional_field(
    fields: Seq<(Seq<char>, JsonView)>,
    key: Seq<char>,
    value: Option<JsonView>,
) -> Seq<(Seq<char>, JsonView)> {
    match value {
        Some(value) => fields.push((key, value)),
        None => fields,
    }
}

/// An optional text as a JSON value.
pub open spec fn text_json(text: Option<Seq<char>>) -> Option<JsonView> {
    match text {
        Some(text) => Some(JsonView::Text(text)),
        None => None,
    }
}

/// An optional truth value as a JSON value.
pub open spec fn bool_json(value: Option<bool>) -> Option<JsonView> {
    match value {
        Some(value) => Some(JsonView::Bool(value)),
        None => None,
    }
}

impl FunctionToolView {
    /// The tool as it is sent.
    pub open spec fn wire(self) -> JsonView {
        let always = seq![
            ("type"@, JsonView::Text("function"@)),
            ("name"@, JsonView::Text(self.name)),
            ("parameters"@, self.parameters),
        ];
        let described = optional_field(always, "description"@, text_json(self.description));
        JsonView::Object(optional_field(described, "strict"@, bool_json(self.strict)))
    }
}

impl FunctionTool {
    /// A tool whose argument validation is left to Responses.
    ///
    /// `strict` starts absent, because absence is its own documented behavior rather than a
    /// default value.
    pub fn new(name: &str, parameters: Json) -> (tool: Self)
        ensures
            tool@ == (FunctionToolView {
                name: name@,
                parameters: parameters@,
                description: None,
                strict: None,
            }),
    {
        Self { name: name.to_owned(), parameters, description: None, strict: None }
    }

    /// Add the description the model reads when deciding whether to call this.
    pub fn with_description(self, description: &str) -> (tool: Self)
        ensures
            tool@ == (FunctionToolView { description: Some(description@), ..self@ }),
    {
        Self { description: Some(description.to_owned()), ..self }
    }

    /// Insist on strict validation, so arguments that do not match the schema never reach you.
    pub fn with_strict_arguments(self) -> (tool: Self)
        ensures
            tool@ == (FunctionToolView { strict: Some(true), ..self@ }),
    {
        Self { strict: Some(true), ..self }
    }

    /// Turn strict validation off, for a schema that uses JSON Schema features strict mode does
    /// not support.
    pub fn with_loose_arguments(self) -> (tool: Self)
        ensures
            tool@ == (FunctionToolView { strict: Some(false), ..self@ }),
    {
        Self { strict: Some(false), ..self }
    }

    /// Send no `strict`, letting Responses use strict validation where the schema allows it and
    /// fall back where it does not.
    pub fn with_inferred_argument_strictness(self) -> (tool: Self)
        ensures
            tool@ == (FunctionToolView { strict: None, ..self@ }),
    {
        Self { strict: None, ..self }
    }

    /// Whether the tool goes by a name.
    pub(crate) fn is_named(&self, name: &str) -> (r: bool)
        ensures
            r == (self@.name == name@),
    {
        text::same(self.name.as_str(), name)
    }

    /// The tool as it is sent.
    pub fn to_json(&self) -> (json: Json)
        ensures
            json@ == self@.wire(),
    {
        let mut fields = no_fields();
        put(&mut fields, "type", Json::text("function"));
        put(&mut fields, "name", Json::text(self.name.as_str()));
        put(&mut fields, "parameters", self.parameters.clone());
        assert(json::fields_view(fields@) =~= seq![
            ("type"@, JsonView::Text("function"@)),
            ("name"@, JsonView::Text(self@.name)),
            ("parameters"@, self@.parameters),
        ]);
        if let Some(description) = &self.description {
            put(&mut fields, "description", Json::text(description.as_str()));
        }
        if let Some(strict) = &self.strict {
            put(&mut fields, "strict", Json::Bool(*strict));
        }
        Json::object(fields)
    }
}

/// Whether the model may answer directly or must call something, within a restricted set.
#[derive(Debug, Clone, Copy, PartialEq, Eq, PartialOrd, Ord, Hash, Structural)]
pub enum AllowedToolsMode {
    /// Pick from the allowed tools, or answer in words.
    Auto,
    /// Call one or more of the allowed tools.
    Required,
}

impl AllowedToolsMode {
    /// The string that names this value on the wire.
    pub open spec fn wire(self) -> Seq<char> {
        match self {
            AllowedToolsMode::Auto => "auto"@,
            AllowedToolsMode::Required => "required"@,
        }
    }

    /// The exact string this variant serializes to.
    pub fn as_str(self) -> (s: &'static str)
        ensures
            s@ == self.wire(),
    {
        match self {
            AllowedToolsMode::Auto => "auto",
            AllowedToolsMode::Required => "required",
        }
    }

    /// No two values share a string.
    pub proof fn wire_is_one_to_one(a: AllowedToolsMode, b: AllowedToolsMode)
        requires
            a.wire() == b.wire(),
        ensures
            a == b,
    {
        reveal_strlit("auto");
        reveal_strlit("required");
        assert("auto"@.len() == 4);
        assert("required"@.len() == 8);
    }
}

/// A restriction to a subset of the tools already in the array.
///
/// Built only by [`Context::allow_tools`](crate::context::Context::allow_tools), which checks
/// each name against the frozen array, so a name that is not there cannot reach the wire.
#[derive(Debug, Clone, PartialEq, Eq)]
pub struct AllowedTools {
    pub(crate) mode: AllowedToolsMode,
    pub(crate) names: Vec<String>,
}

/// What an [`AllowedTools`] holds.
#[verifier::ext_equal]
pub struct AllowedToolsView {
    pub mode: AllowedToolsMode,
    pub names: Seq<Seq<char>>,
}

impl View for AllowedTools {
    type V = AllowedToolsView;

    closed spec fn view(&self) -> AllowedToolsView {
        AllowedToolsView { mode: self.mode, names: views::list_view(self.names@) }
    }
}

impl AllowedTools {
    pub(crate) fn new(mode: AllowedToolsMode, names: Vec<String>) -> (allowed: Self)
        ensures
            allowed@ == (AllowedToolsView { mode, names: views::list_view(names@) }),
    {
        Self { mode, names }
    }

    /// Whether the model may also answer in words, or must call a tool.
    pub fn mode(&self) -> (mode: AllowedToolsMode)
        ensures
            mode == self@.mode,
    {
        self.mode
    }

    /// The permitted tool names, in the order given.
    pub fn names(&self) -> (names: &[String])
        ensures
            views::list_view(names@) == self@.names,
    {
        self.names.as_slice()
    }
}

/// Why a set of allowed tools was refused.
#[derive(Debug, Clone, PartialEq, Eq)]
pub enum AllowedToolsError {
    /// A name that is not in the context's tool array.
    UnknownTool(String),
    /// An empty allowed set. The API refuses it, and the thing it appears to mean already has
    /// a name: [`ToolChoice::NoCalls`].
    EmptyAllowedSet,
    /// A name given twice. Duplicates change the serialized bytes without changing the
    /// meaning, so they are refused rather than silently deduped.
    DuplicateTool(String),
}

/// What an [`AllowedToolsError`] holds.
#[verifier::ext_equal]
pub enum AllowedToolsErrorView {
    UnknownTool(Seq<char>),
    EmptyAllowedSet,
    DuplicateTool(Seq<char>),
}

impl View for AllowedToolsError {
    type V = AllowedToolsErrorView;

    open spec fn view(&self) -> AllowedToolsErrorView {
        match self {
            AllowedToolsError::UnknownTool(name) => AllowedToolsErrorView::UnknownTool(name@),
            AllowedToolsError::EmptyAllowedSet => AllowedToolsErrorView::EmptyAllowedSet,
            AllowedToolsError::DuplicateTool(name) => AllowedToolsErrorView::DuplicateTool(name@),
        }
    }
}

impl AllowedToolsErrorView {
    /// The error in words.
    pub open spec fn words(self) -> Seq<char> {
        match self {
            AllowedToolsErrorView::UnknownTool(name) => "tool "@ + text::quoted(name)
                + " is not in this context's tool array"@,
            AllowedToolsErrorView::EmptyAllowedSet => {
                "an empty allowed set is refused; use ToolChoice::None to forbid every call"@
            },
            AllowedToolsErrorView::DuplicateTool(name) => "tool "@ + text::quoted(name)
                + " was allowed twice"@,
        }
    }
}

impl AllowedToolsError {
    /// The error in words.
    pub fn message(&self) -> (words: String)
        ensures
            words@ == self@.words(),
    {
        match self {
            AllowedToolsError::UnknownTool(name) => "tool ".to_owned().concat(
                text::quote(name.as_str()).as_str(),
            ).concat(" is not in this context's tool array"),
            AllowedToolsError::EmptyAllowedSet => {
                "an empty allowed set is refused; use ToolChoice::None to forbid every call".to_owned()
            },
            AllowedToolsError::DuplicateTool(name) => "tool ".to_owned().concat(
                text::quote(name.as_str()).as_str(),
            ).concat(" was allowed twice"),
        }
    }
}

/// How the model chooses what to call.
///
/// None of these variants is part of the hashed prefix, so any of them may change from one
/// request to the next at no cache cost.
#[derive(Debug, Clone, PartialEq, Eq)]
pub enum ToolChoice {
    /// The model picks: answer in words, or call any tool in the array.
    Auto,
    /// The model must not call anything. Prefer this over emptying the array when a turn
    /// should be answer-only.
    NoCalls,
    /// The model must call something, chosen from the whole array.
    Required,
    /// The model must call this exact function.
    Function(String),
    /// The model is restricted to a subset of the array.
    Allowed(AllowedTools),
}

/// What a [`ToolChoice`] holds.
#[verifier::ext_equal]
pub enum ToolChoiceView {
    Auto,
    NoCalls,
    Required,
    Function(Seq<char>),
    Allowed(AllowedToolsView),
}

impl View for ToolChoice {
    type V = ToolChoiceView;

    open spec fn view(&self) -> ToolChoiceView {
        match self {
            ToolChoice::Auto => ToolChoiceView::Auto,
            ToolChoice::NoCalls => ToolChoiceView::NoCalls,
            ToolChoice::Required => ToolChoiceView::Required,
            ToolChoice::Function(name) => ToolChoiceView::Function(name@),
            ToolChoice::Allowed(allowed) => ToolChoiceView::Allowed(allowed@),
        }
    }
}

impl Default for ToolChoice {
    /// The API default.
    fn default() -> (choice: Self)
        ensures
            choice is Auto,
    {
        Self::Auto
    }
}

/// A reference to a function by name, as it is sent.
pub open spec fn function_wire(name: Seq<char>) -> JsonView {
    JsonView::Object(
        seq![("type"@, JsonView::Text("function"@)), ("name"@, JsonView::Text(name))],
    )
}

impl ToolChoiceView {
    /// The choice as it is sent. The three simple forms are bare strings.
    pub open spec fn wire(self) -> JsonView {
        match self {
            ToolChoiceView::Auto => JsonView::Text("auto"@),
            ToolChoiceView::NoCalls => JsonView::Text("none"@),
            ToolChoiceView::Required => JsonView::Text("required"@),
            ToolChoiceView::Function(name) => function_wire(name),
            ToolChoiceView::Allowed(allowed) => JsonView::Object(
                seq![
                    ("type"@, JsonView::Text("allowed_tools"@)),
                    ("mode"@, JsonView::Text(allowed.mode.wire())),
                    (
                        "tools"@,
                        JsonView::Array(
                            Seq::new(allowed.names.len(), |i: int| function_wire(allowed.names[i])),
                        ),
                    ),
                ],
            ),
        }
    }
}

fn function_json(name: &str) -> (json: Json)
    ensures
        json@ == function_wire(name@),
{
    let mut fields = no_fields();
    put(&mut fields, "type", Json::text("function"));
    put(&mut fields, "name", Json::text(name));
    assert(json::fields_view(fields@) =~= function_wire(name@)->Object_0);
    Json::object(fields)
}

impl ToolChoice {
    /// The choice as it is sent.
    pub fn to_json(&self) -> (json: Json)
        ensures
            json@ == self@.wire(),
    {
        match self {
            ToolChoice::Auto => Json::text("auto"),
            ToolChoice::NoCalls => Json::text("none"),
            ToolChoice::Required => Json::text("required"),
            ToolChoice::Function(name) => function_json(name.as_str()),
            ToolChoice::Allowed(allowed) => {
                let mut tools: Vec<Json> = Vec::new();
                let mut i: usize = 0;
                while i < allowed.names.len()
                    invariant
                        i <= allowed.names.len(),
                        tools.len() == i,
                        forall|j: int|
                            0 <= j < i ==> (#[trigger] tools@[j])@ == function_wire(
                                allowed.names@[j]@,
                            ),
                    decreases allowed.names.len() - i,
                {
                    tools.push(function_json(allowed.names[i].as_str()));
                    i += 1;
                }
                assert(views::list_view(tools@) =~= Seq::new(
                    allowed@.names.len(),
                    |i: int| function_wire(allowed@.names[i]),
                ));
                let mut fields = no_fields();
                put(&mut fields, "type", Json::text("allowed_tools"));
                put(&mut fields, "mode", Json::text(allowed.mode.as_str()));
                put(&mut fields, "tools", Json::array(tools));
                assert(json::fields_view(fields@) =~= self@.wire()->Object_0);
                Json::object(fields)
            },
        }
    }
}

} // verus!
