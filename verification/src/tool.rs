//! Tool and function-call definitions for chat requests.
//!
//! A [`Tool`] describes a function the model may call; [`ToolChoice`]
//! controls whether and which tool the model calls; [`ServerTool`] names a
//! tool that OpenRouter runs itself.
use vstd::prelude::*;

use crate::decode::{field, req_string, req_string_spec};
use crate::error::OpenRouterError;
use crate::json::{
    clone_opt_value, json_array, json_array_value, json_as_entries, json_entries_of, key_unique,
    insert_pairs, keys_distinct, lemma_lookup_at,
    json_from_option, json_object,
    json_object_value, json_option_value, json_parse, json_parse_of, json_string, json_string_value,
    lookup, opt_str_view, pairs_view, JsonMap, json_str_of,
};

verus! {

/// Function definition within a tool: its name, description and the JSON
/// Schema of its parameters.
#[derive(Debug, Clone)]
pub struct FunctionDefinition {
    /// Name of the function.
    pub name: String,
    /// Description of what the function does.
    pub description: String,
    /// JSON Schema defining the function parameters.
    pub parameters: serde_json::Value,
}

/// Tool definition for function calling. The type is `"function"` unless a
/// builder overrides it.
#[derive(Debug, Clone)]
pub struct Tool {
    /// Type of tool.
    pub tool_type: String,
    /// Function definition.
    pub function: FunctionDefinition,
}

/// One entry in a chat completion `tools` array: a user-defined function tool
/// or a server-side OpenRouter tool.
#[derive(Debug, Clone)]
pub enum ToolDefinition {
    /// A user-defined function tool.
    Function(Tool),
    /// A server-side OpenRouter tool.
    Server(ServerTool),
}

/// Generic OpenRouter server-side tool definition.
#[derive(Debug, Clone)]
pub struct ServerTool {
    /// Server tool type, such as `"openrouter:web_search"`.
    pub tool_type: String,
    /// Optional server tool parameters.
    pub parameters: Option<JsonMap>,
}

/// Builder for [`Tool`]; only the function name is required.
#[derive(Debug, Clone)]
pub struct ToolBuilder {
    tool_type: Option<String>,
    name: Option<String>,
    description: Option<String>,
    parameters: Option<serde_json::Value>,
}

/// Builder for [`FunctionDefinition`]; every field is required.
#[derive(Debug, Clone)]
pub struct FunctionDefinitionBuilder {
    name: Option<String>,
    description: Option<String>,
    parameters: Option<serde_json::Value>,
}

/// Control how the model chooses to use tools.
#[derive(Debug, Clone)]
pub enum ToolChoice {
    /// Simple string choices: "none", "auto", "required".
    String(String),
    /// Force a specific tool to be called.
    Specific(SpecificToolChoice),
}

/// Specific tool choice for forcing a particular tool.
#[derive(Debug, Clone)]
pub struct SpecificToolChoice {
    /// Always `"function"` when built by [`ToolChoice::force_tool`].
    pub tool_type: String,
    /// The function to call.
    pub function: SpecificToolFunction,
}

/// Function specification for specific tool choice.
#[derive(Debug, Clone)]
pub struct SpecificToolFunction {
    /// Name of the function.
    pub name: String,
}

// ---------------------------------------------------------------------------
// JSON layouts.
// ---------------------------------------------------------------------------

/// `{"name": .., "description": .., "parameters": ..}`.
pub open spec fn function_definition_json(f: FunctionDefinition) -> serde_json::Value {
    json_object_value(seq![
        ("name"@, json_string_value(f.name@)),
        ("description"@, json_string_value(f.description@)),
        ("parameters"@, f.parameters),
    ])
}

/// `{"type": .., "function": {..}}`.
pub open spec fn tool_json(t: Tool) -> serde_json::Value {
    json_object_value(seq![
        ("type"@, json_string_value(t.tool_type@)),
        ("function"@, function_definition_json(t.function)),
    ])
}

/// `{"type": ..}` with `"parameters"` only where there are parameters.
pub open spec fn server_tool_json(t: ServerTool) -> serde_json::Value {
    match t.parameters {
        Some(p) => json_object_value(seq![
            ("type"@, json_string_value(t.tool_type@)),
            ("parameters"@, json_object_value(p.pairs())),
        ]),
        None => json_object_value(seq![("type"@, json_string_value(t.tool_type@))]),
    }
}

/// An untagged tool entry is written as the tool it holds.
pub open spec fn tool_definition_json(d: ToolDefinition) -> serde_json::Value {
    match d {
        ToolDefinition::Function(t) => tool_json(t),
        ToolDefinition::Server(s) => server_tool_json(s),
    }
}

/// A string choice is written as the string; a specific choice as
/// `{"type": .., "function": {"name": ..}}`.
pub open spec fn tool_choice_json(c: ToolChoice) -> serde_json::Value {
    match c {
        ToolChoice::String(s) => json_string_value(s@),
        ToolChoice::Specific(sc) => json_object_value(seq![
            ("type"@, json_string_value(sc.tool_type@)),
            ("function"@, json_object_value(seq![("name"@, json_string_value(sc.function.name@))])),
        ]),
    }
}

/// The parameter schema `create_tool` builds: an object schema with the given
/// properties and required names.
pub open spec fn object_schema_json(properties: serde_json::Value, required: Seq<&str>) -> serde_json::Value {
    json_object_value(seq![
        ("type"@, json_string_value("object"@)),
        ("properties"@, properties),
        ("required"@, json_array_value(required.map_values(|s: &str| json_string_value(s@)))),
    ])
}

fn pair(key: &str, value: serde_json::Value) -> (r: (String, serde_json::Value))
    ensures
        r.0@ == key@,
        r.1 == value,
{
    (key.to_string(), value)
}

impl FunctionDefinition {
    /// Create a new function definition builder with nothing set.
    pub fn builder() -> (b: FunctionDefinitionBuilder)
        ensures
            b.name_view() is None,
            b.description_view() is None,
            b.parameters_view() is None,
    {
        FunctionDefinitionBuilder { name: None, description: None, parameters: None }
    }

    /// The definition written as JSON.
    pub fn to_json_value(&self) -> (r: serde_json::Value)
        ensures
            r == function_definition_json(*self),
            function_definition_decodes(r),
            forall|f: FunctionDefinition| #[trigger] function_definition_from(r, f) ==> f.name@ == self.name@
                && f.description@ == self.description@ && f.parameters == self.parameters,
    {
        let entries = vec![
            pair("name", json_string(self.name.as_str())),
            pair("description", json_string(self.description.as_str())),
            pair("parameters", self.parameters.clone()),
        ];
        let ghost p = pairs_view(entries@);
        proof {
            assert(p =~= seq![
                ("name"@, json_string_value(self.name@)),
                ("description"@, json_string_value(self.description@)),
                ("parameters"@, self.parameters),
            ]);
            reveal_strlit("name");
            reveal_strlit("description");
            reveal_strlit("parameters");
            assert(p[0].0.len() != p[1].0.len());
            assert(p[0].0.len() != p[2].0.len());
            assert(p[1].0.len() != p[2].0.len());
            assert(keys_distinct(p));
            assert(key_unique(p, "name"@));
            assert(key_unique(p, "description"@));
            assert(key_unique(p, "parameters"@));
            lemma_lookup_at(p, "name"@, 0);
            lemma_lookup_at(p, "description"@, 1);
            lemma_lookup_at(p, "parameters"@, 2);
        }
        json_object(entries)
    }
}

impl Tool {
    /// Create a new tool builder with nothing set.
    pub fn builder() -> (b: ToolBuilder)
        ensures
            b.tool_type_view() is None,
            b.name_view() is None,
            b.description_view() is None,
            b.parameters_view() is None,
    {
        ToolBuilder { tool_type: None, name: None, description: None, parameters: None }
    }

    /// Create a function tool with name, description, and parameters.
    pub fn new(name: &str, description: &str, parameters: serde_json::Value) -> (t: Tool)
        ensures
            t.tool_type@ == "function"@,
            t.function.name@ == name@,
            t.function.description@ == description@,
            t.function.parameters == parameters,
    {
        Tool {
            tool_type: "function".to_string(),
            function: FunctionDefinition {
                name: name.to_string(),
                description: description.to_string(),
                parameters,
            },
        }
    }

    /// The tool written as JSON.
    pub fn to_json_value(&self) -> (r: serde_json::Value)
        ensures
            r == tool_json(*self),
            tool_decodes(r),
            forall|t: Tool| #[trigger] tool_from(r, t) ==> t.tool_type@ == self.tool_type@
                && t.function.name@ == self.function.name@
                && t.function.description@ == self.function.description@
                && t.function.parameters == self.function.parameters,
    {
        let function = self.function.to_json_value();
        let entries = vec![
            pair("type", json_string(self.tool_type.as_str())),
            pair("function", function),
        ];
        let ghost p = pairs_view(entries@);
        proof {
            assert(p =~= seq![
                ("type"@, json_string_value(self.tool_type@)),
                ("function"@, function_definition_json(self.function)),
            ]);
            reveal_strlit("type");
            reveal_strlit("function");
            assert(p[0].0.len() != p[1].0.len());
            assert(keys_distinct(p));
            assert(key_unique(p, "type"@));
            assert(key_unique(p, "function"@));
            lemma_lookup_at(p, "type"@, 0);
            lemma_lookup_at(p, "function"@, 1);
        }
        json_object(entries)
    }
}

/// The function tool an entry holds, if it holds one.
pub open spec fn function_tool(d: ToolDefinition) -> Option<Tool> {
    match d {
        ToolDefinition::Function(t) => Some(t),
        ToolDefinition::Server(_) => None,
    }
}

/// The server tool an entry holds, if it holds one.
pub open spec fn server_tool(d: ToolDefinition) -> Option<ServerTool> {
    match d {
        ToolDefinition::Function(_) => None,
        ToolDefinition::Server(t) => Some(t),
    }
}

/// Wrapping a function tool in an entry and asking for it back gives the
/// same tool, and the entry holds no server tool.
pub proof fn lemma_function_tool_round_trip(t: Tool)
    ensures
        function_tool(<ToolDefinition as vstd::std_specs::convert::FromSpec<Tool>>::from_spec(t)) == Some(t),
        server_tool(<ToolDefinition as vstd::std_specs::convert::FromSpec<Tool>>::from_spec(t)) is None,
{
}

/// Wrapping a server tool in an entry and asking for it back gives the same
/// tool, and the entry holds no function tool.
pub proof fn lemma_server_tool_round_trip(t: ServerTool)
    ensures
        server_tool(<ToolDefinition as vstd::std_specs::convert::FromSpec<ServerTool>>::from_spec(t)) == Some(t),
        function_tool(<ToolDefinition as vstd::std_specs::convert::FromSpec<ServerTool>>::from_spec(t)) is None,
{
}

impl ToolDefinition {
    /// Return the function tool definition if this is a function tool.
    pub fn as_function(&self) -> (r: Option<&Tool>)
        ensures
            match function_tool(*self) {
                Some(t) => r == Some(&t),
                None => r is None,
            },
    {
        match self {
            ToolDefinition::Function(tool) => Some(tool),
            ToolDefinition::Server(_) => None,
        }
    }

    /// Return the server tool definition if this is a server tool.
    pub fn as_server(&self) -> (r: Option<&ServerTool>)
        ensures
            match server_tool(*self) {
                Some(t) => r == Some(&t),
                None => r is None,
            },
    {
        match self {
            ToolDefinition::Function(_) => None,
            ToolDefinition::Server(tool) => Some(tool),
        }
    }

    /// The entry written as JSON: the tool it holds, untagged.
    pub fn to_json_value(&self) -> (r: serde_json::Value)
        ensures
            r == tool_definition_json(*self),
    {
        match self {
            ToolDefinition::Function(tool) => tool.to_json_value(),
            ToolDefinition::Server(tool) => tool.to_json_value(),
        }
    }
}

impl From<Tool> for ToolDefinition {
    fn from(tool: Tool) -> (r: ToolDefinition) {
        ToolDefinition::Function(tool)
    }
}

impl vstd::std_specs::convert::FromSpecImpl<Tool> for ToolDefinition {
    open spec fn obeys_from_spec() -> bool {
        true
    }

    open spec fn from_spec(tool: Tool) -> ToolDefinition {
        ToolDefinition::Function(tool)
    }
}

impl From<ServerTool> for ToolDefinition {
    fn from(tool: ServerTool) -> (r: ToolDefinition) {
        ToolDefinition::Server(tool)
    }
}

impl vstd::std_specs::convert::FromSpecImpl<ServerTool> for ToolDefinition {
    open spec fn obeys_from_spec() -> bool {
        true
    }

    open spec fn from_spec(tool: ServerTool) -> ToolDefinition {
        ToolDefinition::Server(tool)
    }
}

impl ServerTool {
    /// Create a new server tool with the given type and no parameters.
    pub fn new(tool_type: &str) -> (t: ServerTool)
        ensures
            t.tool_type@ == tool_type@,
            t.parameters is None,
    {
        ServerTool { tool_type: tool_type.to_string(), parameters: None }
    }

    /// Create an OpenRouter web search server tool.
    pub fn openrouter_web_search() -> (t: ServerTool)
        ensures
            t.tool_type@ == "openrouter:web_search"@,
            t.parameters is None,
    {
        Self::new("openrouter:web_search")
    }

    /// Add or replace an option in the server tool parameters, creating the
    /// parameters where there are none yet.
    pub fn option(self, key: &str, value: serde_json::Value) -> (t: ServerTool)
        ensures
            t.tool_type@ == self.tool_type@,
            t.parameters matches Some(p) && p.pairs() == insert_pairs(
                match self.parameters {
                    Some(q) => q.pairs(),
                    None => Seq::empty(),
                },
                key@,
                value,
            ),
            t.parameters matches Some(p) && lookup(p.pairs(), key@) == Some(value)
                && (forall|k: Seq<char>| k != key@ ==> #[trigger] lookup(p.pairs(), k) == match self.parameters {
                    Some(q) => lookup(q.pairs(), k),
                    None => None,
                }),
    {
        let mut tool = self;
        let mut params = match tool.parameters {
            Some(p) => p,
            None => JsonMap::new(),
        };
        let _ = params.insert(key.to_string(), value);
        tool.parameters = Some(params);
        tool
    }

    /// The server tool written as JSON; `"parameters"` is left out where
    /// there are none.
    pub fn to_json_value(&self) -> (r: serde_json::Value)
        ensures
            r == server_tool_json(*self),
    {
        match &self.parameters {
            Some(p) => {
                let entries = vec![
                    pair("type", json_string(self.tool_type.as_str())),
                    pair("parameters", p.to_json_value()),
                ];
                proof {
                    assert(pairs_view(entries@) =~= seq![
                        ("type"@, json_string_value(self.tool_type@)),
                        ("parameters"@, json_object_value(p.pairs())),
                    ]);
                }
                json_object(entries)
            },
            None => {
                let entries = vec![pair("type", json_string(self.tool_type.as_str()))];
                proof {
                    assert(pairs_view(entries@) =~= seq![("type"@, json_string_value(self.tool_type@))]);
                }
                json_object(entries)
            },
        }
    }
}

/// What a tool builder has been given; `None` where a setting is unset.
pub struct ToolSettings {
    pub tool_type: Option<Seq<char>>,
    pub name: Option<Seq<char>>,
    pub description: Option<Seq<char>>,
    pub parameters: Option<serde_json::Value>,
}

/// The settings a tool builder holds.
pub open spec fn tool_settings(b: ToolBuilder) -> ToolSettings {
    ToolSettings {
        tool_type: b.tool_type_view(),
        name: b.name_view(),
        description: b.description_view(),
        parameters: b.parameters_view(),
    }
}

/// `t` is the tool that settings `s` build: the name given, the type given
/// or `"function"`, the description given or empty, and the parameters given
/// or JSON `null`.
pub open spec fn tool_built_from(s: ToolSettings, t: Tool) -> bool {
    &&& s.name == Some(t.function.name@)
    &&& t.tool_type@ == match s.tool_type {
        Some(x) => x,
        None => "function"@,
    }
    &&& t.function.description@ == match s.description {
        Some(x) => x,
        None => Seq::<char>::empty(),
    }
    &&& t.function.parameters == json_option_value(s.parameters)
}

/// The tool builder's setters each change one setting and keep the others,
/// so setting different fields in either order gives the same settings.
pub proof fn lemma_tool_setters_commute(
    s: ToolSettings,
    tool_type: Seq<char>,
    name: Seq<char>,
    description: Seq<char>,
    parameters: serde_json::Value,
)
    ensures
        (ToolSettings { name: Some(name), ..ToolSettings { tool_type: Some(tool_type), ..s } })
            == (ToolSettings { tool_type: Some(tool_type), ..ToolSettings { name: Some(name), ..s } }),
        (ToolSettings { description: Some(description), ..ToolSettings { tool_type: Some(tool_type), ..s } })
            == (ToolSettings { tool_type: Some(tool_type), ..ToolSettings { description: Some(description), ..s } }),
        (ToolSettings { parameters: Some(parameters), ..ToolSettings { tool_type: Some(tool_type), ..s } })
            == (ToolSettings { tool_type: Some(tool_type), ..ToolSettings { parameters: Some(parameters), ..s } }),
        (ToolSettings { description: Some(description), ..ToolSettings { name: Some(name), ..s } })
            == (ToolSettings { name: Some(name), ..ToolSettings { description: Some(description), ..s } }),
        (ToolSettings { parameters: Some(parameters), ..ToolSettings { name: Some(name), ..s } })
            == (ToolSettings { name: Some(name), ..ToolSettings { parameters: Some(parameters), ..s } }),
        (ToolSettings { parameters: Some(parameters), ..ToolSettings { description: Some(description), ..s } })
            == (ToolSettings { description: Some(description), ..ToolSettings { parameters: Some(parameters), ..s } }),
{
}

/// Builders holding the same settings, however their setters were ordered,
/// build tools with the same type, name, description and parameters.
pub proof fn lemma_same_settings_same_tool(s: ToolSettings, t1: Tool, t2: Tool)
    requires
        tool_built_from(s, t1),
        tool_built_from(s, t2),
    ensures
        t1.tool_type@ == t2.tool_type@,
        t1.function.name@ == t2.function.name@,
        t1.function.description@ == t2.function.description@,
        t1.function.parameters == t2.function.parameters,
{
}

/// One call of a tool builder's setters, with its argument.
pub enum ToolSetterCall {
    ToolType(Seq<char>),
    Name(Seq<char>),
    Description(Seq<char>),
    Parameters(serde_json::Value),
}

/// The settings after one setter call: the setting it names replaced, the
/// others kept.
pub open spec fn apply_setter(s: ToolSettings, c: ToolSetterCall) -> ToolSettings {
    match c {
        ToolSetterCall::ToolType(x) => ToolSettings { tool_type: Some(x), ..s },
        ToolSetterCall::Name(x) => ToolSettings { name: Some(x), ..s },
        ToolSetterCall::Description(x) => ToolSettings { description: Some(x), ..s },
        ToolSetterCall::Parameters(x) => ToolSettings { parameters: Some(x), ..s },
    }
}

/// The settings after the calls, made in order.
pub open spec fn apply_setters(s: ToolSettings, calls: Seq<ToolSetterCall>) -> ToolSettings
    decreases calls.len(),
{
    if calls.len() == 0 {
        s
    } else {
        apply_setters(apply_setter(s, calls[0]), calls.drop_first())
    }
}

/// Which setting a call sets: type, name, description or parameters.
pub open spec fn setter_slot(c: ToolSetterCall) -> int {
    match c {
        ToolSetterCall::ToolType(_) => 0,
        ToolSetterCall::Name(_) => 1,
        ToolSetterCall::Description(_) => 2,
        ToolSetterCall::Parameters(_) => 3,
    }
}

/// No setting is set twice by the calls.
pub open spec fn each_setter_once(calls: Seq<ToolSetterCall>) -> bool {
    forall|i: int, j: int|
        0 <= i < j < calls.len() ==> setter_slot(#[trigger] calls[i]) != setter_slot(#[trigger] calls[j])
}

/// A setting of `s`, given by its slot, as the call that would set it.
pub open spec fn slot_call(s: ToolSettings, k: int) -> Option<ToolSetterCall> {
    if k == 0 {
        match s.tool_type {
            Some(x) => Some(ToolSetterCall::ToolType(x)),
            None => None,
        }
    } else if k == 1 {
        match s.name {
            Some(x) => Some(ToolSetterCall::Name(x)),
            None => None,
        }
    } else if k == 2 {
        match s.description {
            Some(x) => Some(ToolSetterCall::Description(x)),
            None => None,
        }
    } else {
        match s.parameters {
            Some(x) => Some(ToolSetterCall::Parameters(x)),
            None => None,
        }
    }
}

/// After calls that set no setting twice, each setting is the argument of
/// the call that sets it, or as it was where no call does.
proof fn lemma_apply_setters_slots(s: ToolSettings, calls: Seq<ToolSetterCall>)
    requires
        each_setter_once(calls),
    ensures
        forall|i: int|
            0 <= i < calls.len() ==> slot_call(apply_setters(s, calls), setter_slot(#[trigger] calls[i]))
                == Some(calls[i]),
        forall|k: int|
            0 <= k < 4 && (forall|i: int| 0 <= i < calls.len() ==> setter_slot(#[trigger] calls[i]) != k)
                ==> #[trigger] slot_call(apply_setters(s, calls), k) == slot_call(s, k),
    decreases calls.len(),
{
    if calls.len() > 0 {
        let c = calls[0];
        let rest = calls.drop_first();
        let s1 = apply_setter(s, c);
        assert forall|i: int, j: int| 0 <= i < j < rest.len() implies setter_slot(#[trigger] rest[i])
            != setter_slot(#[trigger] rest[j]) by {
            assert(rest[i] == calls[i + 1]);
            assert(rest[j] == calls[j + 1]);
        }
        lemma_apply_setters_slots(s1, rest);
        let r = apply_setters(s, calls);
        assert(r == apply_setters(s1, rest));
        assert forall|i: int| 0 <= i < rest.len() implies setter_slot(#[trigger] rest[i]) != setter_slot(c) by {
            assert(rest[i] == calls[i + 1]);
        }
        assert(slot_call(r, setter_slot(c)) == slot_call(s1, setter_slot(c)));
        assert(slot_call(s1, setter_slot(c)) == Some(c));
        assert forall|i: int| 0 <= i < calls.len() implies slot_call(r, setter_slot(#[trigger] calls[i]))
            == Some(calls[i]) by {
            if i > 0 {
                assert(calls[i] == rest[i - 1]);
            }
        }
        assert forall|k: int|
            0 <= k < 4 && (forall|i: int| 0 <= i < calls.len() ==> setter_slot(#[trigger] calls[i]) != k) implies #[trigger] slot_call(
            r,
            k,
        ) == slot_call(s, k) by {
            assert(setter_slot(calls[0]) != k);
            assert forall|i: int| 0 <= i < rest.len() implies setter_slot(#[trigger] rest[i]) != k by {
                assert(rest[i] == calls[i + 1]);
            }
            assert(slot_call(apply_setters(s1, rest), k) == slot_call(s1, k));
            assert(slot_call(s1, k) == slot_call(s, k));
        }
    }
}

/// Setter order does not matter: two sequences of setter calls that hold the
/// same calls, each setting set at most once, leave a builder with the same
/// settings, and builders with those settings build tools with the same
/// type, name, description and parameters.
pub proof fn lemma_setter_order_irrelevant(s: ToolSettings, c1: Seq<ToolSetterCall>, c2: Seq<ToolSetterCall>)
    requires
        each_setter_once(c1),
        each_setter_once(c2),
        forall|c: ToolSetterCall| c1.contains(c) <==> c2.contains(c),
    ensures
        apply_setters(s, c1) == apply_setters(s, c2),
        forall|t1: Tool, t2: Tool|
            tool_built_from(apply_setters(s, c1), t1) && tool_built_from(apply_setters(s, c2), t2) ==> {
                &&& t1.tool_type@ == t2.tool_type@
                &&& t1.function.name@ == t2.function.name@
                &&& t1.function.description@ == t2.function.description@
                &&& t1.function.parameters == t2.function.parameters
            },
{
    lemma_apply_setters_slots(s, c1);
    lemma_apply_setters_slots(s, c2);
    let r1 = apply_setters(s, c1);
    let r2 = apply_setters(s, c2);
    assert forall|k: int| 0 <= k < 4 implies #[trigger] slot_call(r1, k) == slot_call(r2, k) by {
        if exists|i: int| 0 <= i < c1.len() && setter_slot(#[trigger] c1[i]) == k {
            let i = choose|i: int| 0 <= i < c1.len() && setter_slot(#[trigger] c1[i]) == k;
            assert(c1.contains(c1[i]));
            assert(c2.contains(c1[i]));
            let j = choose|j: int| 0 <= j < c2.len() && c2[j] == c1[i];
            assert(slot_call(r1, setter_slot(c1[i])) == Some(c1[i]));
            assert(slot_call(r2, setter_slot(c2[j])) == Some(c2[j]));
        } else {
            assert forall|j: int| 0 <= j < c2.len() implies setter_slot(#[trigger] c2[j]) != k by {
                assert(c2.contains(c2[j]));
                assert(c1.contains(c2[j]));
                let i = choose|i: int| 0 <= i < c1.len() && c1[i] == c2[j];
                assert(setter_slot(c1[i]) != k);
            }
            assert(slot_call(r1, k) == slot_call(s, k));
            assert(slot_call(r2, k) == slot_call(s, k));
        }
    }
    assert(slot_call(r1, 0) == slot_call(r2, 0));
    assert(slot_call(r1, 1) == slot_call(r2, 1));
    assert(slot_call(r1, 2) == slot_call(r2, 2));
    assert(slot_call(r1, 3) == slot_call(r2, 3));
    assert(r1.tool_type == r2.tool_type);
    assert(r1.name == r2.name);
    assert(r1.description == r2.description);
    assert(r1.parameters == r2.parameters);
}

impl ToolBuilder {
    /// The tool type set so far.
    pub closed spec fn tool_type_view(self) -> Option<Seq<char>> {
        opt_str_view(self.tool_type)
    }

    /// The function name set so far.
    pub closed spec fn name_view(self) -> Option<Seq<char>> {
        opt_str_view(self.name)
    }

    /// The description set so far.
    pub closed spec fn description_view(self) -> Option<Seq<char>> {
        opt_str_view(self.description)
    }

    /// The parameter schema set so far.
    pub closed spec fn parameters_view(self) -> Option<serde_json::Value> {
        self.parameters
    }

    /// Override the tool type. Defaults to `"function"`.
    pub fn tool_type(&mut self, tool_type: &str) -> (r: &mut Self)
        ensures
            r.tool_type_view() == Some(tool_type@),
            r.name_view() == old(self).name_view(),
            r.description_view() == old(self).description_view(),
            r.parameters_view() == old(self).parameters_view(),
            tool_settings(*r) == apply_setter(tool_settings(*old(self)), ToolSetterCall::ToolType(tool_type@)),
            *final(self) == *final(r),
    {
        self.tool_type = Some(tool_type.to_string());
        self
    }

    /// Set the full function definition at once.
    pub fn function(&mut self, function: FunctionDefinition) -> (r: &mut Self)
        ensures
            r.tool_type_view() == old(self).tool_type_view(),
            r.name_view() == Some(function.name@),
            r.description_view() == Some(function.description@),
            r.parameters_view() == Some(function.parameters),
            *final(self) == *final(r),
    {
        self.name = Some(function.name);
        self.description = Some(function.description);
        self.parameters = Some(function.parameters);
        self
    }

    /// Set the function name.
    pub fn name(&mut self, name: &str) -> (r: &mut Self)
        ensures
            r.tool_type_view() == old(self).tool_type_view(),
            r.name_view() == Some(name@),
            r.description_view() == old(self).description_view(),
            r.parameters_view() == old(self).parameters_view(),
            tool_settings(*r) == apply_setter(tool_settings(*old(self)), ToolSetterCall::Name(name@)),
            *final(self) == *final(r),
    {
        self.name = Some(name.to_string());
        self
    }

    /// Set the function description.
    pub fn description(&mut self, description: &str) -> (r: &mut Self)
        ensures
            r.tool_type_view() == old(self).tool_type_view(),
            r.name_view() == old(self).name_view(),
            r.description_view() == Some(description@),
            r.parameters_view() == old(self).parameters_view(),
            tool_settings(*r) == apply_setter(tool_settings(*old(self)), ToolSetterCall::Description(description@)),
            *final(self) == *final(r),
    {
        self.description = Some(description.to_string());
        self
    }

    /// Set the parameters as a JSON value.
    pub fn parameters(&mut self, parameters: serde_json::Value) -> (r: &mut Self)
        ensures
            r.tool_type_view() == old(self).tool_type_view(),
            r.name_view() == old(self).name_view(),
            r.description_view() == old(self).description_view(),
            r.parameters_view() == Some(parameters),
            tool_settings(*r) == apply_setter(tool_settings(*old(self)), ToolSetterCall::Parameters(parameters)),
            *final(self) == *final(r),
    {
        self.parameters = Some(parameters);
        self
    }

    /// Set the parameters from the outcome of converting a value to JSON:
    /// the value where the conversion succeeded, else the conversion's error
    /// (and the builder is left as it was).
    pub fn parameters_from(&mut self, converted: Result<serde_json::Value, serde_json::Error>) -> (r: Result<&mut Self, OpenRouterError>)
        ensures
            converted is Ok <==> r is Ok,
            match r {
                Ok(b) => {
                    && b.tool_type_view() == old(self).tool_type_view()
                    && b.name_view() == old(self).name_view()
                    && b.description_view() == old(self).description_view()
                    && Some(b.parameters_view()) == match converted { Ok(v) => Some(Some(v)), Err(_) => None }
                    && *final(self) == *final(b)
                },
                Err(e) => e matches OpenRouterError::Serialization(_) && *final(self) == *old(self),
            },
    {
        match converted {
            Ok(value) => Ok(self.parameters(value)),
            Err(e) => Err(OpenRouterError::Serialization(e)),
        }
    }

    /// Set the parameters from a JSON text; fails, leaving the builder as it
    /// was, where the text is no JSON.
    pub fn parameters_json(&mut self, json: &str) -> (r: Result<&mut Self, OpenRouterError>)
        ensures
            json_parse_of(json@) is Some <==> r is Ok,
            match r {
                Ok(b) => {
                    && b.tool_type_view() == old(self).tool_type_view()
                    && b.name_view() == old(self).name_view()
                    && b.description_view() == old(self).description_view()
                    && Some(b.parameters_view()) == match json_parse_of(json@) { Some(v) => Some(Some(v)), None => None }
                    && *final(self) == *final(b)
                },
                Err(e) => e matches OpenRouterError::Serialization(_) && *final(self) == *old(self),
            },
    {
        let parsed = json_parse(json);
        self.parameters_from(parsed)
    }

    /// Build the tool. Fails with a configuration error where no function
    /// name was set; the type defaults to `"function"`, the description to
    /// the empty text and the parameters to JSON `null`.
    pub fn build(&self) -> (r: Result<Tool, OpenRouterError>)
        ensures
            self.name_view() is None <==> r is Err,
            r matches Ok(t) ==> tool_built_from(tool_settings(*self), t),
            r matches Err(e) ==> e matches OpenRouterError::ConfigError(m) && m@ == "Tool name is required"@,
            r matches Ok(t) ==> {
                &&& Some(t.function.name@) == self.name_view()
                &&& t.tool_type@ == match self.tool_type_view() {
                    Some(s) => s,
                    None => "function"@,
                }
                &&& t.function.description@ == match self.description_view() {
                    Some(s) => s,
                    None => Seq::<char>::empty(),
                }
                &&& t.function.parameters == json_option_value(self.parameters_view())
                &&& self.parameters_view() matches Some(p) ==> t.function.parameters == p
            },
    {
        let name = match &self.name {
            Some(n) => n.clone(),
            None => {
                return Err(OpenRouterError::ConfigError("Tool name is required".to_string()));
            },
        };
        let tool_type = match &self.tool_type {
            Some(t) => t.clone(),
            None => "function".to_string(),
        };
        let description = match &self.description {
            Some(d) => d.clone(),
            None => String::new(),
        };
        let parameters = json_from_option(clone_opt_value(&self.parameters));
        Ok(Tool { tool_type, function: FunctionDefinition { name, description, parameters } })
    }
}

impl FunctionDefinitionBuilder {
    /// The function name set so far.
    pub closed spec fn name_view(self) -> Option<Seq<char>> {
        opt_str_view(self.name)
    }

    /// The description set so far.
    pub closed spec fn description_view(self) -> Option<Seq<char>> {
        opt_str_view(self.description)
    }

    /// The parameter schema set so far.
    pub closed spec fn parameters_view(self) -> Option<serde_json::Value> {
        self.parameters
    }

    /// Set the function name.
    pub fn name(&mut self, name: &str) -> (r: &mut Self)
        ensures
            r.name_view() == Some(name@),
            r.description_view() == old(self).description_view(),
            r.parameters_view() == old(self).parameters_view(),
            *final(self) == *final(r),
    {
        self.name = Some(name.to_string());
        self
    }

    /// Set the function description.
    pub fn description(&mut self, description: &str) -> (r: &mut Self)
        ensures
            r.name_view() == old(self).name_view(),
            r.description_view() == Some(description@),
            r.parameters_view() == old(self).parameters_view(),
            *final(self) == *final(r),
    {
        self.description = Some(description.to_string());
        self
    }

    /// Set parameters from a JSON value.
    pub fn parameters(&mut self, parameters: serde_json::Value) -> (r: &mut Self)
        ensures
            r.name_view() == old(self).name_view(),
            r.description_view() == old(self).description_view(),
            r.parameters_view() == Some(parameters),
            *final(self) == *final(r),
    {
        self.parameters = Some(parameters);
        self
    }

    /// Set parameters from the outcome of converting a value to JSON: the
    /// value where the conversion succeeded, else the conversion's error (and
    /// the builder is left as it was).
    pub fn parameters_from(&mut self, converted: Result<serde_json::Value, serde_json::Error>) -> (r: Result<&mut Self, OpenRouterError>)
        ensures
            converted is Ok <==> r is Ok,
            match r {
                Ok(b) => {
                    && b.name_view() == old(self).name_view()
                    && b.description_view() == old(self).description_view()
                    && Some(b.parameters_view()) == match converted { Ok(v) => Some(Some(v)), Err(_) => None }
                    && *final(self) == *final(b)
                },
                Err(e) => e matches OpenRouterError::Serialization(_) && *final(self) == *old(self),
            },
    {
        match converted {
            Ok(value) => Ok(self.parameters(value)),
            Err(e) => Err(OpenRouterError::Serialization(e)),
        }
    }

    /// Set parameters from a JSON text; fails, leaving the builder as it was,
    /// where the text is no JSON.
    pub fn parameters_json(&mut self, json: &str) -> (r: Result<&mut Self, OpenRouterError>)
        ensures
            json_parse_of(json@) is Some <==> r is Ok,
            match r {
                Ok(b) => {
                    && b.name_view() == old(self).name_view()
                    && b.description_view() == old(self).description_view()
                    && Some(b.parameters_view()) == match json_parse_of(json@) { Some(v) => Some(Some(v)), None => None }
                    && *final(self) == *final(b)
                },
                Err(e) => e matches OpenRouterError::Serialization(_) && *final(self) == *old(self),
            },
    {
        let parsed = json_parse(json);
        self.parameters_from(parsed)
    }

    /// Build the definition. Every field is required; the error names the
    /// first missing one, in the order name, description, parameters.
    pub fn build(&self) -> (r: Result<FunctionDefinition, OpenRouterError>)
        ensures
            (self.name_view() is Some && self.description_view() is Some && self.parameters_view() is Some) <==> r is Ok,
            r matches Err(e) ==> e matches OpenRouterError::UninitializedField(f) && f@ == if self.name_view() is None {
                "name"@
            } else if self.description_view() is None {
                "description"@
            } else {
                "parameters"@
            },
            r matches Ok(f) ==> Some(f.name@) == self.name_view() && Some(f.description@) == self.description_view()
                && Some(f.parameters) == self.parameters_view(),
    {
        let name = match &self.name {
            Some(n) => n.clone(),
            None => {
                return Err(OpenRouterError::UninitializedField("name".to_string()));
            },
        };
        let description = match &self.description {
            Some(d) => d.clone(),
            None => {
                return Err(OpenRouterError::UninitializedField("description".to_string()));
            },
        };
        let parameters = match &self.parameters {
            Some(p) => p.clone(),
            None => {
                return Err(OpenRouterError::UninitializedField("parameters".to_string()));
            },
        };
        Ok(FunctionDefinition { name, description, parameters })
    }
}

impl ToolChoice {
    /// Model will not call any tools.
    pub fn none() -> (c: ToolChoice)
        ensures
            c matches ToolChoice::String(s) && s@ == "none"@,
    {
        ToolChoice::String("none".to_string())
    }

    /// Model can choose whether to call tools.
    pub fn auto() -> (c: ToolChoice)
        ensures
            c matches ToolChoice::String(s) && s@ == "auto"@,
    {
        ToolChoice::String("auto".to_string())
    }

    /// Model must call at least one tool.
    pub fn required() -> (c: ToolChoice)
        ensures
            c matches ToolChoice::String(s) && s@ == "required"@,
    {
        ToolChoice::String("required".to_string())
    }

    /// Force the model to call a specific function tool.
    pub fn force_tool(tool_name: &str) -> (c: ToolChoice)
        ensures
            c matches ToolChoice::Specific(sc) && sc.tool_type@ == "function"@ && sc.function.name@ == tool_name@,
    {
        ToolChoice::Specific(SpecificToolChoice {
            tool_type: "function".to_string(),
            function: SpecificToolFunction { name: tool_name.to_string() },
        })
    }

    /// The choice written as JSON.
    pub fn to_json_value(&self) -> (r: serde_json::Value)
        ensures
            r == tool_choice_json(*self),
    {
        match self {
            ToolChoice::String(s) => json_string(s.as_str()),
            ToolChoice::Specific(sc) => {
                let inner = vec![pair("name", json_string(sc.function.name.as_str()))];
                proof {
                    assert(pairs_view(inner@) =~= seq![("name"@, json_string_value(sc.function.name@))]);
                }
                let function = json_object(inner);
                let entries = vec![pair("type", json_string(sc.tool_type.as_str())), pair("function", function)];
                proof {
                    assert(pairs_view(entries@) =~= seq![
                        ("type"@, json_string_value(sc.tool_type@)),
                        ("function"@, json_object_value(seq![("name"@, json_string_value(sc.function.name@))])),
                    ]);
                }
                json_object(entries)
            },
        }
    }
}

/// Create a function tool whose parameter schema is an object with the given
/// properties and required property names.
pub fn create_tool(name: &str, description: &str, properties: serde_json::Value, required: &[&str]) -> (t: Tool)
    ensures
        t.tool_type@ == "function"@,
        t.function.name@ == name@,
        t.function.description@ == description@,
        t.function.parameters == object_schema_json(properties, required@),
{
    let mut items: Vec<serde_json::Value> = Vec::new();
    let mut i: usize = 0;
    while i < required.len()
        invariant
            i <= required@.len(),
            items@ =~= required@.subrange(0, i as int).map_values(|s: &str| json_string_value(s@)),
        decreases required@.len() - i,
    {
        items.push(json_string(required[i]));
        i = i + 1;
    }
    assert(required@.subrange(0, required@.len() as int) =~= required@);
    let entries = vec![
        pair("type", json_string("object")),
        pair("properties", properties),
        pair("required", json_array(items)),
    ];
    proof {
        assert(pairs_view(entries@) =~= seq![
            ("type"@, json_string_value("object"@)),
            ("properties"@, properties),
            ("required"@, json_array_value(required@.map_values(|s: &str| json_string_value(s@)))),
        ]);
    }
    let parameters = json_object(entries);
    Tool::new(name, description, parameters)
}


/// `v` is a JSON object with the layout of a function definition: text
/// `"name"` and `"description"`, and a `"parameters"` value.
pub open spec fn function_definition_decodes(v: serde_json::Value) -> bool {
    &&& json_entries_of(v) matches Some(e)
    &&& req_string_spec(e, "name"@) is Some
    &&& req_string_spec(e, "description"@) is Some
    &&& lookup(e, "parameters"@) is Some
}

/// `f` is what `v` holds as a function definition.
pub open spec fn function_definition_from(v: serde_json::Value, f: FunctionDefinition) -> bool {
    &&& json_entries_of(v) matches Some(e)
    &&& req_string_spec(e, "name"@) == Some(f.name@)
    &&& req_string_spec(e, "description"@) == Some(f.description@)
    &&& lookup(e, "parameters"@) == Some(f.parameters)
}

/// `v` is a JSON object with the layout of a tool: a text `"type"` and a
/// `"function"` definition.
pub open spec fn tool_decodes(v: serde_json::Value) -> bool {
    &&& json_entries_of(v) matches Some(e)
    &&& req_string_spec(e, "type"@) is Some
    &&& lookup(e, "function"@) matches Some(fv)
    &&& function_definition_decodes(fv)
}

/// `t` is what `v` holds as a tool.
pub open spec fn tool_from(v: serde_json::Value, t: Tool) -> bool {
    &&& json_entries_of(v) matches Some(e)
    &&& req_string_spec(e, "type"@) == Some(t.tool_type@)
    &&& lookup(e, "function"@) matches Some(fv)
    &&& function_definition_from(fv, t.function)
}

impl FunctionDefinition {
    /// Decodes a function definition from JSON; `None` where the JSON does
    /// not have its layout. Other fields are ignored.
    pub fn from_json_value(v: &serde_json::Value) -> (r: Option<FunctionDefinition>)
        ensures
            r is Some <==> function_definition_decodes(*v),
            r matches Some(f) ==> function_definition_from(*v, f),
    {
        let entries = match json_as_entries(v) {
            Some(e) => e,
            None => {
                return None;
            },
        };
        let name = match req_string(&entries, "name") {
            Some(s) => s,
            None => {
                return None;
            },
        };
        let description = match req_string(&entries, "description") {
            Some(s) => s,
            None => {
                return None;
            },
        };
        let parameters = match field(&entries, "parameters") {
            Some(p) => p,
            None => {
                return None;
            },
        };
        Some(FunctionDefinition { name, description, parameters })
    }
}

impl Tool {
    /// Decodes a tool from JSON; `None` where the JSON does not have its
    /// layout. Other fields are ignored.
    pub fn from_json_value(v: &serde_json::Value) -> (r: Option<Tool>)
        ensures
            r is Some <==> tool_decodes(*v),
            r matches Some(t) ==> tool_from(*v, t),
    {
        let entries = match json_as_entries(v) {
            Some(e) => e,
            None => {
                return None;
            },
        };
        let tool_type = match req_string(&entries, "type") {
            Some(s) => s,
            None => {
                return None;
            },
        };
        let function_value = match field(&entries, "function") {
            Some(f) => f,
            None => {
                return None;
            },
        };
        let function = match FunctionDefinition::from_json_value(&function_value) {
            Some(f) => f,
            None => {
                return None;
            },
        };
        Some(Tool { tool_type, function })
    }
}

/// A decoded function definition holds its JSON object's name, description
/// and parameters.
pub proof fn lemma_function_definition_fields(v: serde_json::Value, f: FunctionDefinition)
    requires
        function_definition_from(v, f),
    ensures
        json_entries_of(v) is Some,
        ({
            let e = json_entries_of(v)->0;
            &&& (lookup(e, "name"@) matches Some(j) && json_str_of(j) == Some(f.name@))
            &&& (lookup(e, "description"@) matches Some(j) && json_str_of(j) == Some(f.description@))
            &&& lookup(e, "parameters"@) == Some(f.parameters)
        }),
{
}

/// A decoded tool holds its JSON object's type and the function definition
/// under `"function"`.
pub proof fn lemma_tool_fields(v: serde_json::Value, t: Tool)
    requires
        tool_from(v, t),
    ensures
        json_entries_of(v) is Some,
        ({
            let e = json_entries_of(v)->0;
            &&& (lookup(e, "type"@) matches Some(j) && json_str_of(j) == Some(t.tool_type@))
            &&& (lookup(e, "function"@) matches Some(fv) && function_definition_from(fv, t.function))
        }),
{
}


/// JSON decodes as a function definition exactly where it is an object with a
/// name, a description and parameters.
pub proof fn lemma_function_definition_decodes(v: serde_json::Value)
    ensures
        function_definition_decodes(v) <==> (json_entries_of(v) is Some && {
            let e = json_entries_of(v)->0;
            &&& (lookup(e, "name"@) matches Some(j) && json_str_of(j) is Some)
            &&& (lookup(e, "description"@) matches Some(j) && json_str_of(j) is Some)
            &&& lookup(e, "parameters"@) is Some
        }),
{
}

/// JSON decodes as a tool exactly where it is an object with a type and a
/// `"function"` that decodes as a function definition.
pub proof fn lemma_tool_decodes(v: serde_json::Value)
    ensures
        tool_decodes(v) <==> (json_entries_of(v) is Some && {
            let e = json_entries_of(v)->0;
            &&& (lookup(e, "type"@) matches Some(j) && json_str_of(j) is Some)
            &&& (lookup(e, "function"@) matches Some(fv) && function_definition_decodes(fv))
        }),
{
}

/// A function definition is written as a JSON object with three keys, each
/// once: its name and its description as strings under `"name"` and
/// `"description"`, and its parameters under `"parameters"`.
pub proof fn lemma_function_definition_json_fields(f: FunctionDefinition)
    ensures
        exists|p: Seq<(Seq<char>, serde_json::Value)>|
            #![trigger json_object_value(p)]
            function_definition_json(f) == json_object_value(p) && keys_distinct(p) && p.len() == 3
                && lookup(p, "name"@) == Some(json_string_value(f.name@))
                && lookup(p, "description"@) == Some(json_string_value(f.description@))
                && lookup(p, "parameters"@) == Some(f.parameters),
{
    reveal_strlit("name");
    reveal_strlit("description");
    reveal_strlit("parameters");
    assert("name"@.len() != "description"@.len());
    assert("name"@.len() != "parameters"@.len());
    assert("description"@.len() != "parameters"@.len());
    let p = seq![("name"@, json_string_value(f.name@)), ("description"@, json_string_value(f.description@)), ("parameters"@, f.parameters)];
    assert(keys_distinct(p));
    lemma_lookup_at(p, "name"@, 0);
    lemma_lookup_at(p, "description"@, 1);
    lemma_lookup_at(p, "parameters"@, 2);
    assert(function_definition_json(f) == json_object_value(p));
}

/// A tool is written as a JSON object with its type as a string under
/// `"type"` and its function definition's JSON under `"function"`, each key
/// once.
pub proof fn lemma_tool_json_fields(t: Tool)
    ensures
        exists|p: Seq<(Seq<char>, serde_json::Value)>|
            #![trigger json_object_value(p)]
            tool_json(t) == json_object_value(p) && keys_distinct(p) && p.len() == 2
                && lookup(p, "type"@) == Some(json_string_value(t.tool_type@))
                && lookup(p, "function"@) == Some(function_definition_json(t.function)),
{
    reveal_strlit("type");
    reveal_strlit("function");
    assert("type"@.len() != "function"@.len());
    let p = seq![("type"@, json_string_value(t.tool_type@)), ("function"@, function_definition_json(t.function))];
    assert(keys_distinct(p));
    lemma_lookup_at(p, "type"@, 0);
    lemma_lookup_at(p, "function"@, 1);
    assert(tool_json(t) == json_object_value(p));
}

/// A server tool with parameters is written as a JSON object with its type as
/// a string under `"type"` and its parameters as an object under
/// `"parameters"`, each key once.
pub proof fn lemma_server_tool_json_with_parameters(t: ServerTool)
    requires
        t.parameters is Some,
    ensures
        exists|p: Seq<(Seq<char>, serde_json::Value)>|
            #![trigger json_object_value(p)]
            server_tool_json(t) == json_object_value(p) && keys_distinct(p) && p.len() == 2
                && lookup(p, "type"@) == Some(json_string_value(t.tool_type@))
                && lookup(p, "parameters"@) == Some(json_object_value(t.parameters->0.pairs())),
{
    reveal_strlit("type");
    reveal_strlit("parameters");
    assert("type"@.len() != "parameters"@.len());
    let p = seq![("type"@, json_string_value(t.tool_type@)), ("parameters"@, json_object_value(t.parameters->0.pairs()))];
    assert(keys_distinct(p));
    lemma_lookup_at(p, "type"@, 0);
    lemma_lookup_at(p, "parameters"@, 1);
    assert(server_tool_json(t) == json_object_value(p));
}

/// A server tool without parameters is written as a JSON object holding only
/// its type, as a string under `"type"`.
pub proof fn lemma_server_tool_json_without_parameters(t: ServerTool)
    requires
        t.parameters is None,
    ensures
        exists|p: Seq<(Seq<char>, serde_json::Value)>|
            #![trigger json_object_value(p)]
            server_tool_json(t) == json_object_value(p) && keys_distinct(p) && p.len() == 1
                && lookup(p, "type"@) == Some(json_string_value(t.tool_type@)),
{
    reveal_strlit("type");
    let p = seq![("type"@, json_string_value(t.tool_type@))];
    assert(keys_distinct(p));
    lemma_lookup_at(p, "type"@, 0);
    assert(server_tool_json(t) == json_object_value(p));
}

/// Forcing a specific tool is written as a JSON object with the tool type as a
/// string under `"type"` and, under `"function"`, an object holding only
/// the function's name under `"name"`.
pub proof fn lemma_specific_tool_choice_json_fields(sc: SpecificToolChoice)
    ensures
        exists|p: Seq<(Seq<char>, serde_json::Value)>|
            #![trigger json_object_value(p)]
            tool_choice_json(ToolChoice::Specific(sc)) == json_object_value(p) && keys_distinct(p) && p.len() == 2
                && lookup(p, "type"@) == Some(json_string_value(sc.tool_type@))
                && lookup(p, "function"@) == Some(json_object_value(seq![("name"@, json_string_value(sc.function.name@))])),
{
    reveal_strlit("type");
    reveal_strlit("function");
    assert("type"@.len() != "function"@.len());
    let p = seq![("type"@, json_string_value(sc.tool_type@)), ("function"@, json_object_value(seq![("name"@, json_string_value(sc.function.name@))]))];
    assert(keys_distinct(p));
    lemma_lookup_at(p, "type"@, 0);
    lemma_lookup_at(p, "function"@, 1);
    assert(tool_choice_json(ToolChoice::Specific(sc)) == json_object_value(p));
}

/// A tool choice given as a string is written as that JSON string.
pub proof fn lemma_string_tool_choice_json(s: String)
    ensures
        tool_choice_json(ToolChoice::String(s)) == json_string_value(s@),
{
}


/// The parameter schema `create_tool` builds is a JSON object with `"type"`
/// the string `object`, the properties given under `"properties"`, and the
/// required names, as strings in order, under `"required"`, each key once.
pub proof fn lemma_object_schema_json_fields(properties: serde_json::Value, required: Seq<&str>)
    ensures
        exists|p: Seq<(Seq<char>, serde_json::Value)>|
            #![trigger json_object_value(p)]
            object_schema_json(properties, required) == json_object_value(p) && keys_distinct(p) && p.len() == 3
                && lookup(p, "type"@) == Some(json_string_value("object"@))
                && lookup(p, "properties"@) == Some(properties)
                && lookup(p, "required"@) == Some(json_array_value(required.map_values(|s: &str| json_string_value(s@)))),
{
    reveal_strlit("type");
    reveal_strlit("properties");
    reveal_strlit("required");
    assert("type"@.len() != "properties"@.len());
    assert("type"@.len() != "required"@.len());
    assert("properties"@.len() != "required"@.len());
    let p = seq![("type"@, json_string_value("object"@)), ("properties"@, properties), ("required"@, json_array_value(required.map_values(|s: &str| json_string_value(s@))))];
    assert(keys_distinct(p));
    lemma_lookup_at(p, "type"@, 0);
    lemma_lookup_at(p, "properties"@, 1);
    lemma_lookup_at(p, "required"@, 2);
    assert(object_schema_json(properties, required) == json_object_value(p));
}

/// A tool built from a builder's settings has the name set, the type set or
/// `function` where none was, the description set or the empty text where
/// none was, and the parameters set or JSON `null` where none were.
pub proof fn lemma_tool_built_fields(s: ToolSettings, t: Tool)
    requires
        tool_built_from(s, t),
    ensures
        s.name == Some(t.function.name@),
        s.tool_type matches Some(x) ==> t.tool_type@ == x,
        s.tool_type is None ==> t.tool_type@ == "function"@,
        s.description matches Some(x) ==> t.function.description@ == x,
        s.description is None ==> t.function.description@ == Seq::<char>::empty(),
        s.parameters matches Some(p) ==> t.function.parameters == json_option_value(Some(p)),
        s.parameters is None ==> t.function.parameters == json_option_value(None),
{
}


} // verus!
