//! Tools: their definitions as sent to the model, their arguments as
//! received from it, and the outcomes they report back.
use vstd::prelude::*;
use vstd::string::StringExecFns;

verus! {

/// One named parameter of a tool.
pub struct ParamSpec {
    pub name: String,
    /// The JSON type name of the parameter, such as `string`.
    pub kind: String,
    pub description: String,
}

/// The parameters object of a definition, always of type `object`.
pub struct ParamSchema {
    pub properties: Vec<ParamSpec>,
    pub required: Vec<String>,
}

/// The description of a tool that is sent with every model request.
pub struct ToolDefinition {
    pub name: String,
    pub description: String,
    pub parameters: ParamSchema,
}

/// The behaviours a tool can have.
#[derive(Clone, Copy, PartialEq, Eq, Structural, Debug)]
pub enum ToolKind {
    /// Evaluates an arithmetic expression given under `expression`.
    Calculator,
    /// Reports canned weather for the city given under `city`.
    Weather,
}

/// A callable tool: what it does and how it is described to the model.
pub struct Tool {
    pub kind: ToolKind,
    pub definition: ToolDefinition,
}

/// A value of a tool call's argument object.
pub enum ArgValue {
    Text(String),
    /// Any value that is not a string.
    Other,
}

/// One member of a tool call's argument object.
pub struct ArgField {
    pub key: String,
    pub value: ArgValue,
}

/// The untyped arguments of a tool call.
pub enum RawArguments {
    Object(Vec<ArgField>),
    /// A value that is not an object.
    NotObject,
}

/// A request by the model to run a tool.
pub struct ToolCall {
    pub id: String,
    pub name: String,
    pub arguments: RawArguments,
}

/// What running a tool produced.
pub enum Outcome {
    Success(String),
    Failure(String),
}

/// The answer to one tool call, tied to it by the call's id.
pub struct ToolResult {
    pub call_id: String,
    pub outcome: Outcome,
}

impl Outcome {
    pub open spec fn succeeded_with(self, text: Seq<char>) -> bool {
        self matches Outcome::Success(m) && m@ == text
    }

    pub open spec fn failed_with(self, text: Seq<char>) -> bool {
        self matches Outcome::Failure(m) && m@ == text
    }
}

/// The name of the argument that a tool of this kind reads.
pub open spec fn arg_key(kind: ToolKind) -> Seq<char> {
    match kind {
        ToolKind::Calculator => "expression"@,
        ToolKind::Weather => "city"@,
    }
}

/// The text under the first member named `key`, if the arguments are an
/// object and that member holds a string.
pub open spec fn text_arg(args: RawArguments, key: Seq<char>) -> Option<Seq<char>> {
    match args {
        RawArguments::Object(fields) => text_field(fields@, key),
        RawArguments::NotObject => None,
    }
}

/// The text under the first member of `fields` named `key`.
pub open spec fn text_field(fields: Seq<ArgField>, key: Seq<char>) -> Option<Seq<char>>
    decreases fields.len(),
{
    if fields.len() == 0 {
        None
    } else if fields[0].key@ == key {
        match fields[0].value {
            ArgValue::Text(t) => Some(t@),
            ArgValue::Other => None,
        }
    } else {
        text_field(fields.drop_first(), key)
    }
}

/// Looks up a text argument by name.
pub fn find_text_arg<'a>(args: &'a RawArguments, key: &String) -> (r: Option<&'a String>)
    ensures
        r matches Some(t) ==> text_arg(*args, key@) == Some(t@),
        r is None ==> text_arg(*args, key@) is None,
{
    match args {
        RawArguments::Object(fields) => {
            let mut i: usize = 0;
            assert(fields@.skip(0) =~= fields@);
            while i < fields.len()
                invariant
                    i <= fields@.len(),
                    text_arg(*args, key@) == text_field(fields@, key@),
                    text_field(fields@, key@) == text_field(fields@.skip(i as int), key@),
                decreases fields@.len() - i,
            {
                assert(fields@.skip(i as int).drop_first() =~= fields@.skip(i + 1));
                assert(fields@.skip(i as int)[0] == fields@[i as int]);
                if fields[i].key == *key {
                    assert(fields@.skip(i as int).len() > 0);
                    assert(fields@.skip(i as int)[0].key@ == key@);
                    match &fields[i].value {
                        ArgValue::Text(t) => {
                            assert(text_field(fields@.skip(i as int), key@) == Some(t@));
                            return Some(t);
                        },
                        ArgValue::Other => {
                            return None;
                        },
                    }
                }
                i = i + 1;
            }
            None
        },
        RawArguments::NotObject => None,
    }
}

impl Tool {
    /// The calculator tool, which takes an `expression` string.
    pub fn calculator() -> (r: Tool)
        ensures
            r.kind == ToolKind::Calculator,
            r.definition.name@ == "calculator"@,
            r.definition.description@ == calculator_description(),
            r.definition.parameters.properties@.len() == 1,
            r.definition.parameters.properties@[0].name@ == "expression"@,
            r.definition.parameters.properties@[0].kind@ == "string"@,
            r.definition.parameters.properties@[0].description@ == expression_description(),
            r.definition.parameters.required@.len() == 1,
            r.definition.parameters.required@[0]@ == "expression"@,
    {
        let expression = ParamSpec {
            name: String::from_str("expression"),
            kind: String::from_str("string"),
            description: String::from_str(
                "要计算的数学表达式，例如: '123 + 456'",
            ),
        };
        let mut properties: Vec<ParamSpec> = Vec::new();
        properties.push(expression);
        let mut required: Vec<String> = Vec::new();
        required.push(String::from_str("expression"));
        Tool {
            kind: ToolKind::Calculator,
            definition: ToolDefinition {
                name: String::from_str("calculator"),
                description: String::from_str(
                    "执行基础数学运算，支持加减乘除",
                ),
                parameters: ParamSchema { properties, required },
            },
        }
    }

    /// The weather tool `get_weather`, which takes a `city` string.
    pub fn weather() -> (r: Tool)
        ensures
            r.kind == ToolKind::Weather,
            r.definition.name@ == "get_weather"@,
            r.definition.description@ == weather_description(),
            r.definition.parameters.properties@.len() == 1,
            r.definition.parameters.properties@[0].name@ == "city"@,
            r.definition.parameters.properties@[0].kind@ == "string"@,
            r.definition.parameters.properties@[0].description@ == city_description(),
            r.definition.parameters.required@.len() == 1,
            r.definition.parameters.required@[0]@ == "city"@,
    {
        let city = ParamSpec {
            name: String::from_str("city"),
            kind: String::from_str("string"),
            description: String::from_str("要查询天气的城市名称"),
        };
        let mut properties: Vec<ParamSpec> = Vec::new();
        properties.push(city);
        let mut required: Vec<String> = Vec::new();
        required.push(String::from_str("city"));
        Tool {
            kind: ToolKind::Weather,
            definition: ToolDefinition {
                name: String::from_str("get_weather"),
                description: String::from_str("获取指定城市的天气信息"),
                parameters: ParamSchema { properties, required },
            },
        }
    }
}

pub open spec fn calculator_description() -> Seq<char> {
    "执行基础数学运算，支持加减乘除"@
}

pub open spec fn expression_description() -> Seq<char> {
    "要计算的数学表达式，例如: '123 + 456'"@
}

pub open spec fn weather_description() -> Seq<char> {
    "获取指定城市的天气信息"@
}

pub open spec fn city_description() -> Seq<char> {
    "要查询天气的城市名称"@
}

} // verus!
