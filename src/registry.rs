//! The registry of an agent's tools and dispatch of tool calls by name.
use vstd::prelude::*;
use vstd::string::StringExecFns;
use crate::expression::{cleaned, plan_expression, plan_of, Evaluation};
use crate::tool::{arg_key, find_text_arg, text_arg, Outcome, Tool, ToolCall, ToolDefinition, ToolKind, ToolResult};

verus! {

/// Why a tool could not be registered.
pub enum RegistryError {
    /// A tool with this name is registered already.
    DuplicateToolName(String),
}

/// Why a tool call failed; reported back to the model, never fatal.
pub enum ToolError {
    /// No tool has the called name (kept here).
    UnknownTool(String),
    /// The arguments hold no string under the named key.
    ArgumentParseError(String),
    /// The calculator could not evaluate its expression.
    EvaluationError,
}

/// What a call comes to, given the kind of the tool it names and its arguments.
pub enum CallModel {
    Unknown,
    /// Missing or mistyped argument under this key.
    BadArguments(Seq<char>),
    /// The calculator is to evaluate this expression.
    Evaluate(Seq<char>),
    /// The weather tool reports on this city.
    Report(Seq<char>),
}

pub open spec fn call_model(kind: Option<ToolKind>, args: crate::tool::RawArguments) -> CallModel {
    match kind {
        None => CallModel::Unknown,
        Some(k) => match text_arg(args, arg_key(k)) {
            None => CallModel::BadArguments(arg_key(k)),
            Some(t) => match k {
                ToolKind::Calculator => CallModel::Evaluate(t),
                ToolKind::Weather => CallModel::Report(t),
            },
        },
    }
}

pub open spec fn unknown_tool_summary(name: Seq<char>) -> Seq<char> {
    "unknown tool: "@ + name
}

pub open spec fn bad_arguments_summary(key: Seq<char>) -> Seq<char> {
    "invalid arguments: expected a string under "@ + key
}

pub open spec fn evaluation_summary() -> Seq<char> {
    "计算错误"@
}

pub open spec fn weather_of(city: Seq<char>) -> Seq<char> {
    if city == "北京"@ {
        "北京今天晴朗，气温15-25°C，微风"@
    } else if city == "上海"@ {
        "上海今天多云，气温18-28°C，东南风"@
    } else if city == "深圳"@ {
        "深圳今天阵雨，气温22-30°C，南风"@
    } else {
        "抱歉，暂时无法获取该城市的天气信息"@
    }
}

/// The text reported by a successful calculation.
pub open spec fn calculation_text(expression: Seq<char>, value: Seq<char>) -> Seq<char> {
    expression + " = "@ + value
}

impl ToolError {
    pub open spec fn spec_summary(&self) -> Seq<char> {
        match self {
            ToolError::UnknownTool(n) => unknown_tool_summary(n@),
            ToolError::ArgumentParseError(k) => bad_arguments_summary(k@),
            ToolError::EvaluationError => evaluation_summary(),
        }
    }

    /// The text the model sees for this failure.
    pub fn summary(&self) -> (r: String)
        ensures
            r@ == self.spec_summary(),
    {
        match self {
            ToolError::UnknownTool(n) => String::from_str("unknown tool: ").concat(n.as_str()),
            ToolError::ArgumentParseError(k) => String::from_str(
                "invalid arguments: expected a string under ",
            ).concat(k.as_str()),
            ToolError::EvaluationError => String::from_str("计算错误"),
        }
    }
}

/// The canned weather report for a city.
pub fn weather_report(city: &String) -> (r: String)
    ensures
        r@ == weather_of(city@),
{
    if *city == String::from_str("北京") {
        String::from_str("北京今天晴朗，气温15-25°C，微风")
    } else if *city == String::from_str("上海") {
        String::from_str("上海今天多云，气温18-28°C，东南风")
    } else if *city == String::from_str("深圳") {
        String::from_str("深圳今天阵雨，气温22-30°C，南风")
    } else {
        String::from_str("抱歉，暂时无法获取该城市的天气信息")
    }
}

/// The calculator's result for `expression`, given the rendered value of its
/// evaluation, or `None` where evaluation failed.
pub fn calculator_output(expression: &String, value: Option<String>) -> (r: Result<String, ToolError>)
    ensures
        value matches Some(v) ==> r matches Ok(s) && s@ == calculation_text(expression@, v@),
        value is None ==> r matches Err(ToolError::EvaluationError),
{
    match value {
        Some(v) => Ok(expression.clone().concat(" = ").concat(v.as_str())),
        None => Err(ToolError::EvaluationError),
    }
}

/// Wraps a tool's outcome as the answer to call `call_id`.
pub fn tool_result(call_id: String, outcome: Result<String, ToolError>) -> (r: ToolResult)
    ensures
        r.call_id == call_id,
        outcome matches Ok(s) ==> r.outcome == Outcome::Success(s),
        outcome matches Err(e) ==> r.outcome.failed_with(e.spec_summary()),
{
    match outcome {
        Ok(s) => ToolResult { call_id, outcome: Outcome::Success(s) },
        Err(e) => ToolResult { call_id, outcome: Outcome::Failure(e.summary()) },
    }
}

/// The answer to a calculator call, once its expression has been evaluated.
pub fn complete_evaluation(call_id: String, expression: &String, value: Option<String>) -> (r: ToolResult)
    ensures
        r.call_id == call_id,
        value matches Some(v) ==> r.outcome.succeeded_with(calculation_text(expression@, v@)),
        value is None ==> r.outcome.failed_with(evaluation_summary()),
{
    tool_result(call_id, calculator_output(expression, value))
}

/// Where a dispatched call stands.
pub enum Dispatch {
    /// The call is answered.
    Ready(ToolResult),
    /// The calculator must still evaluate `plan`, made from `expression`.
    Evaluate { call_id: String, expression: String, plan: Evaluation },
}

/// Tool names are pairwise distinct.
pub open spec fn names_unique(defs: Seq<ToolDefinition>) -> bool {
    forall|i: int, j: int|
        0 <= i < defs.len() && 0 <= j < defs.len() && i != j ==> #[trigger] defs[i].name@ != #[trigger] defs[j].name@
}

pub open spec fn has_name(defs: Seq<ToolDefinition>, name: Seq<char>) -> bool {
    exists|i: int| 0 <= i < defs.len() && #[trigger] defs[i].name@ == name
}

/// The definitions after registering `d`, or `None` where its name is taken.
pub open spec fn after_register(defs: Seq<ToolDefinition>, d: ToolDefinition) -> Option<Seq<ToolDefinition>> {
    if has_name(defs, d.name@) {
        None
    } else {
        Some(defs.push(d))
    }
}

/// The definitions after registering each of `ds` in turn, or `None` where one fails.
pub open spec fn register_all(defs: Seq<ToolDefinition>, ds: Seq<ToolDefinition>) -> Option<Seq<ToolDefinition>>
    decreases ds.len(),
{
    if ds.len() == 0 {
        Some(defs)
    } else {
        match after_register(defs, ds[0]) {
            Some(next) => register_all(next, ds.drop_first()),
            None => None,
        }
    }
}

/// An agent's tools, in registration order, with distinct names.
pub struct ToolRegistry {
    definitions: Vec<ToolDefinition>,
    kinds: Vec<ToolKind>,
}

impl ToolRegistry {
    /// The definitions of the registered tools, in registration order.
    pub closed spec fn spec_definitions(&self) -> Seq<ToolDefinition> {
        self.definitions@
    }

    /// The kinds of the registered tools, in registration order.
    pub closed spec fn spec_kinds(&self) -> Seq<ToolKind> {
        self.kinds@
    }

    pub open spec fn wf(&self) -> bool {
        &&& self.spec_kinds().len() == self.spec_definitions().len()
        &&& names_unique(self.spec_definitions())
    }

    /// The kind of the tool registered under `name`.
    pub open spec fn spec_tool_kind(&self, name: Seq<char>) -> Option<ToolKind> {
        if has_name(self.spec_definitions(), name) {
            let i = choose|i: int|
                0 <= i < self.spec_definitions().len() && #[trigger] self.spec_definitions()[i].name@
                    == name;
            Some(self.spec_kinds()[i])
        } else {
            None
        }
    }

    pub fn new() -> (r: ToolRegistry)
        ensures
            r.wf(),
            r.spec_definitions().len() == 0,
    {
        ToolRegistry { definitions: Vec::new(), kinds: Vec::new() }
    }

    /// Position of the tool registered under `name`.
    fn position(&self, name: &String) -> (r: Option<usize>)
        requires
            self.wf(),
        ensures
            r matches Some(i) ==> i < self.spec_definitions().len()
                && self.spec_definitions()[i as int].name@ == name@,
            r is None ==> !has_name(self.spec_definitions(), name@),
    {
        let mut i: usize = 0;
        while i < self.definitions.len()
            invariant
                i <= self.definitions@.len(),
                forall|j: int| 0 <= j < i ==> #[trigger] self.definitions@[j].name@ != name@,
            decreases self.definitions@.len() - i,
        {
            if self.definitions[i].name == *name {
                return Some(i);
            }
            i = i + 1;
        }
        None
    }

    /// Adds a tool, unless its name is taken.
    pub fn register(&mut self, tool: Tool) -> (r: Result<(), RegistryError>)
        requires
            old(self).wf(),
        ensures
            final(self).wf(),
            match after_register(old(self).spec_definitions(), tool.definition) {
                Some(next) => {
                    &&& r is Ok
                    &&& final(self).spec_definitions() == next
                    &&& final(self).spec_kinds() == old(self).spec_kinds().push(tool.kind)
                },
                None => {
                    &&& r matches Err(RegistryError::DuplicateToolName(n)) && n@ == tool.definition.name@
                    &&& *final(self) == *old(self)
                },
            },
    {
        match self.position(&tool.definition.name) {
            Some(_) => Err(RegistryError::DuplicateToolName(tool.definition.name)),
            None => {
                let Tool { kind, definition } = tool;
                self.definitions.push(definition);
                self.kinds.push(kind);
                assert(forall|j: int| 0 <= j < old(self).definitions@.len() ==>
                    #[trigger] self.definitions@[j] == old(self).definitions@[j]);
                Ok(())
            },
        }
    }

    /// The definitions to send with the next model request, in registration order.
    pub fn definitions(&self) -> (r: &Vec<ToolDefinition>)
        ensures
            r@ == self.spec_definitions(),
    {
        &self.definitions
    }

    /// The kind of the tool registered under `name`.
    pub fn tool_kind(&self, name: &String) -> (r: Option<ToolKind>)
        requires
            self.wf(),
        ensures
            r == self.spec_tool_kind(name@),
    {
        match self.position(name) {
            Some(i) => {
                let ghost j = choose|j: int|
                    0 <= j < self.spec_definitions().len() && #[trigger] self.spec_definitions()[j].name@
                        == name@;
                assert(j == i as int);
                Some(self.kinds[i])
            },
            None => None,
        }
    }

    /// Looks the called tool up, checks its arguments, and runs it as far as
    /// the library can: failures and weather reports are answered at once, a
    /// calculation is returned planned for evaluation.
    pub fn dispatch(&self, call: &ToolCall) -> (r: Dispatch)
        requires
            self.wf(),
        ensures
            match call_model(self.spec_tool_kind(call.name@), call.arguments) {
                CallModel::Unknown => r matches Dispatch::Ready(res) && res.call_id@ == call.id@
                    && res.outcome.failed_with(unknown_tool_summary(call.name@)),
                CallModel::BadArguments(key) => r matches Dispatch::Ready(res) && res.call_id@ == call.id@
                    && res.outcome.failed_with(bad_arguments_summary(key)),
                CallModel::Evaluate(text) => r matches Dispatch::Evaluate { call_id, expression, plan }
                    && call_id@ == call.id@ && expression@ == text && plan@ == plan_of(cleaned(text)),
                CallModel::Report(city) => r matches Dispatch::Ready(res) && res.call_id@ == call.id@
                    && res.outcome.succeeded_with(weather_of(city)),
            },
    {
        let id = call.id.clone();
        match self.tool_kind(&call.name) {
            None => Dispatch::Ready(tool_result(id, Err(ToolError::UnknownTool(call.name.clone())))),
            Some(kind) => {
                let key = match kind {
                    ToolKind::Calculator => String::from_str("expression"),
                    ToolKind::Weather => String::from_str("city"),
                };
                match find_text_arg(&call.arguments, &key) {
                    None => Dispatch::Ready(tool_result(id, Err(ToolError::ArgumentParseError(key)))),
                    Some(text) => match kind {
                        ToolKind::Calculator => Dispatch::Evaluate {
                            call_id: id,
                            expression: text.clone(),
                            plan: plan_expression(text.as_str()),
                        },
                        ToolKind::Weather => Dispatch::Ready(tool_result(id, Ok(weather_report(text)))),
                    },
                }
            },
        }
    }
}

} // verus!
