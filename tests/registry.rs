use tool_agent::expression::Evaluation;
use tool_agent::registry::{
    calculator_output, complete_evaluation, weather_report, Dispatch, RegistryError, ToolError,
    ToolRegistry,
};
use tool_agent::tool::{ArgField, ArgValue, Outcome, RawArguments, Tool, ToolCall};

fn call(id: &str, name: &str, key: &str, value: &str) -> ToolCall {
    ToolCall {
        id: id.to_string(),
        name: name.to_string(),
        arguments: RawArguments::Object(vec![ArgField {
            key: key.to_string(),
            value: ArgValue::Text(value.to_string()),
        }]),
    }
}

fn both() -> ToolRegistry {
    let mut r = ToolRegistry::new();
    assert!(r.register(Tool::calculator()).is_ok());
    assert!(r.register(Tool::weather()).is_ok());
    r
}

fn failure(d: Dispatch) -> (String, String) {
    match d {
        Dispatch::Ready(res) => match res.outcome {
            Outcome::Failure(m) => (res.call_id, m),
            Outcome::Success(_) => panic!("expected a failure"),
        },
        Dispatch::Evaluate { .. } => panic!("expected an answer"),
    }
}

#[test]
fn duplicate_name_is_refused() {
    let mut r = ToolRegistry::new();
    assert!(r.register(Tool::calculator()).is_ok());
    match r.register(Tool::calculator()) {
        Err(RegistryError::DuplicateToolName(n)) => assert_eq!(n, "calculator"),
        Ok(()) => panic!("a second calculator was registered"),
    }
    assert_eq!(r.definitions().len(), 1);
}

#[test]
fn definitions_keep_registration_order() {
    let mut r = ToolRegistry::new();
    assert!(r.register(Tool::weather()).is_ok());
    assert!(r.register(Tool::calculator()).is_ok());
    let names: Vec<&str> = r.definitions().iter().map(|d| d.name.as_str()).collect();
    assert_eq!(names, vec!["get_weather", "calculator"]);
}

#[test]
fn calculator_definition_schema() {
    let t = Tool::calculator();
    assert_eq!(t.definition.name, "calculator");
    assert_eq!(t.definition.description, "执行基础数学运算，支持加减乘除");
    assert_eq!(t.definition.parameters.properties[0].description, "要计算的数学表达式，例如: '123 + 456'");
    assert_eq!(t.definition.parameters.properties.len(), 1);
    assert_eq!(t.definition.parameters.properties[0].name, "expression");
    assert_eq!(t.definition.parameters.properties[0].kind, "string");
    assert_eq!(t.definition.parameters.required, vec!["expression".to_string()]);
}

#[test]
fn unknown_tool_is_a_failure_result() {
    let r = both();
    let (id, m) = failure(r.dispatch(&call("c1", "translator", "text", "hi")));
    assert_eq!(id, "c1");
    assert_eq!(m, "unknown tool: translator");
}

#[test]
fn missing_argument_is_a_failure_result() {
    let r = both();
    let (id, m) = failure(r.dispatch(&call("c2", "calculator", "expr", "1+1")));
    assert_eq!(id, "c2");
    assert_eq!(m, "invalid arguments: expected a string under expression");
}

#[test]
fn mistyped_argument_is_a_failure_result() {
    let r = both();
    let c = ToolCall {
        id: "c3".to_string(),
        name: "get_weather".to_string(),
        arguments: RawArguments::Object(vec![ArgField { key: "city".to_string(), value: ArgValue::Other }]),
    };
    let (_, m) = failure(r.dispatch(&c));
    assert_eq!(m, "invalid arguments: expected a string under city");
    let d = ToolCall { id: "c4".to_string(), name: "get_weather".to_string(), arguments: RawArguments::NotObject };
    let (_, m) = failure(r.dispatch(&d));
    assert_eq!(m, "invalid arguments: expected a string under city");
}

#[test]
fn weather_is_answered_at_once() {
    let r = both();
    match r.dispatch(&call("w1", "get_weather", "city", "北京")) {
        Dispatch::Ready(res) => {
            assert_eq!(res.call_id, "w1");
            assert!(matches!(res.outcome, Outcome::Success(ref m) if m == "北京今天晴朗，气温15-25°C，微风"));
        }
        _ => panic!("expected an answer"),
    }
    assert_eq!(weather_report(&"Beijing".to_string()), "抱歉，暂时无法获取该城市的天气信息");
    assert_eq!(weather_report(&"深圳".to_string()), "深圳今天阵雨，气温22-30°C，南风");
    assert_eq!(weather_report(&"上海".to_string()), "上海今天多云，气温18-28°C，东南风");
}

#[test]
fn calculator_call_is_planned() {
    let r = both();
    match r.dispatch(&call("k1", "calculator", "expression", "123 + 456")) {
        Dispatch::Evaluate { call_id, expression, plan } => {
            assert_eq!(call_id, "k1");
            assert_eq!(expression, "123 + 456");
            assert!(matches!(plan, Evaluation::Sum { .. }));
        }
        _ => panic!("expected an evaluation"),
    }
}

#[test]
fn calculation_outcomes() {
    let e = "123 + 456".to_string();
    assert_eq!(calculator_output(&e, Some("579".to_string())).ok(), Some("123 + 456 = 579".to_string()));
    assert!(matches!(calculator_output(&e, None), Err(ToolError::EvaluationError)));
    let ok = complete_evaluation("k1".to_string(), &e, Some("579".to_string()));
    assert_eq!(ok.call_id, "k1");
    assert!(matches!(ok.outcome, Outcome::Success(ref m) if m == "123 + 456 = 579"));
    let bad = complete_evaluation("k2".to_string(), &"abc".to_string(), None);
    assert!(matches!(bad.outcome, Outcome::Failure(ref m) if m == "计算错误"));
}

#[test]
fn weather_definition_schema() {
    let t = Tool::weather();
    assert_eq!(t.definition.name, "get_weather");
    assert_eq!(t.definition.description, "获取指定城市的天气信息");
    assert_eq!(t.definition.parameters.properties[0].name, "city");
    assert_eq!(t.definition.parameters.properties[0].description, "要查询天气的城市名称");
    assert_eq!(t.definition.parameters.required, vec!["city".to_string()]);
}

#[test]
fn calculator_then_weather_order() {
    let mut r = ToolRegistry::new();
    assert!(r.register(Tool::calculator()).is_ok());
    assert!(r.register(Tool::weather()).is_ok());
    let names: Vec<&str> = r.definitions().iter().map(|d| d.name.as_str()).collect();
    assert_eq!(names, vec!["calculator", "get_weather"]);
}
