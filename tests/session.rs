use tool_agent::registry::{Dispatch, ToolRegistry};
use tool_agent::session::{correlate, run_script, Agent, AgentError, AssistantReply, Phase, Turn};
use tool_agent::tool::{ArgField, ArgValue, Outcome, RawArguments, Tool, ToolCall, ToolResult};

fn weather_call(id: &str, city: &str) -> ToolCall {
    ToolCall {
        id: id.to_string(),
        name: "get_weather".to_string(),
        arguments: RawArguments::Object(vec![ArgField {
            key: "city".to_string(),
            value: ArgValue::Text(city.to_string()),
        }]),
    }
}

fn ok(id: &str, text: &str) -> ToolResult {
    ToolResult { call_id: id.to_string(), outcome: Outcome::Success(text.to_string()) }
}

fn agent(max: usize) -> Agent {
    let mut registry = ToolRegistry::new();
    assert!(registry.register(Tool::weather()).is_ok());
    assert!(registry.register(Tool::calculator()).is_ok());
    Agent::new("You are a helpful assistant.".to_string(), registry, max)
}

/// A completion client that answers from a script and records every request.
struct ScriptedClient {
    replies: Vec<Result<AssistantReply, String>>,
    requests: Vec<(usize, Vec<String>)>,
}

impl ScriptedClient {
    fn complete(&mut self, history: &[Turn], tools: &[tool_agent::tool::ToolDefinition]) -> Result<AssistantReply, String> {
        self.requests.push((history.len(), tools.iter().map(|d| d.name.clone()).collect()));
        self.replies.remove(0)
    }
}

/// Runs the loop to its end, answering weather calls in reverse order.
fn run(agent: &Agent, prompt: &str, client: &mut ScriptedClient) -> (Phase, usize, Vec<Turn>) {
    let mut s = agent.start(prompt.to_string());
    loop {
        match s.phase() {
            Phase::AwaitingModel => {
                let reply = client.complete(s.history(), agent.definitions());
                s.on_reply(reply);
            }
            Phase::ExecutingTools => {
                let mut done = Vec::new();
                for c in s.pending_calls().iter().rev() {
                    match agent.registry.dispatch(c) {
                        Dispatch::Ready(r) => done.push(r),
                        Dispatch::Evaluate { .. } => panic!("no calculation in this script"),
                    }
                }
                s.on_tool_results(done);
            }
            _ => break,
        }
    }
    let iterations = s.iterations();
    let history = s.history().iter().map(|t| match t {
        Turn::System(x) => Turn::System(x.clone()),
        Turn::User(x) => Turn::User(x.clone()),
        Turn::Assistant { text, calls } => Turn::Assistant {
            text: text.clone(),
            calls: calls.iter().map(|c| ToolCall { id: c.id.clone(), name: c.name.clone(), arguments: RawArguments::NotObject }).collect(),
        },
        Turn::ToolResults(rs) => Turn::ToolResults(
            rs.iter()
                .map(|r| ToolResult {
                    call_id: r.call_id.clone(),
                    outcome: match &r.outcome {
                        Outcome::Success(m) => Outcome::Success(m.clone()),
                        Outcome::Failure(m) => Outcome::Failure(m.clone()),
                    },
                })
                .collect(),
        ),
    }).collect();
    let phase = match s.phase() {
        Phase::Done(t) => Phase::Done(t.clone()),
        Phase::Failed(AgentError::MaxIterationsExceeded) => Phase::Failed(AgentError::MaxIterationsExceeded),
        Phase::Failed(AgentError::Transport(e)) => Phase::Failed(AgentError::Transport(e.clone())),
        _ => unreachable!(),
    };
    (phase, iterations, history)
}

fn tools_reply(n: usize) -> Result<AssistantReply, String> {
    Ok(AssistantReply {
        text: String::new(),
        calls: (0..n).map(|i| weather_call(&format!("call{}", i), "Beijing")).collect(),
    })
}

#[test]
fn reply_without_calls_is_final() {
    let a = agent(3);
    let mut client = ScriptedClient {
        replies: vec![Ok(AssistantReply { text: "Hello!".to_string(), calls: vec![] })],
        requests: vec![],
    };
    let (phase, iterations, history) = run(&a, "Hi", &mut client);
    assert!(matches!(phase, Phase::Done(ref t) if t == "Hello!"));
    assert_eq!(iterations, 0);
    assert_eq!(history.len(), 3);
    assert!(matches!(&history[0], Turn::System(p) if p == "You are a helpful assistant."));
    assert!(matches!(&history[1], Turn::User(p) if p == "Hi"));
    assert_eq!(client.requests.len(), 1);
}

#[test]
fn endless_tool_calls_stop_at_the_bound() {
    let a = agent(3);
    let mut client = ScriptedClient { replies: (0..10).map(|_| tools_reply(1)).collect(), requests: vec![] };
    let (phase, iterations, history) = run(&a, "Loop", &mut client);
    assert!(matches!(phase, Phase::Failed(AgentError::MaxIterationsExceeded)));
    assert_eq!(iterations, 3);
    assert_eq!(client.requests.len(), 3);
    assert_eq!(history.len(), 2 + 3 * 2);
}

#[test]
fn bound_of_one_allows_one_round() {
    let a = agent(1);
    let mut client = ScriptedClient { replies: vec![tools_reply(2), tools_reply(2)], requests: vec![] };
    let (phase, iterations, _) = run(&a, "Loop", &mut client);
    assert!(matches!(phase, Phase::Failed(AgentError::MaxIterationsExceeded)));
    assert_eq!(iterations, 1);
    assert_eq!(client.requests.len(), 1);
}

#[test]
fn transport_failure_is_passed_on() {
    let a = agent(3);
    let mut client = ScriptedClient { replies: vec![tools_reply(1), Err("connection reset".to_string())], requests: vec![] };
    let (phase, iterations, _) = run(&a, "Hi", &mut client);
    assert!(matches!(phase, Phase::Failed(AgentError::Transport(ref e)) if e == "connection reset"));
    assert_eq!(iterations, 1);
}

#[test]
fn tool_round_answers_every_call_by_id() {
    let a = agent(5);
    let mut client = ScriptedClient {
        replies: vec![
            tools_reply(4),
            Ok(AssistantReply { text: "Sunny everywhere.".to_string(), calls: vec![] }),
        ],
        requests: vec![],
    };
    let (phase, iterations, history) = run(&a, "Weather?", &mut client);
    assert!(matches!(phase, Phase::Done(ref t) if t == "Sunny everywhere."));
    assert_eq!(iterations, 1);
    match &history[3] {
        Turn::ToolResults(rs) => {
            let ids: Vec<&str> = rs.iter().map(|r| r.call_id.as_str()).collect();
            assert_eq!(ids, vec!["call0", "call1", "call2", "call3"]);
        }
        _ => panic!("expected the tool results"),
    }
}

#[test]
fn correlation_ignores_completion_order() {
    let calls = vec![weather_call("a", "Beijing"), weather_call("b", "Shanghai"), weather_call("c", "Oslo")];
    let done = vec![ok("c", "third"), ok("a", "first"), ok("b", "second")];
    let rs = correlate(&calls, done);
    assert_eq!(rs.len(), 3);
    let got: Vec<(String, String)> = rs
        .iter()
        .map(|r| match &r.outcome {
            Outcome::Success(m) => (r.call_id.clone(), m.clone()),
            Outcome::Failure(m) => (r.call_id.clone(), m.clone()),
        })
        .collect();
    assert_eq!(
        got,
        vec![
            ("a".to_string(), "first".to_string()),
            ("b".to_string(), "second".to_string()),
            ("c".to_string(), "third".to_string())
        ]
    );
}

#[test]
fn missing_result_becomes_a_failure() {
    let calls = vec![weather_call("a", "Beijing"), weather_call("b", "Shanghai")];
    let rs = correlate(&calls, vec![ok("b", "second"), ok("z", "stray")]);
    assert_eq!(rs.len(), 2);
    assert_eq!(rs[0].call_id, "a");
    assert!(matches!(rs[0].outcome, Outcome::Failure(ref m) if m == "no result was produced for this call"));
    assert!(matches!(rs[1].outcome, Outcome::Success(ref m) if m == "second"));
}

#[test]
fn repeated_ids_each_get_their_own_result() {
    let calls = vec![weather_call("x", "Beijing"), weather_call("x", "Shanghai")];
    let rs = correlate(&calls, vec![ok("x", "one"), ok("x", "two")]);
    assert!(matches!(rs[0].outcome, Outcome::Success(ref m) if m == "one"));
    assert!(matches!(rs[1].outcome, Outcome::Success(ref m) if m == "two"));
}

#[test]
fn requests_carry_the_registry_definitions() {
    let a = agent(2);
    let mut client = ScriptedClient {
        replies: vec![tools_reply(1), Ok(AssistantReply { text: "done".to_string(), calls: vec![] })],
        requests: vec![],
    };
    let _ = run(&a, "Hi", &mut client);
    assert_eq!(client.requests.len(), 2);
    for (n, names) in &client.requests {
        assert!(*n >= 2);
        assert_eq!(names, &vec!["get_weather".to_string(), "calculator".to_string()]);
    }
    let defs = a.definitions();
    assert_eq!(defs[0].parameters.properties[0].name, "city");
    assert_eq!(defs[1].parameters.required, vec!["expression".to_string()]);
}

fn script(n: usize) -> (Vec<AssistantReply>, Vec<Vec<ToolResult>>) {
    let replies = (0..n)
        .map(|i| AssistantReply { text: String::new(), calls: vec![weather_call(&format!("r{}", i), "北京")] })
        .collect();
    let results = (0..n).map(|i| vec![ok(&format!("r{}", i), "晴")]).collect();
    (replies, results)
}

#[test]
fn scripted_run_stops_at_the_bound() {
    let a = agent(3);
    let (replies, results) = script(7);
    let s = run_script(&a, "循环".to_string(), replies, results);
    assert!(matches!(s.phase(), Phase::Failed(AgentError::MaxIterationsExceeded)));
    assert_eq!(s.iterations(), 3);
    assert_eq!(s.history().len(), 2 + 3 * 2);
}

#[test]
fn scripted_run_ends_on_a_final_reply() {
    let a = agent(3);
    let (mut replies, mut results) = script(1);
    replies.push(AssistantReply { text: "完成".to_string(), calls: vec![] });
    results.push(vec![]);
    let s = run_script(&a, "你好".to_string(), replies, results);
    assert!(matches!(s.phase(), Phase::Done(ref t) if t == "完成"));
    assert_eq!(s.iterations(), 1);
}
