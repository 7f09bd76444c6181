use budget_explorer::ai::agent::{
    contains_valid_response, extract_json, format_tool_result, friendly_tool_name, parse_tool_call,
    missing_agent_part, AgentAction, AgentError, AgentEvent, AgentRun, ConversationMemory, ParseError,
};
use budget_explorer::ai::{LLMError, LLMResponse, ToolCall};
use budget_explorer::tools::{ToolRegistry, ToolResult};

// ConversationMemory

#[test]
fn conversation_memory_initializes() {
    let mut memory = ConversationMemory::new();
    assert_eq!(memory.turn_count(), 0);
    memory.init("system prompt", "user message");
    assert_eq!(memory.get_messages().len(), 2);
}

#[test]
fn conversation_memory_tracks_turns() {
    let mut memory = ConversationMemory::new();
    memory.init("system", "user");
    assert_eq!(memory.turn_count(), 0);
    memory.increment_turn();
    assert_eq!(memory.turn_count(), 1);
    memory.increment_turn();
    assert_eq!(memory.turn_count(), 2);
}

#[test]
fn conversation_memory_adds_assistant_response() {
    let mut memory = ConversationMemory::new();
    memory.init("system", "user");
    memory.add_assistant_response("assistant response");
    assert_eq!(memory.get_messages().len(), 3);
    assert_eq!(memory.get_messages()[2].role, "assistant");
}

#[test]
fn conversation_memory_adds_tool_result() {
    let mut memory = ConversationMemory::new();
    memory.init("system", "user");
    memory.add_tool_result("get_plans", "result data");
    assert_eq!(memory.get_messages().len(), 3);
    assert_eq!(memory.get_messages()[2].role, "user");
    assert!(memory.get_messages()[2].content.contains("get_plans"));
}

#[test]
fn conversation_memory_adds_parse_error_hint() {
    let mut memory = ConversationMemory::new();
    memory.init("system", "user");
    memory.add_parse_error_hint("No JSON found");
    assert_eq!(memory.get_messages().len(), 3);
    assert!(memory.get_messages()[2].content.contains("Parse error"));
}

#[test]
fn conversation_memory_message_texts() {
    let mut memory = ConversationMemory::default();
    memory.init("sys", "hi");
    memory.add_tool_result("get_plans", "[]");
    memory.add_parse_error_hint("oops");
    let m = memory.get_messages();
    assert_eq!(m[0].role, "system");
    assert_eq!(m[0].content, "sys");
    assert_eq!(m[1].role, "user");
    assert_eq!(m[1].content, "hi");
    assert_eq!(m[2].content, "Tool result for get_plans:\n[]");
    assert_eq!(m[3].content, "Parse error: oops\n\nPlease respond with a valid tool call JSON.");
}

// ParseError

#[test]
fn parse_error_to_hint_no_json() {
    let err = ParseError::NoJsonFound;
    let hint = err.to_hint();
    assert!(hint.contains("JSON tool call"));
}

#[test]
fn parse_error_to_hint_malformed() {
    let err = ParseError::MalformedJson("unexpected token".to_string());
    let hint = err.to_hint();
    assert!(hint.contains("Invalid JSON"));
}

#[test]
fn parse_error_to_hint_missing_field() {
    let err = ParseError::MissingField("name".to_string());
    let hint = err.to_hint();
    assert!(hint.contains("name"));
}

#[test]
fn parse_error_to_hint_unknown_tool() {
    let err = ParseError::UnknownTool("fake_tool".to_string());
    let hint = err.to_hint();
    assert!(hint.contains("fake_tool"));
    assert!(hint.contains("Unknown tool"));
}

#[test]
fn parse_error_hints_exact() {
    assert_eq!(
        ParseError::NoJsonFound.to_hint(),
        "Your response must include a JSON tool call in this format: {\"name\": \"tool_name\", \"arguments\": {}}"
    );
    assert_eq!(
        ParseError::MalformedJson("x".to_string()).to_hint(),
        "Invalid JSON format: x. Make sure to use valid JSON with double quotes."
    );
    assert_eq!(
        ParseError::MissingField("f".to_string()).to_hint(),
        "Missing required field 'f'. Include both 'name' and 'arguments' fields."
    );
    assert_eq!(
        ParseError::ToolExecutionFailed("boom".to_string()).to_hint(),
        "Tool execution failed: boom"
    );
    assert!(ParseError::UnknownTool("t".to_string()).to_hint().starts_with("Unknown tool 't'. Available tools: get_plans,"));
}

// extract_json

#[test]
fn extract_json_parses_plain_json() {
    let text = r#"{"name": "get_plans", "arguments": {}}"#;
    let result = extract_json(text);
    assert!(result.is_some());
}

#[test]
fn extract_json_parses_json_in_markdown_code_block() {
    let text = r#"Here is the tool call:
```json
{"name": "get_plans", "arguments": {}}
```
 "#;
    let result = extract_json(text);
    let json = result.unwrap();
    assert!(json.contains("get_plans"));
}

#[test]
fn extract_json_finds_json_inside_text() {
    let text = r#"I need to call {"name": "get_categories", "arguments": {"plan_id": "abc123"}} to get your categories."#;
    let result = extract_json(text);
    assert!(result.is_some());
}

#[test]
fn extract_json_handles_nested_objects() {
    let text = r#"{"name": "get_transactions", "arguments": {"plan_id": "plan-1", "start_date": "2026-04-01", "filters": {"category": "groceries"}}}"#;
    let result = extract_json(text);
    assert!(result.is_some());
}

#[test]
fn extract_json_returns_none_for_plain_text() {
    let text = "This is just plain text with no JSON.";
    let result = extract_json(text);
    assert!(result.is_none());
}

#[test]
fn extract_json_returns_none_for_incomplete_json() {
    let text = r#"{"name": "test", "arguments": {"foo"#;
    let result = extract_json(text);
    assert!(result.is_none());
}

#[test]
fn extract_json_handles_multiline_code_block() {
    let text = r#"I'll get your transactions:
```json
{
  "name": "get_transactions",
  "arguments": {
    "plan_id": "plan-1"
  }
}
```
Let me know if you need anything else!"#;
    let result = extract_json(text);
    assert!(result.is_some());
}

#[test]
fn extract_json_returns_none_for_unclosed_braces() {
    let text = r#"{"name": "test", "arguments": {"foo": "bar"}"#;
    let result = extract_json(text);
    assert!(result.is_none());
}

#[test]
fn extract_json_exact_results() {
    // The whole text, when it is JSON.
    assert_eq!(extract_json(" [1, 2] ").as_deref(), Some(" [1, 2] "));
    // A trimmed line that is a JSON object.
    assert_eq!(extract_json("call:\n   {\"a\": 1}  \ndone").as_deref(), Some("{\"a\": 1}"));
    // A fenced block, each line with its newline.
    assert_eq!(
        extract_json("x\n```json\n{\n\"a\": [1]\n}\n```\n").as_deref(),
        Some("{\n\"a\": [1]\n}\n")
    );
    // The first balanced block inside a line.
    assert_eq!(extract_json("say {\"b\": {\"c\": 2}} now").as_deref(), Some("{\"b\": {\"c\": 2}}"));
    // The first balanced block is not JSON: nothing is found.
    assert_eq!(extract_json("say {not json} then {\"a\": 1} x"), None);
}

// format_tool_result

#[test]
fn format_tool_result_returns_data_on_success() {
    let result = ToolResult {
        tool: "get_plans".to_string(),
        success: true,
        data: Some(r#"[{"id": "plan-1", "name": "My Budget"}]"#.to_string()),
        error: None,
    };
    let formatted = format_tool_result(&result);
    assert!(formatted.contains("plan-1"));
}

#[test]
fn format_tool_result_returns_no_data_message_when_empty() {
    let result = ToolResult { tool: "get_plans".to_string(), success: true, data: None, error: None };
    let formatted = format_tool_result(&result);
    assert_eq!(formatted, "No data returned");
}

#[test]
fn format_tool_result_returns_error_on_failure() {
    let result = ToolResult {
        tool: "get_plans".to_string(),
        success: false,
        data: None,
        error: Some("Network error: connection refused".to_string()),
    };
    let formatted = format_tool_result(&result);
    assert!(formatted.contains("Error"));
}

#[test]
fn format_tool_result_returns_unknown_error_when_no_message() {
    let result = ToolResult { tool: "get_plans".to_string(), success: false, data: None, error: None };
    let formatted = format_tool_result(&result);
    assert_eq!(formatted, "Unknown error");
}

#[test]
fn format_tool_result_error_text() {
    let result = ToolResult::error("get_plans", "boom");
    assert_eq!(format_tool_result(&result), "Error: boom");
}

// contains_valid_response

#[test]
fn contains_valid_response_true_for_plain_text() {
    assert!(contains_valid_response("Hello, how can I help you?"));
}

#[test]
fn contains_valid_response_false_for_json_name() {
    assert!(!contains_valid_response(r#"{"name": "get_plans"}"#));
}

#[test]
fn contains_valid_response_false_for_json_tool_name() {
    assert!(!contains_valid_response(r#"{"tool_name": "get_plans"}"#));
}

#[test]
fn contains_valid_response_false_for_json_array() {
    assert!(!contains_valid_response(r#"[{"name": "test"}]"#));
}

#[test]
fn contains_valid_response_brace_ratio() {
    // 4 braces in 12 bytes is more than 30%.
    assert!(!contains_valid_response("a{}b{}cdefgh"));
    // 2 braces in 12 bytes is not.
    assert!(contains_valid_response("a{}bcdefghij"));
    // Short texts are never judged by the ratio.
    assert!(contains_valid_response("x{}{}"));
    assert!(contains_valid_response("The call {\"name\" is quoted"));
    assert!(!contains_valid_response("see {\"name\": 1}"));
}

#[test]
fn friendly_tool_names() {
    assert_eq!(friendly_tool_name("get_plans"), "Fetching budget plans");
    assert_eq!(friendly_tool_name("search_payee_transactions"), "Searching transactions");
    assert_eq!(friendly_tool_name("something_else"), "Running tool");
}

// parse_tool_call

#[test]
fn parse_tool_call_reads_name_and_arguments() {
    let registry = ToolRegistry::new();
    let call = parse_tool_call(r#"{"name": "get_plan", "arguments": {"plan_id": "p1"}}"#, &registry).ok().unwrap();
    assert_eq!(call.name, "get_plan");
    assert_eq!(call.arguments, r#"{"plan_id":"p1"}"#);
    let call = parse_tool_call(r#"ok {"tool_name": "get_plans"} thanks"#, &registry).ok().unwrap();
    assert_eq!(call.name, "get_plans");
    assert_eq!(call.arguments, "{}");
}

#[test]
fn parse_tool_call_errors() {
    let registry = ToolRegistry::new();
    assert!(matches!(parse_tool_call("no json here", &registry), Err(ParseError::NoJsonFound)));
    match parse_tool_call(r#"{"arguments": {}}"#, &registry) {
        Err(ParseError::MissingField(f)) => assert_eq!(f, "name/tool_name"),
        _ => panic!("expected a missing field"),
    }
    match parse_tool_call(r#"{"name": 5, "tool_name": "get_plans"}"#, &registry) {
        Err(ParseError::MissingField(f)) => assert_eq!(f, "name/tool_name"),
        _ => panic!("expected a missing field"),
    }
    match parse_tool_call(r#"{"name": "fly_to_moon"}"#, &registry) {
        Err(ParseError::UnknownTool(n)) => assert_eq!(n, "fly_to_moon"),
        _ => panic!("expected an unknown tool"),
    }
}

// AgentError

#[test]
fn agent_error_messages() {
    assert_eq!(
        AgentError::MaxIterationsReached(7).message(),
        "Max tool-calling iterations reached after 7 turns"
    );
    assert_eq!(
        AgentError::Llm(LLMError::Network("down".to_string())).message(),
        "LLM error: Network error: down"
    );
    assert_eq!(AgentError::Llm(LLMError::EmptyResponse).message(), "LLM error: Empty response from LLM");
}

// The agent loop's decisions

fn reply(content: &str) -> AgentEvent {
    AgentEvent::ModelReplied(LLMResponse { content: content.to_string(), tool_calls: None })
}

fn ok_result(tool: &str, data: &str) -> AgentEvent {
    AgentEvent::ToolFinished(ToolResult::success(tool, Some(data.to_string())))
}

#[test]
fn agent_run_answers_after_a_text_tool_call() {
    let registry = ToolRegistry::new();
    let (mut run, action) = AgentRun::start(ConversationMemory::new(), 10, "What plans?", "SYS");
    assert!(matches!(action, AgentAction::AskModel));
    let action = run.step(&registry, reply(r#"{"name": "get_plans", "arguments": {}}"#));
    match action {
        AgentAction::RunTool { name, arguments, progress } => {
            assert_eq!(name, "get_plans");
            assert_eq!(arguments, "{}");
            assert_eq!(progress, "Fetching budget plans");
        }
        _ => panic!("expected a tool run"),
    }
    let action = run.step(&registry, ok_result("get_plans", "[\"Home\"]"));
    assert!(matches!(action, AgentAction::AskModel));
    let action = run.step(&registry, reply("You have one plan: Home."));
    match action {
        AgentAction::Finish(Ok(answer)) => assert_eq!(answer, "You have one plan: Home."),
        _ => panic!("expected an answer"),
    }
    let memory = run.into_memory();
    assert_eq!(memory.turn_count(), 1);
    let m = memory.get_messages();
    assert_eq!(m.len(), 5);
    assert_eq!(m[2].role, "assistant");
    assert_eq!(m[3].content, "Tool result for get_plans:\n[\"Home\"]");
    assert_eq!(m[4].role, "assistant");
    assert_eq!(m[4].content, "You have one plan: Home.");
}

#[test]
fn agent_run_native_calls_run_in_order_and_stop_at_a_failure() {
    let registry = ToolRegistry::new();
    let (mut run, _) = AgentRun::start(ConversationMemory::new(), 3, "q", "s");
    let calls = vec![
        ToolCall { name: "get_plans".to_string(), arguments: "{}".to_string() },
        ToolCall { name: "get_accounts".to_string(), arguments: "{\"plan_id\":\"p\"}".to_string() },
        ToolCall { name: "get_payees".to_string(), arguments: "{}".to_string() },
    ];
    let action = run.step(&registry, AgentEvent::ModelReplied(LLMResponse { content: String::new(), tool_calls: Some(calls) }));
    assert!(matches!(action, AgentAction::RunTool { ref name, .. } if name == "get_plans"));
    let action = run.step(&registry, ok_result("get_plans", "[]"));
    match action {
        AgentAction::RunTool { name, arguments, .. } => {
            assert_eq!(name, "get_accounts");
            assert_eq!(arguments, "{\"plan_id\":\"p\"}");
        }
        _ => panic!("expected the second call"),
    }
    let action = run.step(&registry, AgentEvent::ToolFinished(ToolResult::error("get_accounts", "API error 404")));
    assert!(matches!(action, AgentAction::AskModel));
    let memory = run.memory();
    assert_eq!(memory.turn_count(), 2);
    let m = memory.get_messages();
    assert_eq!(m.len(), 5);
    assert_eq!(m[3].content, "Tool result for get_accounts:\nError: API error 404");
    assert_eq!(m[4].content, "Parse error: Error: API error 404\n\nPlease respond with a valid tool call JSON.");
}

#[test]
fn agent_run_gives_up_at_the_limit() {
    let registry = ToolRegistry::new();
    let (mut run, _) = AgentRun::start(ConversationMemory::new(), 2, "q", "s");
    let action = run.step(&registry, reply("{\"oops\": true}"));
    assert!(matches!(action, AgentAction::AskModel));
    let action = run.step(&registry, reply("{\"name\": \"nope\"}"));
    match action {
        AgentAction::Finish(Err(AgentError::MaxIterationsReached(turns))) => assert_eq!(turns, 0),
        _ => panic!("expected the limit"),
    }
    let memory = run.into_memory();
    let m = memory.get_messages();
    assert_eq!(m.len(), 6);
    assert!(m[3].content.contains("Missing required field 'name/tool_name'"));
    assert!(m[5].content.contains("Unknown tool 'nope'"));
}

#[test]
fn agent_run_with_no_iterations_stops_at_once() {
    let (run, action) = AgentRun::start(ConversationMemory::new(), 0, "q", "s");
    assert!(matches!(action, AgentAction::Finish(Err(AgentError::MaxIterationsReached(0)))));
    assert_eq!(run.memory().get_messages().len(), 2);
}

#[test]
fn agent_run_reports_model_failure() {
    let registry = ToolRegistry::new();
    let (mut run, _) = AgentRun::start(ConversationMemory::new(), 5, "q", "s");
    let action = run.step(&registry, AgentEvent::ModelFailed(LLMError::Auth("bad key".to_string())));
    match action {
        AgentAction::Finish(Err(AgentError::Llm(LLMError::Auth(m)))) => assert_eq!(m, "bad key"),
        _ => panic!("expected the model's error"),
    }
    assert_eq!(run.memory().get_messages().len(), 2);
}

#[test]
fn agent_run_text_call_failure_adds_hint() {
    let registry = ToolRegistry::new();
    let (mut run, _) = AgentRun::start(ConversationMemory::new(), 5, "q", "s");
    let _ = run.step(&registry, reply("```json\n{\"name\": \"get_month\", \"arguments\": {\"month\": \"2026-04\"}}\n```"));
    let action = run.step(&registry, AgentEvent::ToolFinished(ToolResult { tool: "get_month".to_string(), success: false, data: None, error: None }));
    assert!(matches!(action, AgentAction::AskModel));
    let m = run.memory().get_messages();
    assert_eq!(m.len(), 5);
    assert_eq!(m[3].content, "Tool result for get_month:\nUnknown error");
    assert_eq!(m[4].content, "Parse error: Unknown error\n\nPlease respond with a valid tool call JSON.");
}

#[test]
fn contains_valid_response_ratio_matches_fraction() {
    for total in 2usize..160 {
        for braces in 0..total {
            let text: String = std::iter::once('x')
                .chain(std::iter::repeat('}').take(braces))
                .chain(std::iter::repeat('y').take(total - 1 - braces))
                .collect();
            let expected = !(total > 10 && braces as f64 / total as f64 > 0.3);
            assert_eq!(contains_valid_response(&text), expected, "{} of {}", braces, total);
        }
    }
    // Multi-byte characters count by their UTF-8 bytes.
    // 4 braces in 14 bytes (9 characters) is not more than 30%.
    assert!(contains_valid_response("é{}{}éééé"));
    // 4 braces in 12 bytes is.
    assert!(!contains_valid_response("e{}{}eeeeeee"));
}

#[test]
fn extract_json_again_gives_the_same() {
    for text in [
        "call:\n   {\"a\": 1}  \ndone",
        "x\n```json\n{\n\"a\": [1]\n}\n```\n",
        "say {\"b\": {\"c\": 2}} now",
        "{\"name\": \"get_plans\"}",
    ] {
        let once = extract_json(text).unwrap();
        assert_eq!(extract_json(&once).as_deref(), Some(once.as_str()));
    }
}

#[test]
fn llm_error_converts_to_agent_error() {
    let e: AgentError = LLMError::Parse("x".to_string()).into();
    match e {
        AgentError::Llm(LLMError::Parse(m)) => assert_eq!(m, "x"),
        _ => panic!("expected the LLM error"),
    }
}

#[test]
fn agent_parts_are_asked_for_in_order() {
    assert_eq!(missing_agent_part(false, true), Some("registry is required"));
    assert_eq!(missing_agent_part(false, false), Some("registry is required"));
    assert_eq!(missing_agent_part(true, false), Some("llm is required"));
    assert_eq!(missing_agent_part(true, true), None);
}

#[test]
fn memory_after_a_sequence_of_calls() {
    let mut memory = ConversationMemory::new();
    memory.init("S", "U");
    memory.add_tool_result("get_plans", "[]");
    memory.increment_turn();
    memory.add_assistant_response("a");
    memory.increment_turn();
    memory.add_parse_error_hint("h");
    memory.increment_turn();
    let m = memory.get_messages();
    assert_eq!(m.len(), 2 + 3);
    assert_eq!((m[0].role.as_str(), m[0].content.as_str()), ("system", "S"));
    assert_eq!((m[1].role.as_str(), m[1].content.as_str()), ("user", "U"));
    assert_eq!(memory.turn_count(), 3);
}

#[test]
fn a_run_asks_the_model_at_most_max_times() {
    let registry = ToolRegistry::new();
    for max in 0u32..5 {
        let (mut run, mut action) = AgentRun::start(ConversationMemory::new(), max, "q", "s");
        let mut asks = 0;
        loop {
            match action {
                AgentAction::AskModel => {
                    asks += 1;
                    action = run.step(&registry, reply("{\"name\": \"get_plans\"}"));
                }
                AgentAction::RunTool { .. } => {
                    action = run.step(&registry, ok_result("get_plans", "[]"));
                }
                AgentAction::Finish(Err(AgentError::MaxIterationsReached(turns))) => {
                    assert_eq!(asks, max);
                    assert_eq!(turns, max);
                    break;
                }
                AgentAction::Finish(_) => panic!("expected the limit"),
            }
        }
    }
}
