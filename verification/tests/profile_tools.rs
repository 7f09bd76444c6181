use budget_explorer::ai::build_system_prompt;
use budget_explorer::ai::goal::{merge_goals, standard_goals, Goal, USER_GOAL_PRIORITY};
use budget_explorer::ai::ollama::{chat_url, model_reply, DEFAULT_BASE_URL};
use budget_explorer::ai::{LLMError, LLMResponse, ToolCall};
use budget_explorer::cli::{chat_input, env_assignments, plan_line};
use budget_explorer::config::Config;
use budget_explorer::profile::{
    apply_goals_update, AdviceStyle, Onboarding, OnboardingReply, OnboardingStage, Tone, UserProfile,
};
use budget_explorer::tools::{ToolRegistry, ToolRequest, ToolResult};
use budget_explorer::ynab::types::Plan;

// Profile

#[test]
fn default_profile_creates_valid_profile() {
    let profile = UserProfile::default_profile();
    assert_eq!(profile.version, "1.0");
    assert!(!profile.goals.is_empty());
    assert!(!profile.concerns.is_empty());
    assert_eq!(profile.advice_style, AdviceStyle::Summary);
    assert_eq!(profile.tone, Tone::Friendly);
}

#[test]
fn default_profile_has_sensible_defaults() {
    let profile = UserProfile::default_profile();
    assert!(profile.goals.contains(&"Track spending".to_string()));
    assert!(profile.concerns.contains(&"Reduce unnecessary spending".to_string()));
}

#[test]
fn onboarding_collects_answers() {
    let mut w = Onboarding::new();
    assert_eq!(w.stage, OnboardingStage::Goals);
    assert_eq!(w.answer("  Save for a car "), OnboardingReply::Again);
    assert_eq!(w.answer("Pay off debt"), OnboardingReply::Again);
    assert_eq!(w.answer("DONE"), OnboardingReply::Next);
    assert_eq!(w.stage, OnboardingStage::Concerns);
    assert_eq!(w.answer(""), OnboardingReply::Next);
    assert_eq!(w.stage, OnboardingStage::AdviceStyle);
    assert_eq!(w.answer("4"), OnboardingReply::Invalid);
    assert_eq!(w.stage, OnboardingStage::AdviceStyle);
    assert_eq!(w.answer(" 3 "), OnboardingReply::Next);
    assert_eq!(w.answer("2"), OnboardingReply::Next);
    assert_eq!(w.stage, OnboardingStage::Complete);
    let p = w.profile;
    assert_eq!(p.goals, vec!["Save for a car".to_string(), "Pay off debt".to_string()]);
    assert_eq!(p.concerns, vec!["Reduce unnecessary spending".to_string()]);
    assert_eq!(p.advice_style, AdviceStyle::ActionItems);
    assert_eq!(p.tone, Tone::Direct);
    assert_eq!(p.version, "1.0");
}

#[test]
fn onboarding_defaults() {
    let mut w = Onboarding::new();
    assert_eq!(w.answer("done"), OnboardingReply::Next);
    assert_eq!(w.answer("Done"), OnboardingReply::Next);
    assert_eq!(w.answer(""), OnboardingReply::Next);
    assert_eq!(w.answer("1"), OnboardingReply::Next);
    assert_eq!(w.profile.goals, vec!["Track spending".to_string()]);
    assert_eq!(w.profile.advice_style, AdviceStyle::Summary);
    assert_eq!(w.profile.tone, Tone::Friendly);
}

#[test]
fn profile_update_replaces_or_keeps_goals() {
    let mut p = UserProfile::default_profile();
    assert!(!apply_goals_update(&mut p, "  SKIP \n"));
    assert_eq!(p.goals, vec!["Track spending".to_string()]);
    assert!(apply_goals_update(&mut p, " Save more , ,Travel,\n"));
    assert_eq!(p.goals, vec!["Save more".to_string(), "Travel".to_string()]);
    // Enter keeps the current value.
    assert!(!apply_goals_update(&mut p, "\n"));
    assert_eq!(p.goals, vec!["Save more".to_string(), "Travel".to_string()]);
    assert!(!apply_goals_update(&mut p, "   "));
    // A line of separators alone names no goal.
    assert!(apply_goals_update(&mut p, " , ,\n"));
    assert!(p.goals.is_empty());
}

// Goals

#[test]
fn standard_goals_are_the_four_agent_goals() {
    let g = standard_goals();
    let names: Vec<&str> = g.iter().map(|g| g.name.as_str()).collect();
    assert_eq!(names, vec!["answer_budget_questions", "explain_patterns", "personalize_responses", "ensure_accuracy"]);
    assert_eq!(g[3].priority, 100);
}

#[test]
fn merge_goals_sorts_by_priority_with_user_goals_last() {
    let mut p = UserProfile::default_profile();
    p.goals = vec!["Save".to_string(), "Invest".to_string()];
    let merged = merge_goals(standard_goals(), Some(&p));
    let names: Vec<&str> = merged.iter().map(|g| g.name.as_str()).collect();
    assert_eq!(
        names,
        vec!["ensure_accuracy", "answer_budget_questions", "explain_patterns", "personalize_responses", "user_goal_0", "user_goal_1"]
    );
    assert_eq!(merged[4].description, "Save");
    assert_eq!(merged[5].priority, USER_GOAL_PRIORITY);
    let alone = merge_goals(vec![Goal::new("a", "x", 1), Goal::new("b", "y", 5)], None);
    assert_eq!(alone[0].name, "b");
    assert_eq!(alone.len(), 2);
}

// System prompt

#[test]
fn system_prompt_with_and_without_profile() {
    let none = build_system_prompt(None, "[TOOLS]");
    assert!(none.starts_with("You are a helpful budget advisor."));
    assert!(none.contains("Your goal: Help users understand their budget and spending."));
    assert!(none.contains("AVAILABLE TOOLS:\n[TOOLS]\n\nTONE: Be helpful and friendly.\nSTYLE: Keep responses concise and informative."));
    let mut p = UserProfile::default_profile();
    p.goals = vec!["Save".to_string(), "Invest".to_string()];
    p.concerns = vec![];
    p.tone = Tone::Professional;
    p.advice_style = AdviceStyle::Detailed;
    let with = build_system_prompt(Some(&p), "[]");
    assert!(with.contains("Your goals: Save, Invest. Key concerns: Reduce unnecessary spending. \nIMPORTANT RULES:"));
    assert!(with.ends_with("STYLE: Provide thorough analysis. Include context, comparisons, and reasoning."));
    assert!(with.contains("TONE: Be formal and professional."));
}

// Tool registry

#[test]
fn registry_has_the_fifteen_tools_in_order() {
    let r = ToolRegistry::new();
    let names = r.names();
    assert_eq!(
        names,
        vec![
            "get_plans", "get_plan", "get_accounts", "get_categories", "get_payees",
            "search_payee_transactions", "get_transactions", "get_transactions_by_month",
            "get_month", "get_scheduled_transactions", "get_months", "get_plan_settings",
            "get_transactions_by_account", "get_transactions_by_category", "get_money_movements"
        ]
    );
    let defs = r.get_definitions();
    assert_eq!(defs.len(), 15);
    for readme_tool in ["get_transactions", "get_categories", "get_payees", "get_months", "get_accounts", "get_scheduled_transactions"] {
        assert!(r.contains(readme_tool));
    }
    match r.execute("get_transactions_by_category", r#"{"plan_id": "p", "category_id": "c9"}"#) {
        Ok(ToolRequest::GetTransactionsByCategory { plan_id, category_id }) => {
            assert_eq!(plan_id, "p");
            assert_eq!(category_id, "c9");
        }
        _ => panic!("expected a category request"),
    }
    assert_eq!(defs[0].parameters, "null");
    assert!(defs[5].description.starts_with("Search for transactions at a specific payee/store."));
    assert!(r.contains("get_month"));
    assert!(!r.contains("get_budget"));
}

#[test]
fn registry_execute_decides_the_request() {
    let r = ToolRegistry::new();
    match r.execute("get_transactions", r#"{"plan_id": "p1", "limit": 5, "since_date": "2026-01-01"}"#) {
        Ok(ToolRequest::GetTransactions { plan_id, since_date, limit }) => {
            assert_eq!(plan_id, "p1");
            assert_eq!(since_date.as_deref(), Some("2026-01-01"));
            assert_eq!(limit, Some(5));
        }
        _ => panic!("expected a transactions request"),
    }
    match r.execute("get_plan", "{}") {
        Ok(ToolRequest::GetPlan { plan_id }) => assert_eq!(plan_id, ""),
        _ => panic!("expected a plan request"),
    }
    match r.execute("search_payee_transactions", r#"{"plan_id": 3, "payee_search": "Apple"}"#) {
        Ok(req) => {
            assert_eq!(req.tool_name(), "search_payee_transactions");
            match req {
                ToolRequest::SearchPayeeTransactions { plan_id, payee_search } => {
                    assert_eq!(plan_id, "");
                    assert_eq!(payee_search, "Apple");
                }
                _ => panic!("expected a search"),
            }
        }
        _ => panic!("expected a search"),
    }
    match r.execute("nope", "{}") {
        Err(res) => {
            assert_eq!(res.tool, "nope");
            assert!(!res.success);
            assert_eq!(res.error.as_deref(), Some("Unknown tool: nope"));
        }
        _ => panic!("expected an error"),
    }
}

#[test]
fn tool_result_constructors() {
    let ok = ToolResult::success("get_plans", Some("[]".to_string()));
    assert!(ok.success);
    assert_eq!(ok.data.as_deref(), Some("[]"));
    assert_eq!(ok.error, None);
    let err = ToolResult::error("get_plans", "Network error: x");
    assert!(!err.success);
    assert_eq!(err.data, None);
    assert_eq!(err.error.as_deref(), Some("Network error: x"));
}

// Command line

#[test]
fn env_assignments_parse_lines() {
    let text = "# comment\nYNAB_ACCESS_TOKEN = abc=def \r\n\n  OLLAMA_MODEL=llama3.2\nNOEQUALS\n  #X=1\n=empty";
    let pairs = env_assignments(text);
    assert_eq!(
        pairs,
        vec![
            ("YNAB_ACCESS_TOKEN".to_string(), "abc=def".to_string()),
            ("OLLAMA_MODEL".to_string(), "llama3.2".to_string()),
            ("".to_string(), "empty".to_string()),
        ]
    );
    assert!(env_assignments("").is_empty());
}

#[test]
fn chat_input_ends_on_blank_or_exit() {
    assert_eq!(chat_input("  how much?  \n").as_deref(), Some("how much?"));
    assert_eq!(chat_input("   \n"), None);
    assert_eq!(chat_input(" EXIT\n"), None);
    assert_eq!(chat_input("exit now").as_deref(), Some("exit now"));
}

#[test]
fn plan_line_shows_name_and_id() {
    let plan = Plan { id: "abc-123".to_string(), name: "Home".to_string() };
    assert_eq!(plan_line(&plan), "  Home - abc-123");
}

#[test]
fn config_default_values() {
    let c = Config::default();
    assert_eq!(c.default_plan_id, None);
    assert_eq!(c.currency_symbol, "$");
    assert!(c.last_updated.len() >= 25);
    assert!(c.last_updated.ends_with("+00:00"));
}

// Ollama replies

#[test]
fn ollama_chat_url_and_replies() {
    assert_eq!(chat_url(DEFAULT_BASE_URL), "http://localhost:11434/api/chat");
    assert!(matches!(model_reply(String::new(), None), Err(LLMError::EmptyResponse)));
    match model_reply(String::new(), Some(vec![ToolCall { name: "get_plans".to_string(), arguments: "{}".to_string() }])) {
        Ok(LLMResponse { content, tool_calls: Some(calls) }) => {
            assert_eq!(content, "");
            assert_eq!(calls.len(), 1);
            assert!(LLMResponse { content, tool_calls: Some(calls) }.has_tool_calls());
        }
        _ => panic!("expected a response"),
    }
    match model_reply("hi".to_string(), None) {
        Ok(r) => {
            assert_eq!(r.content, "hi");
            assert!(!r.has_tool_calls());
        }
        _ => panic!("expected a response"),
    }
}

#[test]
fn llm_error_messages() {
    assert_eq!(LLMError::Api("500: x".to_string()).message(), "API error: 500: x");
    assert_eq!(LLMError::Parse("bad".to_string()).message(), "Parse error: bad");
}

#[test]
fn every_request_answers_to_its_tool() {
    let r = ToolRegistry::new();
    for name in r.names() {
        match r.execute(&name, r#"{"plan_id": "p", "month": "2026-04-01"}"#) {
            Ok(req) => assert_eq!(req.tool_name(), name),
            Err(_) => panic!("a registered tool must make a request"),
        }
    }
}
