//! The language-model side: conversation messages, the system prompt, goals,
//! and the tool-calling agent.
//!
//! GAME framework: Goals (`goal`), Actions (the tool registry in `tools`),
//! Memory (the conversation memory in `agent`), Environment (`goal`).

pub mod goal;
pub mod agent;
pub mod ollama;

use vstd::prelude::*;
use vstd::string::StringExecFns;
use crate::profile::{AdviceStyle, Tone, UserProfile};
use crate::text::{join, own, seq_join, views};

verus! {

/// Message in a conversation.
#[derive(Debug, Clone)]
pub struct Message {
    pub role: String,
    pub content: String,
}

/// A tool call returned by the LLM (native format). The arguments are the
/// JSON text of the arguments object.
#[derive(Debug, Clone)]
pub struct ToolCall {
    /// Name of the tool to call.
    pub name: String,
    /// Arguments to pass to the tool, as JSON text.
    pub arguments: String,
}

/// LLM response with optional tool calls.
#[derive(Debug, Clone)]
pub struct LLMResponse {
    /// Text content from the LLM.
    pub content: String,
    /// Optional tool calls requested by the LLM.
    pub tool_calls: Option<Vec<ToolCall>>,
}

/// Whether a response carries at least one tool call.
pub open spec fn has_calls(r: LLMResponse) -> bool {
    match r.tool_calls {
        Some(c) => c@.len() > 0,
        None => false,
    }
}

impl LLMResponse {
    /// Check if response has tool calls.
    pub fn has_tool_calls(&self) -> (r: bool)
        ensures
            r == has_calls(*self),
    {
        match &self.tool_calls {
            Some(c) => c.len() > 0,
            None => false,
        }
    }
}

/// LLM Errors.
#[derive(Debug)]
pub enum LLMError {
    Network(String),
    Auth(String),
    Api(String),
    Parse(String),
    EmptyResponse,
}

/// The text of an LLM error, as it is displayed.
pub open spec fn llm_error_text(e: LLMError) -> Seq<char> {
    match e {
        LLMError::Network(m) => "Network error: "@ + m@,
        LLMError::Auth(m) => "Auth error: "@ + m@,
        LLMError::Api(m) => "API error: "@ + m@,
        LLMError::Parse(m) => "Parse error: "@ + m@,
        LLMError::EmptyResponse => "Empty response from LLM"@,
    }
}

fn prefixed(prefix: &str, m: &String) -> (r: String)
    ensures
        r@ == prefix@ + m@,
{
    let mut r = own(prefix);
    r.append(m.as_str());
    r
}

impl LLMError {
    /// The error's text, as it is displayed (`Network error: ...` etc.).
    pub fn message(&self) -> (r: String)
        ensures
            r@ == llm_error_text(*self),
    {
        match self {
            LLMError::Network(m) => prefixed("Network error: ", m),
            LLMError::Auth(m) => prefixed("Auth error: ", m),
            LLMError::Api(m) => prefixed("API error: ", m),
            LLMError::Parse(m) => prefixed("Parse error: ", m),
            LLMError::EmptyResponse => own("Empty response from LLM"),
        }
    }
}

// ============================================================================
// System prompt
// ============================================================================

pub const PROMPT_INTRO: &'static str = "You are a helpful budget advisor. Your role is to retrieve budget data using tools, then summarize it clearly based on what the user asks.\n\n";

pub const PROMPT_RULES: &'static str = "\nIMPORTANT RULES:\n1. ONLY use tools to GET data - do not make up or estimate numbers\n2. ONLY summarize what the tools return - no calculations beyond basic addition/averages\n3. Plain text only, NO markdown, NO tables\n4. Use dollars like \"$1,234.56\"\n\nWORKFLOW:\n1. Call get_plans to find the plan ID\n2. Call the appropriate tool to fetch the data (search_payee_transactions, get_transactions, get_month, etc.)\n3. Summarize the data in the style requested by the user\n\nAVAILABLE TOOLS:\n";

pub const PROMPT_TONE: &'static str = "\n\nTONE: ";

pub const PROMPT_STYLE: &'static str = "\nSTYLE: ";

pub const NO_PROFILE_GOAL: &'static str = "Your goal: Help users understand their budget and spending.";

pub const FALLBACK_GOALS: &'static str = "Track spending and understand spending patterns";

pub const FALLBACK_CONCERNS: &'static str = "Reduce unnecessary spending";

pub const NO_PROFILE_TONE: &'static str = "Be helpful and friendly.";

pub const NO_PROFILE_STYLE: &'static str = "Keep responses concise and informative.";

/// The instruction for a tone.
pub open spec fn tone_instruction(t: Tone) -> Seq<char> {
    match t {
        Tone::Friendly => "Be warm, encouraging, and supportive. Use phrases like 'Great job!' or 'You've got this!'"@,
        Tone::Direct => "Be direct and to the point. State facts without extra fluff."@,
        Tone::Professional => "Be formal and professional. Use clear, business-like language."@,
    }
}

/// The instruction for an advice style.
pub open spec fn style_instruction(s: AdviceStyle) -> Seq<char> {
    match s {
        AdviceStyle::Summary => "Keep responses SHORT. 1-3 sentences max. Just give the key number or finding."@,
        AdviceStyle::Detailed => "Provide thorough analysis. Include context, comparisons, and reasoning."@,
        AdviceStyle::ActionItems => "Focus on specific next steps. Use bullet points or numbered lists of actions."@,
    }
}

/// A list joined with `, `, or `fallback` when it is empty.
pub open spec fn listed_or(items: Seq<Seq<char>>, fallback: Seq<char>) -> Seq<char> {
    if items.len() == 0 {
        fallback
    } else {
        seq_join(items, ", "@)
    }
}

/// The goals section of the prompt.
pub open spec fn goals_section(profile: Option<UserProfile>) -> Seq<char> {
    match profile {
        Some(p) => "Your goals: "@ + listed_or(views(p.goals@), FALLBACK_GOALS@) + ". "@,
        None => NO_PROFILE_GOAL@,
    }
}

/// The concerns section of the prompt (empty without a profile).
pub open spec fn concerns_section(profile: Option<UserProfile>) -> Seq<char> {
    match profile {
        Some(p) => "Key concerns: "@ + listed_or(views(p.concerns@), FALLBACK_CONCERNS@) + ". "@,
        None => Seq::empty(),
    }
}

/// The system prompt for a profile (or none) and the tools' JSON text.
pub open spec fn system_prompt(profile: Option<UserProfile>, tools_json: Seq<char>) -> Seq<char> {
    let (tone, style) = match profile {
        Some(p) => (tone_instruction(p.tone), style_instruction(p.advice_style)),
        None => (NO_PROFILE_TONE@, NO_PROFILE_STYLE@),
    };
    PROMPT_INTRO@ + goals_section(profile) + concerns_section(profile) + PROMPT_RULES@ + tools_json
        + PROMPT_TONE@ + tone + PROMPT_STYLE@ + style
}

fn tone_text(t: Tone) -> (r: &'static str)
    ensures
        r@ == tone_instruction(t),
{
    match t {
        Tone::Friendly => "Be warm, encouraging, and supportive. Use phrases like 'Great job!' or 'You've got this!'",
        Tone::Direct => "Be direct and to the point. State facts without extra fluff.",
        Tone::Professional => "Be formal and professional. Use clear, business-like language.",
    }
}

fn style_text(s: AdviceStyle) -> (r: &'static str)
    ensures
        r@ == style_instruction(s),
{
    match s {
        AdviceStyle::Summary => "Keep responses SHORT. 1-3 sentences max. Just give the key number or finding.",
        AdviceStyle::Detailed => "Provide thorough analysis. Include context, comparisons, and reasoning.",
        AdviceStyle::ActionItems => "Focus on specific next steps. Use bullet points or numbered lists of actions.",
    }
}

/// `label`, the items joined with `, ` (or `fallback` when there are none),
/// then `. `.
fn listed_section(label: &str, items: &Vec<String>, fallback: &str) -> (r: String)
    ensures
        r@ == label@ + listed_or(views(items@), fallback@) + ". "@,
{
    let mut r = own(label);
    if items.len() == 0 {
        r.append(fallback);
    } else {
        let joined = join(items.as_slice(), ", ");
        r.append(joined.as_str());
    }
    r.append(". ");
    r
}

/// Build system prompt based on user profile and available tools.
///
/// The prompt states the advisor's role, the user's goals and concerns (or a
/// general goal without a profile), the rules and workflow, the tools' JSON,
/// and the tone and style to use.
pub fn build_system_prompt(profile: Option<&UserProfile>, tools_json: &str) -> (r: String)
    ensures
        r@ == system_prompt(
            match profile {
                Some(p) => Some(*p),
                None => None,
            },
            tools_json@,
        ),
{
    let mut r = own(PROMPT_INTRO);
    let (tone, style): (&str, &str) = match profile {
        Some(p) => {
            let g = listed_section("Your goals: ", &p.goals, FALLBACK_GOALS);
            let c = listed_section("Key concerns: ", &p.concerns, FALLBACK_CONCERNS);
            r.append(g.as_str());
            r.append(c.as_str());
            (tone_text(p.tone), style_text(p.advice_style))
        },
        None => {
            r.append(NO_PROFILE_GOAL);
            proof {
                reveal_strlit("");
            }
            (NO_PROFILE_TONE, NO_PROFILE_STYLE)
        },
    };
    r.append(PROMPT_RULES);
    r.append(tools_json);
    r.append(PROMPT_TONE);
    r.append(tone);
    r.append(PROMPT_STYLE);
    r.append(style);
    proof {
        let pv = match profile {
            Some(p) => Some(*p),
            None => None::<UserProfile>,
        };
        if pv is None {
            assert(concerns_section(pv) =~= Seq::<char>::empty());
            assert(PROMPT_INTRO@ + goals_section(pv) + concerns_section(pv) =~= PROMPT_INTRO@
                + goals_section(pv));
        }
        assert(r@ =~= system_prompt(pv, tools_json@));
    }
    r
}

} // verus!
