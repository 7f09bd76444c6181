//! The tool-calling agent's decisions.
//!
//! The agent asks the language model, runs the tools the model calls (given
//! natively, or written as JSON in the reply text), records everything in the
//! conversation memory, and stops when the model answers in plain text or the
//! iteration limit is reached. Asking the model and running tools are the
//! program's work; `AgentRun` decides, event by event, what happens next.

use vstd::prelude::*;
use vstd::string::StringExecFns;
use crate::ai::{LLMError, LLMResponse, Message, ToolCall, has_calls, llm_error_text};
use crate::json::{json_member, json_parses, json_lookup, json_text_valid};
use crate::text::{
    contains_chars, contains_seq, count_braces, count_where, from_chars, is_brace, opt_view, own,
    starts_with_char, ends_with_char, to_chars, trim, trim_chars, str_eq, utf8_size, utf8_size_of,
    decimal, push_decimal,
};
use crate::tools::{ToolRegistry, ToolResult, ToolView, ToolKind, lookup};

verus! {

// ============================================================================
// Parse errors
// ============================================================================

/// Parse error with actionable feedback.
#[derive(Debug, Clone)]
pub enum ParseError {
    /// No JSON found in response
    NoJsonFound,
    /// JSON was malformed
    MalformedJson(String),
    /// Missing required field
    MissingField(String),
    /// Unknown tool name
    UnknownTool(String),
    /// Tool execution failed
    ToolExecutionFailed(String),
}

pub const NO_JSON_HINT: &'static str = "Your response must include a JSON tool call in this format: {\"name\": \"tool_name\", \"arguments\": {}}";

pub const AVAILABLE_TOOLS_LIST: &'static str = "'. Available tools: get_plans, get_plan, get_accounts, get_categories, get_payees, get_transactions, get_transactions_by_month, get_month, get_scheduled_transactions, search_payee_transactions, get_months, get_plan_settings, get_transactions_by_account, get_transactions_by_category, get_money_movements";

/// The retry hint for a parse error.
pub open spec fn hint_text(e: ParseError) -> Seq<char> {
    match e {
        ParseError::NoJsonFound => NO_JSON_HINT@,
        ParseError::MalformedJson(d) => "Invalid JSON format: "@ + d@
            + ". Make sure to use valid JSON with double quotes."@,
        ParseError::MissingField(f) => "Missing required field '"@ + f@
            + "'. Include both 'name' and 'arguments' fields."@,
        ParseError::UnknownTool(n) => "Unknown tool '"@ + n@ + AVAILABLE_TOOLS_LIST@,
        ParseError::ToolExecutionFailed(d) => "Tool execution failed: "@ + d@,
    }
}

fn around(a: &str, m: &String, b: &str) -> (r: String)
    ensures
        r@ == a@ + m@ + b@,
{
    let mut r = own(a);
    r.append(m.as_str());
    r.append(b);
    r
}

impl ParseError {
    /// Convert to user-friendly hint for retry.
    pub fn to_hint(&self) -> (r: String)
        ensures
            r@ == hint_text(*self),
    {
        match self {
            ParseError::NoJsonFound => own(NO_JSON_HINT),
            ParseError::MalformedJson(d) => around(
                "Invalid JSON format: ",
                d,
                ". Make sure to use valid JSON with double quotes.",
            ),
            ParseError::MissingField(f) => around(
                "Missing required field '",
                f,
                "'. Include both 'name' and 'arguments' fields.",
            ),
            ParseError::UnknownTool(n) => around("Unknown tool '", n, AVAILABLE_TOOLS_LIST),
            ParseError::ToolExecutionFailed(d) => {
                let r = around("Tool execution failed: ", d, "");
                proof {
                    reveal_strlit("");
                }
                assert(r@ =~= "Tool execution failed: "@ + d@);
                r
            },
        }
    }
}

// ============================================================================
// Conversation memory
// ============================================================================

/// A message as plain values.
pub struct MessageView {
    pub role: Seq<char>,
    pub content: Seq<char>,
}

/// The message with this role and content.
pub open spec fn msg(role: Seq<char>, content: Seq<char>) -> MessageView {
    MessageView { role, content }
}

/// The messages as plain values.
pub open spec fn message_views(s: Seq<Message>) -> Seq<MessageView> {
    s.map_values(|m: Message| msg(m.role@, m.content@))
}

/// The message recording a tool's result.
pub open spec fn tool_result_msg(tool: Seq<char>, result: Seq<char>) -> MessageView {
    msg("user"@, "Tool result for "@ + tool + ":\n"@ + result)
}

/// The message carrying a parse error hint.
pub open spec fn hint_msg(hint: Seq<char>) -> MessageView {
    msg("user"@, "Parse error: "@ + hint + "\n\nPlease respond with a valid tool call JSON."@)
}

/// A call that changes a conversation memory after `init`, with its
/// arguments as plain values.
pub enum MemoryCall {
    AssistantResponse(Seq<char>),
    ToolResult(Seq<char>, Seq<char>),
    ParseErrorHint(Seq<char>),
    IncrementTurn,
}

/// A memory as plain values: its messages and its number of turns.
pub open spec fn memory_state(m: ConversationMemory) -> (Seq<MessageView>, int) {
    (m.history(), m.turn_total() as int)
}

/// The memory after one call: `add_assistant_response`, `add_tool_result`
/// and `add_parse_error_hint` append their message, `increment_turn` counts
/// one turn more.
pub open spec fn after_call(state: (Seq<MessageView>, int), c: MemoryCall) -> (Seq<MessageView>, int) {
    match c {
        MemoryCall::AssistantResponse(t) => (state.0.push(msg("assistant"@, t)), state.1),
        MemoryCall::ToolResult(name, result) => (state.0.push(tool_result_msg(name, result)), state.1),
        MemoryCall::ParseErrorHint(hint) => (state.0.push(hint_msg(hint)), state.1),
        MemoryCall::IncrementTurn => (state.0, state.1 + 1),
    }
}

/// The memory after the calls, in order.
pub open spec fn after_calls(state: (Seq<MessageView>, int), calls: Seq<MemoryCall>) -> (
    Seq<MessageView>,
    int,
)
    decreases calls.len(),
{
    if calls.len() == 0 {
        state
    } else {
        after_call(after_calls(state, calls.drop_last()), calls.last())
    }
}

/// How many of the calls add a message.
pub open spec fn messages_added(calls: Seq<MemoryCall>) -> nat
    decreases calls.len(),
{
    if calls.len() == 0 {
        0
    } else {
        messages_added(calls.drop_last()) + if calls.last() is IncrementTurn {
            0nat
        } else {
            1nat
        }
    }
}

/// How many of the calls are `increment_turn`.
pub open spec fn turns_added(calls: Seq<MemoryCall>) -> nat
    decreases calls.len(),
{
    if calls.len() == 0 {
        0
    } else {
        turns_added(calls.drop_last()) + if calls.last() is IncrementTurn {
            1nat
        } else {
            0nat
        }
    }
}

proof fn lemma_after_calls(state: (Seq<MessageView>, int), calls: Seq<MemoryCall>)
    ensures
        state.0.is_prefix_of(after_calls(state, calls).0),
        after_calls(state, calls).0.len() == state.0.len() + messages_added(calls),
        after_calls(state, calls).1 == state.1 + turns_added(calls),
    decreases calls.len(),
{
    if calls.len() > 0 {
        lemma_after_calls(state, calls.drop_last());
    }
}

/// A memory made by `new` and `init(system_prompt, user_message)`, after any
/// further calls: it starts with the system prompt and the user's message,
/// holds one more message per `add_*` call, and counts one turn per
/// `increment_turn`. (`get_messages` and `turn_count` read it and change
/// nothing.)
pub proof fn law_memory_after_calls(system_prompt: Seq<char>, user_message: Seq<char>, calls: Seq<MemoryCall>)
    ensures
        ({
            let start = seq![msg("system"@, system_prompt), msg("user"@, user_message)];
            let (h, n) = after_calls((start, 0), calls);
            &&& h.len() == 2 + messages_added(calls)
            &&& h[0] == msg("system"@, system_prompt)
            &&& h[1] == msg("user"@, user_message)
            &&& n == turns_added(calls)
        }),
{
    let start = seq![msg("system"@, system_prompt), msg("user"@, user_message)];
    lemma_after_calls((start, 0), calls);
    let h = after_calls((start, 0), calls).0;
    assert(h[0] == start[0] && h[1] == start[1]);
}

/// Conversation memory for tracking history.
#[derive(Debug, Clone)]
pub struct ConversationMemory {
    /// Number of tool-call turns in this conversation.
    pub turns: u32,
    /// Full message history for context.
    history: Vec<Message>,
}

impl ConversationMemory {
    /// The message history, as plain values.
    pub closed spec fn history(&self) -> Seq<MessageView> {
        message_views(self.history@)
    }

    /// The number of tool-call turns.
    pub closed spec fn turn_total(&self) -> u32 {
        self.turns
    }

    /// An empty memory with no turns.
    pub fn new() -> (r: Self)
        ensures
            r.turn_total() == 0,
            r.history() == Seq::<MessageView>::empty(),
    {
        let r = ConversationMemory { turns: 0, history: Vec::new() };
        assert(r.history() =~= Seq::<MessageView>::empty());
        r
    }

    fn push(&mut self, role: &str, content: String)
        ensures
            final(self).turn_total() == old(self).turn_total(),
            final(self).history() == old(self).history().push(msg(role@, content@)),
    {
        let ghost before = self.history@;
        self.history.push(Message { role: own(role), content });
        assert(message_views(self.history@) =~= message_views(before).push(msg(role@, content@)));
    }

    /// Add initial system prompt and user message.
    pub fn init(&mut self, system_prompt: &str, user_message: &str)
        ensures
            final(self).turn_total() == old(self).turn_total(),
            final(self).history() == old(self).history().push(msg("system"@, system_prompt@)).push(
                msg("user"@, user_message@),
            ),
    {
        self.push("system", own(system_prompt));
        self.push("user", own(user_message));
    }

    /// Add assistant's response to history.
    pub fn add_assistant_response(&mut self, content: &str)
        ensures
            final(self).turn_total() == old(self).turn_total(),
            final(self).history() == old(self).history().push(msg("assistant"@, content@)),
            memory_state(*final(self)) == after_call(
                memory_state(*old(self)),
                MemoryCall::AssistantResponse(content@),
            ),
    {
        self.push("assistant", own(content));
    }

    /// Add user's (tool result) response to history.
    pub fn add_tool_result(&mut self, tool_name: &str, result: &str)
        ensures
            final(self).turn_total() == old(self).turn_total(),
            final(self).history() == old(self).history().push(tool_result_msg(tool_name@, result@)),
            memory_state(*final(self)) == after_call(
                memory_state(*old(self)),
                MemoryCall::ToolResult(tool_name@, result@),
            ),
    {
        let mut c = own("Tool result for ");
        c.append(tool_name);
        c.append(":\n");
        c.append(result);
        self.push("user", c);
    }

    /// Add a parse error hint as a user message.
    pub fn add_parse_error_hint(&mut self, hint: &str)
        ensures
            final(self).turn_total() == old(self).turn_total(),
            final(self).history() == old(self).history().push(hint_msg(hint@)),
            memory_state(*final(self)) == after_call(
                memory_state(*old(self)),
                MemoryCall::ParseErrorHint(hint@),
            ),
    {
        let mut c = own("Parse error: ");
        c.append(hint);
        c.append("\n\nPlease respond with a valid tool call JSON.");
        self.push("user", c);
    }

    /// Get current message history for LLM.
    pub fn get_messages(&self) -> (r: &[Message])
        ensures
            message_views(r@) == self.history(),
    {
        self.history.as_slice()
    }

    /// Increment turn counter after successful tool execution.
    pub fn increment_turn(&mut self)
        requires
            old(self).turn_total() < u32::MAX,
        ensures
            final(self).turn_total() == old(self).turn_total() + 1,
            final(self).history() == old(self).history(),
            memory_state(*final(self)) == after_call(memory_state(*old(self)), MemoryCall::IncrementTurn),
    {
        self.turns = self.turns + 1;
    }

    /// Get current turn count.
    pub fn turn_count(&self) -> (r: u32)
        ensures
            r == self.turn_total(),
    {
        self.turns
    }
}

impl Default for ConversationMemory {
    fn default() -> (r: Self)
        ensures
            r.turn_total() == 0,
            r.history() == Seq::<MessageView>::empty(),
    {
        Self::new()
    }
}

// ============================================================================
// Progress names
// ============================================================================

/// The human-friendly description of what a tool does.
pub open spec fn friendly_name(tool_name: Seq<char>) -> Seq<char> {
    if tool_name == "get_plans"@ {
        "Fetching budget plans"@
    } else if tool_name == "get_plan"@ {
        "Fetching budget plan details"@
    } else if tool_name == "get_accounts"@ {
        "Fetching accounts"@
    } else if tool_name == "get_categories"@ {
        "Fetching categories"@
    } else if tool_name == "get_payees"@ {
        "Fetching payees"@
    } else if tool_name == "get_transactions"@ {
        "Fetching all transactions"@
    } else if tool_name == "get_transactions_by_month"@ {
        "Fetching month transactions"@
    } else if tool_name == "get_month"@ {
        "Fetching month summary"@
    } else if tool_name == "get_scheduled_transactions"@ {
        "Fetching scheduled transactions"@
    } else if tool_name == "search_payee_transactions"@ {
        "Searching transactions"@
    } else {
        "Running tool"@
    }
}

/// Map technical tool names to human-friendly names.
pub fn friendly_tool_name(tool_name: &str) -> (r: &'static str)
    ensures
        r@ == friendly_name(tool_name@),
{
    if str_eq(tool_name, "get_plans") {
        "Fetching budget plans"
    } else if str_eq(tool_name, "get_plan") {
        "Fetching budget plan details"
    } else if str_eq(tool_name, "get_accounts") {
        "Fetching accounts"
    } else if str_eq(tool_name, "get_categories") {
        "Fetching categories"
    } else if str_eq(tool_name, "get_payees") {
        "Fetching payees"
    } else if str_eq(tool_name, "get_transactions") {
        "Fetching all transactions"
    } else if str_eq(tool_name, "get_transactions_by_month") {
        "Fetching month transactions"
    } else if str_eq(tool_name, "get_month") {
        "Fetching month summary"
    } else if str_eq(tool_name, "get_scheduled_transactions") {
        "Fetching scheduled transactions"
    } else if str_eq(tool_name, "search_payee_transactions") {
        "Searching transactions"
    } else {
        "Running tool"
    }
}

// ============================================================================
// Reading the model's reply
// ============================================================================

/// The text that the model is given for a tool's result: the data on
/// success (or `No data returned`), else `Error: ` and the error (or
/// `Unknown error`).
pub open spec fn formatted_result(r: ToolResult) -> Seq<char> {
    if r.success {
        match r.data {
            Some(d) => d@,
            None => "No data returned"@,
        }
    } else {
        match r.error {
            Some(e) => "Error: "@ + e@,
            None => "Unknown error"@,
        }
    }
}

/// Format a tool result for the LLM.
pub fn format_tool_result(result: &ToolResult) -> (r: String)
    ensures
        r@ == formatted_result(*result),
{
    if result.success {
        match &result.data {
            Some(d) => d.clone(),
            None => own("No data returned"),
        }
    } else {
        match &result.error {
            Some(e) => {
                let mut r = own("Error: ");
                r.append(e.as_str());
                r
            },
            None => own("Unknown error"),
        }
    }
}

/// Whether a reply is an answer in plain text rather than a tool call:
/// trimmed, it starts with neither `{` nor `[`, holds neither `{"name":` nor
/// `{"tool_name":`, and, when longer than 10 bytes, braces make up at most
/// 30% of its bytes.
pub open spec fn plain_answer(text: Seq<char>) -> bool {
    let t = trim(text);
    let braces = count_where(t, |c: char| is_brace(c));
    let total = utf8_size(t);
    &&& !(t.len() > 0 && (t[0] == '{' || t[0] == '['))
    &&& !contains_seq(t, "{\"name\":"@)
    &&& !contains_seq(t, "{\"tool_name\":"@)
    &&& !(total > 10 && 10 * braces > 3 * total)
}

/// A reply that holds a tool call is never taken as the final answer: for
/// any `x` and `y`, a reply whose trimmed text is `x`, then `{"tool_name":`
/// or `{"name":`, then `y` is no plain answer, nor is one whose trimmed text
/// starts with `{` or `[`.
pub proof fn law_tool_call_reply_is_no_answer(text: Seq<char>, x: Seq<char>, y: Seq<char>)
    ensures
        trim(text) == x + "{\"tool_name\":"@ + y ==> !plain_answer(text),
        trim(text) == x + "{\"name\":"@ + y ==> !plain_answer(text),
        trim(text).len() > 0 && (trim(text)[0] == '{' || trim(text)[0] == '[') ==> !plain_answer(
            text,
        ),
{
    let t = trim(text);
    let p1 = "{\"tool_name\":"@;
    let p2 = "{\"name\":"@;
    if t == x + p1 + y {
        assert(t.subrange(x.len() as int, (x.len() + p1.len()) as int) =~= p1);
        assert(crate::text::occurs_at(t, p1, x.len() as int));
    }
    if t == x + p2 + y {
        assert(t.subrange(x.len() as int, (x.len() + p2.len()) as int) =~= p2);
        assert(crate::text::occurs_at(t, p2, x.len() as int));
    }
}

/// Check if response contains a valid text response (not just a tool call).
pub fn contains_valid_response(text: &str) -> (r: bool)
    ensures
        r == plain_answer(text@),
{
    let chars = to_chars(text);
    let t = trim_chars(chars.as_slice());
    if starts_with_char(t.as_slice(), '{') || starts_with_char(t.as_slice(), '[') {
        return false;
    }
    let p1 = to_chars("{\"name\":");
    let p2 = to_chars("{\"tool_name\":");
    if contains_chars(t.as_slice(), p1.as_slice()) || contains_chars(t.as_slice(), p2.as_slice()) {
        return false;
    }
    let braces = count_braces(t.as_slice());
    let total = utf8_size_of(t.as_slice());
    assert(t@.len() == t.len() && t.len() <= usize::MAX);
    assert(total <= 4 * (usize::MAX as int));
    if total > 10 && (braces as u128) * 10 > total * 3 {
        return false;
    }
    true
}

/// The first of the lines `ls` that, trimmed, starts with `{`, ends with
/// `}` and is a JSON document; that trimmed line.
pub open spec fn first_json_line(ls: Seq<Seq<char>>) -> Option<Seq<char>>
    decreases ls.len(),
{
    if ls.len() == 0 {
        None
    } else {
        let t = trim(ls[0]);
        if t.len() > 0 && t[0] == '{' && t.last() == '}' && json_text_valid(t) {
            Some(t)
        } else {
            first_json_line(ls.drop_first())
        }
    }
}

/// Scanning the lines `ls` for a fenced JSON block: a line starting (trimmed)
/// with ```` ```json ```` opens a block (anew), a line that is (trimmed)
/// ```` ``` ```` closes an open block, and the lines in between, each with a
/// newline, make up its text. The first closed block whose text is a JSON
/// document is the result; `open` and `buf` are the scan's state.
pub open spec fn fenced_block(ls: Seq<Seq<char>>, open: bool, buf: Seq<char>) -> Option<Seq<char>>
    decreases ls.len(),
{
    if ls.len() == 0 {
        None
    } else {
        let line = ls[0];
        let t = trim(line);
        let rest = ls.drop_first();
        if "```json"@.is_prefix_of(t) {
            fenced_block(rest, true, Seq::empty())
        } else if t == "```"@ && open {
            if json_text_valid(buf) {
                Some(buf)
            } else {
                fenced_block(rest, false, Seq::empty())
            }
        } else if open {
            fenced_block(rest, true, buf + line + seq!['\n'])
        } else {
            fenced_block(rest, false, buf)
        }
    }
}

/// Opening braces minus closing braces in `s`.
pub open spec fn brace_depth(s: Seq<char>) -> int {
    count_where(s, |c: char| c == '{') - count_where(s, |c: char| c == '}')
}

/// The first `{` at `s` is closed by the `}` at `e`: the braces of
/// `text[s..=e]` balance, and those of no shorter span from `s` do.
pub open spec fn closes_at(text: Seq<char>, s: int, e: int) -> bool {
    &&& 0 <= s <= e < text.len()
    &&& brace_depth(text.subrange(s, e + 1)) == 0
    &&& forall|k: int| s <= k < e ==> brace_depth(#[trigger] text.subrange(s, k + 1)) != 0
}

/// The text from the first `{` to the `}` that closes it, when that text is
/// a JSON document.
pub open spec fn brace_block(text: Seq<char>) -> Option<Seq<char>> {
    let s = crate::text::find_char(text, '{') as int;
    if s < text.len() && exists|e: int| closes_at(text, s, e) {
        let e = choose|e: int| closes_at(text, s, e);
        let b = text.subrange(s, e + 1);
        if json_text_valid(b) {
            Some(b)
        } else {
            None
        }
    } else {
        None
    }
}

/// The JSON that a reply holds, looked for in this order: the whole text; a
/// line that is a JSON object; a fenced ```` ```json ```` block; the first
/// brace-balanced block.
pub open spec fn extracted_json(text: Seq<char>) -> Option<Seq<char>> {
    if json_text_valid(text) {
        Some(text)
    } else {
        match first_json_line(crate::text::lines(text)) {
            Some(t) => Some(t),
            None => match fenced_block(crate::text::lines(text), false, Seq::empty()) {
                Some(b) => Some(b),
                None => brace_block(text),
            },
        }
    }
}

proof fn lemma_first_json_line_valid(ls: Seq<Seq<char>>)
    ensures
        first_json_line(ls) matches Some(t) ==> json_text_valid(t),
    decreases ls.len(),
{
    if ls.len() > 0 {
        lemma_first_json_line_valid(ls.drop_first());
    }
}

proof fn lemma_fenced_block_valid(ls: Seq<Seq<char>>, open: bool, buf: Seq<char>)
    ensures
        fenced_block(ls, open, buf) matches Some(b) ==> json_text_valid(b),
    decreases ls.len(),
{
    if ls.len() > 0 {
        let line = ls[0];
        let rest = ls.drop_first();
        lemma_fenced_block_valid(rest, true, Seq::empty());
        lemma_fenced_block_valid(rest, false, Seq::empty());
        lemma_fenced_block_valid(rest, true, buf + line + seq!['\n']);
        lemma_fenced_block_valid(rest, false, buf);
    }
}

/// What `extract_json` finds is a JSON document, and extracting again from
/// it gives it back whole.
pub proof fn law_extracted_json_is_stable(text: Seq<char>)
    requires
        extracted_json(text) is Some,
    ensures
        json_text_valid(extracted_json(text)->0),
        extracted_json(extracted_json(text)->0) == extracted_json(text),
{
    lemma_first_json_line_valid(crate::text::lines(text));
    lemma_fenced_block_valid(crate::text::lines(text), false, Seq::empty());
}

proof fn lemma_closes_unique(text: Seq<char>, s: int, e: int)
    requires
        closes_at(text, s, e),
    ensures
        (choose|e2: int| closes_at(text, s, e2)) == e,
{
    let c = choose|e2: int| closes_at(text, s, e2);
    assert(closes_at(text, s, c));
    if c < e {
        assert(brace_depth(text.subrange(s, c + 1)) != 0);
    } else if c > e {
        assert(brace_depth(text.subrange(s, e + 1)) != 0);
    }
}

/// The first brace-balanced block of `chars`, if it is JSON.
fn scan_brace_block(chars: &[char]) -> (r: Option<String>)
    ensures
        match r {
            Some(b) => brace_block(chars@) == Some(b@),
            None => brace_block(chars@) is None,
        },
{
    let n = chars.len();
    let mut s: usize = 0;
    while s < n && chars[s] != '{'
        invariant
            s <= n,
            n == chars@.len(),
            forall|j: int| 0 <= j < s ==> chars@[j] != '{',
        decreases n - s,
    {
        s = s + 1;
    }
    proof {
        crate::text::lemma_find_char_at(chars@, '{', s as int);
    }
    if s == n {
        return None;
    }
    let ghost text = chars@;
    let mut depth: i128 = 0;
    let mut k: usize = s;
    assert(text.subrange(s as int, s as int) =~= Seq::<char>::empty());
    while k < n
        invariant
            s <= k <= n,
            n == text.len(),
            text == chars@,
            s < n,
            text[s as int] == '{',
            crate::text::find_char(text, '{') == s,
            depth == brace_depth(text.subrange(s as int, k as int)),
            -(k - s) <= depth <= k - s,
            k == s ==> depth == 0,
            k > s ==> depth >= 1,
            forall|j: int| s <= j < k ==> brace_depth(#[trigger] text.subrange(s as int, j + 1)) != 0,
        decreases n - k,
    {
        let c = chars[k];
        let ghost next = text.subrange(s as int, k + 1);
        assert(next.drop_last() == text.subrange(s as int, k as int));
        assert(next.last() == c);
        if c == '{' {
            depth = depth + 1;
            assert(brace_depth(next) == depth);
        } else if c == '}' {
            depth = depth - 1;
            assert(brace_depth(next) == depth);
            if depth == 0 {
                proof {
                    assert(closes_at(text, s as int, k as int));
                    lemma_closes_unique(text, s as int, k as int);
                }
                let block = crate::text::slice_range(chars, s, k + 1);
                let b = from_chars(block.as_slice());
                assert(b@ == text.subrange(s as int, k + 1));
                if json_parses(b.as_str()) {
                    return Some(b);
                } else {
                    return None;
                }
            }
        } else {
            assert(brace_depth(next) == depth);
        }
        k = k + 1;
    }
    proof {
        assert forall|e: int| !closes_at(text, s as int, e) by {
            if 0 <= s <= e < text.len() {
                assert(brace_depth(text.subrange(s as int, e + 1)) != 0);
            }
        }
    }
    None
}

/// Extract JSON from text, handling various formats: the whole text, a line
/// that is a JSON object, a fenced ```` ```json ```` block, or the first
/// brace-balanced block; each only when `serde_json` reads it as JSON.
pub fn extract_json(text: &str) -> (r: Option<String>)
    ensures
        opt_view(r) == extracted_json(text@),
        r matches Some(j) ==> json_text_valid(j@),
{
    if json_parses(text) {
        return Some(own(text));
    }
    let chars = to_chars(text);
    let ls = crate::text::lines_of(chars.as_slice());
    let ghost lv = ls@.map_values(|l: Vec<char>| l@);
    assert(lv == crate::text::lines(text@));
    let n = ls.len();
    // A line that is a JSON object.
    let mut i: usize = 0;
    assert(lv.skip(0) == lv);
    while i < n
        invariant
            i <= n,
            n == ls@.len(),
            lv == ls@.map_values(|l: Vec<char>| l@),
            lv == crate::text::lines(text@),
            !json_text_valid(text@),
            first_json_line(lv) == first_json_line(lv.skip(i as int)),
        decreases n - i,
    {
        assert(lv.skip(i as int)[0] == ls@[i as int]@);
        assert(lv.skip(i as int).drop_first() == lv.skip(i + 1));
        let t = trim_chars(ls[i].as_slice());
        if starts_with_char(t.as_slice(), '{') && ends_with_char(t.as_slice(), '}') {
            let ts = from_chars(t.as_slice());
            if json_parses(ts.as_str()) {
                return Some(ts);
            }
        }
        i = i + 1;
    }
    assert(lv.skip(n as int) =~= Seq::<Seq<char>>::empty());
    // A fenced block.
    let fence_open = to_chars("```json");
    let fence_close = to_chars("```");
    let mut open = false;
    let mut buf: Vec<char> = Vec::new();
    let mut i: usize = 0;
    assert(buf@ =~= Seq::<char>::empty());
    while i < n
        invariant
            i <= n,
            n == ls@.len(),
            lv == ls@.map_values(|l: Vec<char>| l@),
            fence_open@ == "```json"@,
            fence_close@ == "```"@,
            lv == crate::text::lines(text@),
            !json_text_valid(text@),
            first_json_line(lv) is None,
            fenced_block(lv, false, Seq::empty()) == fenced_block(lv.skip(i as int), open, buf@),
        decreases n - i,
    {
        assert(lv.skip(i as int)[0] == ls@[i as int]@);
        assert(lv.skip(i as int).drop_first() == lv.skip(i + 1));
        let line = &ls[i];
        let t = trim_chars(line.as_slice());
        if crate::text::starts_with_chars(t.as_slice(), fence_open.as_slice()) {
            open = true;
            buf = Vec::new();
            assert(buf@ =~= Seq::<char>::empty());
        } else {
            if crate::text::chars_eq(t.as_slice(), fence_close.as_slice()) && open {
                let bs = from_chars(buf.as_slice());
                if json_parses(bs.as_str()) {
                    return Some(bs);
                }
                open = false;
                buf = Vec::new();
                assert(buf@ =~= Seq::<char>::empty());
            } else if open {
                let ghost before = buf@;
                let mut j: usize = 0;
                let m = line.len();
                while j < m
                    invariant
                        j <= m,
                        m == line@.len(),
                        buf@ == before + line@.take(j as int),
                    decreases m - j,
                {
                    buf.push(line[j]);
                    assert(line@.take(j + 1) == line@.take(j as int).push(line@[j as int]));
                    j = j + 1;
                }
                buf.push('\n');
                assert(line@.take(m as int) == line@);
                assert(buf@ == before + line@ + seq!['\n']);
            }
        }
        i = i + 1;
    }
    assert(lv.skip(n as int) =~= Seq::<Seq<char>>::empty());
    // The first brace-balanced block.
    scan_brace_block(chars.as_slice())
}

// ============================================================================
// Tool calls written in the reply text
// ============================================================================

/// A tool call read from the text of a reply: the tool's name and its
/// arguments as JSON text.
#[derive(Debug, Clone)]
pub struct ParsedToolCall {
    pub name: String,
    pub arguments: String,
}

/// The tool name a JSON document gives: its `name` member or, when it has
/// none, its `tool_name` member, provided that member is a string.
pub open spec fn call_name(doc: Seq<char>) -> Option<Seq<char>> {
    match json_member(doc, "name"@) {
        Some(m) => m.text,
        None => match json_member(doc, "tool_name"@) {
            Some(m) => m.text,
            None => None,
        },
    }
}

/// The arguments a JSON document gives: its `arguments` member, or an empty
/// object.
pub open spec fn call_arguments(doc: Seq<char>) -> Seq<char> {
    match json_member(doc, "arguments"@) {
        Some(m) => m.json,
        None => "{}"@,
    }
}

/// The hint for a tool call that names no tool.
pub open spec fn missing_name_hint() -> Seq<char> {
    "Missing required field '"@ + "name/tool_name"@ + "'. Include both 'name' and 'arguments' fields."@
}

/// The hint for a tool call that names an unknown tool.
pub open spec fn unknown_tool_hint(name: Seq<char>) -> Seq<char> {
    "Unknown tool '"@ + name + AVAILABLE_TOOLS_LIST@
}

/// The tool call a reply's text makes with the registered tools `entries`
/// (its name and arguments), or the hint that tells the model what was wrong.
pub open spec fn parsed_call(text: Seq<char>, entries: Seq<(ToolView, ToolKind)>) -> Result<
    (Seq<char>, Seq<char>),
    Seq<char>,
> {
    match extracted_json(text) {
        None => Err(NO_JSON_HINT@),
        Some(doc) => match call_name(doc) {
            None => Err(missing_name_hint()),
            Some(n) => if lookup(entries, n) is Some {
                Ok((n, call_arguments(doc)))
            } else {
                Err(unknown_tool_hint(n))
            },
        },
    }
}

/// Parse a tool call from the LLM response text.
///
/// Looks for JSON in the format `{"name": "...", "arguments": {...}}` or
/// `{"tool_name": "...", "arguments": {...}}`, possibly wrapped in a markdown
/// code block or plain text, and checks that the tool is registered.
pub fn parse_tool_call(text: &str, registry: &ToolRegistry) -> (r: Result<ParsedToolCall, ParseError>)
    requires
        registry.wf(),
    ensures
        match extracted_json(text@) {
            None => r matches Err(ParseError::NoJsonFound),
            Some(doc) => match call_name(doc) {
                None => r matches Err(ParseError::MissingField(f)) && f@ == "name/tool_name"@,
                Some(n) => if lookup(registry.entries(), n) is Some {
                    r matches Ok(c) && c.name@ == n && c.arguments@ == call_arguments(doc)
                } else {
                    r matches Err(ParseError::UnknownTool(u)) && u@ == n
                },
            },
        },
        match r {
            Ok(c) => parsed_call(text@, registry.entries()) == Ok::<(Seq<char>, Seq<char>), Seq<char>>((c.name@, c.arguments@)),
            Err(e) => parsed_call(text@, registry.entries()) == Err::<(Seq<char>, Seq<char>), Seq<char>>(hint_text(e)),
        },
{
    let doc = match extract_json(text) {
        Some(d) => d,
        None => return Err(ParseError::NoJsonFound),
    };
    let name = match json_lookup(doc.as_str(), "name") {
        Some(m) => m.text,
        None => match json_lookup(doc.as_str(), "tool_name") {
            Some(m) => m.text,
            None => None,
        },
    };
    let name = match name {
        Some(n) => n,
        None => return Err(ParseError::MissingField(own("name/tool_name"))),
    };
    if !registry.contains(name.as_str()) {
        return Err(ParseError::UnknownTool(name));
    }
    let arguments = match json_lookup(doc.as_str(), "arguments") {
        Some(m) => m.json,
        None => own("{}"),
    };
    Ok(ParsedToolCall { name, arguments })
}

// ============================================================================
// Agent errors
// ============================================================================

/// Agent-level errors.
#[derive(Debug)]
pub enum AgentError {
    Llm(LLMError),
    MaxIterationsReached(u32),
}

/// The text of an agent error, as it is displayed.
pub open spec fn agent_error_text(e: AgentError) -> Seq<char> {
    match e {
        AgentError::Llm(l) => "LLM error: "@ + llm_error_text(l),
        AgentError::MaxIterationsReached(t) => "Max tool-calling iterations reached after "@
            + decimal(t as nat) + " turns"@,
    }
}

impl AgentError {
    /// The error's text, as it is displayed.
    pub fn message(&self) -> (r: String)
        ensures
            r@ == agent_error_text(*self),
    {
        match self {
            AgentError::Llm(e) => {
                let mut r = own("LLM error: ");
                let m = e.message();
                r.append(m.as_str());
                r
            },
            AgentError::MaxIterationsReached(t) => {
                let mut r = own("Max tool-calling iterations reached after ");
                push_decimal(&mut r, *t as u128);
                r.append(" turns");
                r
            },
        }
    }
}

/// An LLM error, as an agent error.
impl From<LLMError> for AgentError {
    fn from(e: LLMError) -> (r: Self) {
        AgentError::Llm(e)
    }
}

impl vstd::std_specs::convert::FromSpecImpl<LLMError> for AgentError {
    open spec fn obeys_from_spec() -> bool {
        true
    }

    open spec fn from_spec(v: LLMError) -> AgentError {
        AgentError::Llm(v)
    }
}

/// What building an agent still lacks: the tool registry is asked for first,
/// then the model; `None` when both are set.
pub fn missing_agent_part(has_registry: bool, has_llm: bool) -> (r: Option<&'static str>)
    ensures
        !has_registry ==> (r matches Some(m) && m@ == "registry is required"@),
        has_registry && !has_llm ==> (r matches Some(m) && m@ == "llm is required"@),
        has_registry && has_llm ==> r is None,
{
    if !has_registry {
        Some("registry is required")
    } else if !has_llm {
        Some("llm is required")
    } else {
        None
    }
}

// ============================================================================
// The agent loop's decisions
// ============================================================================

/// Where a run stands.
pub enum Phase {
    /// Waiting for the model's reply.
    AwaitModel,
    /// Running the native tool calls of a reply; `next` is the one running.
    NativeCalls { calls: Vec<ToolCall>, next: usize },
    /// Running the tool call written in a reply's text.
    TextCall { name: String },
    /// The run is over.
    Done,
}

/// What the program does next.
pub enum AgentAction {
    /// Send the conversation (`memory().get_messages()`) to the model.
    AskModel,
    /// Run the named tool with these arguments (JSON text), showing
    /// `progress` meanwhile.
    RunTool { name: String, arguments: String, progress: &'static str },
    /// The run is over, with this outcome.
    Finish(Result<String, AgentError>),
}

/// What happened since the last action.
pub enum AgentEvent {
    /// The model replied.
    ModelReplied(LLMResponse),
    /// Asking the model failed.
    ModelFailed(LLMError),
    /// The tool ran, with this result.
    ToolFinished(ToolResult),
}

/// One run of the agent: the conversation, the iteration limit, the number
/// of the current iteration (the number of times the model was asked) and
/// the phase.
pub struct AgentRun {
    memory: ConversationMemory,
    max_iterations: u32,
    iteration: u32,
    phase: Phase,
}

/// The action that runs a tool call with these name and arguments.
pub open spec fn runs_tool(action: AgentAction, name: Seq<char>, arguments: Seq<char>) -> bool {
    action matches AgentAction::RunTool { name: n, arguments: a, progress: p } && n@ == name
        && a@ == arguments && p@ == friendly_name(name)
}

impl AgentRun {
    /// The conversation so far.
    pub closed spec fn history(&self) -> Seq<MessageView> {
        self.memory.history()
    }

    /// The number of tools run.
    pub closed spec fn turns(&self) -> u32 {
        self.memory.turn_total()
    }

    /// The most times the model may be asked.
    pub closed spec fn max_iterations(&self) -> u32 {
        self.max_iterations
    }

    /// How many times the model has been asked.
    pub closed spec fn iteration(&self) -> u32 {
        self.iteration
    }

    /// Where the run stands.
    pub closed spec fn phase(&self) -> Phase {
        self.phase
    }

    /// Well-formed: the model is asked at most `max_iterations` times, and a
    /// run of native calls is at one of them.
    pub open spec fn wf(&self) -> bool {
        &&& self.iteration() <= self.max_iterations()
        &&& !(self.phase() is Done) ==> self.iteration() >= 1
        &&& self.phase() matches Phase::NativeCalls { calls, next } ==> next < calls@.len()
    }

    /// Whether `event` is one the run waits for.
    pub open spec fn accepts(&self, event: AgentEvent) -> bool {
        match self.phase() {
            Phase::AwaitModel => event is ModelReplied || event is ModelFailed,
            Phase::NativeCalls { .. } => event is ToolFinished,
            Phase::TextCall { .. } => event is ToolFinished,
            Phase::Done => false,
        }
    }

    /// After an iteration that began as iteration `before`: the model is
    /// asked again while iterations are left; otherwise the run ends with
    /// `MaxIterationsReached` and the number of turns.
    pub open spec fn moved_on(&self, before: u32, action: AgentAction) -> bool {
        if before < self.max_iterations() {
            &&& self.iteration() == before + 1
            &&& self.phase() is AwaitModel
            &&& action is AskModel
        } else {
            &&& self.iteration() == before
            &&& self.phase() is Done
            &&& action == AgentAction::Finish(Err(AgentError::MaxIterationsReached(self.turns())))
        }
    }

    /// After `start`: the iteration counts the model calls asked for (one
    /// or none), within the limit; ending at the limit means the limit was
    /// reached, with the number of turns.
    pub open spec fn started_counting(run: AgentRun, action: AgentAction) -> bool {
        &&& run.iteration() == (if action is AskModel { 1int } else { 0int })
        &&& run.iteration() <= run.max_iterations()
        &&& action matches AgentAction::Finish(Err(AgentError::MaxIterationsReached(k)))
            ==> run.iteration() == run.max_iterations() && k == run.turns()
    }

    /// Across a `step`: the limit stays, the iteration grows by one exactly
    /// when the model is asked again and stays within the limit, and ending
    /// at the limit means the limit was reached, with the number of turns.
    pub open spec fn counts_model_calls(before: AgentRun, after: AgentRun, action: AgentAction) -> bool {
        &&& after.max_iterations() == before.max_iterations()
        &&& after.iteration() == before.iteration() + (if action is AskModel { 1int } else { 0int })
        &&& after.iteration() <= after.max_iterations()
        &&& action matches AgentAction::Finish(Err(AgentError::MaxIterationsReached(k)))
            ==> after.iteration() == after.max_iterations() && k == after.turns()
    }

    /// Start a run: record the system prompt and the user's message in
    /// `memory`, then ask the model (unless no iteration is allowed).
    pub fn start(memory: ConversationMemory, max_iterations: u32, user_message: &str, system_prompt: &str) -> (r: (
        Self,
        AgentAction,
    ))
        ensures
            r.0.wf(),
            r.0.max_iterations() == max_iterations,
            r.0.history() == memory.history().push(msg("system"@, system_prompt@)).push(
                msg("user"@, user_message@),
            ),
            r.0.turns() == memory.turn_total(),
            r.0.moved_on(0, r.1),
            Self::started_counting(r.0, r.1),
    {
        let mut memory = memory;
        memory.init(system_prompt, user_message);
        let mut run = AgentRun { memory, max_iterations, iteration: 0, phase: Phase::AwaitModel };
        let action = run.next_iteration();
        (run, action)
    }

    /// End the current iteration: ask again, or stop at the limit.
    fn next_iteration(&mut self) -> (action: AgentAction)
        requires
            old(self).iteration() <= old(self).max_iterations(),
        ensures
            final(self).wf(),
            final(self).history() == old(self).history(),
            final(self).turns() == old(self).turns(),
            final(self).max_iterations() == old(self).max_iterations(),
            final(self).moved_on(old(self).iteration(), action),
    {
        if self.iteration < self.max_iterations {
            self.iteration = self.iteration + 1;
            self.phase = Phase::AwaitModel;
            AgentAction::AskModel
        } else {
            self.phase = Phase::Done;
            AgentAction::Finish(Err(AgentError::MaxIterationsReached(self.memory.turn_count())))
        }
    }

    /// Decide what happens after `event`: record in the conversation what
    /// the reply or the tool's result adds, and say what to do next.
    ///
    /// A reply with native tool calls runs them one by one; a failed one ends
    /// the iteration with an error hint. Otherwise a tool call written in the
    /// reply's text is run; failing that, a plain answer ends the run, and
    /// anything else ends the iteration with a hint. At the iteration limit
    /// the run ends with `MaxIterationsReached`.
    pub fn step(&mut self, registry: &ToolRegistry, event: AgentEvent) -> (action: AgentAction)
        requires
            old(self).wf(),
            old(self).accepts(event),
            registry.wf(),
            event is ToolFinished ==> old(self).turns() < u32::MAX,
        ensures
            final(self).wf(),
            final(self).max_iterations() == old(self).max_iterations(),
            old(self).history().is_prefix_of(final(self).history()),
            old(self).iteration() <= final(self).iteration(),
            action is AskModel ==> final(self).iteration() == old(self).iteration() + 1,
            Self::counts_model_calls(*old(self), *final(self), action),
            action is Finish <==> final(self).phase() is Done,
            action matches AgentAction::Finish(Ok(c)) ==> final(self).history().last() == msg(
                "assistant"@,
                c@,
            ) && plain_answer(c@),
            match event {
                AgentEvent::ModelFailed(e) => {
                    &&& final(self).history() == old(self).history()
                    &&& final(self).turns() == old(self).turns()
                    &&& final(self).phase() is Done
                    &&& action == AgentAction::Finish(Err(AgentError::Llm(e)))
                },
                AgentEvent::ModelReplied(resp) => {
                    &&& final(self).turns() == old(self).turns()
                    &&& if has_calls(resp) {
                        let calls = resp.tool_calls->0;
                        &&& final(self).history() == old(self).history()
                        &&& final(self).iteration() == old(self).iteration()
                        &&& final(self).phase() matches Phase::NativeCalls { calls: c, next }
                            && c@ == calls@ && next == 0
                        &&& runs_tool(action, calls@[0].name@, calls@[0].arguments@)
                    } else {
                        let content = resp.content@;
                        let with_reply = old(self).history().push(msg("assistant"@, content));
                        match parsed_call(content, registry.entries()) {
                            Ok((name, arguments)) => {
                                &&& final(self).history() == with_reply
                                &&& final(self).iteration() == old(self).iteration()
                                &&& final(self).phase() matches Phase::TextCall { name: n } && n@ == name
                                &&& runs_tool(action, name, arguments)
                            },
                            Err(hint) => if plain_answer(content) {
                                &&& final(self).history() == with_reply
                                &&& final(self).phase() is Done
                                &&& action matches AgentAction::Finish(Ok(c)) && c@ == content
                            } else {
                                &&& final(self).history() == with_reply.push(hint_msg(hint))
                                &&& final(self).moved_on(old(self).iteration(), action)
                            },
                        }
                    }
                },
                AgentEvent::ToolFinished(res) => {
                    let out = formatted_result(res);
                    &&& final(self).turns() == old(self).turns() + 1
                    &&& match old(self).phase() {
                        Phase::NativeCalls { calls, next } => {
                            let done = old(self).history().push(
                                tool_result_msg(calls@[next as int].name@, out),
                            );
                            if !res.success {
                                &&& final(self).history() == done.push(hint_msg(out))
                                &&& final(self).moved_on(old(self).iteration(), action)
                            } else if next + 1 < calls@.len() {
                                &&& final(self).history() == done
                                &&& final(self).iteration() == old(self).iteration()
                                &&& final(self).phase() matches Phase::NativeCalls { calls: c, next: k }
                                    && c@ == calls@ && k == next + 1
                                &&& runs_tool(action, calls@[next + 1].name@, calls@[next + 1].arguments@)
                            } else {
                                &&& final(self).history() == done
                                &&& final(self).moved_on(old(self).iteration(), action)
                            }
                        },
                        Phase::TextCall { name } => {
                            let done = old(self).history().push(tool_result_msg(name@, out));
                            &&& final(self).history() == (if res.success {
                                done
                            } else {
                                done.push(hint_msg(out))
                            })
                            &&& final(self).moved_on(old(self).iteration(), action)
                        },
                        _ => false,
                    }
                },
            },
    {
        let ghost h0 = self.history();
        match event {
            AgentEvent::ModelFailed(e) => {
                self.phase = Phase::Done;
                AgentAction::Finish(Err(AgentError::Llm(e)))
            },
            AgentEvent::ModelReplied(resp) => {
                let has = resp.has_tool_calls();
                let LLMResponse { content, tool_calls } = resp;
                if has {
                    let calls = match tool_calls {
                        Some(c) => c,
                        None => Vec::new(),
                    };
                    let name = calls[0].name.clone();
                    let arguments = calls[0].arguments.clone();
                    let progress = friendly_tool_name(name.as_str());
                    self.phase = Phase::NativeCalls { calls, next: 0 };
                    assert(h0.is_prefix_of(self.history()));
                    AgentAction::RunTool { name, arguments, progress }
                } else {
                    let parsed = parse_tool_call(content.as_str(), registry);
                    self.memory.add_assistant_response(content.as_str());
                    assert(h0.is_prefix_of(self.history()));
                    match parsed {
                        Ok(call) => {
                            let progress = friendly_tool_name(call.name.as_str());
                            let name = call.name.clone();
                            self.phase = Phase::TextCall { name };
                            AgentAction::RunTool { name: call.name, arguments: call.arguments, progress }
                        },
                        Err(pe) => {
                            if contains_valid_response(content.as_str()) {
                                self.phase = Phase::Done;
                                AgentAction::Finish(Ok(content))
                            } else {
                                let hint = pe.to_hint();
                                self.memory.add_parse_error_hint(hint.as_str());
                                assert(h0.is_prefix_of(self.history()));
                                self.next_iteration()
                            }
                        },
                    }
                }
            },
            AgentEvent::ToolFinished(res) => {
                let out = format_tool_result(&res);
                let mut phase = Phase::Done;
                std::mem::swap(&mut phase, &mut self.phase);
                match phase {
                    Phase::NativeCalls { calls, next } => {
                        assert(next < calls@.len());
                        self.memory.add_tool_result(calls[next].name.as_str(), out.as_str());
                        self.memory.increment_turn();
                        if !res.success {
                            self.memory.add_parse_error_hint(out.as_str());
                            assert(h0.is_prefix_of(self.history()));
                            self.next_iteration()
                        } else if calls.len() - next > 1 {
                            let name = calls[next + 1].name.clone();
                            let arguments = calls[next + 1].arguments.clone();
                            let progress = friendly_tool_name(name.as_str());
                            self.phase = Phase::NativeCalls { calls, next: next + 1 };
                            assert(h0.is_prefix_of(self.history()));
                            AgentAction::RunTool { name, arguments, progress }
                        } else {
                            assert(h0.is_prefix_of(self.history()));
                            self.next_iteration()
                        }
                    },
                    Phase::TextCall { name } => {
                        self.memory.add_tool_result(name.as_str(), out.as_str());
                        self.memory.increment_turn();
                        if !res.success {
                            self.memory.add_parse_error_hint(out.as_str());
                        }
                        assert(h0.is_prefix_of(self.history()));
                        self.next_iteration()
                    },
                    _ => {
                        proof {
                            assert(false);
                        }
                        AgentAction::AskModel
                    },
                }
            },
        }
    }

    /// The conversation so far.
    pub fn memory(&self) -> (r: &ConversationMemory)
        ensures
            r.history() == self.history(),
            r.turn_total() == self.turns(),
    {
        &self.memory
    }

    /// The conversation, at the end of the run.
    pub fn into_memory(self) -> (r: ConversationMemory)
        ensures
            r.history() == self.history(),
            r.turn_total() == self.turns(),
    {
        self.memory
    }
}

/// The number of actions that ask the model.
pub open spec fn model_calls(actions: Seq<AgentAction>) -> nat
    decreases actions.len(),
{
    if actions.len() == 0 {
        0
    } else {
        model_calls(actions.drop_last()) + if actions.last() is AskModel {
            1nat
        } else {
            0nat
        }
    }
}

proof fn lemma_model_calls_prefix(runs: Seq<AgentRun>, actions: Seq<AgentAction>, j: int)
    requires
        runs.len() == actions.len(),
        0 <= j < runs.len(),
        AgentRun::started_counting(runs[0], actions[0]),
        forall|i: int|
            0 < i < runs.len() ==> #[trigger] AgentRun::counts_model_calls(
                runs[i - 1],
                runs[i],
                actions[i],
            ),
    ensures
        model_calls(actions.take(j + 1)) == runs[j].iteration(),
        runs[j].max_iterations() == runs[0].max_iterations(),
        runs[j].iteration() <= runs[j].max_iterations(),
    decreases j,
{
    assert(actions.take(j + 1).last() == actions[j]);
    if j == 0 {
        assert(actions.take(1).drop_last() =~= Seq::<AgentAction>::empty());
        assert(model_calls(Seq::<AgentAction>::empty()) == 0);
    } else {
        lemma_model_calls_prefix(runs, actions, j - 1);
        assert(AgentRun::counts_model_calls(runs[j - 1], runs[j], actions[j]));
        assert(actions.take(j + 1).drop_last() =~= actions.take(j));
    }
}

/// A run asks the model at most `max_iterations` times, and ends with
/// `MaxIterationsReached` only after asking it exactly that many times, with
/// the number of turns taken; with a limit of 0 it ends so without asking.
/// `runs` and `actions` are the states and actions of a run: `start` gives
/// the first, and each `step` the next.
pub proof fn law_model_asked_at_most_max(runs: Seq<AgentRun>, actions: Seq<AgentAction>)
    requires
        runs.len() == actions.len(),
        runs.len() > 0,
        AgentRun::started_counting(runs[0], actions[0]),
        forall|i: int|
            0 < i < runs.len() ==> #[trigger] AgentRun::counts_model_calls(
                runs[i - 1],
                runs[i],
                actions[i],
            ),
    ensures
        model_calls(actions) == runs.last().iteration(),
        model_calls(actions) <= runs[0].max_iterations(),
        actions.last() matches AgentAction::Finish(Err(AgentError::MaxIterationsReached(k)))
            ==> model_calls(actions) == runs[0].max_iterations() && k == runs.last().turns(),
{
    let n = runs.len() - 1;
    lemma_model_calls_prefix(runs, actions, n);
    assert(actions.take(n + 1) =~= actions);
    if n > 0 {
        assert(AgentRun::counts_model_calls(runs[n - 1], runs[n], actions[n]));
    }
}

} // verus!
