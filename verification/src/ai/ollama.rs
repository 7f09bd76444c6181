//! What the Ollama provider decides: where it sends a chat, and what a reply
//! amounts to. Sending the request is the program's work.

use vstd::prelude::*;
use vstd::string::StringExecFns;
use crate::ai::{LLMError, LLMResponse, ToolCall};
use crate::text::own;

verus! {

/// The Ollama server used when `OLLAMA_BASE_URL` is not set.
pub const DEFAULT_BASE_URL: &'static str = "http://localhost:11434";

/// The chat endpoint of the Ollama server at `base_url`.
pub fn chat_url(base_url: &str) -> (r: String)
    ensures
        r@ == base_url@ + "/api/chat"@,
{
    let mut r = own(base_url);
    r.append("/api/chat");
    r
}

/// The response that a reply message makes: its text and its tool calls, or
/// `EmptyResponse` when the text is empty and no tool calls came.
pub fn model_reply(content: String, tool_calls: Option<Vec<ToolCall>>) -> (r: Result<
    LLMResponse,
    LLMError,
>)
    ensures
        (content@.len() == 0 && tool_calls is None) ==> r matches Err(LLMError::EmptyResponse),
        !(content@.len() == 0 && tool_calls is None) ==> (r matches Ok(resp) && resp.content@
            == content@ && resp.tool_calls == tool_calls),
{
    if content.as_str().is_empty() && tool_calls.is_none() {
        return Err(LLMError::EmptyResponse);
    }
    Ok(LLMResponse { content, tool_calls })
}

} // verus!
