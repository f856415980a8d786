//! Values that a tool handler may return.
use crate::error::Result;
use crate::types::{IntoText, ToolResult};
use vstd::prelude::*;

verus! {

/// A value that becomes the result of a tool invocation.
pub trait ToolResultLike: Sized {
    /// The tool result this value stands for.
    fn into_tool_result(self) -> Result<ToolResult>;
}

impl ToolResultLike for ToolResult {
    /// A tool result stands for itself.
    fn into_tool_result(self) -> (r: Result<ToolResult>)
        ensures
            r == Ok::<ToolResult, crate::error::CopilotError>(self),
    {
        Ok(self)
    }
}

impl ToolResultLike for String {
    /// A string is a successful result with that text.
    fn into_tool_result(self) -> (r: Result<ToolResult>)
        ensures
            r matches Ok(t) && t.text_result_for_llm@ == self@ && t.result_type@ == "success"@
                && t.error is None,
    {
        Ok(ToolResult::success(self))
    }
}

impl<'a> ToolResultLike for &'a str {
    /// A string is a successful result with that text.
    fn into_tool_result(self) -> (r: Result<ToolResult>)
        ensures
            r matches Ok(t) && t.text_result_for_llm@ == self@ && t.result_type@ == "success"@
                && t.error is None,
    {
        Ok(ToolResult::success(self))
    }
}

} // verus!

verus! {

/// The error for tool arguments that do not decode into the tool's
/// parameter type.
pub fn argument_error(e: &serde_json::Error) -> (r: crate::error::CopilotError)
    ensures
        r matches crate::error::CopilotError::InvalidResponse(m)
            && "Failed to deserialize tool arguments: "@.len() <= m@.len() && m@.take(
            "Failed to deserialize tool arguments: "@.len() as int,
        ) == "Failed to deserialize tool arguments: "@,
{
    let mut m = String::from_str("Failed to deserialize tool arguments: ");
    let t = crate::error::serde_error_text(e);
    crate::text::push_str(&mut m, t.as_str());
    assert(m@.take("Failed to deserialize tool arguments: "@.len() as int)
        =~= "Failed to deserialize tool arguments: "@);
    crate::error::CopilotError::InvalidResponse(m)
}

} // verus!
