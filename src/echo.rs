use vstd::prelude::*;

use crate::envelope::{is_text_output, text_output, ToolOutput};
use crate::router::{describes, unary_tool, ToolDescriptor, ToolKind};

verus! {

/// The tools of the echo group: `echo`, which hands its message back.
pub fn tool_list() -> (r: Vec<ToolDescriptor>)
    ensures
        r@.len() == 1,
        describes(r@[0], "echo"@, ToolKind::Echo, seq!["message"@]),
{
    let mut r: Vec<ToolDescriptor> = Vec::new();
    r.push(unary_tool("echo", "Echo the provided message back", "message", ToolKind::Echo));
    r
}

/// The outcome of `echo`: the message, unchanged.
pub fn echo_outcome(message: String) -> (out: ToolOutput)
    ensures
        is_text_output(out, message@),
{
    text_output(message)
}

} // verus!
